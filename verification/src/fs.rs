//! File syscalls: open, read, write, close, seek, stat and descriptor
//! control.
//!
//! Each handler validates its arguments and consults the descriptor table;
//! the actual host file I/O is the embedder's step ([`Step::File`],
//! [`Step::OpenPath`]) and its outcome is encoded back into the ABI result
//! by the matching `finish_*` / `resume_*` function here.

use vstd::prelude::*;
use vstd::utf8::{decode_utf8, valid_utf8};

use crate::errno::SysError;
use crate::fd_table::{
    add_file, fd_live, get_fd_flags, get_file_flags, insert_model, lowest_free, set_fd_flags,
    set_file_flags, FdTable, FileEntry,
};
use crate::step::{FileOp, SeekFrom, Step, StrCont, UserPayload};
use crate::uaccess::{cstr_nul, load_cstring};
use crate::ENOSYS;

verus! {

/// The only accepted base-directory token: the current directory.
pub const AT_FDCWD: isize = -100;

/// Open-flag: read-only access (the low two bits select the access mode).
pub const O_RDONLY: u32 = 0;

/// Open-flag: write-only access.
pub const O_WRONLY: u32 = 1;

/// Open-flag: read-write access.
pub const O_RDWR: u32 = 2;

/// Open-flag: create the file if it does not exist.
pub const O_CREAT: u32 = 0o100;

/// Open-flag: truncate the file to zero length.
pub const O_TRUNC: u32 = 0o1000;

/// Open-flag: append on each write.
pub const O_APPEND: u32 = 0o2000;

/// File-mode bit marking a regular file.
pub const S_IFREG: u32 = 0o100000;

/// `fcntl` sub-command: duplicate the descriptor.
pub const F_DUPFD: i32 = 0;

/// `fcntl` sub-command: get per-descriptor flags.
pub const F_GETFD: i32 = 1;

/// `fcntl` sub-command: set per-descriptor flags.
pub const F_SETFD: i32 = 2;

/// `fcntl` sub-command: get file status flags.
pub const F_GETFL: i32 = 3;

/// `fcntl` sub-command: set file status flags.
pub const F_SETFL: i32 = 4;

/// How a file is to be opened, decoded from the raw open flags.
#[derive(Clone, Copy, Debug, PartialEq, Eq, Structural)]
pub struct OpenOpts {
    /// Open for reading.
    pub read: bool,
    /// Open for writing.
    pub write: bool,
    /// Append on each write.
    pub append: bool,
    /// Truncate to zero length.
    pub truncate: bool,
    /// Create if missing.
    pub create: bool,
}

/// The fixed-shape file status reported by `fstat`.
#[derive(Clone, Copy, Debug, PartialEq, Eq, Structural)]
pub struct KStat {
    /// File mode: always a regular file with default permissions here.
    pub st_mode: u32,
    /// Link count: always 1 here.
    pub st_nlink: u32,
    /// Current file length in bytes.
    pub st_size: u64,
    /// Preferred I/O block size: fixed.
    pub st_blksize: u32,
}

/// The open options encoded by the raw flags: the low two bits select the
/// access mode (0 read, 1 write, anything else both), the remaining bits
/// add append, truncate and create.
pub open spec fn open_opts_of(flags: u32) -> OpenOpts {
    OpenOpts {
        read: flags & 3 != O_WRONLY,
        write: flags & 3 != O_RDONLY,
        append: flags & O_APPEND != 0,
        truncate: flags & O_TRUNC != 0,
        create: flags & O_CREAT != 0,
    }
}

/// Decode raw open flags into open options.
pub fn make_open_options(flags: u32) -> (o: OpenOpts)
    ensures
        o == open_opts_of(flags),
{
    OpenOpts {
        read: flags & 3 != O_WRONLY,
        write: flags & 3 != O_RDONLY,
        append: flags & O_APPEND != 0,
        truncate: flags & O_TRUNC != 0,
        create: flags & O_CREAT != 0,
    }
}

/// Open or create a file.
///
/// Only the fixed current-directory token is accepted as the base
/// directory; any other base fails as invalid-argument whatever the other
/// arguments are.  A null path address fails as bad-address.  Otherwise the
/// path string is loaded from user memory and the open continues in
/// [`resume_cstring`].
pub fn sys_openat(dirfd: isize, path: usize, flags: usize, _mode: usize) -> (s: Step)
    ensures
        dirfd != AT_FDCWD ==> s == Step::Done(-22isize),
        dirfd == AT_FDCWD && path == 0 ==> s == Step::Done(-14isize),
        dirfd == AT_FDCWD && path != 0 ==> s == (Step::LoadCString {
            addr: path,
            cont: StrCont::OpenAt { flags: flags as u32 },
        }),
{
    if dirfd != AT_FDCWD {
        return Step::Done(-22isize);
    }
    if path == 0 {
        return Step::Done(-14isize);
    }
    Step::LoadCString {
        addr: path,
        cont: StrCont::OpenAt { flags: #[verifier::truncate] (flags as u32) },
    }
}

/// The bytes of the fixed self-executable path, `/proc/self/exe`.
pub open spec fn proc_self_exe() -> Seq<u8> {
    seq![0x2fu8, 0x70, 0x72, 0x6f, 0x63, 0x2f, 0x73, 0x65, 0x6c, 0x66, 0x2f, 0x65, 0x78, 0x65]
}

/// The bytes of the answer reported for the self-executable link,
/// `./test`.
pub open spec fn exe_link_target() -> Seq<u8> {
    seq![0x2eu8, 0x2f, 0x74, 0x65, 0x73, 0x74]
}

/// `b` ends with the fixed self-executable path (which also covers being
/// exactly that path).
pub open spec fn is_exe_path(b: Seq<u8>) -> bool {
    b.len() >= 14 && (forall|j: int| 0 <= j < 14 ==> b[b.len() - 14 + j] == proc_self_exe()[j])
}

/// The fixed self-executable path as bytes: `/proc/self/exe`.
fn exe_pattern() -> (p: [u8; 14])
    ensures
        p@ == proc_self_exe(),
{
    let p: [u8; 14] = [
        0x2f, 0x70, 0x72, 0x6f, 0x63, 0x2f, 0x73, 0x65, 0x6c, 0x66, 0x2f, 0x65, 0x78, 0x65,
    ];
    proof {
        assert(p@ =~= proc_self_exe());
    }
    p
}

/// Does `b` end with the fixed self-executable path?
fn ends_with_exe(b: &[u8]) -> (r: bool)
    ensures
        r == is_exe_path(b@),
{
    let n = b.len();
    if n < 14 {
        return false;
    }
    let pat = exe_pattern();
    let mut i: usize = 0;
    let mut ok = true;
    while i < 14
        invariant
            0 <= i <= 14,
            n == b@.len(),
            n >= 14,
            pat@ == proc_self_exe(),
            ok == (forall|j: int| 0 <= j < i ==> b@[n - 14 + j] == proc_self_exe()[j]),
        decreases 14 - i,
    {
        if *vstd::slice::slice_index_get(b, n - 14 + i) != pat[i] {
            ok = false;
        }
        i += 1;
    }
    ok
}

/// The first `min(6, bufsiz)` bytes of the fixed link target.
fn exe_target_prefix(bufsiz: usize) -> (v: Vec<u8>)
    ensures
        v@.len() == if bufsiz < 6 {
            bufsiz as int
        } else {
            6
        },
        forall|k: int| 0 <= k < v@.len() ==> v@[k] == exe_link_target()[k],
{
    let t: [u8; 6] = [0x2e, 0x2f, 0x74, 0x65, 0x73, 0x74];
    proof {
        assert(t@ =~= exe_link_target());
    }
    let len = if bufsiz < 6 {
        bufsiz
    } else {
        6
    };
    let mut v: Vec<u8> = Vec::new();
    let mut i: usize = 0;
    while i < len
        invariant
            0 <= i <= len,
            len <= 6,
            t@ == exe_link_target(),
            v@.len() == i,
            forall|k: int| 0 <= k < i ==> v@[k] == exe_link_target()[k],
        decreases len - i,
    {
        v.push(t[i]);
        i += 1;
    }
    v
}

/// Continue a syscall whose path argument has been fetched from user
/// memory.
///
/// `window` is the raw byte window the embedder read at the path address.
/// For `openat` the decoded path and options go to the host open
/// ([`Step::OpenPath`]); decoding failures end the call with the matching
/// error.  For `readlinkat` any decoding failure is bad-address, only the
/// fixed self-executable path has an answer, and the answer is truncated to
/// the caller's buffer size.
pub fn resume_cstring(cont: StrCont, window: &Vec<u8>) -> (s: Step)
    ensures
        cont matches StrCont::OpenAt { flags } ==> {
            &&& cstr_nul(window@) is None ==> s == Step::Done(-22isize)
            &&& (cstr_nul(window@) matches Some(i) && !valid_utf8(window@.take(i))) ==> s
                == Step::Done(-22isize)
            &&& cstr_nul(window@) matches Some(i) ==> (valid_utf8(window@.take(i)) ==> (s
                matches Step::OpenPath { path, opts } && path@ == decode_utf8(window@.take(i))
                && opts == open_opts_of(flags)))
        },
        cont matches StrCont::ReadLinkAt { buf, bufsiz } ==> {
            &&& cstr_nul(window@) is None ==> s == Step::Done(-14isize)
            &&& (cstr_nul(window@) matches Some(i) && !valid_utf8(window@.take(i))) ==> s
                == Step::Done(-14isize)
            &&& (cstr_nul(window@) matches Some(i) && valid_utf8(window@.take(i)) && !is_exe_path(
                window@.take(i),
            )) ==> s == Step::Done(-22isize)
            &&& (cstr_nul(window@) matches Some(i) && valid_utf8(window@.take(i)) && is_exe_path(
                window@.take(i),
            )) ==> (s matches Step::WriteUser { addr, payload: UserPayload::Bytes(v), ret } && addr
                == buf && v@.len() == (if bufsiz < 6 {
                bufsiz as int
            } else {
                6
            }) && (forall|k: int| 0 <= k < v@.len() ==> v@[k] == exe_link_target()[k]) && ret
                == v@.len())
        },
{
    match cont {
        StrCont::OpenAt { flags } => {
            match load_cstring(window) {
                Ok(path) => Step::OpenPath { path, opts: make_open_options(flags) },
                Err(e) => Step::Done(e.to_neg_isize()),
            }
        }
        StrCont::ReadLinkAt { buf, bufsiz } => {
            match load_cstring(window) {
                Ok(path) => {
                    let pb = path.as_str().as_bytes();
                    proof {
                        let i = cstr_nul(window@)->Some_0;
                        vstd::utf8::decode_utf8_encode_utf8(window@.take(i));
                    }
                    if ends_with_exe(pb) {
                        let v = exe_target_prefix(bufsiz);
                        let ret = v.len() as isize;
                        Step::WriteUser { addr: buf, payload: UserPayload::Bytes(v), ret }
                    } else {
                        Step::Done(-22isize)
                    }
                }
                Err(_) => Step::Done(-14isize),
            }
        }
    }
}

/// Read from a live descriptor into the caller's buffer.
///
/// A descriptor without a live slot is bad-descriptor; otherwise the host
/// read is the embedder's step and its outcome is encoded by
/// [`finish_io`].
pub fn sys_read<T>(table: &FdTable<T>, fd: i32, buf: usize, count: usize) -> (s: Step)
    ensures
        !fd_live(table@, fd as int) ==> s == Step::Done(-9isize),
        fd_live(table@, fd as int) ==> s == (Step::File { fd, op: FileOp::Read { buf, count } }),
{
    if !table.is_live(fd) {
        return Step::Done(-9isize);
    }
    Step::File { fd, op: FileOp::Read { buf, count } }
}

/// Write from the caller's buffer to a live descriptor.
///
/// A descriptor without a live slot is bad-descriptor; otherwise the host
/// write is the embedder's step and its outcome is encoded by
/// [`finish_io`].
pub fn sys_write<T>(table: &FdTable<T>, fd: i32, buf: usize, count: usize) -> (s: Step)
    ensures
        !fd_live(table@, fd as int) ==> s == Step::Done(-9isize),
        fd_live(table@, fd as int) ==> s == (Step::File { fd, op: FileOp::Write { buf, count } }),
{
    if !table.is_live(fd) {
        return Step::Done(-9isize);
    }
    Step::File { fd, op: FileOp::Write { buf, count } }
}

/// Encode the outcome of a host read or write: the byte count on success,
/// generic I/O failure otherwise.
pub fn finish_io(res: Result<usize, SysError>) -> (r: isize)
    ensures
        res matches Ok(n) ==> r == n as isize,
        res is Err ==> r == -5,
{
    match res {
        Ok(n) => #[verifier::truncate] (n as isize),
        Err(_) => -5,
    }
}

/// Release a live descriptor.
///
/// The slot becomes free and the file object it held is dropped, which
/// releases the underlying host file once no other holder remains.  A
/// descriptor without a live slot is bad-descriptor.
pub fn sys_close<T>(table: &mut FdTable<T>, fd: i32) -> (r: isize)
    ensures
        !fd_live(old(table)@, fd as int) ==> r == -9 && final(table)@ == old(table)@,
        fd_live(old(table)@, fd as int) ==> r == 0 && final(table)@ == old(table)@.update(
            fd as int,
            None::<FileEntry<T>>,
        ),
{
    match table.remove(fd) {
        Some(_file) => 0,
        None => -9,
    }
}

/// Reposition a live descriptor.
///
/// A descriptor without a live slot is bad-descriptor; an unknown `whence`
/// is invalid-argument; otherwise the host seek is the embedder's step and
/// its outcome is encoded by [`finish_seek`].
pub fn sys_lseek<T>(table: &FdTable<T>, fd: i32, offset: isize, whence: i32) -> (s: Step)
    ensures
        !fd_live(table@, fd as int) ==> s == Step::Done(-9isize),
        fd_live(table@, fd as int) && whence == 0 ==> s == (Step::File {
            fd,
            op: FileOp::Seek { pos: SeekFrom::Start(offset as u64) },
        }),
        fd_live(table@, fd as int) && whence == 1 ==> s == (Step::File {
            fd,
            op: FileOp::Seek { pos: SeekFrom::Current(offset as i64) },
        }),
        fd_live(table@, fd as int) && whence == 2 ==> s == (Step::File {
            fd,
            op: FileOp::Seek { pos: SeekFrom::End(offset as i64) },
        }),
        fd_live(table@, fd as int) && !(0 <= whence <= 2) ==> s == Step::Done(-22isize),
{
    if !table.is_live(fd) {
        return Step::Done(-9isize);
    }
    if whence == 0 {
        Step::File { fd, op: FileOp::Seek { pos: SeekFrom::Start(#[verifier::truncate] (offset as u64)) } }
    } else if whence == 1 {
        Step::File { fd, op: FileOp::Seek { pos: SeekFrom::Current(offset as i64) } }
    } else if whence == 2 {
        Step::File { fd, op: FileOp::Seek { pos: SeekFrom::End(offset as i64) } }
    } else {
        Step::Done(-22isize)
    }
}

/// Encode the outcome of a host seek: the new position on success,
/// invalid-argument otherwise.
pub fn finish_seek(res: Result<u64, SysError>) -> (r: isize)
    ensures
        res matches Ok(pos) ==> r == pos as isize,
        res is Err ==> r == -22,
{
    match res {
        Ok(pos) => #[verifier::truncate] (pos as isize),
        Err(_) => -22,
    }
}

/// Report the status of a live descriptor.
///
/// A descriptor without a live slot is bad-descriptor; otherwise the host
/// probes the file's length ([`FileOp::SizeProbe`]) and the status
/// structure is assembled by [`finish_fstat`].
pub fn sys_fstat<T>(table: &FdTable<T>, fd: i32, _statbuf: usize) -> (s: Step)
    ensures
        !fd_live(table@, fd as int) ==> s == Step::Done(-9isize),
        fd_live(table@, fd as int) ==> s == (Step::File { fd, op: FileOp::SizeProbe }),
{
    if !table.is_live(fd) {
        return Step::Done(-9isize);
    }
    Step::File { fd, op: FileOp::SizeProbe }
}

/// Assemble the status structure from a probed file length: a regular file
/// with default permissions, one link, the probed size and the fixed block
/// size.  A failed probe is a generic I/O failure.
pub fn finish_fstat(statbuf: usize, res: Result<u64, SysError>) -> (s: Step)
    ensures
        res matches Ok(size) ==> s == (Step::WriteUser {
            addr: statbuf,
            payload: UserPayload::Stat(
                KStat { st_mode: S_IFREG | 0o666, st_nlink: 1u32, st_size: size, st_blksize: 4096u32 },
            ),
            ret: 0isize,
        }),
        res is Err ==> s == Step::Done(-5isize),
{
    match res {
        Ok(size) => Step::WriteUser {
            addr: statbuf,
            payload: UserPayload::Stat(
                KStat { st_mode: S_IFREG | 0o666, st_nlink: 1, st_size: size, st_blksize: 4096 },
            ),
            ret: 0isize,
        },
        Err(_) => Step::Done(-5isize),
    }
}

/// The ABI result of an `fcntl` call on table model `s`: every
/// sub-command on a descriptor without a live slot is bad-descriptor.
pub open spec fn fcntl_ret<T>(s: Seq<Option<FileEntry<T>>>, fd: i32, cmd: i32, arg: usize) -> int {
    if !fd_live(s, fd as int) {
        -9
    } else if cmd == F_GETFD {
        s[fd as int]->Some_0.fd_flags as isize as int
    } else if cmd == F_SETFD {
        0
    } else if cmd == F_GETFL {
        s[fd as int]->Some_0.file_flags as isize as int
    } else if cmd == F_SETFL {
        0
    } else {
        -38
    }
}

/// The table model after an `fcntl` call: only the two set-flag
/// sub-commands on a live descriptor change anything.
pub open spec fn fcntl_table_after<T>(
    s: Seq<Option<FileEntry<T>>>,
    fd: i32,
    cmd: i32,
    arg: usize,
) -> Seq<Option<FileEntry<T>>> {
    if fd_live(s, fd as int) && cmd == F_SETFD {
        s.update(
            fd as int,
            Some(
                FileEntry {
                    file: s[fd as int]->Some_0.file,
                    fd_flags: arg as u32,
                    file_flags: s[fd as int]->Some_0.file_flags,
                },
            ),
        )
    } else if fd_live(s, fd as int) && cmd == F_SETFL {
        s.update(
            fd as int,
            Some(
                FileEntry {
                    file: s[fd as int]->Some_0.file,
                    fd_flags: s[fd as int]->Some_0.fd_flags,
                    file_flags: arg as u32,
                },
            ),
        )
    } else {
        s
    }
}

/// Descriptor control.
///
/// Every sub-command on a descriptor without a live slot is
/// bad-descriptor.  On a live descriptor, get and set of the two per-slot
/// flag sets do their work; the duplicate sub-command is not-implemented
/// (the file object cannot be shared between slots), as is every unknown
/// sub-command.
pub fn sys_fcntl<T>(table: &mut FdTable<T>, fd: i32, cmd: i32, arg: usize) -> (r: isize)
    ensures
        r == fcntl_ret(old(table)@, fd, cmd, arg),
        final(table)@ == fcntl_table_after(old(table)@, fd, cmd, arg),
{
    if !table.is_live(fd) {
        return -9;
    }
    if cmd == F_GETFD {
        match get_fd_flags(table, fd) {
            Some(flags) => #[verifier::truncate] (flags as isize),
            None => -9,
        }
    } else if cmd == F_SETFD {
        if set_fd_flags(table, fd, #[verifier::truncate] (arg as u32)) {
            0
        } else {
            -9
        }
    } else if cmd == F_GETFL {
        match get_file_flags(table, fd) {
            Some(flags) => #[verifier::truncate] (flags as isize),
            None => -9,
        }
    } else if cmd == F_SETFL {
        if set_file_flags(table, fd, #[verifier::truncate] (arg as u32)) {
            0
        } else {
            -9
        }
    } else {
        ENOSYS
    }
}

/// Law: setting per-descriptor flags through `fcntl` and reading them
/// back through `fcntl` on the same live descriptor yields exactly the
/// flags that were set; the file status flags behave the same way.
pub proof fn lemma_fcntl_flag_roundtrip<T>(s: Seq<Option<FileEntry<T>>>, fd: i32, arg: usize)
    requires
        fd_live(s, fd as int),
    ensures
        fcntl_ret(fcntl_table_after(s, fd, F_SETFD, arg), fd, F_GETFD, 0) == (arg as u32)
            as isize as int,
        fcntl_ret(fcntl_table_after(s, fd, F_SETFL, arg), fd, F_GETFL, 0) == (arg as u32)
            as isize as int,
{
}

/// Record the outcome of a host open: on success the file object enters
/// the table at the lowest free index, which is the ABI result; a failed
/// open is encoded as its error.
pub fn resume_open<T>(table: &mut FdTable<T>, res: Result<T, SysError>) -> (r: isize)
    requires
        old(table)@.len() < 0x7fff_ffff,
    ensures
        res matches Ok(f) ==> r == lowest_free(old(table)@) && final(table)@ == insert_model(
            old(table)@,
            f,
        ),
        res matches Err(e) ==> r == -e.spec_code() && final(table)@ == old(table)@,
{
    match res {
        Ok(f) => add_file(table, f) as isize,
        Err(e) => e.to_neg_isize(),
    }
}

} // verus!
