//! The dispatch table: the single entry point invoked once per trapped
//! syscall.
//!
//! Given a syscall number and six raw arguments, dispatch selects the one
//! handler of the number — the mapping is static and immutable — decodes
//! the arguments as that handler expects them, and yields the handler's
//! step.  A number outside the supported set yields the fixed
//! not-implemented result without invoking anything.
//!
//! All per-process state is one explicitly owned [`ProcessState`] value;
//! the embedder that shares it between tasks serializes access to it.

use vstd::prelude::*;

use crate::fd_table::{fd_live, FdTable, FileEntry};
use crate::fs::{
    fcntl_ret, fcntl_table_after, sys_close, sys_fcntl, sys_fstat, sys_lseek, sys_openat,
    sys_read, sys_write, AT_FDCWD,
};
use crate::mm::{brk_after, page_round_up, sys_brk, sys_mmap, MemoryState, MAP_ANONYMOUS, PAGE_SIZE};
use crate::step::{FileOp, SeekFrom, Step, StrCont, UserPayload};
use crate::sync::{sys_set_robust_list, SyncState};
use crate::sys::{
    lcg_byte, lcg_iter, mprotect_result, rlimit_of, sys_getrandom, sys_ioctl, sys_mprotect,
    sys_prlimit64, sys_readlinkat, termios_cc, RngState, Winsize, RLIM_NLIMITS,
};
use crate::table::{sysno_of, Sysno};
use crate::task::{sys_exit, sys_exit_group};
use crate::thread::{sys_set_tid_address, ThreadState};
use crate::ENOSYS;

verus! {

/// All mutable state of the layer, one explicitly owned value per process.
pub struct ProcessState<T> {
    /// The file-descriptor table.
    pub fds: FdTable<T>,
    /// Program break and anonymous-mapping bookkeeping.
    pub mem: MemoryState,
    /// The pseudo-random generator.
    pub rng: RngState,
    /// Thread-id bookkeeping.
    pub thread: ThreadState,
    /// Robust-list bookkeeping.
    pub sync: SyncState,
}

impl<T> ProcessState<T> {
    /// The state at process start: empty table, uninitialized break,
    /// fixed seed, thread id 1, nothing registered.
    pub fn new() -> (ps: ProcessState<T>)
        ensures
            ps.fds@ == Seq::<Option<FileEntry<T>>>::empty(),
            ps.mem.brk == 0,
            ps.mem.regions@ == Seq::<crate::mm::MemoryRegion>::empty(),
            ps.rng.seed == 0xdeadbeefu64,
            ps.thread.tid == 1,
            ps.thread.tid_address == 0,
            ps.sync.robust_list_head == 0,
    {
        ProcessState {
            fds: FdTable::new(),
            mem: MemoryState::new(),
            rng: RngState::new(),
            thread: ThreadState::new(),
            sync: SyncState::new(),
        }
    }
}

/// Dispatch one trapped syscall.
///
/// The number selects the handler, the raw arguments are decoded as that
/// handler expects them, and the handler's step is the answer; an unmapped
/// number answers the fixed not-implemented code and touches nothing.
pub fn handle_syscall<T>(ps: &mut ProcessState<T>, nr: usize, args: [usize; 6]) -> (s: Step)
    requires
        old(ps).thread.tid <= 0x7fff_ffff,
    ensures
        // an unmapped number: the fixed not-implemented code, nothing invoked
        sysno_of(nr as int) is None ==> s == Step::Done(ENOSYS),
        // frame: each subsystem is touched only by its own calls
        sysno_of(nr as int) != Some(Sysno::Brk) ==> final(ps).mem.brk == old(ps).mem.brk
            && final(ps).mem.regions@ == old(ps).mem.regions@,
        sysno_of(nr as int) != Some(Sysno::Close) && sysno_of(nr as int) != Some(Sysno::Fcntl)
            ==> final(ps).fds@ == old(ps).fds@,
        sysno_of(nr as int) != Some(Sysno::Getrandom) ==> final(ps).rng.seed == old(ps).rng.seed,
        sysno_of(nr as int) != Some(Sysno::SetTidAddress) ==> final(ps).thread == old(ps).thread,
        sysno_of(nr as int) != Some(Sysno::SetRobustList) ==> final(ps).sync == old(ps).sync,
        final(ps).thread.tid == old(ps).thread.tid,
        // openat: only the fixed current-directory token is accepted
        sysno_of(nr as int) == Some(Sysno::OpenAt) ==> {
            &&& args@[0] as isize != AT_FDCWD ==> s == Step::Done(-22isize)
            &&& args@[0] as isize == AT_FDCWD && args@[1] == 0 ==> s == Step::Done(-14isize)
            &&& args@[0] as isize == AT_FDCWD && args@[1] != 0 ==> s == (Step::LoadCString {
                addr: args@[1],
                cont: StrCont::OpenAt { flags: args@[2] as u32 },
            })
        },
        sysno_of(nr as int) == Some(Sysno::Read) ==> {
            &&& !fd_live(old(ps).fds@, args@[0] as i32 as int) ==> s == Step::Done(-9isize)
            &&& fd_live(old(ps).fds@, args@[0] as i32 as int) ==> s == (Step::File {
                fd: args@[0] as i32,
                op: FileOp::Read { buf: args@[1], count: args@[2] },
            })
        },
        sysno_of(nr as int) == Some(Sysno::Write) ==> {
            &&& !fd_live(old(ps).fds@, args@[0] as i32 as int) ==> s == Step::Done(-9isize)
            &&& fd_live(old(ps).fds@, args@[0] as i32 as int) ==> s == (Step::File {
                fd: args@[0] as i32,
                op: FileOp::Write { buf: args@[1], count: args@[2] },
            })
        },
        sysno_of(nr as int) == Some(Sysno::Close) ==> {
            &&& !fd_live(old(ps).fds@, args@[0] as i32 as int) ==> s == Step::Done(-9isize)
                && final(ps).fds@ == old(ps).fds@
            &&& fd_live(old(ps).fds@, args@[0] as i32 as int) ==> s == Step::Done(0isize)
                && final(ps).fds@ == old(ps).fds@.update(
                args@[0] as i32 as int,
                None::<FileEntry<T>>,
            )
        },
        sysno_of(nr as int) == Some(Sysno::Fstat) ==> {
            &&& !fd_live(old(ps).fds@, args@[0] as i32 as int) ==> s == Step::Done(-9isize)
            &&& fd_live(old(ps).fds@, args@[0] as i32 as int) ==> s == (Step::File {
                fd: args@[0] as i32,
                op: FileOp::SizeProbe,
            })
        },
        sysno_of(nr as int) == Some(Sysno::Lseek) ==> {
            &&& !fd_live(old(ps).fds@, args@[0] as i32 as int) ==> s == Step::Done(-9isize)
            &&& fd_live(old(ps).fds@, args@[0] as i32 as int) ==> {
                let offset = args@[1] as isize;
                let whence = args@[2] as i32;
                &&& whence == 0 ==> s == (Step::File {
                    fd: args@[0] as i32,
                    op: FileOp::Seek { pos: SeekFrom::Start(offset as u64) },
                })
                &&& whence == 1 ==> s == (Step::File {
                    fd: args@[0] as i32,
                    op: FileOp::Seek { pos: SeekFrom::Current(offset as i64) },
                })
                &&& whence == 2 ==> s == (Step::File {
                    fd: args@[0] as i32,
                    op: FileOp::Seek { pos: SeekFrom::End(offset as i64) },
                })
                &&& !(0 <= whence <= 2) ==> s == Step::Done(-22isize)
            }
        },
        sysno_of(nr as int) == Some(Sysno::Fcntl) ==> {
            &&& (s matches Step::Done(r) && r == fcntl_ret(
                old(ps).fds@,
                args@[0] as i32,
                args@[1] as i32,
                args@[2],
            ))
            &&& final(ps).fds@ == fcntl_table_after(
                old(ps).fds@,
                args@[0] as i32,
                args@[1] as i32,
                args@[2],
            )
        },
        sysno_of(nr as int) == Some(Sysno::Brk) ==> {
            &&& final(ps).mem.brk == brk_after(old(ps).mem.brk, args@[0])
            &&& final(ps).mem.regions@ == old(ps).mem.regions@
            &&& s == Step::Done(final(ps).mem.brk as isize)
        },
        sysno_of(nr as int) == Some(Sysno::Mmap) ==> {
            let len = args@[1];
            let flags = args@[3];
            &&& flags & MAP_ANONYMOUS == 0 ==> s == Step::Done(ENOSYS)
            &&& flags & MAP_ANONYMOUS != 0 && len == 0 ==> s == Step::Done(-22isize)
            &&& flags & MAP_ANONYMOUS != 0 && len > usize::MAX - (PAGE_SIZE - 1) ==> s
                == Step::Done(-12isize)
            &&& flags & MAP_ANONYMOUS != 0 && 0 < len <= usize::MAX - (PAGE_SIZE - 1) ==> s == (
            Step::Alloc { len: page_round_up(len) as usize })
        },
        sysno_of(nr as int) == Some(Sysno::Exit) ==> s == (Step::Exit { code: args@[0] as i32 }),
        sysno_of(nr as int) == Some(Sysno::ExitGroup) ==> s == (Step::Exit {
            code: args@[0] as i32,
        }),
        sysno_of(nr as int) == Some(Sysno::SetRobustList) ==> {
            &&& args@[1] != 16 ==> s == Step::Done(-22isize) && final(ps).sync == old(ps).sync
            &&& args@[1] == 16 ==> s == Step::Done(0isize) && final(ps).sync.robust_list_head
                == args@[0]
        },
        sysno_of(nr as int) == Some(Sysno::SetTidAddress) ==> {
            &&& final(ps).thread.tid_address == args@[0]
            &&& args@[0] != 0 ==> s == (Step::WriteUser {
                addr: args@[0],
                payload: UserPayload::Tid(old(ps).thread.tid as i32),
                ret: old(ps).thread.tid as isize,
            })
            &&& args@[0] == 0 ==> s == Step::Done(old(ps).thread.tid as isize)
        },
        sysno_of(nr as int) == Some(Sysno::Mprotect) ==> (s matches Step::Done(r) && r
            == mprotect_result(args@[0], args@[1], args@[2] as i32)),
        sysno_of(nr as int) == Some(Sysno::Prlimit64) ==> {
            let pid = args@[0] as i32;
            let resource = args@[1] as u32;
            let old_limit = args@[3];
            &&& pid != 0 ==> s == Step::Done(-22isize)
            &&& pid == 0 && resource >= RLIM_NLIMITS ==> s == Step::Done(-22isize)
            &&& pid == 0 && resource < RLIM_NLIMITS && old_limit != 0 ==> s == (Step::WriteUser {
                addr: old_limit,
                payload: UserPayload::Rlimit(rlimit_of(resource)),
                ret: 0isize,
            })
            &&& pid == 0 && resource < RLIM_NLIMITS && old_limit == 0 ==> s == Step::Done(0isize)
        },
        sysno_of(nr as int) == Some(Sysno::Readlinkat) ==> {
            &&& args@[1] == 0 ==> s == Step::Done(-14isize)
            &&& args@[1] != 0 ==> s == (Step::LoadCString {
                addr: args@[1],
                cont: StrCont::ReadLinkAt { buf: args@[2], bufsiz: args@[3] },
            })
        },
        sysno_of(nr as int) == Some(Sysno::Getrandom) ==> {
            let len = args@[1];
            &&& len == 0 ==> s == Step::Done(0isize) && final(ps).rng.seed == old(ps).rng.seed
            &&& len > 512 ==> s == Step::Done(-22isize) && final(ps).rng.seed == old(ps).rng.seed
            &&& 0 < len <= 512 ==> {
                &&& final(ps).rng.seed == lcg_iter(old(ps).rng.seed, len as nat)
                &&& (s matches Step::WriteUser { addr, payload: UserPayload::Bytes(v), ret }
                    && addr == args@[0] && ret == len && v@.len() == len && (forall|k: int|
                    0 <= k < len ==> v@[k] == lcg_byte(old(ps).rng.seed, k as nat)))
            }
        },
        sysno_of(nr as int) == Some(Sysno::Ioctl) ==> {
            let fd = args@[0] as i32;
            let cmd = args@[1] as u32;
            let arg = args@[2];
            &&& cmd == 0x5421 ==> s == Step::Done(0isize)
            &&& cmd == 0x5401 && (0 <= fd <= 2) ==> (s matches Step::WriteUser {
                addr,
                payload: UserPayload::Termios(t),
                ret,
            } && addr == arg && ret == 0 && t.c_cc@ == termios_cc())
            &&& cmd == 0x5401 && !(0 <= fd <= 2) ==> s == Step::Done(-25isize)
            &&& cmd == 0x5402 ==> s == Step::Done(0isize)
            &&& cmd == 0x5413 && (0 <= fd <= 2) ==> s == (Step::WriteUser {
                addr: arg,
                payload: UserPayload::Winsize(
                    Winsize { ws_row: 24u16, ws_col: 80u16, ws_xpixel: 0u16, ws_ypixel: 0u16 },
                ),
                ret: 0isize,
            })
            &&& cmd == 0x5413 && !(0 <= fd <= 2) ==> s == Step::Done(-25isize)
            &&& cmd == 0x5414 ==> s == Step::Done(0isize)
            &&& cmd != 0x5421 && cmd != 0x5401 && cmd != 0x5402 && cmd != 0x5413 && cmd != 0x5414
                ==> s == Step::Done(-25isize)
        },
{
    match Sysno::from(nr) {
        Some(Sysno::OpenAt) => sys_openat(
            #[verifier::truncate] (args[0] as isize),
            args[1],
            args[2],
            args[3],
        ),
        Some(Sysno::Read) => sys_read(
            &ps.fds,
            #[verifier::truncate] (args[0] as i32),
            args[1],
            args[2],
        ),
        Some(Sysno::Write) => sys_write(
            &ps.fds,
            #[verifier::truncate] (args[0] as i32),
            args[1],
            args[2],
        ),
        Some(Sysno::Close) => {
            let r = sys_close(&mut ps.fds, #[verifier::truncate] (args[0] as i32));
            Step::Done(r)
        }
        Some(Sysno::Fstat) => sys_fstat(&ps.fds, #[verifier::truncate] (args[0] as i32), args[1]),
        Some(Sysno::Exit) => sys_exit(#[verifier::truncate] (args[0] as i32)),
        Some(Sysno::ExitGroup) => sys_exit_group(#[verifier::truncate] (args[0] as i32)),
        Some(Sysno::Brk) => {
            let r = sys_brk(&mut ps.mem, args[0]);
            Step::Done(r)
        }
        Some(Sysno::Mmap) => sys_mmap(args[0], args[1], args[2], args[3], args[4], args[5]),
        Some(Sysno::Lseek) => sys_lseek(
            &ps.fds,
            #[verifier::truncate] (args[0] as i32),
            #[verifier::truncate] (args[1] as isize),
            #[verifier::truncate] (args[2] as i32),
        ),
        Some(Sysno::Fcntl) => {
            let r = sys_fcntl(
                &mut ps.fds,
                #[verifier::truncate] (args[0] as i32),
                #[verifier::truncate] (args[1] as i32),
                args[2],
            );
            Step::Done(r)
        }
        Some(Sysno::SetRobustList) => {
            let r = sys_set_robust_list(&mut ps.sync, args[0], args[1]);
            Step::Done(r)
        }
        Some(Sysno::SetTidAddress) => sys_set_tid_address(&mut ps.thread, args[0]),
        Some(Sysno::Mprotect) => {
            let r = sys_mprotect(args[0], args[1], #[verifier::truncate] (args[2] as i32));
            Step::Done(r)
        }
        Some(Sysno::Prlimit64) => sys_prlimit64(
            #[verifier::truncate] (args[0] as i32),
            #[verifier::truncate] (args[1] as u32),
            args[2],
            args[3],
        ),
        Some(Sysno::Readlinkat) => sys_readlinkat(
            #[verifier::truncate] (args[0] as i32),
            args[1],
            args[2],
            args[3],
        ),
        Some(Sysno::Getrandom) => sys_getrandom(
            &mut ps.rng,
            args[0],
            args[1],
            #[verifier::truncate] (args[2] as u32),
        ),
        Some(Sysno::Ioctl) => sys_ioctl(
            #[verifier::truncate] (args[0] as i32),
            #[verifier::truncate] (args[1] as u32),
            args[2],
        ),
        None => Step::Done(ENOSYS),
    }
}

} // verus!
