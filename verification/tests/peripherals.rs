//! Address space, random bytes, terminal control, limits, identifiers and
//! the error translator, including cross-checks against the host crates.

use abi_shim::dispatch::{handle_syscall, ProcessState};
use abi_shim::errno::{ax_err_to_isize, linux_err_to_isize, vfs_err_to_isize, SysError};
use abi_shim::mm::{resume_alloc, sys_brk, sys_mmap, MemoryRegion, MemoryState};
use abi_shim::step::{Step, StrCont, UserPayload};
use abi_shim::sync::{get_robust_list_head, sys_set_robust_list, SyncState};
use abi_shim::sys::{
    default_termios, default_winsize, sys_getrandom, sys_ioctl, sys_mprotect, sys_prlimit64,
    sys_readlinkat, RlimitV, RngState,
};
use abi_shim::table::Sysno;
use abi_shim::thread::{get_tid, get_tid_address, sys_set_tid_address, ThreadState};
use linux_raw_sys::general;

#[test]
fn brk_queries_raises_and_never_lowers() {
    let mut mem = MemoryState::new();
    // the first query initializes the break to the fixed base
    assert_eq!(sys_brk(&mut mem, 0), 0x10000);
    assert_eq!(sys_brk(&mut mem, 0), 0x10000);
    // an address above the break raises it and returns the new break
    assert_eq!(sys_brk(&mut mem, 0x20000), 0x20000);
    // an address below returns the break unchanged
    assert_eq!(sys_brk(&mut mem, 0x18000), 0x20000);
    assert_eq!(sys_brk(&mut mem, 0), 0x20000);
}

#[test]
fn mmap_validates_and_rounds_to_pages() {
    // length 0 is invalid-argument
    assert_eq!(sys_mmap(0, 0, 3, 0x22, 0, 0), Step::Done(-22));
    // without the anonymous flag: not-implemented
    assert_eq!(sys_mmap(0, 4096, 3, 0x02, 0, 0), Step::Done(-38));
    // lengths are rounded up to whole pages
    assert_eq!(sys_mmap(0, 1, 3, 0x20, 0, 0), Step::Alloc { len: 4096 });
    assert_eq!(sys_mmap(0, 4096, 3, 0x22, 0, 0), Step::Alloc { len: 4096 });
    assert_eq!(sys_mmap(0, 4097, 3, 0x22, 0, 0), Step::Alloc { len: 8192 });
    assert_eq!(
        sys_mmap(0, 3 * 4096 + 5, 3, 0x20, 0, 0),
        Step::Alloc { len: 4 * 4096 }
    );
    // a length whose rounding cannot be represented: out-of-memory
    assert_eq!(sys_mmap(0, usize::MAX, 3, 0x20, 0, 0), Step::Done(-12));
}

#[test]
fn mmap_records_the_allocated_region() {
    let mut mem = MemoryState::new();
    assert_eq!(resume_alloc(&mut mem, 8192, Some(0x7000_0000)), 0x7000_0000);
    assert_eq!(mem.regions, vec![MemoryRegion { base: 0x7000_0000, len: 8192 }]);
    assert_eq!(resume_alloc(&mut mem, 4096, None), -12);
    assert_eq!(mem.regions.len(), 1);
}

#[test]
fn mprotect_validates_alignment_and_protection() {
    assert_eq!(sys_mprotect(0x1000, 0, 99), 0);
    assert_eq!(sys_mprotect(0x1001, 4096, 3), -22);
    assert_eq!(sys_mprotect(0x1000, 4096, 0), 0);
    assert_eq!(sys_mprotect(0x1000, 4096, 7), 0);
    assert_eq!(sys_mprotect(0x1000, 4096, 8), -22);
    assert_eq!(sys_mprotect(0x1000, 4096, -1), -22);
}

#[test]
fn getrandom_reproduces_the_generator() {
    let mut rng = RngState::new();
    let s = sys_getrandom(&mut rng, 0x100, 8, 0);
    // the generator is fixed: compute the expected stream alongside
    let mut seed: u64 = 0xdeadbeef;
    let mut expected: Vec<u8> = Vec::new();
    for _ in 0..8 {
        seed = seed
            .wrapping_mul(6364136223846793005)
            .wrapping_add(1442695040888963407);
        expected.push((seed >> 32) as u8);
    }
    assert_eq!(
        s,
        Step::WriteUser { addr: 0x100, payload: UserPayload::Bytes(expected), ret: 8 }
    );
    assert_eq!(rng.seed, seed);
}

#[test]
fn getrandom_validates_the_length() {
    let mut rng = RngState::new();
    assert_eq!(sys_getrandom(&mut rng, 0x100, 0, 0), Step::Done(0));
    assert_eq!(sys_getrandom(&mut rng, 0x100, 513, 0), Step::Done(-22));
    assert_eq!(rng.seed, 0xdeadbeef);
}

#[test]
fn ioctl_answers_the_canned_commands() {
    // FIONBIO and the set commands succeed without effect
    assert_eq!(sys_ioctl(0, 0x5421, 0x100), Step::Done(0));
    assert_eq!(sys_ioctl(9, 0x5402, 0x100), Step::Done(0));
    assert_eq!(sys_ioctl(9, 0x5414, 0x100), Step::Done(0));
    // attribute and size queries answer only for the console descriptors
    let t = default_termios();
    assert_eq!(t.c_iflag, 0x0300);
    assert_eq!(t.c_oflag, 0x0005);
    assert_eq!(t.c_cflag, 0xbf08);
    assert_eq!(t.c_lflag, 0x8a3b);
    assert_eq!(t.c_cc[0], 3);
    assert_eq!(t.c_cc[2], 127);
    assert_eq!(
        sys_ioctl(1, 0x5401, 0x200),
        Step::WriteUser { addr: 0x200, payload: UserPayload::Termios(t), ret: 0 }
    );
    assert_eq!(sys_ioctl(3, 0x5401, 0x200), Step::Done(-25));
    assert_eq!(
        sys_ioctl(0, 0x5413, 0x300),
        Step::WriteUser { addr: 0x300, payload: UserPayload::Winsize(default_winsize()), ret: 0 }
    );
    let w = default_winsize();
    assert_eq!((w.ws_row, w.ws_col, w.ws_xpixel, w.ws_ypixel), (24, 80, 0, 0));
    assert_eq!(sys_ioctl(5, 0x5413, 0x300), Step::Done(-25));
    // everything else is not-a-tty
    assert_eq!(sys_ioctl(0, 0x1234, 0), Step::Done(-25));
}

#[test]
fn prlimit_reports_the_static_table() {
    assert_eq!(sys_prlimit64(1, 7, 0, 0x100), Step::Done(-22));
    assert_eq!(sys_prlimit64(0, 16, 0, 0x100), Step::Done(-22));
    assert_eq!(
        sys_prlimit64(0, 7, 0, 0x100),
        Step::WriteUser {
            addr: 0x100,
            payload: UserPayload::Rlimit(RlimitV { soft: 1024, hard: 1048576 }),
            ret: 0,
        }
    );
    assert_eq!(
        sys_prlimit64(0, 2, 0, 0x100),
        Step::WriteUser {
            addr: 0x100,
            payload: UserPayload::Rlimit(RlimitV { soft: 8388608, hard: u64::MAX }),
            ret: 0,
        }
    );
    assert_eq!(
        sys_prlimit64(0, 0, 0, 0x100),
        Step::WriteUser {
            addr: 0x100,
            payload: UserPayload::Rlimit(RlimitV { soft: 0, hard: 0 }),
            ret: 0,
        }
    );
    // without an output pointer the call still succeeds
    assert_eq!(sys_prlimit64(0, 7, 0, 0), Step::Done(0));
}

#[test]
fn readlinkat_answers_only_the_self_exe_path() {
    assert_eq!(sys_readlinkat(0, 0, 0x100, 16), Step::Done(-14));
    let cont = StrCont::ReadLinkAt { buf: 0x100, bufsiz: 16 };
    let s = sys_readlinkat(0, 0x50, 0x100, 16);
    assert_eq!(s, Step::LoadCString { addr: 0x50, cont });
    let window: Vec<u8> = b"/proc/self/exe\0".to_vec();
    assert_eq!(
        abi_shim::fs::resume_cstring(cont, &window),
        Step::WriteUser { addr: 0x100, payload: UserPayload::Bytes(b"./test".to_vec()), ret: 6 }
    );
    let nested: Vec<u8> = b"/jail/proc/self/exe\0".to_vec();
    assert_eq!(
        abi_shim::fs::resume_cstring(cont, &nested),
        Step::WriteUser { addr: 0x100, payload: UserPayload::Bytes(b"./test".to_vec()), ret: 6 }
    );
    // the answer is truncated to the caller's buffer
    let small = StrCont::ReadLinkAt { buf: 0x100, bufsiz: 3 };
    assert_eq!(
        abi_shim::fs::resume_cstring(small, &window),
        Step::WriteUser { addr: 0x100, payload: UserPayload::Bytes(b"./t".to_vec()), ret: 3 }
    );
    // any other path is invalid-argument
    let other: Vec<u8> = b"/tmp/x\0".to_vec();
    assert_eq!(abi_shim::fs::resume_cstring(cont, &other), Step::Done(-22));
    // a load failure is bad-address
    let unterminated: Vec<u8> = vec![b'y'; 4100];
    assert_eq!(abi_shim::fs::resume_cstring(cont, &unterminated), Step::Done(-14));
}

#[test]
fn robust_list_validates_the_head_size() {
    let mut st = SyncState::new();
    assert_eq!(sys_set_robust_list(&mut st, 0x9000, 8), -22);
    assert_eq!(get_robust_list_head(&st), 0);
    assert_eq!(sys_set_robust_list(&mut st, 0x9000, 16), 0);
    assert_eq!(get_robust_list_head(&st), 0x9000);
}

#[test]
fn set_tid_address_stores_and_reports_the_id() {
    let mut th = ThreadState::new();
    assert_eq!(get_tid(&th), 1);
    assert_eq!(sys_set_tid_address(&mut th, 0), Step::Done(1));
    assert_eq!(get_tid_address(&th), 0);
    assert_eq!(
        sys_set_tid_address(&mut th, 0x8000),
        Step::WriteUser { addr: 0x8000, payload: UserPayload::Tid(1), ret: 1 }
    );
    assert_eq!(get_tid_address(&th), 0x8000);
}

#[test]
fn dispatch_covers_the_stateful_calls() {
    let mut ps: ProcessState<i32> = ProcessState::new();
    assert_eq!(handle_syscall(&mut ps, 12, [0, 0, 0, 0, 0, 0]), Step::Done(0x10000));
    assert_eq!(
        handle_syscall(&mut ps, 222, [0, 100, 3, 0x22, 0, 0]),
        Step::Alloc { len: 4096 }
    );
    assert_eq!(handle_syscall(&mut ps, 226, [0x1000, 4096, 3, 0, 0, 0]), Step::Done(0));
    assert_eq!(handle_syscall(&mut ps, 99, [0x9000, 16, 0, 0, 0, 0]), Step::Done(0));
    assert_eq!(ps.sync.robust_list_head, 0x9000);
    assert_eq!(handle_syscall(&mut ps, 218, [0, 0, 0, 0, 0, 0]), Step::Done(1));
}

#[test]
fn sysno_decodes_the_supported_numbers() {
    assert!(matches!(Sysno::from(29), Some(Sysno::Ioctl)));
    assert!(matches!(Sysno::from(25), Some(Sysno::Fcntl)));
    assert!(matches!(Sysno::from(12), Some(Sysno::Brk)));
    assert!(matches!(Sysno::from(57), Some(Sysno::Close)));
    assert!(matches!(Sysno::from(56), Some(Sysno::OpenAt)));
    assert!(matches!(Sysno::from(62), Some(Sysno::Lseek)));
    assert!(matches!(Sysno::from(63), Some(Sysno::Read)));
    assert!(matches!(Sysno::from(64), Some(Sysno::Write)));
    assert!(matches!(Sysno::from(80), Some(Sysno::Fstat)));
    assert!(matches!(Sysno::from(93), Some(Sysno::Exit)));
    assert!(matches!(Sysno::from(94), Some(Sysno::ExitGroup)));
    assert!(matches!(Sysno::from(99), Some(Sysno::SetRobustList)));
    assert!(matches!(Sysno::from(218), Some(Sysno::SetTidAddress)));
    assert!(matches!(Sysno::from(222), Some(Sysno::Mmap)));
    assert!(matches!(Sysno::from(226), Some(Sysno::Mprotect)));
    assert!(matches!(Sysno::from(261), Some(Sysno::Prlimit64)));
    assert!(matches!(Sysno::from(79), Some(Sysno::Readlinkat)));
    assert!(matches!(Sysno::from(278), Some(Sysno::Getrandom)));
    assert!(Sysno::from(42).is_none());
}

#[test]
fn error_codes_match_the_abi() {
    assert_eq!(SysError::NotImplemented.code(), 38);
    assert_eq!(SysError::BadDescriptor.code(), 9);
    assert_eq!(SysError::InvalidArgument.code(), 22);
    assert_eq!(SysError::InvalidData.code(), 22);
    assert_eq!(SysError::BadAddress.code(), 14);
    assert_eq!(SysError::Io.code(), 5);
    assert_eq!(SysError::NotFound.code(), 2);
    assert_eq!(SysError::PermissionDenied.code(), 13);
    assert_eq!(SysError::IsADirectory.code(), 21);
    assert_eq!(SysError::NotADirectory.code(), 20);
    assert_eq!(SysError::AlreadyExists.code(), 17);
    assert_eq!(SysError::FilesystemLoop.code(), 40);
    assert_eq!(SysError::ReadOnlyFilesystem.code(), 30);
    assert_eq!(SysError::OutOfMemory.code(), 12);
    assert_eq!(SysError::NotFound.to_neg_isize(), -2);
}

#[test]
fn host_errors_collapse_to_the_same_codes() {
    assert_eq!(linux_err_to_isize(axerrno::LinuxError::EBADF), -9);
    assert_eq!(linux_err_to_isize(axerrno::LinuxError::EINVAL), -22);
    assert_eq!(linux_err_to_isize(axerrno::LinuxError::ENOSYS), -38);
    assert_eq!(ax_err_to_isize(axerrno::AxError::NotFound), -2);
    assert_eq!(ax_err_to_isize(axerrno::AxError::BadAddress), -14);
    assert_eq!(ax_err_to_isize(axerrno::AxError::InvalidData), -22);
    assert_eq!(ax_err_to_isize(axerrno::AxError::InvalidInput), -22);
    assert_eq!(vfs_err_to_isize(axfs_ng_vfs::VfsError::NotFound), -2);
    assert_eq!(vfs_err_to_isize(axfs_ng_vfs::VfsError::PermissionDenied), -13);
    assert_eq!(vfs_err_to_isize(axfs_ng_vfs::VfsError::IsADirectory), -21);
    assert_eq!(vfs_err_to_isize(axfs_ng_vfs::VfsError::NotADirectory), -20);
    assert_eq!(vfs_err_to_isize(axfs_ng_vfs::VfsError::AlreadyExists), -17);
    assert_eq!(vfs_err_to_isize(axfs_ng_vfs::VfsError::InvalidInput), -22);
    assert_eq!(vfs_err_to_isize(axfs_ng_vfs::VfsError::FilesystemLoop), -40);
    assert_eq!(vfs_err_to_isize(axfs_ng_vfs::VfsError::ReadOnlyFilesystem), -30);
    assert_eq!(vfs_err_to_isize(axfs_ng_vfs::VfsError::StorageFull), -5);
}

#[test]
fn flag_constants_match_the_linux_abi() {
    assert_eq!(abi_shim::fs::O_RDONLY, general::O_RDONLY);
    assert_eq!(abi_shim::fs::O_WRONLY, general::O_WRONLY);
    assert_eq!(abi_shim::fs::O_RDWR, general::O_RDWR);
    assert_eq!(abi_shim::fs::O_CREAT, general::O_CREAT);
    assert_eq!(abi_shim::fs::O_TRUNC, general::O_TRUNC);
    assert_eq!(abi_shim::fs::O_APPEND, general::O_APPEND);
    assert_eq!(abi_shim::fs::S_IFREG, general::S_IFREG);
    assert_eq!(abi_shim::fs::AT_FDCWD, general::AT_FDCWD as isize);
}
