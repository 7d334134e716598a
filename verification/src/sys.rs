//! Peripheral system calls: resource limits, symlink lookup, random bytes,
//! memory protection and terminal control.
//!
//! None of these carry structural state beyond the pseudo-random seed: they
//! are validations, table lookups and canned answers.  Where an answer must
//! be stored to user memory, the store itself is the embedder's step.

use vstd::prelude::*;

use crate::step::{Step, StrCont, UserPayload};

verus! {

/// Number of resource-limit slots.
pub const RLIM_NLIMITS: u32 = 16;

/// A resource-limit pair.
#[derive(Clone, Copy, Debug, PartialEq, Eq, Structural)]
pub struct RlimitV {
    /// The soft limit.
    pub soft: u64,
    /// The hard limit.
    pub hard: u64,
}

/// Terminal attributes, answered with fixed values for the console.
#[derive(Clone, Copy, Debug, PartialEq, Eq)]
pub struct Termios {
    /// Input mode flags.
    pub c_iflag: u32,
    /// Output mode flags.
    pub c_oflag: u32,
    /// Control mode flags.
    pub c_cflag: u32,
    /// Local mode flags.
    pub c_lflag: u32,
    /// Line discipline.
    pub c_line: u8,
    /// Control characters.
    pub c_cc: [u8; 32],
}

/// Terminal window size, answered with a fixed 80x24 console.
#[derive(Clone, Copy, Debug, PartialEq, Eq, Structural)]
pub struct Winsize {
    /// Rows.
    pub ws_row: u16,
    /// Columns.
    pub ws_col: u16,
    /// Horizontal pixels.
    pub ws_xpixel: u16,
    /// Vertical pixels.
    pub ws_ypixel: u16,
}

/// The default limit pair reported for resource `resource`.
pub open spec fn rlimit_of(resource: u32) -> RlimitV {
    if resource == 0 {
        RlimitV { soft: 0, hard: 0 }
    } else if resource == 1 {
        RlimitV { soft: u64::MAX, hard: u64::MAX }
    } else if resource == 2 {
        RlimitV { soft: 8388608, hard: u64::MAX }
    } else if resource == 3 {
        RlimitV { soft: 8388608, hard: u64::MAX }
    } else if resource == 4 {
        RlimitV { soft: 1048576, hard: u64::MAX }
    } else if resource == 7 {
        RlimitV { soft: 1024, hard: 1048576 }
    } else if resource == 10 {
        RlimitV { soft: 8388608, hard: 8388608 }
    } else {
        RlimitV { soft: u64::MAX, hard: u64::MAX }
    }
}

/// Report resource limits.
///
/// Only the current process (`pid == 0`) and the fixed slot count are
/// accepted.  The reported limits are the static defaults; a non-null
/// `old_limit` pointer has them stored to it by the embedder.  Newly
/// requested limits are accepted and ignored.
pub fn sys_prlimit64(pid: i32, resource: u32, _new_limit: usize, old_limit: usize) -> (s: Step)
    ensures
        pid != 0 ==> s == Step::Done(-22isize),
        pid == 0 && resource >= RLIM_NLIMITS ==> s == Step::Done(-22isize),
        pid == 0 && resource < RLIM_NLIMITS && old_limit != 0 ==> s == (Step::WriteUser {
            addr: old_limit,
            payload: UserPayload::Rlimit(rlimit_of(resource)),
            ret: 0isize,
        }),
        pid == 0 && resource < RLIM_NLIMITS && old_limit == 0 ==> s == Step::Done(0isize),
{
    if pid != 0 {
        return Step::Done(-22isize);
    }
    if resource >= RLIM_NLIMITS {
        return Step::Done(-22isize);
    }
    let limits = if resource == 0 {
        RlimitV { soft: 0, hard: 0 }
    } else if resource == 1 {
        RlimitV { soft: u64::MAX, hard: u64::MAX }
    } else if resource == 2 {
        RlimitV { soft: 8388608, hard: u64::MAX }
    } else if resource == 3 {
        RlimitV { soft: 8388608, hard: u64::MAX }
    } else if resource == 4 {
        RlimitV { soft: 1048576, hard: u64::MAX }
    } else if resource == 7 {
        RlimitV { soft: 1024, hard: 1048576 }
    } else if resource == 10 {
        RlimitV { soft: 8388608, hard: 8388608 }
    } else {
        RlimitV { soft: u64::MAX, hard: u64::MAX }
    };
    if old_limit != 0 {
        Step::WriteUser { addr: old_limit, payload: UserPayload::Rlimit(limits), ret: 0 }
    } else {
        Step::Done(0isize)
    }
}

/// Look up the target of a symbolic link.
///
/// Only the self-executable path has an answer; everything else is
/// invalid-argument.  The path is first loaded from user memory
/// ([`Step::LoadCString`]) and the lookup continues in
/// [`crate::fs::resume_cstring`].
pub fn sys_readlinkat(_dirfd: i32, path: usize, buf: usize, bufsiz: usize) -> (s: Step)
    ensures
        path == 0 ==> s == Step::Done(-14isize),
        path != 0 ==> s == (Step::LoadCString {
            addr: path,
            cont: StrCont::ReadLinkAt { buf, bufsiz },
        }),
{
    if path == 0 {
        return Step::Done(-14isize);
    }
    Step::LoadCString { addr: path, cont: StrCont::ReadLinkAt { buf, bufsiz } }
}

/// Per-process pseudo-random generator state.
pub struct RngState {
    /// The current seed of the linear congruential generator.
    pub seed: u64,
}

impl RngState {
    /// Fresh state with the fixed initial seed.
    pub fn new() -> (r: RngState)
        ensures
            r.seed == 0xdeadbeefu64,
    {
        RngState { seed: 0xdeadbeef }
    }
}

/// One step of the linear congruential generator.
pub open spec fn lcg_next(s: u64) -> u64 {
    vstd::wrapping::u64_specs::wrapping_add(
        vstd::wrapping::u64_specs::wrapping_mul(s, 6364136223846793005u64),
        1442695040888963407u64,
    )
}

/// The generator state after `n` steps from seed `s`.
pub open spec fn lcg_iter(s: u64, n: nat) -> u64
    decreases n,
{
    if n == 0 {
        s
    } else {
        lcg_next(lcg_iter(s, (n - 1) as nat))
    }
}

/// The `i`-th output byte of the generator started from seed `s`.
pub open spec fn lcg_byte(s: u64, i: nat) -> u8 {
    (lcg_iter(s, i + 1) >> 32) as u8
}

/// Produce pseudo-random bytes.
///
/// A zero length succeeds with nothing to do; more than 512 bytes is
/// invalid-argument; otherwise the generator is advanced once per byte and
/// the bytes are stored to the caller's buffer by the embedder.
pub fn sys_getrandom(rng: &mut RngState, buf: usize, len: usize, _flags: u32) -> (s: Step)
    ensures
        len == 0 ==> s == Step::Done(0isize) && *final(rng) == *old(rng),
        len > 512 ==> s == Step::Done(-22isize) && *final(rng) == *old(rng),
        0 < len <= 512 ==> {
            &&& final(rng).seed == lcg_iter(old(rng).seed, len as nat)
            &&& (s matches Step::WriteUser { addr, payload: UserPayload::Bytes(v), ret } && addr
                == buf && ret == len && v@.len() == len && (forall|k: int|
                0 <= k < len ==> v@[k] == lcg_byte(old(rng).seed, k as nat)))
        },
{
    if len == 0 {
        return Step::Done(0isize);
    }
    if len > 512 {
        return Step::Done(-22isize);
    }
    let mut out: Vec<u8> = Vec::new();
    let mut i: usize = 0;
    while i < len
        invariant
            0 < len <= 512,
            0 <= i <= len,
            rng.seed == lcg_iter(old(rng).seed, i as nat),
            out@.len() == i,
            forall|k: int| 0 <= k < i ==> out@[k] == lcg_byte(old(rng).seed, k as nat),
        decreases len - i,
    {
        let next = rng.seed.wrapping_mul(6364136223846793005u64).wrapping_add(
            1442695040888963407u64,
        );
        rng.seed = next;
        let b = #[verifier::truncate] ((next >> 32) as u8);
        out.push(b);
        i += 1;
    }
    Step::WriteUser { addr: buf, payload: UserPayload::Bytes(out), ret: len as isize }
}

/// The result of a protection change: validation only, since no
/// virtual-memory protection is modeled.
pub open spec fn mprotect_result(addr: usize, len: usize, prot: i32) -> int {
    if len == 0 {
        0
    } else if addr % 4096 != 0 {
        -22
    } else if !(prot == 0 || (prot >= 0 && prot <= 7)) {
        -22
    } else {
        0
    }
}

/// Change the protection of a memory region.
///
/// The address must be page-aligned and the protection one of the closed
/// set of read/write/execute combinations; a valid request succeeds without
/// altering any access control, since no virtual-memory protection
/// mechanism exists in this model.
pub fn sys_mprotect(addr: usize, len: usize, prot: i32) -> (r: isize)
    ensures
        r == mprotect_result(addr, len, prot),
{
    if len == 0 {
        return 0;
    }
    if addr % 4096 != 0 {
        return -22;
    }
    let valid_prot = prot == 0 || (prot >= 0 && prot <= 7);
    if !valid_prot {
        return -22;
    }
    0
}

/// The fixed control-character table reported for the console.
pub open spec fn termios_cc() -> Seq<u8> {
    seq![
        3u8, 28, 127, 21, 4, 1, 0, 0, 17, 19, 26, 0, 18, 15, 23, 22, 0, 0, 0, 0, 0, 0, 0, 0, 0, 0,
        0, 0, 0, 0, 0, 0,
    ]
}

/// The fixed terminal attributes reported for the console.
pub fn default_termios() -> (t: Termios)
    ensures
        t.c_iflag == 0x0300,
        t.c_oflag == 0x0005,
        t.c_cflag == 0xbf08,
        t.c_lflag == 0x8a3b,
        t.c_line == 0,
        t.c_cc@ == termios_cc(),
{
    let t = Termios {
        c_iflag: 0x0300,
        c_oflag: 0x0005,
        c_cflag: 0xbf08,
        c_lflag: 0x8a3b,
        c_line: 0,
        c_cc: [
            3, 28, 127, 21, 4, 1, 0, 0, 17, 19, 26, 0, 18, 15, 23, 22, 0, 0, 0, 0, 0, 0, 0, 0, 0,
            0, 0, 0, 0, 0, 0, 0,
        ],
    };
    proof {
        assert(t.c_cc@ =~= termios_cc());
    }
    t
}

/// The fixed window size reported for the console.
pub fn default_winsize() -> (w: Winsize)
    ensures
        w == (Winsize { ws_row: 24u16, ws_col: 80u16, ws_xpixel: 0u16, ws_ypixel: 0u16 }),
{
    Winsize { ws_row: 24, ws_col: 80, ws_xpixel: 0, ws_ypixel: 0 }
}

/// Terminal and device control.
///
/// A handful of commands get fixed canned answers; attribute and size
/// queries are answered only for the three standard descriptors, everything
/// else is not-a-tty.
pub fn sys_ioctl(fd: i32, cmd: u32, arg: usize) -> (s: Step)
    ensures
        cmd == 0x5421 ==> s == Step::Done(0isize),
        cmd == 0x5401 && (0 <= fd <= 2) ==> (s matches Step::WriteUser {
            addr,
            payload: UserPayload::Termios(t),
            ret,
        } && addr == arg && ret == 0 && t.c_iflag == 0x0300 && t.c_oflag == 0x0005 && t.c_cflag
            == 0xbf08 && t.c_lflag == 0x8a3b && t.c_line == 0 && t.c_cc@ == termios_cc()),
        cmd == 0x5401 && !(0 <= fd <= 2) ==> s == Step::Done(-25isize),
        cmd == 0x5402 ==> s == Step::Done(0isize),
        cmd == 0x5413 && (0 <= fd <= 2) ==> s == (Step::WriteUser {
            addr: arg,
            payload: UserPayload::Winsize(
                Winsize { ws_row: 24u16, ws_col: 80u16, ws_xpixel: 0u16, ws_ypixel: 0u16 },
            ),
            ret: 0isize,
        }),
        cmd == 0x5413 && !(0 <= fd <= 2) ==> s == Step::Done(-25isize),
        cmd == 0x5414 ==> s == Step::Done(0isize),
        cmd != 0x5421 && cmd != 0x5401 && cmd != 0x5402 && cmd != 0x5413 && cmd != 0x5414 ==> s
            == Step::Done(-25isize),
{
    if cmd == 0x5421 {
        // FIONBIO: accept the blocking-mode change without tracking it.
        Step::Done(0isize)
    } else if cmd == 0x5401 {
        // TCGETS: report the fixed attributes for the console descriptors.
        if fd == 0 || fd == 1 || fd == 2 {
            Step::WriteUser { addr: arg, payload: UserPayload::Termios(default_termios()), ret: 0 }
        } else {
            Step::Done(-25isize)
        }
    } else if cmd == 0x5402 {
        // TCSETS: accept the attribute change without tracking it.
        Step::Done(0isize)
    } else if cmd == 0x5413 {
        // TIOCGWINSZ: report the fixed window size for the console.
        if fd == 0 || fd == 1 || fd == 2 {
            Step::WriteUser { addr: arg, payload: UserPayload::Winsize(default_winsize()), ret: 0 }
        } else {
            Step::Done(-25isize)
        }
    } else if cmd == 0x5414 {
        // TIOCSWINSZ: accept the size change without tracking it.
        Step::Done(0isize)
    } else {
        Step::Done(-25isize)
    }
}

} // verus!
