//! The syscall number table.
//!
//! A static, immutable mapping from raw syscall numbers to the supported
//! calls.  Numbers outside the mapping have no handler; dispatch answers
//! them with the fixed not-implemented code.

use vstd::prelude::*;

verus! {

/// The supported syscalls.
#[derive(Clone, Copy, Debug, PartialEq, Eq, Structural)]
pub enum Sysno {
    Ioctl,
    Fcntl,
    Brk,
    Close,
    OpenAt,
    Lseek,
    Read,
    Write,
    Fstat,
    Exit,
    ExitGroup,
    SetRobustList,
    SetTidAddress,
    Mmap,
    Mprotect,
    Prlimit64,
    Readlinkat,
    Getrandom,
}

/// The number-to-call mapping: the total function behind [`Sysno::from`].
pub open spec fn sysno_of(nr: int) -> Option<Sysno> {
    if nr == 29 {
        Some(Sysno::Ioctl)
    } else if nr == 25 {
        Some(Sysno::Fcntl)
    } else if nr == 12 {
        Some(Sysno::Brk)
    } else if nr == 57 {
        Some(Sysno::Close)
    } else if nr == 56 {
        Some(Sysno::OpenAt)
    } else if nr == 62 {
        Some(Sysno::Lseek)
    } else if nr == 63 {
        Some(Sysno::Read)
    } else if nr == 64 {
        Some(Sysno::Write)
    } else if nr == 80 {
        Some(Sysno::Fstat)
    } else if nr == 93 {
        Some(Sysno::Exit)
    } else if nr == 94 {
        Some(Sysno::ExitGroup)
    } else if nr == 99 {
        Some(Sysno::SetRobustList)
    } else if nr == 218 {
        Some(Sysno::SetTidAddress)
    } else if nr == 222 {
        Some(Sysno::Mmap)
    } else if nr == 226 {
        Some(Sysno::Mprotect)
    } else if nr == 261 {
        Some(Sysno::Prlimit64)
    } else if nr == 79 {
        Some(Sysno::Readlinkat)
    } else if nr == 278 {
        Some(Sysno::Getrandom)
    } else {
        None
    }
}

impl Sysno {
    /// Decode a raw syscall number; `None` for a number outside the
    /// supported set.
    pub fn from(nr: usize) -> (r: Option<Sysno>)
        ensures
            r == sysno_of(nr as int),
    {
        match nr {
            29 => Some(Sysno::Ioctl),
            25 => Some(Sysno::Fcntl),
            12 => Some(Sysno::Brk),
            57 => Some(Sysno::Close),
            56 => Some(Sysno::OpenAt),
            62 => Some(Sysno::Lseek),
            63 => Some(Sysno::Read),
            64 => Some(Sysno::Write),
            80 => Some(Sysno::Fstat),
            93 => Some(Sysno::Exit),
            94 => Some(Sysno::ExitGroup),
            99 => Some(Sysno::SetRobustList),
            218 => Some(Sysno::SetTidAddress),
            222 => Some(Sysno::Mmap),
            226 => Some(Sysno::Mprotect),
            261 => Some(Sysno::Prlimit64),
            79 => Some(Sysno::Readlinkat),
            278 => Some(Sysno::Getrandom),
            _ => None,
        }
    }
}

} // verus!
