//! The host-work protocol.
//!
//! A syscall handler either finishes on its own — yielding [`Step::Done`] —
//! or needs work that only the embedder can perform: a raw user-memory
//! access, real file I/O, a host allocation, or task termination.  Such work
//! is described by the other [`Step`] variants.  The embedder performs the
//! described action and feeds its outcome back into the matching `resume_*`
//! or `finish_*` function, which yields the next step.
//!
//! Every decision — validation, descriptor lookup, flag bookkeeping, result
//! encoding — is made on this side of the boundary; the embedder only moves
//! bytes and calls host primitives.

use vstd::prelude::*;

use crate::fs::{KStat, OpenOpts};
use crate::sys::{RlimitV, Termios, Winsize};

verus! {

/// Where a file position change starts from.
#[derive(Clone, Copy, Debug, PartialEq, Eq, Structural)]
pub enum SeekFrom {
    /// From the beginning of the file.
    Start(u64),
    /// From the current position.
    Current(i64),
    /// From the end of the file.
    End(i64),
}

/// A host file operation on the file object of a live descriptor.
#[derive(Clone, Copy, Debug, PartialEq, Eq, Structural)]
pub enum FileOp {
    /// Read up to `count` bytes into the user buffer at `buf`.
    Read { buf: usize, count: usize },
    /// Write `count` bytes from the user buffer at `buf`.
    Write { buf: usize, count: usize },
    /// Reposition the file.
    Seek { pos: SeekFrom },
    /// Report the file's byte length, leaving the position unchanged.
    SizeProbe,
}

/// A value to be stored into user memory at a caller-supplied address.
#[derive(Debug, PartialEq, Eq)]
pub enum UserPayload {
    /// Raw bytes.
    Bytes(Vec<u8>),
    /// A file status structure.
    Stat(KStat),
    /// A resource-limit pair.
    Rlimit(RlimitV),
    /// Terminal attributes.
    Termios(Termios),
    /// Terminal window size.
    Winsize(Winsize),
    /// A thread id, stored as a 32-bit integer.
    Tid(i32),
}

/// What a loaded C string is wanted for; handed back unchanged to
/// [`crate::fs::resume_cstring`].
#[derive(Clone, Copy, Debug, PartialEq, Eq, Structural)]
pub enum StrCont {
    /// The path argument of `openat`, with the raw open flags.
    OpenAt { flags: u32 },
    /// The path argument of `readlinkat`, with the output buffer.
    ReadLinkAt { buf: usize, bufsiz: usize },
}

/// One step of a syscall: either its final ABI result or one piece of host
/// work together with what is needed to continue afterwards.
#[derive(Debug, PartialEq, Eq)]
pub enum Step {
    /// The syscall is complete with this ABI result.
    Done(isize),
    /// Store `payload` at `addr`, then the syscall is complete with `ret`.
    WriteUser { addr: usize, payload: UserPayload, ret: isize },
    /// Load the NUL-terminated string at `addr` (at most the fixed maximum
    /// number of bytes) and continue via [`crate::fs::resume_cstring`].
    LoadCString { addr: usize, cont: StrCont },
    /// Open `path` with `opts` against the host filesystem and continue via
    /// [`crate::fs::resume_open`].
    OpenPath { path: String, opts: OpenOpts },
    /// Perform `op` on the file object of descriptor `fd` and continue via
    /// the matching `finish_*` function.
    File { fd: i32, op: FileOp },
    /// Allocate `len` zero-filled, page-aligned bytes from the host
    /// allocator and continue via [`crate::mm::resume_alloc`].
    Alloc { len: usize },
    /// Terminate the calling task with `code`.  The host primitive never
    /// returns, so there is nothing to resume.
    Exit { code: i32 },
}

} // verus!
