//! A Linux syscall ABI compatibility layer for a single-address-space guest.
//!
//! The crate decodes a syscall number plus six register-width arguments,
//! carries out the bookkeeping that the call demands (file-descriptor table,
//! program break, per-process identifiers) and encodes the outcome using the
//! Linux return convention: a non-negative value is success, a negative value
//! is `-errno`.
//!
//! Host work that cannot be performed here (raw user-memory access, real file
//! I/O, task termination) is returned to the embedder as a [`step::Step`]
//! value; the embedder performs it and feeds the outcome back through the
//! matching `resume_*` / `finish_*` function.

pub mod dispatch;
pub mod errno;
pub mod fd_table;
pub mod fs;
pub mod mm;
pub mod step;
pub mod sync;
pub mod sys;
pub mod table;
pub mod task;
pub mod thread;
pub mod uaccess;

use vstd::prelude::*;

verus! {

/// Return value for a syscall number outside the supported set.
pub const ENOSYS: isize = -38;

} // verus!
