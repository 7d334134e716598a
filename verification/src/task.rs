//! Task termination.
//!
//! Terminating the calling task is the one divergent control flow in this
//! layer: the host primitive never returns, so from the guest's perspective
//! these calls yield no ABI value.  Here they produce [`Step::Exit`], which
//! the embedder carries out with the host task primitive.

use vstd::prelude::*;

use crate::step::Step;

verus! {

/// Terminate the calling task with `code`; the host action never returns.
pub fn sys_exit(code: i32) -> (s: Step)
    ensures
        s == (Step::Exit { code }),
{
    Step::Exit { code }
}

/// Terminate the process group; identical to [`sys_exit`] in this
/// single-process model, and likewise never returns.
pub fn sys_exit_group(code: i32) -> (s: Step)
    ensures
        s == (Step::Exit { code }),
{
    Step::Exit { code }
}

} // verus!
