//! Thread-id bookkeeping for `set_tid_address`.
//!
//! This single-process model has one task whose id is fixed at 1.  The
//! syscall records the caller-supplied address and, when it is non-null,
//! asks the embedder to store the thread id there; either way the id is the
//! result.

use vstd::prelude::*;

use crate::step::{Step, UserPayload};

verus! {

/// Per-process thread-id state.
pub struct ThreadState {
    /// The task's thread id.
    pub tid: usize,
    /// The recorded clear-child-tid address, 0 when never set.
    pub tid_address: usize,
}

impl ThreadState {
    /// Fresh state: thread id 1, no address recorded.
    pub fn new() -> (th: ThreadState)
        ensures
            th.tid == 1,
            th.tid_address == 0,
    {
        ThreadState { tid: 1, tid_address: 0 }
    }
}

/// Record where the thread id should be written and report the id.
///
/// A non-null address additionally has the id stored to it by the embedder.
pub fn sys_set_tid_address(th: &mut ThreadState, tidp: usize) -> (s: Step)
    requires
        old(th).tid <= 0x7fff_ffff,
    ensures
        final(th).tid == old(th).tid,
        final(th).tid_address == tidp,
        tidp != 0 ==> s == (Step::WriteUser {
            addr: tidp,
            payload: UserPayload::Tid(old(th).tid as i32),
            ret: old(th).tid as isize,
        }),
        tidp == 0 ==> s == Step::Done(old(th).tid as isize),
{
    th.tid_address = tidp;
    let ret = th.tid as isize;
    if tidp != 0 {
        Step::WriteUser { addr: tidp, payload: UserPayload::Tid(th.tid as i32), ret }
    } else {
        Step::Done(ret)
    }
}

/// The current thread id.
pub fn get_tid(th: &ThreadState) -> (r: usize)
    ensures
        r == th.tid,
{
    th.tid
}

/// The recorded clear-child-tid address.
pub fn get_tid_address(th: &ThreadState) -> (r: usize)
    ensures
        r == th.tid_address,
{
    th.tid_address
}

} // verus!
