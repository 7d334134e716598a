//! Robust-list bookkeeping for `set_robust_list`.
//!
//! In this single-process model the layer only validates the supplied
//! length and records the head pointer; nothing walks the list.

use vstd::prelude::*;

verus! {

/// The size of the robust-list head structure that callers must supply.
pub const ROBUST_LIST_HEAD_SIZE: usize = 16;

/// Per-process robust-list state.
pub struct SyncState {
    /// The address of the caller's robust-list head, 0 when never set.
    pub robust_list_head: usize,
}

impl SyncState {
    /// Fresh state: no robust list registered.
    pub fn new() -> (st: SyncState)
        ensures
            st.robust_list_head == 0,
    {
        SyncState { robust_list_head: 0 }
    }
}

/// Record the robust-list head pointer.
///
/// The supplied length must equal the fixed head-structure size, else the
/// call fails with invalid-argument and the state is untouched.
pub fn sys_set_robust_list(st: &mut SyncState, head: usize, len: usize) -> (r: isize)
    ensures
        len != ROBUST_LIST_HEAD_SIZE ==> r == -22 && *final(st) == *old(st),
        len == ROBUST_LIST_HEAD_SIZE ==> r == 0 && final(st).robust_list_head == head,
{
    if len != ROBUST_LIST_HEAD_SIZE {
        return -22;
    }
    st.robust_list_head = head;
    0
}

/// The recorded robust-list head pointer.
pub fn get_robust_list_head(st: &SyncState) -> (r: usize)
    ensures
        r == st.robust_list_head,
{
    st.robust_list_head
}

} // verus!
