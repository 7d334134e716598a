//! The user-memory marshaler.
//!
//! Guest and host share one address space, so "loading" caller-supplied
//! memory is a bounds-checked direct read, not a page-table walk — a
//! deliberate simplification of this layer.  The embedder fetches a raw
//! window of at most [`MAX_PATH`] bytes from the caller's address (null
//! addresses are rejected before any fetch); everything decided about those
//! bytes — the bounded terminator scan and the text decoding — happens
//! here.

use vstd::prelude::*;
use vstd::utf8::{decode_utf8, valid_utf8};

use crate::errno::SysError;

verus! {

/// The longest C string this layer will scan; the scan never looks past
/// this many bytes even when no terminator was found.
pub const MAX_PATH: usize = 4096;

/// The index of the first NUL byte of `s` at or after `i`, looking no
/// further than the fixed maximum.
pub open spec fn nul_scan(s: Seq<u8>, i: int) -> Option<int>
    decreases 4096 - i,
{
    if i < 0 || i >= 4096 || i >= s.len() {
        None
    } else if s[i] == 0 {
        Some(i)
    } else {
        nul_scan(s, i + 1)
    }
}

/// The index of the terminating NUL of the C string at the start of `s`,
/// if one exists within the fixed maximum.
pub open spec fn cstr_nul(s: Seq<u8>) -> Option<int> {
    nul_scan(s, 0)
}

/// Skipping a NUL-free prefix does not change the scan's answer.
proof fn lemma_nul_scan_skip(s: Seq<u8>, i: int)
    requires
        0 <= i <= s.len(),
        i <= 4096,
        forall|j: int| 0 <= j < i ==> s[j] != 0,
    ensures
        cstr_nul(s) == nul_scan(s, i),
    decreases i,
{
    if i > 0 {
        lemma_nul_scan_skip(s, i - 1);
    }
}

/// Relies on `core::str::from_utf8` together with `String::from`: the
/// conversion succeeds exactly on valid UTF-8 and yields its decoding.
#[verifier::external_body]
fn utf8_to_string(bytes: &[u8]) -> (r: Option<String>)
    ensures
        r is Some <==> valid_utf8(bytes@),
        r matches Some(s) ==> s@ == decode_utf8(bytes@),
{
    match core::str::from_utf8(bytes) {
        Ok(s) => Some(String::from(s)),
        Err(_) => None,
    }
}

/// Decode the NUL-terminated string at the start of `window`.
///
/// `window` is the raw byte window the embedder fetched from the caller's
/// (non-null) address.  The terminator is looked for within the first
/// [`MAX_PATH`] bytes only: a string running past that bound is rejected as
/// invalid input, and bytes that do not decode as UTF-8 text are rejected
/// as invalid data.
pub fn load_cstring(window: &Vec<u8>) -> (r: Result<String, SysError>)
    ensures
        cstr_nul(window@) is None ==> r == Err::<String, SysError>(SysError::InvalidArgument),
        cstr_nul(window@) matches Some(i) && !valid_utf8(window@.take(i)) ==> r == Err::<
            String,
            SysError,
        >(SysError::InvalidData),
        cstr_nul(window@) matches Some(i) ==> (valid_utf8(window@.take(i)) ==> (r matches Ok(s)
            && s@ == decode_utf8(window@.take(i)))),
{
    let n = window.len();
    let mut i: usize = 0;
    while i < n && i < MAX_PATH && window[i] != 0
        invariant
            0 <= i <= n,
            i <= MAX_PATH,
            n == window@.len(),
            forall|j: int| 0 <= j < i ==> window@[j] != 0,
        decreases n - i,
    {
        i += 1;
    }
    proof {
        lemma_nul_scan_skip(window@, i as int);
    }
    if i >= n || i >= MAX_PATH {
        return Err(SysError::InvalidArgument);
    }
    let prefix = vstd::slice::slice_subrange(window.as_slice(), 0, i);
    proof {
        assert(prefix@ =~= window@.take(i as int));
    }
    match utf8_to_string(prefix) {
        Some(s) => Ok(s),
        None => Err(SysError::InvalidData),
    }
}

} // verus!
