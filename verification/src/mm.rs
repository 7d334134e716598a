//! The address-space tracker: program break and anonymous mappings.
//!
//! The break is a single monotonically non-decreasing address, lazily
//! initialized to a fixed base on the first query.  Anonymous mappings are
//! allocated by the host allocator; this side validates the request, rounds
//! the length to whole pages, and keeps the advisory region list.
//!
//! Like the descriptor table, this state is one explicitly owned value that
//! the embedder serializes access to.

use vstd::prelude::*;

use crate::step::Step;
use crate::ENOSYS;

verus! {

/// The fixed base the break starts at on its first query.
pub const BRK_BASE: usize = 0x10000;

/// The page size every mapping length is rounded up to.
pub const PAGE_SIZE: usize = 4096;

/// Mapping-request flag: the mapping is anonymous (not file-backed).
pub const MAP_ANONYMOUS: usize = 0x20;

/// One anonymous allocation, recorded for advisory bookkeeping only.
#[derive(Clone, Copy, Debug, PartialEq, Eq, Structural)]
pub struct MemoryRegion {
    /// Base address the host allocator returned.
    pub base: usize,
    /// Page-rounded length of the region.
    pub len: usize,
}

/// Per-process address-space state.
pub struct MemoryState {
    /// The program break; 0 means not yet initialized.
    pub brk: usize,
    /// Advisory record of anonymous allocations.
    pub regions: Vec<MemoryRegion>,
}

impl MemoryState {
    /// Fresh state: break uninitialized, no regions.
    pub fn new() -> (m: MemoryState)
        ensures
            m.brk == 0,
            m.regions@ == Seq::<MemoryRegion>::empty(),
    {
        let m = MemoryState { brk: 0, regions: Vec::new() };
        proof {
            assert(m.regions@ =~= Seq::<MemoryRegion>::empty());
        }
        m
    }
}

/// The break after a query-or-raise with argument `addr`.
pub open spec fn brk_after(cur: usize, addr: usize) -> usize {
    if addr == 0 {
        if cur == 0 {
            BRK_BASE
        } else {
            cur
        }
    } else if addr > cur {
        addr
    } else {
        cur
    }
}

/// Query or raise the program break.
///
/// `addr == 0` queries the current break, initializing it to the fixed base
/// on the first call; `addr` above the current break raises the break to
/// `addr`; any other `addr` leaves the break unchanged.  The resulting break
/// is returned, and it never decreases.
pub fn sys_brk(mem: &mut MemoryState, addr: usize) -> (r: isize)
    ensures
        final(mem).brk == brk_after(old(mem).brk, addr),
        final(mem).brk >= old(mem).brk,
        final(mem).regions == old(mem).regions,
        r == final(mem).brk as isize,
{
    if addr == 0 {
        if mem.brk == 0 {
            mem.brk = BRK_BASE;
        }
    } else if addr > mem.brk {
        mem.brk = addr;
    }
    #[verifier::truncate] (mem.brk as isize)
}

/// The mapping length rounded up to whole pages.
pub open spec fn page_round_up(len: usize) -> int {
    ((len + PAGE_SIZE - 1) / (PAGE_SIZE as int)) * (PAGE_SIZE as int)
}

/// Validate an anonymous-mapping request.
///
/// Only anonymous mappings are supported: a request without the anonymous
/// flag fails as not-implemented.  A zero length fails as invalid-argument;
/// a length whose page rounding cannot be represented fails as
/// out-of-memory.  Otherwise the page-rounded length is handed to the host
/// allocator ([`Step::Alloc`]) and the outcome continues in
/// [`resume_alloc`].
pub fn sys_mmap(
    _addr: usize,
    len: usize,
    _prot: usize,
    flags: usize,
    _fd: usize,
    _offset: usize,
) -> (s: Step)
    ensures
        flags & MAP_ANONYMOUS == 0 ==> s == Step::Done(ENOSYS),
        flags & MAP_ANONYMOUS != 0 && len == 0 ==> s == Step::Done(-22isize),
        flags & MAP_ANONYMOUS != 0 && len > usize::MAX - (PAGE_SIZE - 1) ==> s == Step::Done(-12isize),
        flags & MAP_ANONYMOUS != 0 && 0 < len <= usize::MAX - (PAGE_SIZE - 1) ==> s == (Step::Alloc {
            len: page_round_up(len) as usize,
        }),
{
    if flags & MAP_ANONYMOUS == 0 {
        return Step::Done(ENOSYS);
    }
    if len == 0 {
        return Step::Done(-22isize);
    }
    if len > usize::MAX - (PAGE_SIZE - 1) {
        return Step::Done(-12isize);
    }
    let aligned: usize = ((len + (PAGE_SIZE - 1)) / PAGE_SIZE) * PAGE_SIZE;
    Step::Alloc { len: aligned }
}

/// Law: the page rounding yields a whole, non-zero number of pages
/// covering the requested length: a multiple of the page size, at least
/// the length, and less than one page beyond it.
pub proof fn lemma_page_round_up_covers(len: usize)
    requires
        0 < len,
    ensures
        page_round_up(len) % (PAGE_SIZE as int) == 0,
        page_round_up(len) >= len,
        page_round_up(len) < len + PAGE_SIZE,
{
    let n = len + PAGE_SIZE - 1;
    let p = PAGE_SIZE as int;
    vstd::arithmetic::div_mod::lemma_fundamental_div_mod(n, p);
    vstd::arithmetic::div_mod::lemma_mod_bound(n, p);
    vstd::arithmetic::div_mod::lemma_mod_multiples_basic(n / p, p);
}

/// Record the host allocator's answer for an anonymous mapping of
/// page-rounded length `len`.
///
/// `None` means the host allocator is exhausted: the request fails as
/// out-of-memory and nothing is recorded.  Otherwise the region is added to
/// the advisory list and its base address is the result.
pub fn resume_alloc(mem: &mut MemoryState, len: usize, base: Option<usize>) -> (r: isize)
    ensures
        base is None ==> r == -12 && *final(mem) == *old(mem),
        base matches Some(a) ==> {
            &&& r == a as isize
            &&& final(mem).brk == old(mem).brk
            &&& final(mem).regions@ == old(mem).regions@.push(MemoryRegion { base: a, len })
        },
{
    match base {
        Some(a) => {
            mem.regions.push(MemoryRegion { base: a, len });
            #[verifier::truncate] (a as isize)
        }
        None => -12,
    }
}

} // verus!
