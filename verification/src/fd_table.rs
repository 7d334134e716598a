//! The file-descriptor table.
//!
//! A process-wide registry mapping small non-negative integers to open file
//! objects plus per-descriptor metadata.  The table is an ordered collection
//! of optional entries: a slot holding `Some` is live, a slot holding `None`
//! is free.  Insertion always takes the lowest-numbered free slot and grows
//! the table by one slot only when no free slot exists; removal clears the
//! slot without shrinking, so slots are recycled.
//!
//! The table is an explicitly owned value; the embedder that shares it
//! between tasks serializes access to it (for example with a spin lock) and
//! every operation here runs under that exclusive access, which is what the
//! `&mut` receivers express.
//!
//! The table is generic in the file object `T`: the real open-file handle is
//! owned by the host filesystem and is opaque to this layer.

use vstd::prelude::*;

verus! {

/// File-descriptor flag: close-on-exec.
pub const FD_CLOEXEC: u32 = 0x1;

/// File status flag: non-blocking.
pub const FD_NONBLOCK: u32 = 0x800;

/// A live table slot: the file object plus per-descriptor metadata.
pub struct FileEntry<T> {
    /// The host-owned open file object.
    pub file: T,
    /// Per-descriptor flags (`FD_CLOEXEC` and friends).
    pub fd_flags: u32,
    /// File status flags (`FD_NONBLOCK` and friends), tracked per slot.
    pub file_flags: u32,
}

impl<T> FileEntry<T> {
    /// A fresh entry: both flag sets start empty.
    pub fn new(file: T) -> (e: FileEntry<T>)
        ensures
            e.file == file,
            e.fd_flags == 0,
            e.file_flags == 0,
    {
        FileEntry { file, fd_flags: 0, file_flags: 0 }
    }
}

/// The file-descriptor table itself.
pub struct FdTable<T> {
    entries: Vec<Option<FileEntry<T>>>,
}

impl<T> View for FdTable<T> {
    type V = Seq<Option<FileEntry<T>>>;

    closed spec fn view(&self) -> Seq<Option<FileEntry<T>>> {
        self.entries@
    }
}

/// `fd` denotes a live slot of the table model `s`.
pub open spec fn fd_live<T>(s: Seq<Option<FileEntry<T>>>, fd: int) -> bool {
    0 <= fd < s.len() && s[fd] is Some
}

/// The lowest free index of `s` at or above `i`; `s.len()` when every
/// existing slot from `i` on is live.
pub open spec fn lowest_free_from<T>(s: Seq<Option<FileEntry<T>>>, i: int) -> int
    decreases s.len() - i,
{
    if i >= s.len() {
        i
    } else if s[i] is None {
        i
    } else {
        lowest_free_from(s, i + 1)
    }
}

/// The lowest free index of the whole table model.
pub open spec fn lowest_free<T>(s: Seq<Option<FileEntry<T>>>) -> int {
    lowest_free_from(s, 0)
}

/// The table model after inserting `file`: the lowest free slot becomes a
/// fresh live entry; a new slot is added only when no slot was free.
pub open spec fn insert_model<T>(s: Seq<Option<FileEntry<T>>>, file: T) -> Seq<Option<FileEntry<T>>> {
    let fresh = FileEntry { file, fd_flags: 0u32, file_flags: 0u32 };
    if lowest_free(s) == s.len() {
        s.push(Some(fresh))
    } else {
        s.update(lowest_free(s), Some(fresh))
    }
}

/// Skipping an all-live prefix does not change the lowest free index.
proof fn lemma_lowest_free_skip<T>(s: Seq<Option<FileEntry<T>>>, i: int)
    requires
        0 <= i <= s.len(),
        forall|j: int| 0 <= j < i ==> s[j] is Some,
    ensures
        lowest_free(s) == lowest_free_from(s, i),
    decreases i,
{
    if i > 0 {
        lemma_lowest_free_skip(s, i - 1);
    }
}

/// The lowest free index is within bounds, denotes a free slot when it is an
/// existing one, and everything below it is live.
pub proof fn lemma_lowest_free_in_range<T>(s: Seq<Option<FileEntry<T>>>)
    ensures
        0 <= lowest_free(s) <= s.len(),
        lowest_free(s) < s.len() ==> s[lowest_free(s)] is None,
        forall|j: int| 0 <= j < lowest_free(s) ==> s[j] is Some,
{
    lemma_lowest_free_from_props(s, 0);
}

proof fn lemma_lowest_free_from_props<T>(s: Seq<Option<FileEntry<T>>>, i: int)
    requires
        0 <= i <= s.len(),
    ensures
        i <= lowest_free_from(s, i) <= s.len(),
        lowest_free_from(s, i) < s.len() ==> s[lowest_free_from(s, i)] is None,
        forall|j: int| i <= j < lowest_free_from(s, i) ==> s[j] is Some,
    decreases s.len() - i,
{
    if i < s.len() && !(s[i] is None) {
        lemma_lowest_free_from_props(s, i + 1);
    }
}

impl<T> FdTable<T> {
    /// An empty table: no slots at all.
    pub fn new() -> (t: FdTable<T>)
        ensures
            t@ == Seq::<Option<FileEntry<T>>>::empty(),
    {
        let t = FdTable { entries: Vec::new() };
        proof {
            assert(t@ =~= Seq::<Option<FileEntry<T>>>::empty());
        }
        t
    }

    /// The number of slots the table currently has, live and free alike.
    pub fn slot_count(&self) -> (n: usize)
        ensures
            n == self@.len(),
    {
        self.entries.len()
    }

    /// `fd` denotes a live slot.
    pub fn is_live(&self, fd: i32) -> (b: bool)
        ensures
            b == fd_live(self@, fd as int),
    {
        if fd < 0 {
            false
        } else {
            let i = fd as usize;
            if i >= self.entries.len() {
                false
            } else {
                self.entries[i].is_some()
            }
        }
    }

    /// Accept ownership of a file object and return its descriptor: always
    /// the lowest free index, growing the table only when no slot is free.
    pub fn insert(&mut self, file: T) -> (fd: i32)
        requires
            old(self)@.len() < 0x7fff_ffff,
        ensures
            fd as int == lowest_free(old(self)@),
            0 <= fd,
            final(self)@ == insert_model(old(self)@, file),
    {
        let ghost s = self@;
        let n = self.entries.len();
        let mut idx: usize = 0;
        while idx < n && self.entries[idx].is_some()
            invariant
                self == old(self),
                n == self@.len(),
                0 <= idx <= n,
                forall|j: int| 0 <= j < idx ==> self@[j] is Some,
            decreases n - idx,
        {
            idx += 1;
        }
        proof {
            lemma_lowest_free_skip(s, idx as int);
        }
        let fresh = FileEntry { file, fd_flags: 0, file_flags: 0 };
        if idx == n {
            self.entries.push(Some(fresh));
        } else {
            self.entries[idx] = Some(fresh);
        }
        idx as i32
    }

    /// Release a live slot, handing back the file object it held; the slot
    /// becomes free and the table does not shrink.
    pub fn remove(&mut self, fd: i32) -> (r: Option<T>)
        ensures
            r is Some <==> fd_live(old(self)@, fd as int),
            fd_live(old(self)@, fd as int) ==> {
                &&& r == Some(old(self)@[fd as int]->Some_0.file)
                &&& final(self)@ == old(self)@.update(fd as int, None::<FileEntry<T>>)
            },
            !fd_live(old(self)@, fd as int) ==> final(self)@ == old(self)@,
    {
        if fd < 0 {
            return None;
        }
        let i = fd as usize;
        if i >= self.entries.len() {
            return None;
        }
        let mut slot: Option<FileEntry<T>> = None;
        core::mem::swap(&mut self.entries[i], &mut slot);
        match slot {
            Some(e) => Some(e.file),
            None => {
                proof {
                    assert(self@ =~= old(self)@);
                }
                None
            }
        }
    }

    /// Borrow the file object of a live slot, if any.
    ///
    /// The embedder uses this to extract the file reference under the table
    /// lock and perform host I/O after releasing it.
    pub fn get_file(&self, fd: i32) -> (r: Option<&T>)
        ensures
            r is Some <==> fd_live(self@, fd as int),
            fd_live(self@, fd as int) ==> *r->Some_0 == self@[fd as int]->Some_0.file,
    {
        if fd < 0 {
            return None;
        }
        let i = fd as usize;
        if i >= self.entries.len() {
            return None;
        }
        match &self.entries[i] {
            Some(e) => Some(&e.file),
            None => None,
        }
    }
}

/// Add a file to the table and return its descriptor (the lowest free index).
pub fn add_file<T>(table: &mut FdTable<T>, file: T) -> (fd: i32)
    requires
        old(table)@.len() < 0x7fff_ffff,
    ensures
        fd as int == lowest_free(old(table)@),
        0 <= fd,
        final(table)@ == insert_model(old(table)@, file),
{
    table.insert(file)
}

/// Remove a file from the table, handing its file object back.
pub fn remove_file<T>(table: &mut FdTable<T>, fd: i32) -> (r: Option<T>)
    ensures
        r is Some <==> fd_live(old(table)@, fd as int),
        fd_live(old(table)@, fd as int) ==> {
            &&& r == Some(old(table)@[fd as int]->Some_0.file)
            &&& final(table)@ == old(table)@.update(fd as int, None::<FileEntry<T>>)
        },
        !fd_live(old(table)@, fd as int) ==> final(table)@ == old(table)@,
{
    table.remove(fd)
}

/// Apply `f` to the file object of a live slot, replacing the object with
/// the one `f` hands back; the slot's flags are untouched.  Returns `None`,
/// leaving the table unchanged, when `fd` is not live.
pub fn with_file_mut<T, R, F: FnOnce(T) -> (T, R)>(table: &mut FdTable<T>, fd: i32, f: F) -> (res:
    Option<R>)
    requires
        fd_live(old(table)@, fd as int) ==> call_requires(
            f,
            (old(table)@[fd as int]->Some_0.file,),
        ),
    ensures
        res is Some <==> fd_live(old(table)@, fd as int),
        !fd_live(old(table)@, fd as int) ==> final(table)@ == old(table)@,
        fd_live(old(table)@, fd as int) ==> {
            &&& fd_live(final(table)@, fd as int)
            &&& call_ensures(
                f,
                (old(table)@[fd as int]->Some_0.file,),
                (final(table)@[fd as int]->Some_0.file, res->Some_0),
            )
            &&& final(table)@ == old(table)@.update(
                fd as int,
                Some(
                    FileEntry {
                        file: final(table)@[fd as int]->Some_0.file,
                        fd_flags: old(table)@[fd as int]->Some_0.fd_flags,
                        file_flags: old(table)@[fd as int]->Some_0.file_flags,
                    },
                ),
            )
        },
{
    if fd < 0 {
        return None;
    }
    let i = fd as usize;
    if i >= table.entries.len() {
        return None;
    }
    let mut slot: Option<FileEntry<T>> = None;
    core::mem::swap(&mut table.entries[i], &mut slot);
    match slot {
        Some(e) => {
            let (file2, r) = f(e.file);
            let ghost gfile2 = file2;
            table.entries[i] = Some(
                FileEntry { file: file2, fd_flags: e.fd_flags, file_flags: e.file_flags },
            );
            proof {
                assert(call_ensures(f, (old(table)@[fd as int]->Some_0.file,), (gfile2, r)));
            }
            Some(r)
        }
        None => {
            proof {
                assert(table@ =~= old(table)@);
            }
            None
        }
    }
}

/// Read the per-descriptor flags of a live slot.
pub fn get_fd_flags<T>(table: &FdTable<T>, fd: i32) -> (r: Option<u32>)
    ensures
        r == if fd_live(table@, fd as int) {
            Some(table@[fd as int]->Some_0.fd_flags)
        } else {
            None::<u32>
        },
{
    match table.get_file(fd) {
        Some(_) => Some(read_fd_flags(table, fd)),
        None => None,
    }
}

fn read_fd_flags<T>(table: &FdTable<T>, fd: i32) -> (r: u32)
    requires
        fd_live(table@, fd as int),
    ensures
        r == table@[fd as int]->Some_0.fd_flags,
{
    let i = fd as usize;
    match &table.entries[i] {
        Some(e) => e.fd_flags,
        None => 0,
    }
}

/// Replace the per-descriptor flags of a live slot; reports whether the
/// descriptor was live.
pub fn set_fd_flags<T>(table: &mut FdTable<T>, fd: i32, flags: u32) -> (ok: bool)
    ensures
        ok == fd_live(old(table)@, fd as int),
        ok ==> final(table)@ == old(table)@.update(
            fd as int,
            Some(
                FileEntry {
                    file: old(table)@[fd as int]->Some_0.file,
                    fd_flags: flags,
                    file_flags: old(table)@[fd as int]->Some_0.file_flags,
                },
            ),
        ),
        !ok ==> final(table)@ == old(table)@,
{
    if fd < 0 {
        return false;
    }
    let i = fd as usize;
    if i >= table.entries.len() {
        return false;
    }
    match &mut table.entries[i] {
        Some(e) => {
            e.fd_flags = flags;
            true
        }
        None => {
            proof {
                assert(table@ =~= old(table)@);
            }
            false
        }
    }
}

/// Read the file status flags of a live slot.
pub fn get_file_flags<T>(table: &FdTable<T>, fd: i32) -> (r: Option<u32>)
    ensures
        r == if fd_live(table@, fd as int) {
            Some(table@[fd as int]->Some_0.file_flags)
        } else {
            None::<u32>
        },
{
    if fd < 0 {
        return None;
    }
    let i = fd as usize;
    if i >= table.entries.len() {
        return None;
    }
    match &table.entries[i] {
        Some(e) => Some(e.file_flags),
        None => None,
    }
}

/// Replace the file status flags of a live slot; reports whether the
/// descriptor was live.
pub fn set_file_flags<T>(table: &mut FdTable<T>, fd: i32, flags: u32) -> (ok: bool)
    ensures
        ok == fd_live(old(table)@, fd as int),
        ok ==> final(table)@ == old(table)@.update(
            fd as int,
            Some(
                FileEntry {
                    file: old(table)@[fd as int]->Some_0.file,
                    fd_flags: old(table)@[fd as int]->Some_0.fd_flags,
                    file_flags: flags,
                },
            ),
        ),
        !ok ==> final(table)@ == old(table)@,
{
    if fd < 0 {
        return false;
    }
    let i = fd as usize;
    if i >= table.entries.len() {
        return false;
    }
    match &mut table.entries[i] {
        Some(e) => {
            e.file_flags = flags;
            true
        }
        None => {
            proof {
                assert(table@ =~= old(table)@);
            }
            false
        }
    }
}

/// Report which descriptor a duplication of `old_fd` would use.
///
/// The file object is an exclusively owned capability, so the table cannot
/// reference one file from two slots; this operation therefore only selects
/// the slot a duplicate would take (the lowest free index, or the requested
/// target) and performs no insertion.  It returns `-1` when `old_fd` is not
/// live, when no free slot exists, or when the requested target is negative.
pub fn dup_fd<T>(table: &FdTable<T>, old_fd: i32, new_fd: Option<i32>) -> (r: i32)
    requires
        table@.len() < 0x7fff_ffff,
    ensures
        !fd_live(table@, old_fd as int) ==> r == -1,
        fd_live(table@, old_fd as int) ==> r as int == match new_fd {
            None => if lowest_free(table@) < table@.len() {
                lowest_free(table@)
            } else {
                -1
            },
            Some(t) => if t < 0 {
                -1
            } else {
                t as int
            },
        },
{
    if !table.is_live(old_fd) {
        return -1;
    }
    match new_fd {
        None => {
            let n = table.entries.len();
            let mut idx: usize = 0;
            while idx < n && table.entries[idx].is_some()
                invariant
                    n == table@.len(),
                    0 <= idx <= n,
                    forall|j: int| 0 <= j < idx ==> table@[j] is Some,
                decreases n - idx,
            {
                idx += 1;
            }
            proof {
                lemma_lowest_free_skip(table@, idx as int);
            }
            if idx < n {
                idx as i32
            } else {
                -1
            }
        }
        Some(target) => {
            if target < 0 {
                -1
            } else {
                target
            }
        }
    }
}

/// Law: an insertion takes a slot that was free, makes exactly that slot
/// live, and loses no live slot; in particular a second insertion, serialized
/// after the first, can never hand out the same descriptor again while the
/// first is still live.
pub proof fn lemma_insert_fresh_distinct<T>(s: Seq<Option<FileEntry<T>>>, file: T)
    ensures
        !fd_live(s, lowest_free(s)),
        fd_live(insert_model(s, file), lowest_free(s)),
        lowest_free(insert_model(s, file)) != lowest_free(s),
        forall|j: int| fd_live(s, j) ==> fd_live(#[trigger] insert_model(s, file), j),
        forall|j: int|
            fd_live(#[trigger] insert_model(s, file), j) && j != lowest_free(s) ==> fd_live(s, j),
{
    lemma_lowest_free_in_range(s);
    lemma_lowest_free_in_range(insert_model(s, file));
}

/// Law: clearing a slot makes it the next one handed out whenever it lies
/// below every currently free index; otherwise the lowest free index is
/// unaffected.  Together with the insertion law this pins, for every
/// sequence of opens and closes, which descriptor the next open returns.
pub proof fn lemma_remove_lowers_next_fd<T>(s: Seq<Option<FileEntry<T>>>, j: int)
    requires
        0 <= j < s.len(),
    ensures
        lowest_free(s.update(j, None::<FileEntry<T>>)) == if j < lowest_free(s) {
            j
        } else {
            lowest_free(s)
        },
{
    let s2 = s.update(j, None::<FileEntry<T>>);
    lemma_lowest_free_in_range(s);
    if j < lowest_free(s) {
        lemma_lowest_free_skip(s2, j);
    } else {
        lemma_lowest_free_skip(s2, lowest_free(s));
    }
}

/// Law: replacing the per-descriptor flags of a live slot and reading them
/// back yields exactly the flags that were set, and no other slot changes.
pub proof fn lemma_fd_flags_roundtrip<T>(s: Seq<Option<FileEntry<T>>>, fd: int, flags: u32)
    requires
        fd_live(s, fd),
    ensures
        ({
            let s2 = s.update(
                fd,
                Some(
                    FileEntry {
                        file: s[fd]->Some_0.file,
                        fd_flags: flags,
                        file_flags: s[fd]->Some_0.file_flags,
                    },
                ),
            );
            &&& fd_live(s2, fd)
            &&& s2[fd]->Some_0.fd_flags == flags
            &&& forall|j: int| 0 <= j < s.len() && j != fd ==> s2[j] == s[j]
        }),
{
}

} // verus!
