//! Behavior of the file-descriptor table: slot allocation, removal,
//! per-slot flags and duplication.

use abi_shim::fd_table::{
    add_file, dup_fd, get_fd_flags, get_file_flags, remove_file, set_fd_flags, set_file_flags,
    with_file_mut, FdTable, FileEntry,
};

#[test]
fn open_returns_lowest_free_index() {
    let mut t: FdTable<i32> = FdTable::new();
    assert_eq!(add_file(&mut t, 100), 0);
    assert_eq!(add_file(&mut t, 101), 1);
    assert_eq!(add_file(&mut t, 102), 2);
    assert_eq!(remove_file(&mut t, 1), Some(101));
    assert_eq!(add_file(&mut t, 103), 1);
    assert_eq!(add_file(&mut t, 104), 3);
}

#[test]
fn removal_keeps_slot_count() {
    let mut t: FdTable<i32> = FdTable::new();
    add_file(&mut t, 1);
    add_file(&mut t, 2);
    add_file(&mut t, 3);
    assert_eq!(t.slot_count(), 3);
    remove_file(&mut t, 2);
    assert_eq!(t.slot_count(), 3);
    remove_file(&mut t, 0);
    assert_eq!(t.slot_count(), 3);
}

#[test]
fn lookups_on_dead_descriptors_fail() {
    let mut t: FdTable<i32> = FdTable::new();
    assert_eq!(remove_file(&mut t, 0), None);
    assert_eq!(remove_file(&mut t, -1), None);
    assert_eq!(get_fd_flags(&t, 0), None);
    assert_eq!(get_file_flags(&t, 7), None);
    assert!(!set_fd_flags(&mut t, 0, 1));
    assert!(!set_file_flags(&mut t, -3, 1));
    let fd = add_file(&mut t, 5);
    assert_eq!(remove_file(&mut t, fd), Some(5));
    assert_eq!(get_fd_flags(&t, fd), None);
    assert_eq!(with_file_mut(&mut t, fd, |f: i32| (f, 0u8)), None);
}

#[test]
fn flag_roundtrip() {
    let mut t: FdTable<i32> = FdTable::new();
    let fd = add_file(&mut t, 9);
    assert_eq!(get_fd_flags(&t, fd), Some(0));
    assert_eq!(get_file_flags(&t, fd), Some(0));
    assert!(set_fd_flags(&mut t, fd, 0x1));
    assert_eq!(get_fd_flags(&t, fd), Some(0x1));
    assert!(set_file_flags(&mut t, fd, 0x800));
    assert_eq!(get_file_flags(&t, fd), Some(0x800));
    assert_eq!(get_fd_flags(&t, fd), Some(0x1));
}

#[test]
fn with_file_mut_replaces_the_object() {
    let mut t: FdTable<i32> = FdTable::new();
    let fd = add_file(&mut t, 10);
    let doubled = with_file_mut(&mut t, fd, |f: i32| (f + 1, f * 2));
    assert_eq!(doubled, Some(20));
    assert_eq!(t.get_file(fd), Some(&11));
    assert_eq!(get_fd_flags(&t, fd), Some(0));
}

#[test]
fn dup_fd_selects_slots() {
    let mut t: FdTable<i32> = FdTable::new();
    assert_eq!(dup_fd(&t, 0, None), -1);
    let a = add_file(&mut t, 1);
    let b = add_file(&mut t, 2);
    add_file(&mut t, 3);
    // no free slot below the length
    assert_eq!(dup_fd(&t, a, None), -1);
    remove_file(&mut t, b);
    assert_eq!(dup_fd(&t, a, None), b);
    assert_eq!(dup_fd(&t, a, Some(-2)), -1);
    assert_eq!(dup_fd(&t, a, Some(9)), 9);
    assert_eq!(dup_fd(&t, b, Some(9)), -1);
}

#[test]
fn interleaved_inserts_and_removals_match_the_oracle() {
    // Serialized insert/remove interleavings against the single-threaded
    // invariant as oracle: every insert takes the lowest free slot, no two
    // live descriptors coincide, and no slot is lost.
    let mut t: FdTable<u64> = FdTable::new();
    let mut oracle: Vec<Option<u64>> = Vec::new();
    let mut x: u64 = 1;
    for round in 0..500u64 {
        // a cheap deterministic driver for the interleaving
        x = x.wrapping_mul(6364136223846793005).wrapping_add(round);
        let act = x % 3;
        if act == 0 && !oracle.is_empty() {
            let victim = ((x >> 8) as usize) % oracle.len();
            let expect = oracle[victim].take();
            assert_eq!(remove_file(&mut t, victim as i32), expect);
        } else {
            let lowest = oracle
                .iter()
                .position(|e| e.is_none())
                .unwrap_or(oracle.len());
            let fd = add_file(&mut t, x);
            assert_eq!(fd as usize, lowest);
            if lowest == oracle.len() {
                oracle.push(Some(x));
            } else {
                assert!(oracle[lowest].is_none(), "insert reused a live slot");
                oracle[lowest] = Some(x);
            }
        }
        assert_eq!(t.slot_count(), oracle.len());
        for (i, e) in oracle.iter().enumerate() {
            assert_eq!(t.get_file(i as i32), e.as_ref());
        }
    }
}

#[test]
fn file_entry_starts_with_empty_flags() {
    let e = FileEntry::new(42i32);
    assert_eq!(e.file, 42);
    assert_eq!(e.fd_flags, 0);
    assert_eq!(e.file_flags, 0);
}
