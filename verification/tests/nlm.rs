use nfs_mamont::nfsv3::nfs_fh3;
use nfs_mamont::nlm::{find_conflict, length_from_end, ranges_overlap, HeldLock, Nlm4Lock, OpaqueHandle};

fn lock(owner: &str, svid: i32, offset: u64, length: u64) -> Nlm4Lock {
    Nlm4Lock::new(
        String::from(owner),
        nfs_fh3 { data: [1, 2, 3, 4, 5, 6, 7, 8] },
        OpaqueHandle::new(vec![9]),
        svid,
        offset,
        length,
    )
    .unwrap()
}

#[test]
fn lock_range_must_fit() {
    assert!(Nlm4Lock::new(String::from("a"), nfs_fh3 { data: [0; 8] }, OpaqueHandle::new(Vec::new()), 1, u64::MAX, 1).is_err());
    assert!(Nlm4Lock::new(String::from("a"), nfs_fh3 { data: [0; 8] }, OpaqueHandle::new(Vec::new()), 1, u64::MAX, 0).is_ok());
    assert!(Nlm4Lock::new(String::from("a"), nfs_fh3 { data: [0; 8] }, OpaqueHandle::new(Vec::new()), 1, u64::MAX - 1, 1).is_ok());
}

#[test]
fn end_and_length_round_trip() {
    let l = lock("a", 1, 100, 50);
    assert_eq!(l.start(), 100);
    assert_eq!(l.end(), Some(150));
    assert_eq!(length_from_end(l.start(), l.end()), 50);
    let whole = lock("a", 1, 100, 0);
    assert_eq!(whole.end(), None);
    assert_eq!(length_from_end(whole.start(), whole.end()), 0);
}

#[test]
fn overlap_is_reflexive_symmetric_and_exclusive_ends() {
    let a = lock("a", 1, 0, 10);
    let b = lock("b", 2, 10, 5);
    let c = lock("c", 3, 9, 1);
    let eof = lock("d", 4, 14, 0);
    assert!(ranges_overlap(&a, &a));
    assert!(!ranges_overlap(&a, &b));
    assert!(!ranges_overlap(&b, &a));
    assert!(ranges_overlap(&a, &c));
    assert!(ranges_overlap(&c, &a));
    assert!(ranges_overlap(&b, &eof));
    assert!(ranges_overlap(&eof, &b));
    assert!(!ranges_overlap(&a, &eof));
}

#[test]
fn conflicts_need_overlap_exclusivity_and_another_owner() {
    let held = vec![
        HeldLock { lock: lock("a", 1, 0, 10), exclusive: false },
        HeldLock { lock: lock("b", 2, 20, 10), exclusive: true },
    ];
    assert_eq!(find_conflict(&held, &lock("c", 3, 5, 1), false), None);
    assert_eq!(find_conflict(&held, &lock("c", 3, 5, 1), true), Some(0));
    assert_eq!(find_conflict(&held, &lock("a", 1, 5, 1), true), None);
    assert_eq!(find_conflict(&held, &lock("c", 3, 25, 0), false), Some(1));
    assert_eq!(find_conflict(&held, &lock("b", 2, 25, 1), true), None);
    assert_eq!(find_conflict(&held, &lock("c", 3, 10, 10), true), None);
}
