use nfs_mamont::protocol::rpc::transaction_tracker::{housekeeping, TransactionState, TransactionTracker};

#[test]
fn a_call_seen_twice_is_a_retransmission() {
    let mut tracker = TransactionTracker::new(1_000_000_000);
    assert!(!tracker.is_retransmission(1, "10.0.0.1:700"));
    assert!(tracker.is_retransmission(1, "10.0.0.1:700"));
    assert!(!tracker.is_retransmission(1, "10.0.0.2:700"));
    assert!(!tracker.is_retransmission(2, "10.0.0.1:700"));
    tracker.mark_processed(1, "10.0.0.1:700");
    assert!(tracker.is_retransmission(1, "10.0.0.1:700"));
    tracker.mark_processed(9, "nowhere");
    assert!(!tracker.is_retransmission(9, "nowhere"));
}

#[test]
fn housekeeping_forgets_only_old_completed_calls() {
    let map = dashmap::DashMap::new();
    map.insert((1, String::from("a")), TransactionState::InProgress);
    map.insert((2, String::from("a")), TransactionState::Completed(100));
    map.insert((3, String::from("a")), TransactionState::Completed(500));
    let mut map = map;
    housekeeping(&mut map, 300, 700);
    assert!(map.contains_key(&(1, String::from("a"))));
    assert!(!map.contains_key(&(2, String::from("a"))));
    assert!(map.contains_key(&(3, String::from("a"))));
    housekeeping(&mut map, 1000, 700);
    assert_eq!(map.len(), 2);
}

#[test]
fn a_zero_retention_keeps_calls_completed_now() {
    let mut tracker = TransactionTracker::new(0);
    for xid in 0..3 {
        assert!(!tracker.is_retransmission(xid, "c"));
        tracker.mark_processed(xid, "c");
    }
    assert!(tracker.is_retransmission(2, "c"));
}
