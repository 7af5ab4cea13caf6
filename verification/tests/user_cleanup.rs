use hisi_rf_ws63::netif_l2::user_cleanup::{Tracker, CONTRACT_ERROR, SLOTS};

fn release(tracker: &mut Tracker, user: usize, status: u32) {
    let ticket = tracker.begin_free(user).unwrap();
    tracker.finish_free(ticket, status);
}

#[test]
fn checked_free_and_outer_return_are_both_required() {
    let mut tracker = Tracker::new();
    let ticket = tracker.begin(1);
    assert_eq!(tracker.diagnostic.active, 1);
    release(&mut tracker, 1, 0);
    assert_eq!(tracker.finish(ticket, 0), 0);
    assert_eq!(tracker.diagnostic.active, 0);
    assert_eq!(tracker.diagnostic.entered, tracker.diagnostic.completed);
    assert_eq!(tracker.diagnostic.last_free_status, Some(0));
}

#[test]
fn native_free_failure_is_not_hidden_by_outer_success() {
    let mut tracker = Tracker::new();
    let ticket = tracker.begin(1);
    release(&mut tracker, 1, 100);
    assert_eq!(tracker.finish(ticket, 0), 100);
    // hmac_config_kick_user itself also discards the delete status. The
    // WAL/worker boundary must consult the sticky native failure again.
    assert_eq!(tracker.checked_status(0), 100);
    assert_eq!(tracker.checked_status(19), 19);
    let next = tracker.begin(2);
    release(&mut tracker, 2, 0);
    assert_eq!(tracker.finish(next, 0), 100);
}

#[test]
fn missing_free_or_early_outer_return_fails_closed() {
    for start_free in [false, true] {
        let mut tracker = Tracker::new();
        let ticket = tracker.begin(1);
        if start_free {
            tracker.begin_free(1).unwrap();
        }
        assert_eq!(tracker.finish(ticket, 0), CONTRACT_ERROR);
    }
}

#[test]
fn native_outer_failure_is_preserved() {
    let mut tracker = Tracker::new();
    let ticket = tracker.begin(1);
    assert_eq!(tracker.finish(ticket, 17), 17);
}

#[test]
fn interleaved_users_do_not_share_receipts() {
    let mut tracker = Tracker::new();
    let a = tracker.begin(1);
    let b = tracker.begin(2);
    release(&mut tracker, 2, 0);
    assert_eq!(tracker.finish(b, 0), 0);
    assert_eq!(tracker.finish(a, 0), CONTRACT_ERROR);
}

#[test]
fn stale_completion_cannot_satisfy_reused_user_address() {
    let mut tracker = Tracker::new();
    let old = tracker.begin(1);
    let free = tracker.begin_free(1).unwrap();
    tracker.finish_free(free, 0);
    assert_eq!(tracker.finish(old, 0), 0);
    let new = tracker.begin(1);
    assert_ne!(new, old);
    tracker.finish_free(free, 0);
    assert_eq!(tracker.finish(new, 0), CONTRACT_ERROR);
}

#[test]
fn duplicate_free_and_delete_cannot_pass() {
    let mut tracker = Tracker::new();
    let ticket = tracker.begin(1);
    release(&mut tracker, 1, 0);
    assert!(tracker.begin_free(1).is_none());
    assert_eq!(tracker.finish(ticket, 0), CONTRACT_ERROR);
    let mut tracker = Tracker::new();
    let ticket = tracker.begin(1);
    assert!(tracker.begin(1).is_none());
    release(&mut tracker, 1, 0);
    assert_eq!(tracker.finish(ticket, 0), CONTRACT_ERROR);
}

#[test]
fn unrelated_free_is_not_a_delete_receipt() {
    let mut tracker = Tracker::new();
    let ticket = tracker.begin(1);
    assert!(tracker.begin_free(2).is_none());
    assert_eq!(tracker.diagnostic.unscoped_free, 1);
    assert_eq!(tracker.finish(ticket, 0), CONTRACT_ERROR);
}

#[test]
fn capacity_and_generation_exhaustion_fail_closed() {
    let mut tracker = Tracker::new();
    for user in 1..=SLOTS {
        assert!(tracker.begin(user).is_some());
    }
    assert!(tracker.begin(SLOTS + 1).is_none());
    assert_eq!(tracker.diagnostic.active, SLOTS as u32);
    let mut tracker = Tracker::new();
    tracker.issued = u64::MAX;
    assert!(tracker.begin(1).is_none());
    assert_eq!(tracker.diagnostic.fault, CONTRACT_ERROR);
}

#[test]
fn frees_never_outnumber_deletes_and_the_first_fault_stays() {
    let mut tracker = Tracker::new();
    let first = tracker.begin(1);
    let second = tracker.begin(2);
    release(&mut tracker, 1, 0);
    release(&mut tracker, 2, 100);
    assert!(tracker.begin_free(1).is_none());
    let d = tracker.diagnostic;
    assert_eq!((d.entered, d.completed, d.active), (2, 0, 2));
    assert_eq!(d.free_completed, 2);
    assert_eq!(tracker.finish(second, 0), 100);
    assert_eq!(tracker.finish(first, 0), 100);
    let last = tracker.begin(3);
    release(&mut tracker, 3, 0);
    assert_eq!(tracker.finish(last, 0), 100);
    let d = tracker.diagnostic;
    assert_eq!((d.entered, d.completed, d.active), (3, 3, 0));
    assert_eq!(d.free_completed, 3);
    assert_eq!(d.fault, 100);
    assert_eq!(d.last_checked_status, 100);
}
