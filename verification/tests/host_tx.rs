use hisi_rf_ws63::netif_l2::host_tx::{
    message_identity, DrainStep, PostStep, Rejection, Tracker, CAPACITY, CONTRACT_ERROR,
    DRAIN_TIMEOUT,
};

fn conserved(t: &Tracker) {
    let d = t.diagnostic;
    assert_eq!(d.accepted, d.processed + d.dropped + u64::from(d.pending));
    assert_eq!(d.pending as usize, t.slots.iter().flatten().count());
}

#[test]
fn post_return_is_not_dispatch_completion() {
    let mut t = Tracker::new();
    let ticket = t.begin(1).unwrap();
    t.post_returned(ticket, 0);
    t.close();
    assert_eq!(t.drained(), Ok(false));
    assert_eq!(t.dispatch(1), Some(ticket));
    assert_eq!(t.drained(), Ok(false));
    t.complete(ticket, false, 0);
    assert_eq!(t.drained(), Ok(true));
    conserved(&t);
}

#[test]
fn dispatch_can_finish_before_the_posting_thread_resumes() {
    let mut t = Tracker::new();
    let ticket = t.begin(7).unwrap();
    t.dispatch(7).unwrap();
    assert_eq!(t.before_free(7), None);
    t.complete(ticket, false, 0);
    t.close();
    assert_eq!(t.drained(), Ok(false));
    t.post_returned(ticket, 0);
    assert_eq!(t.drained(), Ok(true));
    conserved(&t);
}

#[test]
fn hidden_post_rejection_requires_completed_free() {
    for outer_first in [false, true] {
        let mut t = Tracker::new();
        let ticket = t.begin(9).unwrap();
        if outer_first {
            t.post_returned(ticket, 0);
        }
        assert_eq!(t.before_free(9), Some(ticket));
        t.close();
        assert_eq!(t.drained(), Ok(false));
        t.complete(ticket, true, 0);
        if !outer_first {
            t.post_returned(ticket, 0);
        }
        assert_eq!(t.diagnostic.dropped, 1);
        assert_eq!(t.drained(), Ok(true));
        conserved(&t);
    }
}

#[test]
fn duplicate_owner_is_not_released_and_capacity_is_bounded() {
    let mut t = Tracker::new();
    t.begin(1).unwrap();
    assert_eq!(t.begin(1), Err(Rejection::Duplicate));
    assert!(t.drained().is_err());
    conserved(&t);
    let mut t = Tracker::new();
    for pointer in 1..=CAPACITY {
        t.begin(pointer).unwrap();
    }
    assert_eq!(t.begin(CAPACITY + 1), Err(Rejection::Release));
    assert_eq!(t.diagnostic.pending as usize, CAPACITY);
    conserved(&t);
}

#[test]
fn failed_or_missing_callback_never_becomes_a_drain_receipt() {
    let mut t = Tracker::new();
    let ticket = t.begin(1).unwrap();
    t.post_returned(ticket, 0);
    t.close();
    assert_eq!(t.drained(), Ok(false));
    t.fail(DRAIN_TIMEOUT);
    t.dispatch(1).unwrap();
    t.complete(ticket, false, 0);
    assert_eq!(t.drained(), Err(DRAIN_TIMEOUT));
    conserved(&t);
}

#[test]
fn stale_completions_cannot_retire_reused_addresses() {
    let mut t = Tracker::new();
    let old = t.begin(1).unwrap();
    t.post_returned(old, 0);
    t.dispatch(1).unwrap();
    t.complete(old, false, 0);
    let new = t.begin(1).unwrap();
    assert_ne!(old, new);
    t.complete(old, false, 0);
    assert_eq!(t.diagnostic.pending, 1);
    assert!(t.drained().is_err());
    conserved(&t);
}

#[test]
fn freed_address_can_be_reused_before_old_dispatch_or_post_returns() {
    let mut t = Tracker::new();
    let old = t.begin(1).unwrap();
    t.dispatch(1).unwrap();
    assert_eq!(t.before_free(1), None);
    // Native free releases the address before returning through the old
    // callback/post stack. The next allocation has a distinct ticket.
    let new = t.begin(1).unwrap();
    assert_eq!(t.before_free(1), Some(new));
    t.complete(old, false, 0);
    t.post_returned(old, 0);
    assert_eq!(t.diagnostic.pending, 1);
    t.complete(new, true, 0);
    t.post_returned(new, 0);
    t.close();
    assert_eq!(t.drained(), Ok(true));
    conserved(&t);
}

#[test]
fn free_errors_and_late_posts_fail_closed() {
    let mut t = Tracker::new();
    let ticket = t.begin(1).unwrap();
    t.before_free(1).unwrap();
    t.complete(ticket, true, 100);
    t.post_returned(ticket, 0);
    assert_eq!(t.drained(), Err(100));
    assert_eq!(t.begin(2), Err(Rejection::Release));
    conserved(&t);
}

#[test]
fn protocol_cleanup_can_resume_handshake_only_after_all_old_owners_retire() {
    for post_first in [false, true] {
        let mut t = Tracker::new();
        let old = t.begin(1).unwrap();
        t.close();
        assert_eq!(t.begin(2), Err(Rejection::Release));
        assert_eq!(t.resume_handshake(0), Err(CONTRACT_ERROR));
        t.dispatch(1).unwrap();
        if post_first {
            t.post_returned(old, 0);
        }
        t.complete(old, false, 0);
        if !post_first {
            assert_eq!(t.resume_handshake(0), Err(CONTRACT_ERROR));
            t.post_returned(old, 0);
        }
        assert_eq!(t.resume_handshake(-0x6309), Err(-0x6309));
        assert!(t.diagnostic.closed);
        t.resume_handshake(0).unwrap();
        let new = t.begin(1).unwrap();
        assert_ne!(new, old);
        assert_eq!(t.dispatch(1), Some(new));
        t.complete(new, false, 0);
        t.post_returned(new, 0);
        assert_eq!(t.diagnostic.processed, 2);
        conserved(&t);
    }
}

#[test]
fn terminal_stop_fault_and_new_close_cannot_be_overridden_by_handshake_resume() {
    let mut t = Tracker::new();
    t.close();
    t.resume_handshake(0).unwrap();
    // An IRQ/native user deletion after the atomic resume still closes
    // admission before the next native post; no stale reopen is pending.
    t.close();
    assert_eq!(t.begin(1), Err(Rejection::Release));
    t.seal();
    assert_eq!(t.resume_handshake(0), Err(CONTRACT_ERROR));
    assert_eq!(t.begin(1), Err(Rejection::Release));
    let mut t = Tracker::new();
    t.fail(DRAIN_TIMEOUT);
    assert_eq!(t.resume_handshake(0), Err(DRAIN_TIMEOUT));
    assert_eq!(t.begin(1), Err(Rejection::Release));
    conserved(&t);
}

#[test]
fn a_completed_old_ticket_cannot_retire_work_after_protocol_resume() {
    let mut t = Tracker::new();
    let old = t.begin(1).unwrap();
    t.dispatch(1).unwrap();
    t.complete(old, false, 0);
    t.post_returned(old, 0);
    t.close();
    t.resume_handshake(0).unwrap();
    let new = t.begin(1).unwrap();
    assert_ne!(new, old);
    t.complete(old, false, 0);
    assert_eq!(t.diagnostic.pending, 1);
    assert_eq!(t.resume_handshake(0), Err(CONTRACT_ERROR));
    conserved(&t);
}
