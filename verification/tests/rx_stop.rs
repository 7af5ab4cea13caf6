use hisi_rf_ws63::netif_l2::rx_stop::{
    command, replaceable, same_worker, Checkpoint, RxStopTimings, Transaction, CONTRACT, DESCRIPTORS_REMAIN,
    MAC_ENABLED, QUEUED_RX, TIMEOUT,
};

fn installed() -> Transaction {
    let mut t = Transaction::new();
    t.diagnostic.installed = true;
    t
}

#[test]
fn timing_distinguishes_late_worker_from_late_waiter_without_extending_deadline() {
    for late_worker in [false, true] {
        let mut t = installed();
        t.request_at(10).unwrap();
        t.observe(Checkpoint::Posted, Some(11));
        t.post_returned(0);
        t.enter_at(Some(12)).unwrap();
        t.observe(Checkpoint::Disabled, Some(13));
        t.observe(Checkpoint::Destroyed, Some(14));
        t.observe(Checkpoint::Initialized, Some(15));
        t.observe(Checkpoint::Cleaned, Some(16));
        let finished = if late_worker { 1_010 } else { 17 };
        t.finish_at(Some(finished), 1, 0, 1, 0);
        assert_eq!(t.result_at(Some(1_011)), Err(TIMEOUT));
        assert_eq!(
            t.diagnostic.timings.0,
            [2, 3, 4, 5, 6, (finished - 10) as u32, 1, 1_001]
        );
        assert!(t.diagnostic.returned);
        assert_eq!(t.diagnostic.native_status, 0);
    }
}

#[test]
fn timing_preserves_first_observation_and_does_not_treat_missing_as_zero() {
    let mut t = installed();
    t.observe(Checkpoint::Posted, Some(0));
    assert_eq!(t.diagnostic.timings, RxStopTimings::unobserved());
    t.request_at(10).unwrap();
    for now in [None, Some(9), Some(u64::MAX)] {
        t.observe(Checkpoint::Disabled, now);
        assert_eq!(t.diagnostic.timings.0[1], u32::MAX);
    }
    t.observe(Checkpoint::Posted, Some(10));
    t.observe(Checkpoint::Posted, Some(15));
    assert_eq!(t.diagnostic.timings.0[6], 0);
    assert_eq!(t.result_at(Some(11)), Ok(false));
    assert_eq!(t.diagnostic.timings.0[7], u32::MAX);
    t.fail(QUEUED_RX);
    assert_eq!(t.result_at(Some(12)), Err(QUEUED_RX));
    assert_eq!(t.result_at(Some(13)), Err(QUEUED_RX));
    assert_eq!(t.diagnostic.timings.0[7], 2);
    assert_eq!(core::mem::size_of::<RxStopTimings>(), 32);
}

#[test]
fn both_post_return_and_device_receipt_are_required() {
    for post_first in [true, false] {
        let mut t = installed();
        t.request().unwrap();
        if post_first {
            t.post_returned(0);
        }
        assert_eq!(t.result(), Ok(false));
        t.enter().unwrap();
        t.finish(1, 0, 1, 0);
        assert_eq!(t.result(), Ok(post_first));
        if !post_first {
            t.post_returned(0);
        }
        assert_eq!(t.result(), Ok(true));
        assert_eq!(t.request(), Err(CONTRACT));
    }
}

#[test]
fn timeout_before_dispatch_rejects_late_destructive_work() {
    let mut t = installed();
    t.request().unwrap();
    t.post_returned(0);
    t.fail(TIMEOUT);
    assert_eq!(t.enter(), Err(TIMEOUT));
    assert!(!t.diagnostic.entered);
}

#[test]
fn timeout_during_native_execution_cannot_become_success() {
    let mut t = installed();
    t.request().unwrap();
    t.enter().unwrap();
    assert!(t.may_rebuild());
    t.fail(TIMEOUT);
    assert!(!t.may_rebuild());
    t.finish(1, 0, 1, 0);
    t.post_returned(0);
    assert_eq!(t.result(), Err(TIMEOUT));
}

#[test]
fn zero_native_return_does_not_prove_stop() {
    for (after, empty, status, expected) in [
        (1, 1, 0, MAC_ENABLED),
        (0, 0, 0, DESCRIPTORS_REMAIN),
        (0, 2, 0, DESCRIPTORS_REMAIN),
        (0, 1, 100, 100),
    ] {
        let mut t = installed();
        t.request().unwrap();
        t.enter().unwrap();
        t.finish(1, after, empty, status);
        t.post_returned(0);
        assert_eq!(t.result(), Err(expected));
    }
}

#[test]
fn duplicate_callback_and_enqueue_error_fail_closed() {
    let mut t = installed();
    t.request().unwrap();
    t.enter().unwrap();
    assert_eq!(t.enter(), Err(CONTRACT));
    t.finish(1, 0, 1, 0);
    t.post_returned(0);
    assert_eq!(t.result(), Err(CONTRACT));
    let mut t = installed();
    t.request().unwrap();
    t.post_returned(109);
    assert_eq!(t.enter(), Err(109));
    assert_eq!(Transaction::new().request(), Err(CONTRACT));
}

#[test]
fn wire_identity_and_errors_are_distinct() {
    assert_eq!(core::mem::size_of_val(&command()), 8);
    assert_ne!(command(), [0, 0]);
    assert_ne!(QUEUED_RX, TIMEOUT);
}

#[test]
fn worker_identity_preserves_generation_not_just_slot() {
    assert!(same_worker(0x107, Some(0x107)));
    assert!(!same_worker(0x107, Some(7)));
    assert!(!same_worker(0x107, Some(0x207)));
    assert!(!same_worker(0x107, Some(0x108)));
    assert!(!same_worker(0x107, None));
    assert!(!same_worker(u32::MAX, Some(u32::MAX)));
    assert!(!same_worker(0, Some(0)));
}

#[test]
fn callback_overdue_before_waiter_runs_never_starts_native_work() {
    for now in [Some(1_010), Some(1_011), Some(9), None] {
        let mut t = installed();
        t.request_at(10).unwrap();
        t.post_returned(0);
        assert!(t.enter_at(now).is_err());
        assert!(!t.diagnostic.entered);
        assert!(!t.may_rebuild_at(Some(11)));
        assert!(t.result_at(Some(11)).is_err());
    }
}

#[test]
fn native_return_after_deadline_cannot_win_before_waiter_checks_time() {
    let mut t = installed();
    t.request_at(10).unwrap();
    t.post_returned(0);
    t.enter_at(Some(11)).unwrap();
    assert!(t.may_rebuild_at(Some(12)));
    // No waiter poll or timeout notification occurred during the call.
    t.finish_at(Some(1_010), 1, 0, 1, 0);
    assert!(t.diagnostic.returned);
    assert_eq!(t.diagnostic.native_status, 0);
    assert_eq!(t.result_at(Some(1_011)), Err(TIMEOUT));
}

#[test]
fn completed_receipt_does_not_bypass_end_to_end_deadline() {
    let mut t = installed();
    t.request_at(10).unwrap();
    t.enter_at(Some(11)).unwrap();
    t.finish_at(Some(12), 1, 0, 1, 0);
    t.post_returned(0);
    assert_eq!(t.result_at(Some(1_009)), Ok(true));
    assert_eq!(t.result_at(Some(1_010)), Err(TIMEOUT));
    assert_eq!(t.result_at(Some(12)), Err(TIMEOUT));
}

#[test]
fn rebuild_is_not_started_after_teardown_exhausts_deadline() {
    let mut t = installed();
    t.request_at(10).unwrap();
    t.enter_at(Some(11)).unwrap();
    assert!(!t.may_rebuild_at(Some(1_010)));
    t.finish_at(Some(1_011), 1, 0, 1, 0);
    t.post_returned(0);
    assert_eq!(t.result_at(Some(1_012)), Err(TIMEOUT));
}

#[test]
fn deadline_subtraction_rejects_clock_loss_and_wrap_without_overflow() {
    for now in [None, Some(0), Some(u64::MAX - 2)] {
        let mut t = installed();
        t.request_at(u64::MAX - 1).unwrap();
        assert!(t.enter_at(now).is_err());
    }
    let mut t = installed();
    t.request_at(u64::MAX - 1).unwrap();
    t.enter_at(Some(u64::MAX)).unwrap();
    t.finish_at(Some(u64::MAX), 1, 0, 1, 0);
    t.post_returned(0);
    assert_eq!(t.result_at(Some(u64::MAX)), Ok(true));
    assert_eq!(t.result_at(Some(0)), Err(TIMEOUT));
}

#[test]
fn a_handler_is_replaced_only_where_it_stands() {
    assert_eq!(replaceable(Ok(5), 5), Ok(()));
    assert_eq!(replaceable(Ok(6), 5), Err(CONTRACT));
    assert_eq!(replaceable(Err(-3), 5), Err(-3));

    let mut t = Transaction::new();
    assert_eq!(t.installed_as(1, Ok(8), 8), Err(CONTRACT));
    assert_eq!(t.installed_as(0, Ok(7), 8), Err(CONTRACT));
    assert_eq!(t.installed_as(0, Err(-3), 8), Err(-3));
    assert!(!t.diagnostic.installed);
    assert_eq!(t.installed_as(0, Ok(8), 8), Ok(()));
    assert!(t.diagnostic.installed);
    assert_eq!(t.request(), Ok(()));
}

#[test]
fn stages_follow_one_another() {
    let stages = |t: &Transaction| {
        let d = t.diagnostic;
        [d.installed, d.requested, d.entered, d.returned]
    };
    let mut t = installed();
    assert_eq!(stages(&t), [true, false, false, false]);
    assert_eq!(t.enter(), Err(CONTRACT));
    assert_eq!(stages(&t), [true, false, false, false]);
    let mut t = installed();
    t.request().unwrap();
    assert_eq!(stages(&t), [true, true, false, false]);
    t.enter().unwrap();
    assert_eq!(stages(&t), [true, true, true, false]);
    t.finish(1, 0, 1, 0);
    assert_eq!(stages(&t), [true, true, true, true]);
}
