use hisi_rf_core::{OperationId, OperationTracker};
use hisi_rf_ws63::hisi_rf_backend::fixture::{OperationFixtureClock, OperationFixturePort};
use hisi_rf_ws63::hisi_rf_backend::incremental::{
    IncrementalRequest, IncrementalSupplicantBackend,
};
use hisi_rf_ws63::incremental_worker::{
    next_active, serve, waiting_report, ProxyPoll, WakeReason, WorkerCommand, WorkerMailbox,
    WorkerResponse, ERROR_WORKER_BUSY, SCAN_CAPACITY,
};
use hisi_rf_ws63::radio::{
    IncrementalCompletion, PollDisposition, ScanResult, WaitSet, WorkBudget, WorkReport,
};

fn operation() -> OperationId {
    OperationTracker::new().queue(0).unwrap()
}

fn backend() -> WaitSet {
    WaitSet {
        backend: true,
        ..WaitSet::empty()
    }
}

#[test]
fn waiting_report_is_level_triggered_without_claiming_progress() {
    let id = operation();
    let budget = WorkBudget::try_new(4, 100_000).unwrap();
    let report = waiting_report(id, budget).unwrap();
    assert_eq!(report.operation, id);
    assert!(!report.made_progress);
    assert_eq!(report.disposition, PollDisposition::Pending(backend()));
}

#[test]
fn cancellation_only_wake_keeps_the_active_identity() {
    let id = operation();
    assert_eq!(next_active(Some(id), None), Some(id));
}

#[test]
fn terminal_worker_response_releases_the_active_identity() {
    let id = operation();
    let budget = WorkBudget::try_new(1, 100).unwrap();
    let report = WorkReport::try_new(
        id,
        budget,
        0,
        1,
        true,
        PollDisposition::Complete(IncrementalCompletion::Initialized),
    )
    .unwrap();
    let response = WorkerResponse::Polled {
        id,
        result: Ok(report),
    };
    assert_eq!(next_active(Some(id), Some(&response)), None);
}

#[test]
fn scan_storage_is_not_embedded_in_each_response_variant() {
    assert!(core::mem::size_of::<WorkerResponse>() < 256);
    assert_eq!(SCAN_CAPACITY, 32);
}

#[test]
fn one_command_is_in_flight_at_a_time() {
    let id = operation();
    let mut mailbox = WorkerMailbox::new();
    mailbox
        .submit(WorkerCommand::Start {
            id,
            request: IncrementalRequest::Initialize,
        })
        .unwrap();
    let refused = mailbox
        .submit(WorkerCommand::Start {
            id,
            request: IncrementalRequest::Initialize,
        })
        .unwrap_err();
    assert_eq!(refused.code(), ERROR_WORKER_BUSY);
    let turn = mailbox.take_turn();
    assert!(matches!(turn.command, Some(WorkerCommand::Start { .. })));
    assert_eq!(turn.previous_active, None);
}

#[test]
fn a_poll_leaves_a_command_and_waits_for_the_worker() {
    let id = operation();
    let budget = WorkBudget::try_new(4, 100).unwrap();
    let mut mailbox = WorkerMailbox::new();
    let mut output = [ScanResult::empty(); 1];
    match mailbox.poll(id, WakeReason::Backend, budget, &mut output) {
        ProxyPoll::Wake(report) => {
            assert_eq!(report.disposition, PollDisposition::Pending(backend()));
        }
        ProxyPoll::Return(_) => panic!("no command was left"),
    }
    assert!(matches!(mailbox.command, Some(WorkerCommand::Poll { .. })));
}

#[test]
fn a_cancellation_is_taken_with_the_next_turn() {
    let id = operation();
    let mut mailbox = WorkerMailbox::new();
    mailbox.request_cancel(id);
    let turn = mailbox.take_turn();
    assert_eq!(turn.cancel, Some(id));
    assert_eq!(mailbox.take_turn().cancel, None);
}

#[test]
fn a_turn_serves_the_cancellation_before_the_command() {
    let id = operation();
    let budget = WorkBudget::try_new(4, 100).unwrap();
    let mut backend = IncrementalSupplicantBackend::new(
        OperationFixturePort::new(),
        OperationFixtureClock { time_us: 7 },
    );
    let mut mailbox = WorkerMailbox::new();
    mailbox
        .submit(WorkerCommand::Start {
            id,
            request: IncrementalRequest::Scan { timeout_ms: 2 },
        })
        .unwrap();
    let started = serve(&mut backend, mailbox.take_turn());
    assert_eq!(started.active, Some(id));
    assert_eq!(started.deadline_us, Some(2_007));
    assert!(started.scan.is_none());
    mailbox.finish_turn(
        started.active,
        started.deadline_us,
        started.response,
        started.scan,
    );
    assert_eq!(mailbox.deadline(id), Some(2_007));
    let mut output = [ScanResult::empty(); 1];
    assert!(matches!(
        mailbox.poll(id, WakeReason::Backend, budget, &mut output),
        ProxyPoll::Wake(_)
    ));
    mailbox.request_cancel(id);
    let cancelled = serve(&mut backend, mailbox.take_turn());
    assert_eq!(cancelled.active, None);
    assert_eq!(cancelled.deadline_us, None);
    match cancelled.response {
        Some(WorkerResponse::Polled { result, .. }) => {
            assert_eq!(result.unwrap().disposition, PollDisposition::Cancelled);
        }
        _ => panic!("the poll was not answered"),
    }
}
