use core::cell::Cell;

use hisi_rf_core::{OperationId, OperationTracker, Passphrase, Ssid};
use hisi_rf_ws63::hisi_rf_backend::incremental::{
    ActiveOperation, IncrementalRequest, IncrementalSupplicantBackend, MonotonicClock,
    OperationOutcome, PollResult, StartPhase, SupplicantPort, ERROR_OPERATION_TIMEOUT,
    ERROR_STALE_OPERATION, ERROR_WORK_BUDGET,
};
use hisi_rf_ws63::hisi_rf_backend::{
    NativeEvent, NATIVE_EVENT_AUTHORIZED, NATIVE_EVENT_DISCONNECTED,
};
use hisi_rf_ws63::incremental_worker::{serve, WakeReason, WorkerCommand, WorkerTurn};
use hisi_rf_ws63::radio::{
    BackendError, BackendErrorClass, ConnectionInfo, IncrementalCompletion, PersonalSecurity,
    PollDisposition, SaePwe, ScanOutcome, ScanResult, Security, StationConfig, WaitSet, WorkBudget,
};

struct FakePort<'a> {
    result: PollResult,
    events: [Option<NativeEvent>; 2],
    next_event: usize,
    disconnect_calls: u8,
    scan_results: [Option<ScanResult>; 3],
    scan_total: Option<usize>,
    scan_poll_calls: u8,
    scan_complete_on_poll: u8,
    scan_cache_pending: bool,
    scan_start_calls: u8,
    scan_cancel_calls: u8,
    connect_calls: u8,
    input_pending: bool,
    recovery_diagnostic_word: u32,
    external_auth_retry_stalled: bool,
    connect_clock: Option<&'a Cell<u64>>,
    connect_elapsed_us: u64,
    poll_clock: Option<&'a Cell<u64>>,
    poll_elapsed_us: u64,
}

impl FakePort<'_> {
    fn new(result: PollResult, events: [Option<NativeEvent>; 2]) -> Self {
        Self {
            result,
            events,
            next_event: 0,
            disconnect_calls: 0,
            scan_results: [None; 3],
            scan_total: None,
            scan_poll_calls: 0,
            scan_complete_on_poll: 0,
            scan_cache_pending: false,
            scan_start_calls: 0,
            scan_cancel_calls: 0,
            connect_calls: 0,
            input_pending: false,
            recovery_diagnostic_word: 0,
            external_auth_retry_stalled: false,
            connect_clock: None,
            connect_elapsed_us: 0,
            poll_clock: None,
            poll_elapsed_us: 0,
        }
    }
}

impl SupplicantPort for FakePort<'_> {
    fn start_scan(&mut self) -> Result<(), BackendError> {
        self.scan_start_calls += 1;
        Ok(())
    }

    fn poll_scan(&mut self) -> Result<Option<usize>, BackendError> {
        self.scan_poll_calls += 1;
        if self.scan_complete_on_poll != 0 && self.scan_poll_calls < self.scan_complete_on_poll {
            return Ok(None);
        }
        Ok(self.scan_total)
    }

    fn scan_result(&self, index: usize) -> Option<ScanResult> {
        self.scan_results.get(index).copied().flatten()
    }

    fn scan_cache_pending(&self) -> bool {
        self.scan_cache_pending
    }

    fn cancel_scan(&mut self) {
        self.scan_cancel_calls += 1;
        self.scan_cache_pending = false;
    }

    fn configure(&mut self, _: &StationConfig) -> Result<(), BackendError> {
        Ok(())
    }

    fn connect(&mut self) -> Result<(), BackendError> {
        self.connect_calls += 1;
        if let Some(clock) = self.connect_clock {
            clock.set(clock.get().saturating_add(self.connect_elapsed_us));
        }
        Ok(())
    }

    fn disconnect(&mut self) -> Result<(), BackendError> {
        self.disconnect_calls += 1;
        Ok(())
    }

    fn poll(&mut self, _: u32) -> Result<PollResult, BackendError> {
        if let Some(clock) = self.poll_clock {
            clock.set(clock.get().saturating_add(self.poll_elapsed_us));
        }
        Ok(self.result)
    }

    fn input_pending(&self) -> bool {
        self.input_pending
    }

    fn next_event(&mut self) -> Result<Option<NativeEvent>, BackendError> {
        let event = self.events.get(self.next_event).copied().flatten();
        self.next_event += 1;
        Ok(event)
    }

    fn recovery_diagnostic_word(&self) -> u32 {
        self.recovery_diagnostic_word
    }

    fn context_diagnostic_word(&self) -> u32 {
        0
    }

    fn driver_diagnostic_word(&self) -> u32 {
        0
    }

    fn match_diagnostic_word(&self) -> u32 {
        0
    }

    fn external_auth_retry_stalled(&self) -> bool {
        self.external_auth_retry_stalled
    }
}

struct FakeClock(u64);

impl MonotonicClock for FakeClock {
    fn now_us(&self) -> u64 {
        self.0
    }
}

struct SharedClock<'a>(&'a Cell<u64>);

impl MonotonicClock for SharedClock<'_> {
    fn now_us(&self) -> u64 {
        self.0.get()
    }
}

fn operation_id() -> OperationId {
    OperationTracker::new().queue(0).unwrap()
}

fn advance_start<P: SupplicantPort, C: MonotonicClock>(
    backend: &mut IncrementalSupplicantBackend<P, C>,
    id: OperationId,
    budget: WorkBudget,
) {
    while backend
        .core
        .active
        .as_ref()
        .is_some_and(|active| !matches!(active.start_phase, StartPhase::Ready))
    {
        backend.poll(id, budget, &mut []).unwrap();
    }
}

fn connection() -> ConnectionInfo {
    ConnectionInfo {
        bssid: [1, 2, 3, 4, 5, 6],
        frequency_mhz: 2_412,
    }
}

fn scan_result(ssid: &[u8], bssid_suffix: u8) -> ScanResult {
    ScanResult {
        ssid: Ssid::try_from_bytes(ssid).unwrap(),
        bssid: [0, 1, 2, 3, 4, bssid_suffix],
        frequency_mhz: 2_412,
        rssi_dbm: -40,
        security: Security::Open,
        channel: 1,
    }
}

fn transition_station_config(timeout_ms: u32) -> StationConfig {
    StationConfig {
        ssid: Ssid::try_from_bytes(b"transition-ap").unwrap(),
        bssid: [1, 2, 3, 4, 5, 6],
        channel: 1,
        passphrase: Passphrase::try_from_ascii(b"testtest").unwrap(),
        security: PersonalSecurity::Wpa3 {
            sae_pwe: SaePwe::Both,
        },
        operation_timeout_ms: timeout_ms,
    }
}

fn poll_result(work_completed: u32, output_pending: bool) -> PollResult {
    PollResult {
        work_completed,
        output_pending: u32::from(output_pending),
        next_deadline_ms: u64::MAX,
    }
}

fn event(kind: u8, status: i32) -> NativeEvent {
    NativeEvent { kind, status }
}

#[test]
fn connect_requires_authorized_and_treats_disconnect_as_progress() {
    let mut active = ActiveOperation::connect(operation_id(), connection(), 1_000, 50);
    assert_eq!(
        active.observe(NATIVE_EVENT_DISCONNECTED, 30),
        OperationOutcome::Continue
    );
    assert_eq!(active.last_disconnect_status, Some(30));
    assert_eq!(
        active.observe(NATIVE_EVENT_AUTHORIZED, 0),
        OperationOutcome::Complete(IncrementalCompletion::Connected(connection()))
    );
}

#[test]
fn connect_time_overrun_preserves_operation_until_authorized() {
    let id = operation_id();
    let now_us = Cell::new(0);
    let mut port = FakePort::new(poll_result(0, false), [None, None]);
    port.connect_clock = Some(&now_us);
    port.connect_elapsed_us = 179_000;
    let mut backend = IncrementalSupplicantBackend::new(port, SharedClock(&now_us));
    backend
        .start(
            id,
            IncrementalRequest::Connect(transition_station_config(10_000)),
        )
        .unwrap();
    let budget = WorkBudget::try_new(2, 100_000).unwrap();

    let configured = backend
        .poll(id, budget, &mut [])
        .unwrap();
    assert!(matches!(
        configured.disposition,
        PollDisposition::Pending(wait) if wait.is_empty()
    ));

    let submitted = backend
        .poll(id, budget, &mut [])
        .unwrap();
    assert_eq!(submitted.elapsed_us, 179_000);
    assert!(submitted.time_budget_exhausted);
    assert!(matches!(
        submitted.disposition,
        PollDisposition::BudgetExhausted(wait)
            if wait == WaitSet::backend_and_timer()
    ));
    assert!(backend.core.active.is_some());
    assert_eq!(backend.port.connect_calls, 1);

    backend.port.result = poll_result(0, true);
    backend.port.events[0] = Some(event(NATIVE_EVENT_AUTHORIZED, 0));
    let authorized = backend
        .poll(id, budget, &mut [])
        .unwrap();
    assert_eq!(
        authorized.disposition,
        PollDisposition::Complete(IncrementalCompletion::Connected(ConnectionInfo {
            bssid: [1, 2, 3, 4, 5, 6],
            frequency_mhz: 2_412,
        }))
    );
    assert!(backend.core.active.is_none());
}

#[test]
fn supplicant_poll_time_overrun_preserves_operation_until_authorized() {
    let id = operation_id();
    let now_us = Cell::new(0);
    let mut port = FakePort::new(poll_result(0, false), [None, None]);
    port.poll_clock = Some(&now_us);
    let mut backend = IncrementalSupplicantBackend::new(port, SharedClock(&now_us));
    backend
        .start(
            id,
            IncrementalRequest::Connect(transition_station_config(10_000)),
        )
        .unwrap();
    let budget = WorkBudget::try_new(2, 100_000).unwrap();
    advance_start(&mut backend, id, budget);

    backend.port.poll_elapsed_us = 179_000;
    let overrun = backend
        .poll(id, budget, &mut [])
        .unwrap();
    assert_eq!(overrun.elapsed_us, 179_000);
    assert!(overrun.time_budget_exhausted);
    assert!(matches!(
        overrun.disposition,
        PollDisposition::BudgetExhausted(wait)
            if wait == WaitSet::backend_and_timer()
    ));
    assert!(backend.core.active.is_some());

    backend.port.poll_elapsed_us = 0;
    backend.port.result = poll_result(0, true);
    backend.port.events[0] = Some(event(NATIVE_EVENT_AUTHORIZED, 0));
    let authorized = backend
        .poll(id, budget, &mut [])
        .unwrap();
    assert!(matches!(
        authorized.disposition,
        PollDisposition::Complete(IncrementalCompletion::Connected(_))
    ));
    assert!(backend.core.active.is_none());
}

#[test]
fn first_eapol_reconnect_waits_for_the_recovery_deadline_and_runs_once() {
    let id = operation_id();
    let mut port = FakePort::new(poll_result(0, false), [None, None]);
    // timeout=1, disconnect event=1, completed cached-association retry=1.
    port.recovery_diagnostic_word = 0x0001_0011;
    let mut backend = IncrementalSupplicantBackend::new(port, FakeClock(0));
    backend
        .start(
            id,
            IncrementalRequest::Connect(transition_station_config(10_000)),
        )
        .unwrap();

    let budget = WorkBudget::try_new(1, 100).unwrap();
    advance_start(&mut backend, id, budget);
    let first = backend
        .poll(id, budget, &mut [])
        .unwrap();
    assert!(matches!(first.disposition, PollDisposition::Pending(_)));
    assert_eq!(backend.next_deadline_us(id), Some(1_000_000));
    assert_eq!(backend.port.connect_calls, 1);

    backend.clock.0 = 999_999;
    backend
        .poll(id, budget, &mut [])
        .unwrap();
    assert_eq!(backend.port.connect_calls, 1);

    backend.clock.0 = 1_000_000;
    let reconnect = backend
        .poll(id, budget, &mut [])
        .unwrap();
    assert!(reconnect.made_progress);
    assert_eq!(backend.port.disconnect_calls, 1);
    assert_eq!(backend.port.connect_calls, 1);

    backend.port.result = poll_result(0, true);
    backend.port.events[0] = Some(event(NATIVE_EVENT_DISCONNECTED, 0));
    backend.clock.0 = 1_000_001;
    backend
        .poll(id, budget, &mut [])
        .unwrap();
    assert_eq!(backend.next_deadline_us(id), Some(1_005_001));
    assert_eq!(backend.port.connect_calls, 1);

    backend.port.result = poll_result(0, false);
    backend.clock.0 = 1_005_001;
    backend
        .poll(id, budget, &mut [])
        .unwrap();
    assert_eq!(backend.port.connect_calls, 2);

    backend.clock.0 = 2_000_000;
    backend
        .poll(id, budget, &mut [])
        .unwrap();
    assert_eq!(backend.port.disconnect_calls, 1);
    assert_eq!(backend.port.connect_calls, 2);
}

#[test]
fn first_eapol_reconnect_does_not_run_without_completed_recovery_evidence() {
    for recovery in [0, 0x0000_0011, 0x0101_0011] {
        let id = operation_id();
        let mut port = FakePort::new(poll_result(0, false), [None, None]);
        port.recovery_diagnostic_word = recovery;
        let mut backend = IncrementalSupplicantBackend::new(port, FakeClock(2_000_000));
        backend
            .start(
                id,
                IncrementalRequest::Connect(transition_station_config(10_000)),
            )
            .unwrap();
        let budget = WorkBudget::try_new(1, 100).unwrap();
        advance_start(&mut backend, id, budget);
        backend
            .poll(id, budget, &mut [])
            .unwrap();
        assert_eq!(backend.port.connect_calls, 1);
        assert_eq!(backend.port.disconnect_calls, 0);
    }
}

#[test]
fn external_auth_reconnect_requires_a_persistent_post_retry_stall() {
    let id = operation_id();
    let mut port = FakePort::new(poll_result(0, false), [None, None]);
    port.external_auth_retry_stalled = true;
    let mut backend = IncrementalSupplicantBackend::new(port, FakeClock(0));
    backend
        .start(
            id,
            IncrementalRequest::Connect(transition_station_config(10_000)),
        )
        .unwrap();
    let budget = WorkBudget::try_new(1, 100).unwrap();
    advance_start(&mut backend, id, budget);

    backend
        .poll(id, budget, &mut [])
        .unwrap();
    assert_eq!(backend.next_deadline_us(id), Some(1_000_000));
    assert_eq!(backend.port.connect_calls, 1);

    backend.port.external_auth_retry_stalled = false;
    backend.clock.0 = 500_000;
    backend
        .poll(id, budget, &mut [])
        .unwrap();
    assert_eq!(backend.next_deadline_us(id), Some(10_000_000));

    backend.port.external_auth_retry_stalled = true;
    backend.clock.0 = 1_000_000;
    backend
        .poll(id, budget, &mut [])
        .unwrap();
    assert_eq!(backend.port.connect_calls, 1);

    backend.clock.0 = 2_000_000;
    backend
        .poll(id, budget, &mut [])
        .unwrap();
    assert_eq!(backend.port.disconnect_calls, 1);
    assert_eq!(backend.port.connect_calls, 1);

    backend.port.result = poll_result(0, true);
    backend.port.events[0] = Some(event(NATIVE_EVENT_DISCONNECTED, 0));
    backend.clock.0 = 2_000_001;
    backend
        .poll(id, budget, &mut [])
        .unwrap();
    assert_eq!(backend.next_deadline_us(id), Some(2_005_001));
    assert_eq!(backend.port.connect_calls, 1);

    backend.port.result = poll_result(0, false);
    backend.clock.0 = 2_005_001;
    backend
        .poll(id, budget, &mut [])
        .unwrap();
    assert_eq!(backend.port.connect_calls, 2);

    backend.clock.0 = 3_000_000;
    backend
        .poll(id, budget, &mut [])
        .unwrap();
    assert_eq!(backend.port.disconnect_calls, 1);
    assert_eq!(backend.port.connect_calls, 2);
}

#[test]
fn cancellation_suppresses_late_authorized_until_disconnect() {
    let mut active = ActiveOperation::connect(operation_id(), connection(), 1_000, 0);
    active.cancellation_requested = true;
    assert_eq!(
        active.observe(NATIVE_EVENT_AUTHORIZED, 0),
        OperationOutcome::Continue
    );
    assert_eq!(
        active.observe(NATIVE_EVENT_DISCONNECTED, 0),
        OperationOutcome::Cancelled
    );
}

#[test]
fn disconnect_completion_and_deadline_are_explicit() {
    let id = operation_id();
    let mut active = ActiveOperation::disconnect(id, 10, 2_000);
    active.backend_deadline_us = Some(2_500);
    assert_eq!(active.next_deadline_us(), 2_500);
    assert!(active.ensure_id(id).is_ok());
    assert_eq!(
        active.observe(NATIVE_EVENT_DISCONNECTED, 0),
        OperationOutcome::Complete(IncrementalCompletion::Disconnected)
    );
}

#[test]
fn stale_generation_is_rejected() {
    let mut tracker = OperationTracker::new();
    let first = tracker.queue(0).unwrap();
    tracker.mark_started(first).unwrap();
    tracker.commit_terminal(first).unwrap();
    tracker.reap(first).unwrap();
    let second = tracker.queue(0).unwrap();
    let active = ActiveOperation::disconnect(second, 10, 0);
    assert!(active.ensure_id(first).is_err());
    assert!(active.ensure_id(second).is_ok());
}

#[test]
fn real_adapter_contract_completes_disconnect_with_exact_work_charge() {
    let id = operation_id();
    let mut port = FakePort::new(
        poll_result(2, true),
        [
            Some(event(NATIVE_EVENT_DISCONNECTED, 0)),
            None,
        ],
    );
    let mut backend = IncrementalSupplicantBackend::new(port, FakeClock(1_000));
    backend
        .start(id, IncrementalRequest::Disconnect { timeout_ms: 10_000 })
        .unwrap();
    let budget = WorkBudget::try_new(4, 100).unwrap();
    advance_start(&mut backend, id, budget);
    let report = backend
        .poll(id, budget, &mut [])
        .unwrap();
    assert_eq!(report.consumed_events, 3);
    assert_eq!(
        report.disposition,
        PollDisposition::Complete(IncrementalCompletion::Disconnected)
    );
    assert_eq!(backend.port.disconnect_calls, 1);
    assert_eq!(backend.port.next_event, 1);
}

#[test]
fn full_eloop_charge_defers_output_event_to_the_next_fair_turn() {
    let id = operation_id();
    let mut port = FakePort::new(
        poll_result(2, true),
        [
            Some(event(NATIVE_EVENT_DISCONNECTED, 0)),
            None,
        ],
    );
    let mut backend = IncrementalSupplicantBackend::new(port, FakeClock(0));
    backend
        .start(id, IncrementalRequest::Disconnect { timeout_ms: 10_000 })
        .unwrap();
    let budget = WorkBudget::try_new(2, 100).unwrap();
    advance_start(&mut backend, id, budget);
    let report = backend
        .poll(id, budget, &mut [])
        .unwrap();
    assert_eq!(report.consumed_events, 2);
    assert!(matches!(
        report.disposition,
        PollDisposition::BudgetExhausted(wait) if wait.is_empty()
    ));
    assert_eq!(backend.port.next_event, 0);
}

#[test]
fn level_ready_input_survives_the_worker_response_wake() {
    let id = operation_id();
    let mut port = FakePort::new(poll_result(1, false), [None, None]);
    port.input_pending = true;
    let mut backend = IncrementalSupplicantBackend::new(port, FakeClock(0));
    backend
        .start(id, IncrementalRequest::Disconnect { timeout_ms: 10_000 })
        .unwrap();
    let budget = WorkBudget::try_new(4, 100).unwrap();
    advance_start(&mut backend, id, budget);

    let report = backend
        .poll(id, budget, &mut [])
        .unwrap();

    assert_eq!(report.consumed_events, 1);
    assert!(matches!(
        report.disposition,
        PollDisposition::Pending(wait) if wait.is_empty()
    ));
}

#[test]
fn backend_overreport_is_rejected_and_clears_the_operation() {
    let id = operation_id();
    let mut port = FakePort::new(poll_result(3, false), [None, None]);
    let mut backend = IncrementalSupplicantBackend::new(port, FakeClock(0));
    backend
        .start(id, IncrementalRequest::Disconnect { timeout_ms: 10_000 })
        .unwrap();
    let budget = WorkBudget::try_new(2, 100).unwrap();
    advance_start(&mut backend, id, budget);
    let error = backend
        .poll(id, budget, &mut [])
        .unwrap_err();
    assert_eq!(error.code(), ERROR_WORK_BUDGET);
    assert!(backend.next_deadline_us(id).is_none());
}

#[test]
fn cancelling_before_disconnect_start_submits_no_driver_request() {
    let id = operation_id();
    let mut port = FakePort::new(poll_result(0, false), [None, None]);
    let mut backend = IncrementalSupplicantBackend::new(port, FakeClock(0));
    backend
        .start(id, IncrementalRequest::Disconnect { timeout_ms: 10_000 })
        .unwrap();
    backend.cancel(id).unwrap();
    let report = backend
        .poll(
            id,
            WorkBudget::try_new(1, 100).unwrap(),
            &mut [],
        )
        .unwrap();
    assert_eq!(report.disposition, PollDisposition::Cancelled);
    assert_eq!(backend.port.disconnect_calls, 0);
}

#[test]
fn scan_results_are_copied_incrementally_and_report_truncation() {
    let id = operation_id();
    let mut port = FakePort::new(poll_result(0, false), [None, None]);
    port.scan_total = Some(3);
    port.scan_results = [
        Some(scan_result(b"first", 1)),
        Some(scan_result(b"second", 2)),
        None,
    ];
    let mut backend = IncrementalSupplicantBackend::new(port, FakeClock(0));
    backend
        .start(
            id,
            IncrementalRequest::Scan { timeout_ms: 1_000 },
        )
        .unwrap();
    let mut output = [ScanResult::empty(); 1];
    let budget = WorkBudget::try_new(2, 100).unwrap();
    advance_start(&mut backend, id, budget);
    let first = backend
        .poll(id, budget, &mut output)
        .unwrap();
    assert_eq!(first.consumed_events, 2);
    assert!(matches!(
        first.disposition,
        PollDisposition::BudgetExhausted(wait) if wait.is_empty()
    ));

    let second = backend
        .poll(id, budget, &mut output)
        .unwrap();
    assert_eq!(second.consumed_events, 1);
    assert_eq!(
        second.disposition,
        PollDisposition::Complete(IncrementalCompletion::Scan(ScanOutcome {
            count: 1,
            truncated: true,
        }))
    );
    assert_eq!(output[0].ssid.as_bytes(), b"first");
    assert_eq!(backend.port.scan_start_calls, 1);
}

#[test]
fn scan_cancel_waits_for_the_old_transaction_to_quiesce() {
    let id = operation_id();
    let mut port = FakePort::new(poll_result(0, false), [None, None]);
    port.scan_total = Some(1);
    port.scan_results = [Some(scan_result(b"late", 1)), None, None];
    port.scan_cache_pending = true;
    let mut backend = IncrementalSupplicantBackend::new(port, FakeClock(0));
    backend
        .start(
            id,
            IncrementalRequest::Scan { timeout_ms: 1_000 },
        )
        .unwrap();
    let budget = WorkBudget::try_new(2, 100).unwrap();
    advance_start(&mut backend, id, budget);
    backend.cancel(id).unwrap();

    let mut output = [ScanResult::empty(); 1];
    let cancelled = backend
        .poll(id, budget, &mut output)
        .unwrap();
    assert_eq!(cancelled.disposition, PollDisposition::Cancelled);
    assert_eq!(output[0], ScanResult::empty());
    assert_eq!(backend.port.scan_cancel_calls, 1);
}

#[test]
fn scan_timeout_cancels_the_native_scan_and_clears_the_expired_deadline() {
    let id = operation_id();
    let mut port = FakePort::new(poll_result(0, false), [None, None]);
    port.scan_cache_pending = true;
    let mut backend = IncrementalSupplicantBackend::new(port, FakeClock(2_000));
    backend
        .start(
            id,
            IncrementalRequest::Scan { timeout_ms: 1 },
        )
        .unwrap();
    let budget = WorkBudget::try_new(2, 100).unwrap();
    advance_start(&mut backend, id, budget);
    backend.clock.0 = 3_000;

    let error = backend
        .poll(id, budget, &mut [])
        .unwrap_err();
    assert_eq!(error.code(), ERROR_OPERATION_TIMEOUT);
    assert!(backend.next_deadline_us(id).is_none());
    assert_eq!(backend.port.scan_cancel_calls, 1);
    assert!(!backend.port.scan_cache_pending);
}

#[test]
fn scan_completion_ready_at_the_deadline_wins_over_timeout() {
    let id = operation_id();
    let mut port = FakePort::new(poll_result(0, false), [None, None]);
    port.scan_total = Some(1);
    port.scan_results = [Some(scan_result(b"ready", 1)), None, None];
    let mut backend = IncrementalSupplicantBackend::new(port, FakeClock(0));
    backend
        .start(
            id,
            IncrementalRequest::Scan { timeout_ms: 1 },
        )
        .unwrap();
    let budget = WorkBudget::try_new(2, 100).unwrap();
    advance_start(&mut backend, id, budget);
    backend.clock.0 = 1_000;
    let mut output = [ScanResult::empty(); 1];

    let report = backend
        .poll(id, budget, &mut output)
        .unwrap();

    assert_eq!(
        report.disposition,
        PollDisposition::Complete(IncrementalCompletion::Scan(ScanOutcome {
            count: 1,
            truncated: false,
        }))
    );
    assert_eq!(output[0].ssid.as_bytes(), b"ready");
}

#[test]
fn scan_completion_published_during_deadline_check_is_retained() {
    let id = operation_id();
    let mut port = FakePort::new(poll_result(0, false), [None, None]);
    port.scan_total = Some(1);
    port.scan_complete_on_poll = 2;
    port.scan_results = [Some(scan_result(b"late-ready", 1)), None, None];
    let mut backend = IncrementalSupplicantBackend::new(port, FakeClock(0));
    backend
        .start(
            id,
            IncrementalRequest::Scan { timeout_ms: 1 },
        )
        .unwrap();
    let budget = WorkBudget::try_new(2, 100).unwrap();
    advance_start(&mut backend, id, budget);
    backend.clock.0 = 1_000;
    let mut output = [ScanResult::empty(); 1];

    let retained = backend
        .poll(id, budget, &mut output)
        .unwrap();
    assert!(matches!(
        retained.disposition,
        PollDisposition::Pending(wait) if wait.is_empty()
    ));
    assert_eq!(backend.port.scan_poll_calls, 2);

    let completed = backend
        .poll(id, budget, &mut output)
        .unwrap();
    assert_eq!(
        completed.disposition,
        PollDisposition::Complete(IncrementalCompletion::Scan(ScanOutcome {
            count: 1,
            truncated: false,
        }))
    );
    assert_eq!(output[0].ssid.as_bytes(), b"late-ready");
}

#[test]
fn scan_owned_results_are_drained_after_the_hardware_deadline() {
    let id = operation_id();
    let mut port = FakePort::new(poll_result(0, false), [None, None]);
    port.scan_total = Some(3);
    port.scan_results = [
        Some(scan_result(b"first", 1)),
        Some(scan_result(b"second", 2)),
        Some(scan_result(b"third", 3)),
    ];
    let mut backend = IncrementalSupplicantBackend::new(port, FakeClock(0));
    backend
        .start(
            id,
            IncrementalRequest::Scan { timeout_ms: 1 },
        )
        .unwrap();
    let budget = WorkBudget::try_new(1, 100).unwrap();
    advance_start(&mut backend, id, budget);
    backend.clock.0 = 1_000;
    let mut output = [ScanResult::empty(); 3];

    for now_us in [1_000, 1_001] {
        backend.clock.0 = now_us;
        let report = backend
            .poll(id, budget, &mut output)
            .unwrap();
        assert!(matches!(
            report.disposition,
            PollDisposition::BudgetExhausted(_)
        ));
    }
    backend.clock.0 = 1_002;
    let report = backend
        .poll(id, budget, &mut output)
        .unwrap();

    assert_eq!(
        report.disposition,
        PollDisposition::Complete(IncrementalCompletion::Scan(ScanOutcome {
            count: 3,
            truncated: false,
        }))
    );
    assert_eq!(output[2].ssid.as_bytes(), b"third");
}

#[test]
fn observed_scan_completion_survives_a_no_progress_cache_drain_turn() {
    let id = operation_id();
    let mut port = FakePort::new(poll_result(0, false), [None, None]);
    port.scan_total = Some(1);
    port.scan_results = [Some(scan_result(b"retained", 1)), None, None];
    port.scan_cache_pending = true;
    let mut backend = IncrementalSupplicantBackend::new(port, FakeClock(0));
    backend
        .start(
            id,
            IncrementalRequest::Scan { timeout_ms: 1 },
        )
        .unwrap();
    let budget = WorkBudget::try_new(1, 100).unwrap();
    advance_start(&mut backend, id, budget);
    backend.clock.0 = 1_000;
    let mut output = [ScanResult::empty(); 1];

    let draining = backend
        .poll(id, budget, &mut output)
        .unwrap();
    assert!(matches!(
        draining.disposition,
        PollDisposition::Pending(wait) if wait == WaitSet::backend_and_timer()
    ));
    assert_eq!(output[0], ScanResult::empty());

    backend.port.scan_cache_pending = false;
    backend.clock.0 = 1_001;
    let completed = backend
        .poll(id, budget, &mut output)
        .unwrap();
    assert_eq!(
        completed.disposition,
        PollDisposition::Complete(IncrementalCompletion::Scan(ScanOutcome {
            count: 1,
            truncated: false,
        }))
    );
    assert_eq!(output[0].ssid.as_bytes(), b"retained");
}

#[test]
fn initialize_acknowledges_the_explicit_bootstrap() {
    let id = operation_id();
    let mut port = FakePort::new(poll_result(0, false), [None, None]);
    let mut backend = IncrementalSupplicantBackend::new(port, FakeClock(0));
    backend
        .start(id, IncrementalRequest::Initialize)
        .unwrap();
    let report = backend
        .poll(
            id,
            WorkBudget::try_new(1, 1).unwrap(),
            &mut [],
        )
        .unwrap();
    assert_eq!(report.consumed_events, 0);
    assert_eq!(report.elapsed_us, 0);
    assert!(report.made_progress);
    assert_eq!(
        report.disposition,
        PollDisposition::Complete(IncrementalCompletion::Initialized)
    );
}

#[test]
fn initialize_can_be_cancelled_before_acknowledgement() {
    let id = operation_id();
    let mut port = FakePort::new(poll_result(0, false), [None, None]);
    let mut backend = IncrementalSupplicantBackend::new(port, FakeClock(0));
    backend
        .start(id, IncrementalRequest::Initialize)
        .unwrap();
    backend.cancel(id).unwrap();
    let report = backend
        .poll(
            id,
            WorkBudget::try_new(1, 1).unwrap(),
            &mut [],
        )
        .unwrap();
    assert_eq!(report.disposition, PollDisposition::Cancelled);
}

#[test]
fn a_second_operation_is_refused_while_one_is_active() {
    let id = operation_id();
    let port = FakePort::new(poll_result(0, false), [None, None]);
    let mut backend = IncrementalSupplicantBackend::new(port, FakeClock(0));
    backend.start(id, IncrementalRequest::Initialize).unwrap();
    let refused = backend.start(id, IncrementalRequest::Initialize).unwrap_err();
    assert_eq!(refused.class(), BackendErrorClass::Busy);
    assert_eq!(refused.code(), 1);
}

#[test]
fn an_operation_that_is_not_active_is_stale() {
    let id = operation_id();
    let port = FakePort::new(poll_result(0, false), [None, None]);
    let mut backend = IncrementalSupplicantBackend::new(port, FakeClock(0));
    assert_eq!(backend.cancel(id).unwrap_err().code(), ERROR_STALE_OPERATION);
    let budget = WorkBudget::try_new(1, 1).unwrap();
    assert_eq!(
        backend.poll(id, budget, &mut []).unwrap_err().code(),
        ERROR_STALE_OPERATION
    );
    assert_eq!(backend.next_deadline_us(id), None);
}

#[test]
fn submitted_reconnects_are_counted() {
    let id = operation_id();
    let mut port = FakePort::new(poll_result(0, false), [None, None]);
    port.recovery_diagnostic_word = 0x0001_0011;
    let mut backend = IncrementalSupplicantBackend::new(port, FakeClock(0));
    backend
        .start(id, IncrementalRequest::Connect(transition_station_config(10_000)))
        .unwrap();
    let budget = WorkBudget::try_new(1, 100).unwrap();
    advance_start(&mut backend, id, budget);
    backend.poll(id, budget, &mut []).unwrap();
    assert_eq!(backend.core.reconnect_diagnostic_snapshot(), [0, 0]);
    backend.clock.0 = 1_000_000;
    backend.poll(id, budget, &mut []).unwrap();
    assert_eq!(backend.core.reconnect_diagnostic_snapshot(), [1, 0]);
}

#[test]
fn a_connection_reconnects_at_most_once_for_each_stall() {
    let id = operation_id();
    let mut port = FakePort::new(poll_result(0, false), [None, None]);
    port.recovery_diagnostic_word = 0x0001_0011;
    port.external_auth_retry_stalled = true;
    let mut backend = IncrementalSupplicantBackend::new(port, FakeClock(0));
    backend
        .start(id, IncrementalRequest::Connect(transition_station_config(60_000)))
        .unwrap();
    let budget = WorkBudget::try_new(1, 100).unwrap();
    advance_start(&mut backend, id, budget);
    for second in 0..20u64 {
        backend.clock.0 = second * 1_000_000;
        backend.poll(id, budget, &mut []).unwrap();
    }
    assert_eq!(backend.core.reconnect_diagnostic_snapshot(), [1, 1]);
    assert_eq!(backend.port.disconnect_calls, 1);
    // The disconnect of a cancellation is no reconnect.
    backend.cancel(id).unwrap();
    backend.poll(id, budget, &mut []).unwrap();
    assert_eq!(backend.port.disconnect_calls, 2);
    assert_eq!(backend.core.reconnect_diagnostic_snapshot(), [1, 1]);
}

#[test]
fn only_a_connection_counts_reconnects() {
    for request in [
        IncrementalRequest::Initialize,
        IncrementalRequest::Scan { timeout_ms: 30_000 },
        IncrementalRequest::Disconnect { timeout_ms: 30_000 },
    ] {
        let id = operation_id();
        let mut port = FakePort::new(poll_result(0, false), [None, None]);
        port.recovery_diagnostic_word = 0x0001_0011;
        port.external_auth_retry_stalled = true;
        let mut backend = IncrementalSupplicantBackend::new(port, FakeClock(0));
        backend.start(id, request).unwrap();
        let budget = WorkBudget::try_new(1, 100).unwrap();
        let mut second = 0;
        while backend.core.active.is_some() {
            backend.clock.0 = second * 1_000_000;
            let _ = backend.poll(id, budget, &mut []);
            second += 1;
        }
        assert_eq!(backend.core.reconnect_diagnostic_snapshot(), [0, 0]);
    }
}

#[test]
fn a_turn_of_the_worker_polls_into_an_unwritten_buffer() {
    let id = operation_id();
    let mut port = FakePort::new(poll_result(0, false), [None, None]);
    port.scan_results[0] = Some(scan_result(b"first", 1));
    port.scan_total = Some(1);
    let mut backend = IncrementalSupplicantBackend::new(port, FakeClock(0));
    let budget = WorkBudget::try_new(4, 100).unwrap();
    let turn = |command| WorkerTurn {
        cancel: None,
        command: Some(command),
        previous_active: None,
    };
    let started = serve(
        &mut backend,
        turn(WorkerCommand::Start {
            id,
            request: IncrementalRequest::Scan { timeout_ms: 1_000 },
        }),
    );
    assert!(started.scan.is_none());
    let poll = || {
        turn(WorkerCommand::Poll {
            id,
            reason: WakeReason::Command,
            budget,
        })
    };
    let submitted = serve(&mut backend, poll()).scan.unwrap();
    assert!(submitted.iter().all(|entry| *entry == ScanResult::empty()));
    let outcome = serve(&mut backend, poll());
    let found = outcome.scan.unwrap();
    assert_eq!(found[0], scan_result(b"first", 1));
    assert!(found[1..].iter().all(|entry| *entry == ScanResult::empty()));
    assert_eq!(outcome.active, None);
    assert_eq!(outcome.deadline_us, None);
}
