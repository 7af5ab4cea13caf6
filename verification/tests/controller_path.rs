//! The bounded backend behind the chip-neutral controller and runner.

use core::cell::Cell;
use core::future::Future;
use core::pin::Pin;
use core::task::{Context, Poll, Waker};

use hisi_rf_core::{
    init, BackendError as CoreError, BackendErrorClass as CoreClass, CommandSequence,
    ConnectionInfo as CoreConnection, DiagnosticCode as CoreCode, DiagnosticStage as CoreStage,
    DiagnosticTraceKind as CoreTraceKind, Error, IncrementalBackendDriver,
    IncrementalCompletion as CoreCompletion, IncrementalDriverEvent,
    IncrementalRadioParts, IncrementalRequest as CoreRequest, IncrementalWifiBackend, OperationId,
    OperationTimeout, OperationTracker, Passphrase, PersonalSecurity as CorePersonalSecurity,
    PollDisposition as CoreDisposition, RadioConfig, RadioResources, RadioState,
    SaePwe as CoreSaePwe, ScanOutcome as CoreOutcome, ScanResult as CoreScanResult,
    Security as CoreSecurity, Ssid, StationConfig as CoreStation, WaitSet as CoreWaitSet,
    WakeReason, WifiConfig, WifiEvent, WorkBudget as CoreBudget, WorkReport as CoreReport,
};
use hisi_rf_ws63::hisi_rf_backend::fixture::{
    operation_error_injection_fixture, OperationFixturePort,
};
use hisi_rf_ws63::hisi_rf_backend::incremental::{
    IncrementalRequest, IncrementalSupplicantBackend, MonotonicClock, PollResult, SupplicantPort,
    ERROR_OPERATION_TIMEOUT,
};
use hisi_rf_ws63::hisi_rf_backend::{
    NativeEvent, NATIVE_EVENT_AUTHORIZED, NATIVE_EVENT_DISCONNECTED,
};
use hisi_rf_ws63::radio::{
    BackendError, BackendErrorClass, DiagnosticCode, DiagnosticStage, DiagnosticTraceKind, IncrementalCompletion,
    PersonalSecurity, PollDisposition, SaePwe, ScanResult, StationConfig, WaitSet, WorkBudget,
};

fn core_class(class: BackendErrorClass) -> CoreClass {
    match class {
        BackendErrorClass::Initialize => CoreClass::Initialize,
        BackendErrorClass::Busy => CoreClass::Busy,
        BackendErrorClass::OperationTimeout => CoreClass::OperationTimeout,
        BackendErrorClass::BackendTimeout => CoreClass::BackendTimeout,
        BackendErrorClass::Cancelled => CoreClass::Cancelled,
        BackendErrorClass::ResourceUnavailable => CoreClass::ResourceUnavailable,
        BackendErrorClass::UnsupportedSecurity => CoreClass::UnsupportedSecurity,
        BackendErrorClass::Connect => CoreClass::Connect,
        BackendErrorClass::Other => CoreClass::Other,
    }
}

fn core_stage(stage: DiagnosticStage) -> CoreStage {
    match stage {
        DiagnosticStage::Initialize => CoreStage::Initialize,
        DiagnosticStage::ControlPlane => CoreStage::ControlPlane,
        DiagnosticStage::Connect => CoreStage::Connect,
        DiagnosticStage::Scan => CoreStage::Scan,
        DiagnosticStage::Authenticate => CoreStage::Authenticate,
        DiagnosticStage::Associate => CoreStage::Associate,
        DiagnosticStage::Sae => CoreStage::Sae,
        DiagnosticStage::Eapol => CoreStage::Eapol,
        DiagnosticStage::Pmf => CoreStage::Pmf,
        DiagnosticStage::Disconnect => CoreStage::Disconnect,
        DiagnosticStage::Runtime => CoreStage::Runtime,
        DiagnosticStage::Operation => CoreStage::Operation,
        DiagnosticStage::Backend => CoreStage::Backend,
    }
}

fn core_trace_kind(kind: DiagnosticTraceKind) -> CoreTraceKind {
    match kind {
        DiagnosticTraceKind::BackendStatus => CoreTraceKind::BackendStatus,
        DiagnosticTraceKind::VendorStatus => CoreTraceKind::VendorStatus,
        DiagnosticTraceKind::IeeeStatus => CoreTraceKind::IeeeStatus,
        DiagnosticTraceKind::HostapStatus => CoreTraceKind::HostapStatus,
        DiagnosticTraceKind::DisconnectReason => CoreTraceKind::DisconnectReason,
        DiagnosticTraceKind::SupplicantContext => CoreTraceKind::SupplicantContext,
        DiagnosticTraceKind::DriverContext => CoreTraceKind::DriverContext,
        DiagnosticTraceKind::RuntimeCode => CoreTraceKind::RuntimeCode,
        DiagnosticTraceKind::ResourceRequired => CoreTraceKind::ResourceRequired,
        DiagnosticTraceKind::ResourceAvailable => CoreTraceKind::ResourceAvailable,
        DiagnosticTraceKind::ResourceOwner => CoreTraceKind::ResourceOwner,
        DiagnosticTraceKind::LargestContiguous => CoreTraceKind::LargestContiguous,
    }
}

fn core_error(error: BackendError) -> CoreError {
    let mut converted =
        CoreError::new(core_class(error.class), error.code).with_stage(core_stage(error.stage));
    for index in 0..error.trace.len() {
        let entry = error.trace.get(index).unwrap();
        converted = converted.with_trace(core_trace_kind(entry.kind), entry.value);
    }
    converted
}

fn core_wait(set: WaitSet) -> CoreWaitSet {
    let mut converted = CoreWaitSet::empty();
    if set.command {
        converted = converted.union(CoreWaitSet::COMMAND);
    }
    if set.backend {
        converted = converted.union(CoreWaitSet::BACKEND);
    }
    if set.l2_rx {
        converted = converted.union(CoreWaitSet::L2_RX);
    }
    if set.timer {
        converted = converted.union(CoreWaitSet::TIMER);
    }
    if set.cancel {
        converted = converted.union(CoreWaitSet::CANCEL);
    }
    converted
}

fn core_disposition(disposition: PollDisposition) -> CoreDisposition {
    match disposition {
        PollDisposition::Pending(set) => CoreDisposition::Pending(core_wait(set)),
        PollDisposition::BudgetExhausted(set) => CoreDisposition::BudgetExhausted(core_wait(set)),
        PollDisposition::Cancelled => CoreDisposition::Cancelled,
        PollDisposition::Complete(completion) => CoreDisposition::Complete(match completion {
            IncrementalCompletion::Initialized => CoreCompletion::Initialized,
            IncrementalCompletion::Disconnected => CoreCompletion::Disconnected,
            IncrementalCompletion::Scan(outcome) => CoreCompletion::Scan(CoreOutcome {
                count: outcome.count,
                truncated: outcome.truncated,
            }),
            IncrementalCompletion::Connected(info) => CoreCompletion::Connected(CoreConnection {
                bssid: info.bssid,
                frequency_mhz: info.frequency_mhz,
            }),
        }),
    }
}

fn station(config: CoreStation) -> StationConfig {
    let security = match config.security() {
        CorePersonalSecurity::Wpa2 => PersonalSecurity::Wpa2,
        CorePersonalSecurity::Wpa3 { sae_pwe } => PersonalSecurity::Wpa3 {
            sae_pwe: match sae_pwe {
                CoreSaePwe::HuntAndPeck => SaePwe::HuntAndPeck,
                CoreSaePwe::HashToElement => SaePwe::HashToElement,
                CoreSaePwe::Both => SaePwe::Both,
            },
        },
    };
    let operation_timeout_ms = config.operation_timeout().as_millis();
    StationConfig {
        ssid: config.ssid,
        bssid: config.bssid,
        channel: config.channel,
        passphrase: config.passphrase,
        security,
        operation_timeout_ms,
    }
}

struct Adapter<P, C>(IncrementalSupplicantBackend<P, C>);

impl<P: SupplicantPort, C: MonotonicClock> IncrementalWifiBackend for Adapter<P, C> {
    fn start(&mut self, id: OperationId, request: CoreRequest) -> Result<(), CoreError> {
        let request = match request {
            CoreRequest::Initialize(_) => IncrementalRequest::Initialize,
            CoreRequest::Scan(config) => IncrementalRequest::Scan {
                timeout_ms: config.operation_timeout().as_millis(),
            },
            CoreRequest::Connect(config) => IncrementalRequest::Connect(station(config)),
            CoreRequest::Disconnect(config) => IncrementalRequest::Disconnect {
                timeout_ms: config.disconnect_timeout.as_millis(),
            },
        };
        self.0.start(id, request).map_err(core_error)
    }

    fn poll(
        &mut self,
        id: OperationId,
        _: WakeReason,
        budget: CoreBudget,
        scan_output: &mut [CoreScanResult],
    ) -> Result<CoreReport, CoreError> {
        let granted = WorkBudget::try_new(budget.max_events().get(), budget.max_time_us().get()).unwrap();
        let mut output = vec![ScanResult::empty(); scan_output.len()];
        let report = self
            .0
            .poll(id, granted, &mut output)
            .map_err(core_error)?;
        Ok(CoreReport::try_new(
            report.operation,
            budget,
            report.consumed_events,
            report.elapsed_us,
            report.made_progress,
            core_disposition(report.disposition),
        )
        .unwrap())
    }

    fn cancel(&mut self, id: OperationId) -> Result<(), CoreError> {
        self.0.cancel(id).map_err(core_error)
    }

    fn next_deadline_us(&self, id: OperationId) -> Option<u64> {
        self.0.next_deadline_us(id)
    }
}

struct ResourceFixture {
    key_installed: Cell<bool>,
    disconnect_calls: Cell<u8>,
    next_event: Cell<u8>,
}

impl ResourceFixture {
    const fn new() -> Self {
        Self {
            key_installed: Cell::new(false),
            disconnect_calls: Cell::new(0),
            next_event: Cell::new(0),
        }
    }
}

struct ResourcePort<'a>(&'a ResourceFixture);

impl SupplicantPort for ResourcePort<'_> {
    fn start_scan(&mut self) -> Result<(), BackendError> {
        Ok(())
    }

    fn poll_scan(&mut self) -> Result<Option<usize>, BackendError> {
        Ok(Some(0))
    }

    fn scan_result(&self, _: usize) -> Option<ScanResult> {
        None
    }

    fn scan_cache_pending(&self) -> bool {
        false
    }

    fn cancel_scan(&mut self) {}

    fn configure(&mut self, _: &StationConfig) -> Result<(), BackendError> {
        Ok(())
    }

    fn connect(&mut self) -> Result<(), BackendError> {
        self.0.key_installed.set(true);
        Ok(())
    }

    fn disconnect(&mut self) -> Result<(), BackendError> {
        self.0
            .disconnect_calls
            .set(self.0.disconnect_calls.get() + 1);
        self.0.key_installed.set(false);
        Ok(())
    }

    fn poll(&mut self, _: u32) -> Result<PollResult, BackendError> {
        Ok(PollResult {
            work_completed: 0,
            output_pending: 1,
            next_deadline_ms: u64::MAX,
        })
    }

    fn input_pending(&self) -> bool {
        false
    }

    fn next_event(&mut self) -> Result<Option<NativeEvent>, BackendError> {
        let index = self.0.next_event.get();
        self.0.next_event.set(index + 1);
        Ok(match index {
            0 => Some(NativeEvent {
                kind: NATIVE_EVENT_AUTHORIZED,
                status: 0,
            }),
            1 => Some(NativeEvent {
                kind: NATIVE_EVENT_DISCONNECTED,
                status: 0,
            }),
            _ => None,
        })
    }

    fn recovery_diagnostic_word(&self) -> u32 {
        0
    }

    fn context_diagnostic_word(&self) -> u32 {
        0
    }

    fn driver_diagnostic_word(&self) -> u32 {
        0
    }

    fn match_diagnostic_word(&self) -> u32 {
        0
    }

    fn external_auth_retry_stalled(&self) -> bool {
        false
    }
}

struct FakeClock(u64);

impl MonotonicClock for FakeClock {
    fn now_us(&self) -> u64 {
        self.0
    }
}

struct SharedClock<'a>(&'a Cell<u64>);

impl MonotonicClock for SharedClock<'_> {
    fn now_us(&self) -> u64 {
        self.0.get()
    }
}

fn transition_station_config(timeout_ms: u32) -> CoreStation {
    let result = CoreScanResult {
        ssid: Ssid::try_from_bytes(b"transition-ap").unwrap(),
        bssid: [1, 2, 3, 4, 5, 6],
        frequency_mhz: 2_412,
        rssi_dbm: -40,
        security: CoreSecurity::Wpa2Wpa3PersonalTransition,
        channel: 1,
    };
    CoreStation::wpa3_personal(
        &result,
        Passphrase::try_from_ascii(b"testtest").unwrap(),
        CoreSaePwe::Both,
        OperationTimeout::try_from_millis(timeout_ms).unwrap(),
    )
    .unwrap()
}

#[test]
fn cancellation_conserves_operation_queue_timer_and_key_resources() {
    let resources = ResourceFixture::new();
    let backend = Adapter(IncrementalSupplicantBackend::new(
        ResourcePort(&resources),
        FakeClock(1_000),
    ));
    let mut driver = IncrementalBackendDriver::new(backend, CoreBudget::try_new(1, 100).unwrap());
    let first_sequence = CommandSequence::try_from_raw(1).unwrap();
    let replacement_sequence = CommandSequence::try_from_raw(2).unwrap();
    let mut output = [CoreScanResult::empty(); 1];

    driver
        .submit(
            first_sequence,
            CoreRequest::Connect(transition_station_config(1_000)),
        )
        .unwrap();
    let IncrementalDriverEvent::Started {
        operation: first, ..
    } = driver
        .drive_once(CoreWaitSet::empty(), &mut output)
        .unwrap()
    else {
        panic!("connect did not start");
    };
    assert!(matches!(
        driver.drive_once(CoreWaitSet::empty(), &mut output).unwrap(),
        IncrementalDriverEvent::Pending {
            operation,
            ..
        } if operation == first
    ));
    assert!(matches!(
        driver.drive_once(CoreWaitSet::empty(), &mut output).unwrap(),
        IncrementalDriverEvent::Pending {
            operation,
            wait_for,
            ..
        } if operation == first
            && wait_for.contains(CoreWaitSet::BACKEND)
            && wait_for.contains(CoreWaitSet::TIMER)
    ));
    assert!(resources.key_installed.get());
    assert!(driver.next_deadline_us().is_some());

    driver
        .submit(
            replacement_sequence,
            CoreRequest::Initialize(WifiConfig::default()),
        )
        .unwrap();
    assert!(!driver.can_submit());
    assert_eq!(
        driver
            .drive_once(CoreWaitSet::empty(), &mut output)
            .unwrap(),
        IncrementalDriverEvent::CancelRequested {
            sequence: first_sequence,
            operation: first,
        }
    );
    assert!(resources.key_installed.get());
    assert_eq!(resources.disconnect_calls.get(), 0);

    assert!(matches!(
        driver.drive_once(CoreWaitSet::empty(), &mut output).unwrap(),
        IncrementalDriverEvent::Pending {
            operation,
            wait_for,
            ..
        } if operation == first
            && wait_for.contains(CoreWaitSet::BACKEND)
            && wait_for.contains(CoreWaitSet::TIMER)
    ));
    assert!(!resources.key_installed.get());
    assert_eq!(resources.disconnect_calls.get(), 1);

    assert!(matches!(
        driver.drive_once(CoreWaitSet::BACKEND, &mut output).unwrap(),
        IncrementalDriverEvent::BudgetExhausted {
            sequence,
            operation,
            ..
        } if sequence == first_sequence && operation == first
    ));
    assert_eq!(resources.disconnect_calls.get(), 1);

    assert_eq!(
        driver
            .drive_once(CoreWaitSet::BACKEND, &mut output)
            .unwrap(),
        IncrementalDriverEvent::Cancelled {
            sequence: first_sequence,
            suppressed_completion: false,
        }
    );
    assert!(driver.next_deadline_us().is_none());

    let IncrementalDriverEvent::Started {
        sequence,
        operation: replacement,
    } = driver
        .drive_once(CoreWaitSet::empty(), &mut output)
        .unwrap()
    else {
        panic!("replacement did not start");
    };
    assert_eq!(sequence, replacement_sequence);
    assert_ne!(replacement.generation(), first.generation());
    assert!(driver.can_submit());
    assert!(!resources.key_installed.get());
    assert_eq!(resources.disconnect_calls.get(), 1);
}

fn fixture_backend(clock: &Cell<u64>) -> Adapter<OperationFixturePort, SharedClock<'_>> {
    Adapter(IncrementalSupplicantBackend::new(
        OperationFixturePort::new(),
        SharedClock(clock),
    ))
}

fn fixture_station_config(timeout_ms: u32) -> CoreStation {
    let scan = CoreScanResult {
        ssid: Ssid::try_from_bytes(b"source-path-fixture").unwrap(),
        bssid: [0x02, 0, 0, 0, 0, 1],
        frequency_mhz: 2_412,
        rssi_dbm: -40,
        security: CoreSecurity::Wpa2Personal,
        channel: 1,
    };
    CoreStation::wpa2_personal(
        &scan,
        Passphrase::try_from_ascii(b"fixture-only").unwrap(),
        OperationTimeout::try_from_millis(timeout_ms).unwrap(),
    )
    .unwrap()
}

fn poll_fixture<F: Future>(future: Pin<&mut F>) -> Poll<F::Output> {
    future.poll(&mut Context::from_waker(Waker::noop()))
}

static CANCELLATION_STATE: RadioState<4> = RadioState::new();
static TIMEOUT_STATE: RadioState<4> = RadioState::new();

#[test]
fn operation_fixture_crosses_the_public_controller_path() {
    let budget = CoreBudget::try_new(4, 100).unwrap();
    let clock = Cell::new(0);
    let radio = init(
        RadioConfig::default(),
        RadioResources {
            backend: fixture_backend(&clock),
            device: (),
        },
        &CANCELLATION_STATE,
    )
    .ok()
    .unwrap();
    let IncrementalRadioParts {
        mut wifi,
        mut runner,
    } = radio.split_incremental(budget);
    {
        let mut connect = Box::pin(wifi.controller.connect(fixture_station_config(1_000)));
        assert!(poll_fixture(connect.as_mut()).is_pending());
        assert!(matches!(
            runner.run_once(CoreWaitSet::empty()).ok().unwrap(),
            IncrementalDriverEvent::Started { .. }
        ));
        assert!(matches!(
            runner.run_once(CoreWaitSet::empty()).ok().unwrap(),
            IncrementalDriverEvent::Pending { .. }
        ));
        assert!(matches!(
            runner.run_once(CoreWaitSet::empty()).ok().unwrap(),
            IncrementalDriverEvent::Pending { .. }
        ));
    }
    {
        let mut disconnect = Box::pin(wifi.controller.disconnect());
        assert!(poll_fixture(disconnect.as_mut()).is_pending());
        assert!(matches!(
            runner.run_once(CoreWaitSet::empty()).ok().unwrap(),
            IncrementalDriverEvent::CancelRequested { .. }
        ));
        assert!(matches!(
            runner.run_once(CoreWaitSet::empty()).ok().unwrap(),
            IncrementalDriverEvent::Pending { .. }
        ));
        assert!(matches!(
            runner.run_once(CoreWaitSet::BACKEND).ok().unwrap(),
            IncrementalDriverEvent::Cancelled { .. }
        ));
        assert!(matches!(
            runner.run_once(CoreWaitSet::empty()).ok().unwrap(),
            IncrementalDriverEvent::Started { .. }
        ));
        assert!(matches!(
            runner.run_once(CoreWaitSet::empty()).ok().unwrap(),
            IncrementalDriverEvent::Pending { .. }
        ));
        assert!(matches!(
            runner.run_once(CoreWaitSet::BACKEND).ok().unwrap(),
            IncrementalDriverEvent::Completed {
                completion: CoreCompletion::Disconnected,
                ..
            }
        ));
        assert!(matches!(
            poll_fixture(disconnect.as_mut()),
            Poll::Ready(Ok(()))
        ));
    }
    let cancelled = loop {
        let mut event = Box::pin(wifi.controller.next_event());
        match poll_fixture(event.as_mut()) {
            Poll::Ready(WifiEvent::Failed(error)) if error.class() == CoreClass::Cancelled => {
                break error.diagnostic();
            }
            Poll::Ready(_) => {}
            Poll::Pending => panic!("no cancellation was reported"),
        }
    };

    let timeout_clock = Cell::new(0);
    let timeout_radio = init(
        RadioConfig::default(),
        RadioResources {
            backend: fixture_backend(&timeout_clock),
            device: (),
        },
        &TIMEOUT_STATE,
    )
    .ok()
    .unwrap();
    let IncrementalRadioParts {
        wifi: mut timeout_wifi,
        runner: mut timeout_runner,
    } = timeout_radio.split_incremental(budget);
    let mut connect = Box::pin(timeout_wifi.controller.connect(fixture_station_config(1)));
    assert!(poll_fixture(connect.as_mut()).is_pending());
    assert!(matches!(
        timeout_runner.run_once(CoreWaitSet::empty()).ok().unwrap(),
        IncrementalDriverEvent::Started { .. }
    ));
    assert!(matches!(
        timeout_runner.run_once(CoreWaitSet::empty()).ok().unwrap(),
        IncrementalDriverEvent::Pending { .. }
    ));
    assert!(matches!(
        timeout_runner.run_once(CoreWaitSet::empty()).ok().unwrap(),
        IncrementalDriverEvent::Pending { .. }
    ));
    timeout_clock.set(1_000);
    assert!(matches!(
        timeout_runner.run_once(CoreWaitSet::TIMER).ok().unwrap(),
        IncrementalDriverEvent::Failed {
            cancellation_pending: false,
            ..
        }
    ));
    let timed_out = match poll_fixture(connect.as_mut()) {
        Poll::Ready(Err(Error::Backend(error)))
            if error.class() == CoreClass::OperationTimeout =>
        {
            error.diagnostic()
        }
        _ => panic!("no timeout was reported"),
    };

    assert_eq!(cancelled.code(), CoreCode::OperationCancelled);
    assert_eq!(cancelled.stage(), CoreStage::Operation);
    assert_eq!(cancelled.backend_code(), Some(0));
    assert_eq!(timed_out.code(), CoreCode::OperationTimeout);
    assert_eq!(timed_out.stage(), CoreStage::Connect);
    assert_eq!(timed_out.backend_code(), Some(ERROR_OPERATION_TIMEOUT));
}

#[test]
fn operation_fixture_reports_a_cancellation_and_a_timeout() {
    let id = OperationTracker::new().queue(0).unwrap();
    let (cancelled, timed_out) = operation_error_injection_fixture(
        id,
        id,
        id,
        station(fixture_station_config(1_000)),
        station(fixture_station_config(1)),
    )
    .expect("fixture must complete");
    assert_eq!(cancelled.code, DiagnosticCode::OperationCancelled);
    assert_eq!(cancelled.stage, DiagnosticStage::Operation);
    assert_eq!(cancelled.backend_code, Some(0));
    assert_eq!(timed_out.code, DiagnosticCode::OperationTimeout);
    assert_eq!(timed_out.stage, DiagnosticStage::Connect);
    assert_eq!(timed_out.backend_code, Some(ERROR_OPERATION_TIMEOUT));
}
