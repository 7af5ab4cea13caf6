use hisi_rf_ws63::hisi_rf_backend::incremental::{
    IncrementalRequest, MonotonicClock, PollResult, SupplicantPort,
};
use hisi_rf_ws63::hisi_rf_backend::port::{
    NativeDriver, NativeSupplicant, PortWords, Ws63WifiBackend,
};
use hisi_rf_ws63::hisi_rf_backend::{
    convert_scan_result, copy_scan_results, map_error, map_native_error, not_initialized,
    select_scan, supplicant_polled, Bootstrap, BootstrapAction, BootstrapPhase, BootstrapReply,
    BootstrapTokens, DisconnectAttempt, NativeEvent, NativeSupplicantError, ScanAction,
    ScanAttempt, ScanReply, ScanSecurity, StationAction, StationReply, Ws63Error, Ws63ScanResult,
};
use hisi_rf_ws63::radio::{
    BackendErrorClass, DiagnosticStage, ScanResult, Security, StationConfig,
};

fn bss(name: &[u8], last: u8, channel: u8) -> Ws63ScanResult {
    Ws63ScanResult {
        ssid: name.to_vec(),
        bssid: [2, 0, 0, 0, 0, last],
        frequency_mhz: 2412,
        rssi_dbm: -40,
        security: ScanSecurity::Protected,
        supports_wpa2_personal: true,
        supports_wpa3_personal: true,
        supports_wpa2_wpa3_transition: false,
        channel,
    }
}

#[test]
fn a_nameless_network_has_no_public_form() {
    assert!(convert_scan_result(&bss(b"", 1, 1), true).is_none());
    assert!(convert_scan_result(&bss(&[b'a'; 33], 1, 1), true).is_none());
    let public = convert_scan_result(&bss(b"network", 1, 6), true).unwrap();
    assert_eq!(public.ssid.as_bytes(), b"network");
    assert_eq!(public.bssid, [2, 0, 0, 0, 0, 1]);
    assert_eq!(public.channel, 6);
    assert_eq!(public.rssi_dbm, -40);
    assert!(matches!(public.security, Security::Wpa3Personal));
    let without = convert_scan_result(&bss(b"network", 1, 6), false).unwrap();
    assert!(matches!(without.security, Security::Wpa2Personal));
}

#[test]
fn results_are_copied_in_order_until_the_buffer_is_full() {
    let scans = [bss(b"one", 1, 1), bss(b"", 2, 2), bss(b"three", 3, 3)];
    let mut output = [ScanResult::empty(); 3];
    let outcome = copy_scan_results(&scans, true, &mut output);
    assert_eq!(outcome.count, 2);
    assert!(outcome.truncated);
    assert_eq!(output[0].ssid.as_bytes(), b"one");
    assert_eq!(output[1].ssid.as_bytes(), b"three");
    let mut small = [ScanResult::empty(); 1];
    let outcome = copy_scan_results(&scans[..1], true, &mut small);
    assert_eq!(outcome.count, 1);
    assert!(!outcome.truncated);
    let outcome = copy_scan_results(&scans, true, &mut small);
    assert_eq!(outcome.count, 1);
    assert!(outcome.truncated);
}

#[test]
fn only_a_network_of_the_latest_scan_can_be_selected() {
    let scans = [bss(b"one", 1, 1), bss(b"one", 1, 6), bss(b"one", 2, 6)];
    let address = [2, 0, 0, 0, 0, 1];
    assert_eq!(select_scan(&scans, b"one", &address, 6), Ok(1));
    let error = select_scan(&scans, b"two", &address, 6).unwrap_err();
    assert_eq!(error.class, BackendErrorClass::Connect);
    assert_eq!(error.code, 0x1000_0002);
    assert_eq!(error.stage, DiagnosticStage::Associate);
}

#[test]
fn an_opened_capture_is_closed() {
    let (mut attempt, action) = ScanAttempt::begin(true);
    assert!(matches!(action, ScanAction::OpenCapture));
    assert!(matches!(
        attempt.resume(ScanReply::Captured(Ok(()))),
        ScanAction::Scan
    ));
    assert!(matches!(
        attempt.resume(ScanReply::Scanned(Some(Ok(3)))),
        ScanAction::FinishCapture
    ));
    assert!(matches!(
        attempt.resume(ScanReply::Captured(Ok(()))),
        ScanAction::Done(Ok(3))
    ));

    let (mut refused, _) = ScanAttempt::begin(true);
    refused.resume(ScanReply::Captured(Ok(())));
    assert!(matches!(
        refused.resume(ScanReply::Scanned(Some(Err(Ws63Error::Busy)))),
        ScanAction::CancelCapture
    ));
    match refused.resume(ScanReply::Cancelled) {
        ScanAction::Done(Err(error)) => assert_eq!(error, map_error(Ws63Error::Busy)),
        other => panic!("{other:?}"),
    }

    let (mut driverless, _) = ScanAttempt::begin(true);
    driverless.resume(ScanReply::Captured(Ok(())));
    assert!(matches!(
        driverless.resume(ScanReply::Scanned(None)),
        ScanAction::CancelCapture
    ));
    match driverless.resume(ScanReply::Cancelled) {
        ScanAction::Done(Err(error)) => assert_eq!(error, not_initialized()),
        other => panic!("{other:?}"),
    }

    match ScanAttempt::begin(false).1 {
        ScanAction::Done(Err(error)) => assert_eq!(error, not_initialized()),
        other => panic!("{other:?}"),
    }
}

#[test]
fn a_disconnection_ends_with_its_event_or_its_deadline() {
    let (mut attempt, action) = DisconnectAttempt::begin(true, 10);
    assert!(matches!(action, StationAction::Disconnect));
    attempt.resume(StationReply::Submitted(Ok(())));
    assert!(matches!(
        attempt.resume(StationReply::Clock(100)),
        StationAction::Poll(32)
    ));
    attempt.resume(StationReply::Submitted(Ok(())));
    let mut expired = attempt;
    assert!(matches!(
        attempt.resume(StationReply::Event(Ok(Some(NativeEvent { kind: 4, status: 0 })))),
        StationAction::Disconnected(Ok(()))
    ));
    assert!(matches!(
        expired.resume(StationReply::Event(Ok(None))),
        StationAction::ReadClock
    ));
    match expired.resume(StationReply::Clock(110)) {
        StationAction::Disconnected(Err(error)) => {
            assert_eq!(error.class, BackendErrorClass::BackendTimeout);
            assert_eq!(error.code, 2);
            assert_eq!(error.stage, DiagnosticStage::Disconnect);
        }
        other => panic!("{other:?}"),
    }
}

#[test]
fn a_bootstrap_runs_its_self_tests_before_the_driver() {
    let mut bootstrap = Bootstrap {
        tokens: BootstrapTokens {
            efuse: true,
            trng: true,
            km: true,
            spacc: true,
            pke: true,
            crypto_storage: true,
        },
        self_tests: 2,
        phase: BootstrapPhase::Idle,
    };
    assert!(matches!(
        bootstrap.initialize(),
        BootstrapAction::InstallCrypto
    ));
    assert!(matches!(
        bootstrap.resume(BootstrapReply::Crypto(Ok(()))),
        BootstrapAction::SelfTest(2)
    ));
    let mut failing = bootstrap;
    assert!(matches!(
        bootstrap.resume(BootstrapReply::Crypto(Ok(()))),
        BootstrapAction::SelfTest(1)
    ));
    assert!(matches!(
        bootstrap.resume(BootstrapReply::Crypto(Ok(()))),
        BootstrapAction::StartDriver
    ));
    assert!(matches!(
        bootstrap.resume(BootstrapReply::Driver(Ok(()))),
        BootstrapAction::CreateSupplicant
    ));
    assert!(matches!(
        bootstrap.resume(BootstrapReply::Supplicant(Ok(()))),
        BootstrapAction::Done(Ok(()))
    ));
    assert!(matches!(
        bootstrap.initialize(),
        BootstrapAction::Done(Ok(()))
    ));
    match failing.resume(BootstrapReply::Crypto(Err(7))) {
        BootstrapAction::Done(Err(error)) => assert_eq!(error.code, 7),
        other => panic!("{other:?}"),
    }
    match failing.initialize() {
        BootstrapAction::Done(Err(error)) => assert_eq!(error.code, 0x1000_0001),
        other => panic!("{other:?}"),
    }
}

#[test]
fn a_poll_without_a_supplicant_leaves_no_work() {
    assert_eq!(supplicant_polled(None), Ok(false));
    assert_eq!(supplicant_polled(Some(Ok(0))), Ok(false));
    assert_eq!(supplicant_polled(Some(Ok(2))), Ok(true));
    assert_eq!(
        supplicant_polled(Some(Err(NativeSupplicantError::PollFailed(-1)))),
        Err(map_native_error(NativeSupplicantError::PollFailed(-1)))
    );
}

struct Driver {
    begin: Result<(), Ws63Error>,
}

impl NativeDriver for Driver {
    fn begin_scan(&mut self) -> Result<(), Ws63Error> {
        self.begin
    }

    fn poll_scan(&mut self) -> Result<Option<usize>, Ws63Error> {
        Err(Ws63Error::Timeout)
    }

    fn scan_result(&self, index: usize) -> Option<Ws63ScanResult> {
        if index == 0 {
            Some(bss(b"network", 1, 6))
        } else {
            None
        }
    }

    fn cancel_scan(&mut self) {}
}

struct Supplicant {
    opened: u32,
    cancelled: u32,
}

impl NativeSupplicant for Supplicant {
    fn begin_scan_cache_capture(&mut self) -> Result<(), NativeSupplicantError> {
        self.opened += 1;
        Ok(())
    }

    fn cancel_scan_cache_capture(&mut self) {
        self.cancelled += 1;
    }

    fn scan_cache_capture_pending(&self) -> bool {
        self.opened > self.cancelled
    }

    fn configure(&mut self, _: &StationConfig) -> Result<(), NativeSupplicantError> {
        Err(NativeSupplicantError::ConfigureFailed(-3))
    }

    fn connect(&mut self) -> Result<(), NativeSupplicantError> {
        Ok(())
    }

    fn disconnect(&mut self) -> Result<(), NativeSupplicantError> {
        Err(NativeSupplicantError::DisconnectFailed(-4))
    }

    fn poll(&mut self, budget: u32) -> Result<PollResult, NativeSupplicantError> {
        Ok(PollResult {
            work_completed: budget,
            output_pending: 0,
            next_deadline_ms: u64::MAX,
        })
    }

    fn input_pending(&self) -> bool {
        true
    }

    fn next_event(&mut self) -> Result<Option<NativeEvent>, NativeSupplicantError> {
        Ok(None)
    }

    fn context_diagnostic_word(&self) -> u32 {
        5
    }

    fn match_diagnostic_word(&self) -> u32 {
        6
    }

    fn external_auth_retry_stalled(&self) -> bool {
        true
    }
}

struct Words;

impl PortWords for Words {
    fn recovery_diagnostic_word(&self) -> u32 {
        7
    }

    fn diagnostic_word(&self) -> u32 {
        8
    }
}

struct Clock;

impl MonotonicClock for Clock {
    fn now_us(&self) -> u64 {
        1
    }
}

#[test]
fn a_port_without_its_parts_is_not_initialized() {
    let mut port: Ws63WifiBackend<Driver, Supplicant, Words> = Ws63WifiBackend {
        wifi: None,
        supplicant: None,
        words: Words,
        wpa3: true,
    };
    assert_eq!(port.ensure_incremental_ready(), Err(not_initialized()));
    assert_eq!(port.start_scan(), Err(not_initialized()));
    assert_eq!(port.poll_scan(), Err(not_initialized()));
    assert_eq!(port.connect(), Err(not_initialized()));
    assert_eq!(port.disconnect(), Err(not_initialized()));
    assert!(port.poll(1).is_err());
    assert!(port.next_event().is_err());
    assert!(port.scan_result(0).is_none());
    assert!(!port.scan_cache_pending());
    assert!(!port.input_pending());
    assert!(!port.external_auth_retry_stalled());
    assert_eq!(port.context_diagnostic_word(), 0);
    assert_eq!(port.match_diagnostic_word(), 0);
    assert_eq!(port.recovery_diagnostic_word(), 7);
    assert_eq!(port.driver_diagnostic_word(), 8);
    assert!(port.into_incremental(Clock).is_err());
}

#[test]
fn a_scan_that_cannot_start_cancels_its_capture() {
    let mut port = Ws63WifiBackend {
        wifi: Some(Driver {
            begin: Err(Ws63Error::Busy),
        }),
        supplicant: Some(Supplicant {
            opened: 0,
            cancelled: 0,
        }),
        words: Words,
        wpa3: true,
    };
    assert_eq!(port.start_scan(), Err(map_error(Ws63Error::Busy)));
    let supplicant = port.supplicant.as_ref().unwrap();
    assert_eq!((supplicant.opened, supplicant.cancelled), (1, 1));
    port.wifi = Some(Driver { begin: Ok(()) });
    assert_eq!(port.start_scan(), Ok(()));
    assert!(port.scan_cache_pending());
    port.cancel_scan();
    assert!(!port.scan_cache_pending());
    assert_eq!(port.poll_scan(), Err(map_error(Ws63Error::Timeout)));
    assert_eq!(port.scan_result(0).unwrap().ssid.as_bytes(), b"network");
    assert!(port.scan_result(1).is_none());
    assert_eq!(
        port.disconnect(),
        Err(map_native_error(NativeSupplicantError::DisconnectFailed(-4)))
    );
    assert_eq!(port.poll(9).unwrap().work_completed, 9);
    assert_eq!(port.context_diagnostic_word(), 5);
    assert_eq!(port.match_diagnostic_word(), 6);
    let mut backend = port.into_incremental(Clock).ok().unwrap();
    let id = hisi_rf_core::OperationTracker::new().queue(0).unwrap();
    assert!(backend
        .start(id, IncrementalRequest::Scan { timeout_ms: 5 })
        .is_ok());
    assert_eq!(backend.next_deadline_us(id), Some(5_001));
}
