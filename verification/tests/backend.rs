use hisi_rf_ws63::error::{check, runtime_code, task_admission_code, RuntimeError, TaskAdmissionError, WifiError};
use hisi_rf_ws63::hisi_rf_backend::{
    backend_failure_error, channel_to_frequency, classify_connect_timeout_stage,
    classify_native_connect_event, connect_timeout_error, map_error, map_native_error,
    terminal_connect_stage, AssociationAttempt, BootstrapTokens, ConnectAttempt, NativeConnectEvent,
    NativeEvent, NativeSupplicantError, ScanStatus, StationAction, StationReply, Ws63Error,
    NATIVE_EVENT_AUTHORIZED, NATIVE_EVENT_DISCONNECTED, NATIVE_EVENT_FAILED,
};
use hisi_rf_ws63::radio::{
    BackendErrorClass, DiagnosticCode, DiagnosticStage, DiagnosticTraceKind, ProfileRevision,
    RecoveryAction,
};

#[test]
fn disconnected_is_recoverable_until_the_overall_connect_deadline() {
    assert_eq!(
        classify_native_connect_event(NATIVE_EVENT_DISCONNECTED),
        NativeConnectEvent::Disconnected
    );
    assert_eq!(
        classify_native_connect_event(NATIVE_EVENT_FAILED),
        NativeConnectEvent::Failed
    );
    assert_eq!(
        classify_native_connect_event(NATIVE_EVENT_AUTHORIZED),
        NativeConnectEvent::Authorized
    );
    assert_eq!(
        classify_native_connect_event(1),
        NativeConnectEvent::Progress
    );
    assert_eq!(
        classify_native_connect_event(2),
        NativeConnectEvent::Progress
    );
}

#[test]
fn admission_error_code_retains_required_and_available_slots() {
    assert_eq!(
        task_admission_code(TaskAdmissionError::InsufficientTaskSlots {
            required: 5,
            available: 3,
        }),
        0x0503
    );
}

#[test]
fn native_error_mapping_preserves_stage_profile_and_raw_status() {
    let error = map_native_error(NativeSupplicantError::FeedExternalAuthFailed(-17));
    let diagnostic = error.diagnostic();

    assert_eq!(diagnostic.stage, DiagnosticStage::Sae);
    assert_eq!(diagnostic.profile_revision, Some(ProfileRevision::Selected));
    assert_eq!(diagnostic.backend_code, Some(0x5732_efef));
    assert_eq!(diagnostic.trace.len(), 1);
    let trace = diagnostic.trace.get(0).unwrap();
    assert_eq!(trace.kind, DiagnosticTraceKind::HostapStatus);
    assert_eq!(trace.value, (-17_i32) as u32);
}

#[test]
fn diagnostic_source_matrix_preserves_unknown_numeric_statuses() {
    let vendor = map_error(Ws63Error::ScanFailed(ScanStatus::Unknown(0xdead_beef))).diagnostic();
    let ieee = map_error(Ws63Error::ConnectFailed(221)).diagnostic();
    let hostap = map_native_error(NativeSupplicantError::PollFailed(-117)).diagnostic();

    assert_eq!(vendor.code, DiagnosticCode::BackendOther);
    assert_eq!(
        vendor.trace.get(0).unwrap().kind,
        DiagnosticTraceKind::VendorStatus
    );
    assert_eq!(vendor.trace.get(0).unwrap().value, 0xdead_beef);
    assert_eq!(ieee.code, DiagnosticCode::ConnectionFailed);
    assert_eq!(
        ieee.trace.get(0).unwrap().kind,
        DiagnosticTraceKind::IeeeStatus
    );
    assert_eq!(ieee.trace.get(0).unwrap().value, 221);
    assert_eq!(hostap.code, DiagnosticCode::BackendOther);
    assert_eq!(
        hostap.trace.get(0).unwrap().kind,
        DiagnosticTraceKind::HostapStatus
    );
    assert_eq!(hostap.trace.get(0).unwrap().value, (-117_i32) as u32);
}

fn attempt(status: u32) -> AssociationAttempt {
    AssociationAttempt {
        raw_status: 0,
        status,
    }
}

#[test]
fn connection_timeout_stage_uses_association_and_eapol_evidence() {
    assert_eq!(
        classify_connect_timeout_stage(Some(attempt(0)), 0),
        DiagnosticStage::Eapol
    );
    assert_eq!(
        classify_connect_timeout_stage(Some(attempt(0)), 1),
        DiagnosticStage::Connect
    );
    assert_eq!(
        classify_connect_timeout_stage(Some(attempt(30)), 0),
        DiagnosticStage::Pmf
    );
    assert_eq!(
        classify_connect_timeout_stage(Some(attempt(221)), 0),
        DiagnosticStage::Connect
    );
    assert_eq!(
        classify_connect_timeout_stage(None, 0),
        DiagnosticStage::Connect
    );
}

#[test]
fn ieee_temporary_rejection_is_classified_as_pmf() {
    assert_eq!(terminal_connect_stage(30), DiagnosticStage::Pmf);
    assert_eq!(terminal_connect_stage(0), DiagnosticStage::Associate);
    assert_eq!(terminal_connect_stage(17), DiagnosticStage::Associate);
}

#[test]
fn production_connect_errors_preserve_association_and_first_eapol_evidence() {
    let rejected = backend_failure_error(30, 0x445, 0x123).diagnostic();
    assert_eq!(rejected.code, DiagnosticCode::ConnectionFailed);
    assert_eq!(rejected.stage, DiagnosticStage::Pmf);
    assert_eq!(rejected.action, RecoveryAction::InspectNetworkAndRetry);
    assert_eq!(rejected.backend_code, Some(30));
    assert_eq!(
        rejected.trace.get(0).map(|entry| entry.kind),
        Some(DiagnosticTraceKind::IeeeStatus)
    );
    assert_eq!(rejected.trace.get(0).map(|entry| entry.value), Some(30));

    let eapol_stall = connect_timeout_error(3, 0x423, 0x55, Some(attempt(0)), 0).diagnostic();
    assert_eq!(eapol_stall.code, DiagnosticCode::BackendTimeout);
    assert_eq!(eapol_stall.stage, DiagnosticStage::Eapol);
    assert_eq!(eapol_stall.action, RecoveryAction::RetryOperation);
    assert_eq!(eapol_stall.profile_revision, Some(ProfileRevision::Selected));
    assert_eq!(eapol_stall.trace.len(), 4);
    assert_eq!(
        eapol_stall.trace.get(0).map(|entry| entry.kind),
        Some(DiagnosticTraceKind::SupplicantContext)
    );
    assert_eq!(
        eapol_stall.trace.get(1).map(|entry| entry.kind),
        Some(DiagnosticTraceKind::DriverContext)
    );
    assert_eq!(
        eapol_stall.trace.get(2).map(|entry| entry.kind),
        Some(DiagnosticTraceKind::VendorStatus)
    );
    assert_eq!(
        eapol_stall.trace.get(3).map(|entry| entry.kind),
        Some(DiagnosticTraceKind::IeeeStatus)
    );
}

#[test]
fn channels_have_their_own_frequencies() {
    assert_eq!(channel_to_frequency(1), 2_412);
    assert_eq!(channel_to_frequency(13), 2_472);
    assert_eq!(channel_to_frequency(14), 2_484);
}

#[test]
fn vendor_codes_other_than_zero_are_errors() {
    assert_eq!(check(0), Ok(()));
    assert_eq!(check(0x8000_0001), Err(WifiError(0x8000_0001)));
}

#[test]
fn runtime_errors_have_different_codes() {
    assert_ne!(
        runtime_code(RuntimeError::Runtime),
        runtime_code(RuntimeError::ResourceExhausted)
    );
}

#[test]
fn a_disconnect_during_a_connection_attempt_is_not_its_end() {
    let (mut attempt, first) = ConnectAttempt::begin(true, [1, 2, 3, 4, 5, 6], 6, 100);
    let mut action = first;
    let mut disconnected = false;
    let mut connected = false;
    for _ in 0..64 {
        let reply = match action {
            StationAction::Connected(result) => {
                connected = result.is_ok();
                break;
            }
            StationAction::ReadClock => StationReply::Clock(0),
            StationAction::NextEvent => {
                let kind = if disconnected {
                    NATIVE_EVENT_AUTHORIZED
                } else {
                    NATIVE_EVENT_DISCONNECTED
                };
                disconnected = true;
                StationReply::Event(Ok(Some(NativeEvent { kind, status: 0 })))
            }
            _ => StationReply::Submitted(Ok(())),
        };
        action = attempt.resume(reply);
    }
    assert!(disconnected);
    assert!(connected);
}

#[test]
fn bootstrap_tokens_are_taken_once() {
    let mut tokens = BootstrapTokens {
        efuse: true,
        trng: true,
        km: true,
        spacc: true,
        pke: true,
        crypto_storage: true,
    };
    assert!(tokens.take().is_ok());
    let refused = tokens.take().unwrap_err();
    assert_eq!(refused.class(), BackendErrorClass::Initialize);
    assert_eq!(refused.code(), 0x1000_0001);
}
