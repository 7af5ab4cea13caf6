use hisi_rf_ws63::composition::claim::{
    task_resource_group, ClaimAction, ClaimReply, ProfileClaim, TaskGroupPlan,
};
use hisi_rf_ws63::composition::init::{BlockingInit, IncrementalInit, InitAction, InitReply};
use hisi_rf_ws63::composition::{
    data_path_diagnostics, BoundaryCounters, BridgeCounters, InitError, InitErrorKind,
    Instrumentation, LoopCounters, MacSnapshot, Resources, WifiWpa2Smoltcp, WifiWpa3Smoltcp,
    DATA_PATH_DIAG_CAPABILITIES,
};
use hisi_rf_ws63::error::{RuntimeError, TaskAdmissionError};
use hisi_rf_ws63::radio::{
    BackendError, BackendErrorClass, DiagnosticCode, DiagnosticStage, DiagnosticTraceKind,
    ProfileRevision, RadioError, RecoveryAction,
};

#[test]
fn task_admission_error_is_actionable_and_lossless() {
    let error = InitError::task_admission(TaskAdmissionError::InsufficientTaskSlots {
        required: 7,
        available: 3,
    });
    assert_eq!(error.kind(), InitErrorKind::TaskAdmission);
    let diagnostic = error.diagnostic();

    assert_eq!(diagnostic.code, DiagnosticCode::ResourceUnavailable);
    assert_eq!(diagnostic.stage, DiagnosticStage::Runtime);
    assert_eq!(diagnostic.action, RecoveryAction::ProvideResources);
    assert_eq!(diagnostic.profile_revision, Some(ProfileRevision::Selected));
    assert_eq!(diagnostic.trace.get(0).map(|entry| entry.value), Some(7));
    assert_eq!(diagnostic.trace.get(1).map(|entry| entry.value), Some(3));
    assert_eq!(diagnostic.backend_code, Some(0x5732_a000 | 0x0703));
}

#[test]
fn task_stack_admission_error_reports_exact_bytes_without_secrets() {
    let diagnostic = InitError::task_admission(TaskAdmissionError::InsufficientTaskStackMemory {
        required: 144 * 1024,
        available: 120 * 1024,
    })
    .diagnostic();

    assert_eq!(diagnostic.code, DiagnosticCode::ResourceUnavailable);
    assert_eq!(diagnostic.stage, DiagnosticStage::Runtime);
    assert_eq!(diagnostic.action, RecoveryAction::ProvideResources);
    assert_eq!(
        diagnostic.trace.get(0).map(|entry| entry.value),
        Some(144 * 1024)
    );
    assert_eq!(
        diagnostic.trace.get(1).map(|entry| entry.value),
        Some(120 * 1024)
    );
}

#[test]
fn grouped_stack_error_reports_owner_and_largest_contiguous_block() {
    let owner = 2;
    let diagnostic =
        InitError::task_admission(TaskAdmissionError::InsufficientTaskGroupStackMemory {
            owner,
            required: 8 * 1024,
            available: 0,
            largest_contiguous: 7 * 1024,
        })
        .diagnostic();

    assert_eq!(diagnostic.code, DiagnosticCode::ResourceUnavailable);
    let trace = diagnostic.trace;
    assert_eq!(
        trace.get(0).map(|entry| entry.kind),
        Some(DiagnosticTraceKind::ResourceOwner)
    );
    assert_eq!(trace.get(0).map(|entry| entry.value), Some(owner));
    assert_eq!(
        trace.get(1).map(|entry| entry.kind),
        Some(DiagnosticTraceKind::ResourceRequired)
    );
    assert_eq!(trace.get(1).map(|entry| entry.value), Some(8 * 1024));
    assert_eq!(
        trace.get(2).map(|entry| entry.kind),
        Some(DiagnosticTraceKind::ResourceAvailable)
    );
    assert_eq!(trace.get(2).map(|entry| entry.value), Some(0));
    assert_eq!(
        trace.get(3).map(|entry| entry.kind),
        Some(DiagnosticTraceKind::LargestContiguous)
    );
    assert_eq!(trace.get(3).map(|entry| entry.value), Some(7 * 1024));
}

#[test]
fn runtime_and_storage_failures_share_the_public_schema() {
    let timeout = InitError::runtime(RuntimeError::TimedOut).diagnostic();
    assert_eq!(timeout.code, DiagnosticCode::BackendTimeout);
    assert_eq!(timeout.stage, DiagnosticStage::Runtime);
    assert_eq!(timeout.backend_code, Some(0x5732_e007));

    let claimed = InitError::storage_already_claimed().diagnostic();
    assert_eq!(claimed.code, DiagnosticCode::AlreadyInitialized);
}

#[test]
fn initialization_json_never_contains_configuration_secrets() {
    let diagnostic = InitError::task_admission(TaskAdmissionError::InsufficientTaskSlots {
        required: 7,
        available: 3,
    })
    .diagnostic();
    assert_eq!(diagnostic.code, DiagnosticCode::ResourceUnavailable);
    assert_eq!(diagnostic.stage, DiagnosticStage::Runtime);
    let mut core = hisi_rf_core::BackendError::new(
        hisi_rf_core::BackendErrorClass::ResourceUnavailable,
        diagnostic.backend_code.unwrap(),
    )
    .with_stage(hisi_rf_core::DiagnosticStage::Runtime);
    for index in 0..diagnostic.trace.len() {
        let entry = diagnostic.trace.get(index).unwrap();
        let kind = match entry.kind {
            DiagnosticTraceKind::ResourceRequired => {
                hisi_rf_core::DiagnosticTraceKind::ResourceRequired
            }
            DiagnosticTraceKind::ResourceAvailable => {
                hisi_rf_core::DiagnosticTraceKind::ResourceAvailable
            }
            _ => panic!("an amount that a slot shortage does not carry"),
        };
        core = core.with_trace(kind, entry.value);
    }
    let mut json = String::new();
    hisi_rf_core::Error::Backend(core)
        .diagnostic()
        .write_json(&mut json)
        .unwrap();

    assert!(json.contains("resource.unavailable"));
    assert!(!json.contains("ssid"));
    assert!(!json.contains("passphrase"));
    assert!(!json.contains("secret"));
}

#[test]
fn data_path_diagnostics_claim_all_bounded_boundaries() {
    assert_eq!(DATA_PATH_DIAG_CAPABILITIES, 0x3f);
}

#[test]
fn full_data_path_diagnostics_claim_every_returned_boundary() {
    assert_eq!(DATA_PATH_DIAG_CAPABILITIES, 0x3f);
}

fn bridge() -> BridgeCounters {
    BridgeCounters {
        tx_frames: 1,
        tx_failed: 2,
        rx_frames: 3,
        coex_wlan_irqs: 40,
        wlphy_irqs: 44,
        wlmac_irqs: 45,
    }
}

fn registers() -> MacSnapshot {
    MacSnapshot {
        rx_success_mpdu: 7,
        rx_failed_mpdu: 8,
        rx_filtered_mpdu: 9,
        rx_filter_control: 10,
        station_address: [2, 0, 0, 0, 0, 1],
        bssid: [0, 0, 0, 0, 0, 6],
    }
}

#[test]
fn data_path_snapshot_reports_only_what_is_instrumented() {
    let station = Some([2, 0, 0, 0, 0, 1]);
    let absent = data_path_diagnostics(bridge(), station, Instrumentation::Absent);
    assert_eq!(absent.instrumented_capabilities, 0);
    assert_eq!(absent.vendor_rx_frames, 0);
    assert_eq!(absent.rx_frames, 3);
    assert!(!absent.mac_station_address_matches_device);

    let full = data_path_diagnostics(
        bridge(),
        station,
        Instrumentation::Full(
            LoopCounters {
                bridge_xmit_calls: 21,
                tx_complete_calls: 22,
                dmac_rx_calls: 23,
                rx_prepare_results: [20, 3, 25],
                rx_pipeline_stages: [26, 27, 28],
                netif_rx_calls: 24,
            },
            registers(),
        ),
    );
    assert_eq!(full.instrumented_capabilities, 0x3f);
    assert_eq!(full.vendor_tx_frames, 21);
    assert_eq!(full.vendor_rx_frames, 24);
    assert_eq!(full.dmac_rx_prepares, 23);
    assert_eq!(full.dmac_rx_prepare_zero, 20);
    assert_eq!(full.dmac_rx_prepare_nonzero, 3);
    assert_eq!(full.dmac_rx_prepare_last_result, 25);
    assert_eq!(full.hmac_rx_data_event_adapt_calls, 26);
    assert_eq!(full.hmac_rx_process_data_msg_calls, 27);
    assert_eq!(full.hmac_rx_data_calls, 28);
    assert_eq!(full.mac_rx_filtered_mpdu, 9);
    assert!(full.mac_station_address_matches_device);
    assert!(full.mac_bssid_programmed);

    let bounded = data_path_diagnostics(
        bridge(),
        Some([2, 0, 0, 0, 0, 2]),
        Instrumentation::Bounded(
            BoundaryCounters {
                tx_submitted: 31,
                tx_completions: 32,
                rx_prepares: 33,
                rx_prepare_results: [34, 35, 36],
                rx_pipeline_stages: [37, 38, 39],
            },
            MacSnapshot {
                bssid: [0; 6],
                ..registers()
            },
        ),
    );
    assert_eq!(bounded.dmac_rx_prepare_last_result, 36);
    assert_eq!(bounded.hmac_rx_data_calls, 39);
    assert_eq!(bounded.vendor_rx_frames, 3);
    assert_eq!(bounded.wlmac_irqs, 45);
    assert!(!bounded.mac_station_address_matches_device);
    assert!(!bounded.mac_bssid_programmed);
}

type Token = &'static str;

type WpaResources<P> = Resources<P, Token, Token, Token, Token, Token, Token>;

#[test]
fn profile_builders_hold_what_their_profile_requires() {
    let wpa2 = WpaResources::<WifiWpa2Smoltcp>::builder("efuse", "arena")
        .crypto("km", "spacc", "trng")
        .build::<&str>();
    assert_eq!(wpa2.pke, None);
    assert_eq!(wpa2.trng, "trng");
    let wpa3 = WpaResources::<WifiWpa3Smoltcp>::builder("efuse", "arena")
        .crypto("km", "spacc", "trng")
        .pke("pke")
        .build();
    assert_eq!(wpa3.pke, Some("pke"));
    assert_eq!(wpa3.arena, "arena");
    let all = Resources::new(WifiWpa2Smoltcp {}, "efuse", "km", "spacc", "pke", "trng", "arena");
    assert_eq!(all.pke, Some("pke"));
    assert_eq!((all.km, all.spacc, all.efuse), ("km", "spacc", "efuse"));
}

fn vendor() -> TaskGroupPlan {
    TaskGroupPlan {
        owner: 1,
        task_slots: 6,
        stack_bytes_per_task: 4096,
    }
}

fn worker() -> TaskGroupPlan {
    TaskGroupPlan {
        owner: 2,
        task_slots: 1,
        stack_bytes_per_task: 8192,
    }
}

#[test]
fn task_groups_are_checked_before_anything_is_reserved() {
    assert_eq!(task_resource_group(vendor()), Ok(vendor()));
    for zero in [
        TaskGroupPlan {
            owner: 0,
            ..vendor()
        },
        TaskGroupPlan {
            task_slots: 0,
            ..vendor()
        },
        TaskGroupPlan {
            stack_bytes_per_task: 0,
            ..vendor()
        },
    ] {
        assert_eq!(
            task_resource_group(zero),
            Err(InitError::task_admission(TaskAdmissionError::Runtime(
                RuntimeError::Runtime
            )))
        );
    }
    assert_eq!(
        task_resource_group(TaskGroupPlan {
            task_slots: usize::MAX,
            ..vendor()
        }),
        Err(InitError::task_admission(TaskAdmissionError::Runtime(
            RuntimeError::ResourceExhausted
        )))
    );
}

#[test]
fn a_claim_takes_every_reservation_before_the_storage() {
    let mut claim = ProfileClaim::new(vendor(), true, Some(worker()));
    let ok = ClaimReply::Runtime(Ok(()));
    assert_eq!(claim.resume(ok), ClaimAction::ReadCurrentTask);
    assert_eq!(
        claim.resume(ok),
        ClaimAction::Reserve {
            vendor: vendor(),
            worker: Some(worker())
        }
    );
    assert_eq!(
        claim.resume(ClaimReply::Reserved(Ok(()))),
        ClaimAction::TakeVendor
    );
    assert_eq!(claim.resume(ClaimReply::Taken(true)), ClaimAction::TakeWorker);
    assert_eq!(
        claim.resume(ClaimReply::Taken(true)),
        ClaimAction::ClaimStorage
    );
    assert_eq!(
        claim.resume(ClaimReply::Taken(true)),
        ClaimAction::InstallVendor
    );
    assert_eq!(claim.resume(ok), ClaimAction::Done(Ok(())));
}

#[test]
fn a_failed_claim_gives_its_reservations_back() {
    let ok = ClaimReply::Runtime(Ok(()));
    let mut claim = ProfileClaim::new(vendor(), true, Some(worker()));
    claim.resume(ok);
    claim.resume(ok);
    claim.resume(ClaimReply::Reserved(Ok(())));
    claim.resume(ClaimReply::Taken(true));
    claim.resume(ClaimReply::Taken(true));
    assert_eq!(
        claim.resume(ClaimReply::Taken(false)),
        ClaimAction::ReleaseVendor
    );
    assert_eq!(claim.resume(ok), ClaimAction::ReleaseWorker);
    assert_eq!(
        claim.resume(ok),
        ClaimAction::Done(Err(InitError::storage_already_claimed()))
    );

    let mut same_owner = ProfileClaim::new(
        vendor(),
        true,
        Some(TaskGroupPlan {
            owner: 1,
            ..worker()
        }),
    );
    same_owner.resume(ok);
    assert_eq!(
        same_owner.resume(ok),
        ClaimAction::Done(Err(InitError::task_admission(
            TaskAdmissionError::Runtime(RuntimeError::ResourceExhausted)
        )))
    );

    let mut without = ProfileClaim::new(vendor(), true, None);
    without.resume(ok);
    assert_eq!(
        without.resume(ok),
        ClaimAction::Done(Err(InitError::task_admission(
            TaskAdmissionError::Runtime(RuntimeError::Runtime)
        )))
    );
}

#[test]
fn a_rejected_controller_releases_what_was_claimed() {
    let mut init = BlockingInit::new();
    assert_eq!(
        init.resume(InitReply::Claimed(Ok(true))),
        InitAction::CreateController
    );
    assert_eq!(
        init.resume(InitReply::Controller(Err(RadioError::AlreadyInitialized))),
        InitAction::ReleaseVendor
    );
    assert_eq!(
        init.resume(InitReply::Runtime(Ok(()))),
        InitAction::ReleaseWorker
    );
    assert_eq!(
        init.resume(InitReply::Runtime(Ok(()))),
        InitAction::Done(Err(InitError::controller(RadioError::AlreadyInitialized)))
    );
}

#[test]
fn a_failed_bootstrap_keeps_the_vendor_reservation() {
    let mut init = IncrementalInit::new(true);
    assert_eq!(
        init.resume(InitReply::Runtime(Ok(()))),
        InitAction::ClaimStorage
    );
    assert_eq!(
        init.resume(InitReply::Claimed(Ok(true))),
        InitAction::InitializeBackend
    );
    let error = BackendError::new(BackendErrorClass::Initialize, 9);
    assert_eq!(
        init.resume(InitReply::Backend(Err(error))),
        InitAction::ReleaseWorker
    );
    assert_eq!(
        init.resume(InitReply::Runtime(Ok(()))),
        InitAction::Done(Err(InitError::controller(RadioError::Backend(error))))
    );
}
