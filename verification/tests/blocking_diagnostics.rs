use hisi_rf_ws63::blocking_diagnostics::{
    blocking_backend_metrics, trace_bootstrap_detail, trace_bootstrap_stage,
    BlockingBackendMetrics, BlockingOperationMetrics, BootstrapStage, BootstrapStageMetrics,
    BootstrapStageTimer, Operation, OperationTimer, BOOTSTRAP_STAGES,
};

#[test]
fn snapshot_separates_calls_timing_and_loop_work() {
    let mut metrics = BlockingBackendMetrics::new();
    metrics.connect.begin();
    metrics.connect.finish(7);
    metrics.connect.begin();
    metrics.connect.finish(3);
    metrics.initialize.begin();
    metrics.record_internal_sleep();
    metrics.record_internal_sleep();
    metrics.record_supplicant_poll();

    assert_eq!(
        blocking_backend_metrics(&metrics),
        BlockingBackendMetrics {
            initialize: BlockingOperationMetrics {
                calls: 1,
                timed_calls: 0,
                max_elapsed_ms: 0,
            },
            connect: BlockingOperationMetrics {
                calls: 2,
                timed_calls: 2,
                max_elapsed_ms: 7,
            },
            internal_sleep_calls: 2,
            supplicant_poll_calls: 1,
            ..BlockingBackendMetrics::new()
        }
    );
}

#[test]
fn bootstrap_stages_separate_success_from_failure() {
    let mut backend = BlockingBackendMetrics::new();
    BootstrapStageTimer::start(&mut backend.bootstrap, BootstrapStage::ResourceClaim, Some(5))
        .complete(&mut backend.bootstrap, Some(5));
    BootstrapStageTimer::start(&mut backend.bootstrap, BootstrapStage::CryptoInstall, Some(5))
        .fail(&mut backend.bootstrap, Some(5));

    let metrics = blocking_backend_metrics(&backend).bootstrap;
    let completed = metrics.stage(BootstrapStage::ResourceClaim);
    assert_eq!(completed.calls, 1);
    assert_eq!(completed.completed_calls, 1);
    assert_eq!(completed.failed_calls, 0);
    assert_eq!(completed.timed_calls, 1);

    let failed = metrics.stage(BootstrapStage::CryptoInstall);
    assert_eq!(failed.calls, 1);
    assert_eq!(failed.completed_calls, 0);
    assert_eq!(failed.failed_calls, 1);
    assert_eq!(failed.timed_calls, 1);
    assert_eq!(
        metrics.stage(BootstrapStage::NativeSupplicantCreate),
        BootstrapStageMetrics::new()
    );
    assert_eq!(BootstrapStage::all().len(), BOOTSTRAP_STAGES);
    assert_eq!(
        BootstrapStage::StationDeviceOpen.as_str(),
        "station_device_open"
    );
}

#[test]
fn an_operation_without_a_timebase_is_not_timed() {
    let mut metrics = BlockingBackendMetrics::new();
    OperationTimer::start(&mut metrics, Operation::Scan, None).finish(&mut metrics, Some(9));
    assert_eq!(
        metrics.scan,
        BlockingOperationMetrics {
            calls: 1,
            timed_calls: 0,
            max_elapsed_ms: 0,
        }
    );
    OperationTimer::start(&mut metrics, Operation::Scan, Some(4)).finish(&mut metrics, Some(9));
    assert_eq!(
        metrics.scan,
        BlockingOperationMetrics {
            calls: 2,
            timed_calls: 1,
            max_elapsed_ms: 5,
        }
    );
}

#[test]
fn durations_stop_at_the_largest_value() {
    let mut metrics = BlockingOperationMetrics::new();
    metrics.finish(u64::MAX);
    assert_eq!(metrics.max_elapsed_ms, u32::MAX);
}

#[test]
fn stages_are_in_order_and_have_different_names() {
    let stages = BootstrapStage::all();
    for (index, stage) in stages.iter().enumerate() {
        assert_eq!(stage.index(), index);
        for other in &stages[..index] {
            assert_ne!(stage.as_str(), other.as_str());
        }
    }
}

#[test]
fn stage_lines_carry_the_name_the_event_and_the_time() {
    let begun = trace_bootstrap_stage(BootstrapStage::CryptoSelfTest, b"begin", None);
    assert!(begun.starts_with(b"RFDBG_BOOT_STAGE_LIVE name=crypto_self_test event=begin"));
    let ended = trace_bootstrap_stage(BootstrapStage::CryptoSelfTest, b"complete", Some(0x12));
    assert!(ended.starts_with(b"RFDBG_BOOT_STAGE_LIVE name=crypto_self_test event=complete"));
    assert_ne!(begun.len(), ended.len());
    let detail = trace_bootstrap_detail(b"nv", b"read");
    assert!(detail.starts_with(b"RFDBG_BOOT_DETAIL name=nv event=read"));
}

#[test]
fn the_workload_never_goes_back() {
    let mut metrics = BlockingBackendMetrics::new();
    metrics.scan.calls = u32::MAX;
    metrics.internal_sleep_calls = u32::MAX;
    let before = blocking_backend_metrics(&metrics);
    OperationTimer::start(&mut metrics, Operation::Scan, Some(1)).finish(&mut metrics, Some(8));
    OperationTimer::start(&mut metrics, Operation::Scan, Some(1)).finish(&mut metrics, Some(3));
    let stage = BootstrapStage::CryptoInstall;
    BootstrapStageTimer::start(&mut metrics.bootstrap, stage, None)
        .fail(&mut metrics.bootstrap, None);
    metrics.record_internal_sleep();
    metrics.record_supplicant_poll();
    let after = blocking_backend_metrics(&metrics);
    assert_eq!(after.scan.calls, before.scan.calls);
    assert_eq!((after.scan.timed_calls, after.scan.max_elapsed_ms), (2, 7));
    assert_eq!(after.internal_sleep_calls, u32::MAX);
    assert_eq!(after.supplicant_poll_calls, before.supplicant_poll_calls + 1);
    assert_eq!(after.bootstrap.stage(stage).failed_calls, 1);
    assert_eq!(after.connect, before.connect);
}
