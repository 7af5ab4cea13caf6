use hisi_rf_ws63::data_path_diag::{
    associated_station_ps, classify_udp_echo, is_normal_data_queue, pack_dmac_tx_queue,
    queue_snapshot, BoundaryStatus, CompletedDescriptor, DmacTxQueues, QueueHeader, RxPipeline,
    RxPrepare, RxStage, SendCalls, TxTrace, FRD_ROM_TX_SCH,
};

#[test]
fn snapshots_are_monotonic() {
    let mut trace = TxTrace::new();
    let mut prepares = RxPrepare::new();
    let rx_before = prepares.calls;
    trace.record_tx_completion_status(1);
    trace.record_tx_submission(0xa000_0007, 0x42);
    let echo = trace.consume_tx_submission();
    trace.record_tx_completion_trace(1, true, 2, 3, 0x123, 0x4567_89ab, 0x43, echo);
    prepares.enter();
    prepares.leave(0);
    assert_ne!(trace.completion_status[1], 0);
    let timeline = trace.tx_timeline();
    assert_ne!(timeline.completion_total, 0);
    assert!(timeline.completions.contains(&0x1930_0123));
    assert!(timeline.packet_number_lsb.contains(&0x4567_89ab));
    assert_ne!(timeline.submission_total, 0);
    assert!(timeline.submission_time_ms.contains(&0x42));
    assert!(timeline.completion_time_ms.contains(&0x43));
    assert!(timeline.completion_echo.contains(&0xa000_0007));
    assert!(prepares.calls >= rx_before.saturating_add(1));
}

fn echo_frame() -> [u8; 43] {
    let mut frame = [0_u8; 43];
    frame[12..14].copy_from_slice(&[0x08, 0x00]);
    frame[14] = 0x45;
    frame[23] = 17;
    frame[34..36].copy_from_slice(&1234_u16.to_be_bytes());
    frame[36..38].copy_from_slice(&9_u16.to_be_bytes());
    frame[38..40].copy_from_slice(&9_u16.to_be_bytes());
    frame[42] = 7;
    frame
}

#[test]
fn classifies_one_byte_udp_echo_direction() {
    let mut frame = echo_frame();
    assert_eq!(classify_udp_echo(&frame), Some(0x9000_0007));

    frame[34..36].copy_from_slice(&9_u16.to_be_bytes());
    frame[36..38].copy_from_slice(&1234_u16.to_be_bytes());
    assert_eq!(classify_udp_echo(&frame), Some(0xa000_0007));
    frame[38..40].copy_from_slice(&10_u16.to_be_bytes());
    assert_eq!(classify_udp_echo(&frame), None);
}

#[test]
fn normal_data_queue_ignores_descriptor_flag_bits() {
    assert!(is_normal_data_queue(0));
    assert!(is_normal_data_queue(0x80));
    assert!(!is_normal_data_queue(4));
    assert!(!is_normal_data_queue(0x84));
}

#[test]
fn packs_dmac_queue_state_without_losing_counts() {
    assert_eq!(pack_dmac_tx_queue(true, true, 2, 3, 4), 0xc002_0304);
    assert_eq!(
        pack_dmac_tx_queue(true, false, 0xff, 0xfe, 0xfd),
        0x80ff_fefd
    );
}

#[test]
fn uses_the_powersave_off_tx_scheduler_callback_id() {
    assert_eq!(FRD_ROM_TX_SCH, 239);
}

#[test]
fn submissions_are_consumed_in_the_order_in_which_they_were_made() {
    let mut trace = TxTrace::new();
    assert_eq!(trace.consume_tx_submission(), 0);
    for echo in 1..=20 {
        trace.record_tx_submission(echo, echo);
    }
    assert_eq!(trace.consume_tx_submission(), 3);
    assert_eq!(trace.consume_tx_submission(), 4);
}

#[test]
fn a_submitted_frame_is_recorded_by_its_echo_identity() {
    let mut trace = TxTrace::new();
    trace.record_tx_frame_submission(&echo_frame(), 1);
    trace.record_tx_frame_submission(&[0; 10], 2);
    assert_eq!(trace.timeline.submissions[..2], [0x9000_0007, 0]);
    assert_eq!(trace.timeline.submission_time_ms[..2], [1, 2]);
}

#[test]
fn an_empty_queue_points_at_its_own_header() {
    let empty = QueueHeader {
        address: 0x100,
        next: 0x100,
        previous: 0x100,
        status: 2,
        ppdu: 3,
        mpdu: 4,
    };
    let linked = QueueHeader {
        next: 0x200,
        previous: 0x200,
        ..empty
    };
    assert_eq!(queue_snapshot(empty), 0xc002_0304);
    assert_eq!(queue_snapshot(linked), 0x8002_0304);
}

#[test]
fn boundary_statuses_are_counted_by_their_low_nibble() {
    let mut boundary = BoundaryStatus::new();
    boundary.enter();
    assert_eq!((boundary.calls, boundary.last_status), (1, 0));
    boundary.leave(0x13);
    assert_eq!((boundary.calls, boundary.last_status), (1, 0x13));
    boundary.enter();
    boundary.leave(3);
    assert_eq!(boundary.calls, 2);
    assert_eq!(boundary.last_status, 3);
    assert_eq!(boundary.status[3], 2);
}

#[test]
fn receive_preparations_are_counted_by_result() {
    let mut prepares = RxPrepare::new();
    for result in [0, 5] {
        prepares.enter();
        prepares.leave(result);
    }
    prepares.enter();
    assert_eq!(prepares.calls, 3);
    assert_eq!(prepares.results(), [1, 1, 5]);
    prepares.leave(6);
    assert_eq!(prepares.calls, 3);
    assert_eq!(prepares.results(), [1, 2, 6]);
}

#[test]
fn without_a_station_there_is_no_power_save_state() {
    assert_eq!(
        associated_station_ps(&[None, None]),
        [0, u32::MAX, u32::MAX, u32::MAX, 0]
    );
}

#[test]
fn unreadable_queues_keep_their_latest_sample() {
    let header = QueueHeader {
        address: 0x100,
        next: 0x100,
        previous: 0x100,
        status: 2,
        ppdu: 3,
        mpdu: 4,
    };
    let mut queues = DmacTxQueues::new();
    assert_eq!(queues.dmac_tx_queue_diagnostics(), ([0; 6], [0; 6]));
    queues.snapshot_dmac_tx_queues(Some([header; 6]), 7, 8, None);
    assert_eq!(
        queues.dmac_tx_queue_diagnostics(),
        ([0xc002_0304; 6], [0; 6])
    );
    assert_eq!(queues.dmac_tx_mac_queue_status(), [7, 8]);
    assert_eq!(queues.dmac_tx_queue_snapshot_metadata(), [1, 0]);
    let busy = QueueHeader {
        next: 0x200,
        mpdu: 5,
        ..header
    };
    queues.snapshot_dmac_tx_completion_queues(None, 9, 10, Some([busy; 6]), 0x1234);
    assert_eq!(
        queues.dmac_tx_queue_diagnostics(),
        ([0xc002_0304; 6], [0x8002_0305; 6])
    );
    assert_eq!(queues.dmac_tx_mac_queue_status(), [9, 10]);
    assert_eq!(queues.dmac_tx_queue_snapshot_metadata(), [2, 0x1234]);
}

#[test]
fn only_normal_data_completions_enter_the_timeline() {
    let mut trace = TxTrace::new();
    trace.record_tx_submission(0x9000_0007, 40);
    let done = CompletedDescriptor {
        control: 0x1000_0000,
        sequence_word: 0x1232_0000,
        flags: 0x25,
        queue: 1,
        packet_number_lsb: 77,
    };
    assert!(!trace.observe_tx_completion(None, 41));
    assert!(!trace.observe_tx_completion(Some(done), 42));
    assert_eq!(trace.completion_status[1], 1);
    assert_eq!(trace.tx_timeline().callback_total, 2);
    assert_eq!(trace.tx_timeline().completion_total, 0);
    assert_eq!(trace.submissions_consumed, 0);
    assert!(trace.observe_tx_completion(Some(CompletedDescriptor { queue: 8, ..done }), 43));
    let timeline = trace.tx_timeline();
    assert_eq!(timeline.callback_total, 3);
    assert_eq!(timeline.completion_total, 1);
    assert_eq!(timeline.completions[0], 0x1900_0123);
    assert_eq!(timeline.packet_number_lsb[0], 77);
    assert_eq!(timeline.completion_time_ms[0], 43);
    assert_eq!(timeline.completion_echo[0], 0x9000_0007);
    assert_eq!(trace.submissions_consumed, 1);
}

#[test]
fn pipeline_and_send_calls_are_counted_by_stage() {
    let mut pipeline = RxPipeline::new();
    pipeline.record(RxStage::EventAdapt);
    pipeline.record(RxStage::Data);
    pipeline.record(RxStage::Data);
    pipeline.record(RxStage::ProcessMessage);
    assert_eq!(pipeline.rx_pipeline_stages(), [1, 1, 2]);
    let mut sends = SendCalls::new();
    sends.enter();
    sends.enter();
    sends.leave();
    assert_eq!((sends.calls, sends.returns), (2, 1));
}
