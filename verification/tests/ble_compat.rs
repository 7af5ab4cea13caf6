use hisi_rf_ws63::ble::Platform;
use hisi_rf_ws63::ble_compat::pke::{
    begin_ecdh_key, begin_gen_key, finish_ecdh_key, finish_gen_key, uapi_drv_cipher_hash_init,
    uapi_drv_cipher_hash_start, uapi_drv_cipher_mac_start, uapi_drv_cipher_symc_init,
    uapi_drv_keyslot_create, uapi_drv_klad_create, uapi_drv_km_init, AffinePoint, CipherPkeData,
    CipherPkePoint, PkeOutput, PkePointOutput, PKE_FIPS_P256R,
};
use hisi_rf_ws63::ble_compat::swtmr::{
    timer_id, timer_mode, LosSwtmrCb, SwtmrTable, SWTMR_BLOCK_BYTES, SWTMR_COUNT,
};
use hisi_rf_ws63::ble_compat::{
    call_status, diag_cmd_report_sample_data, memory_status, message_queue_request, message_size,
    mutex_acquire_status, object_status, pend_status, runtime_handle, task_delay, wait_timeout,
    Delay, HeapMetrics, LosMemPoolStatus, WaitOutcome, WaitTimeout, ERROR, OK, OS_ERROR,
    OS_ERROR_PARAMETER, OS_ERROR_TIMEOUT, OS_OK,
};

#[test]
fn swtmr_control_block_matches_ws63_archive_abi() {
    let mut block = LosSwtmrCb::empty();
    assert_eq!(block.image().len(), 36);
    assert_eq!(SWTMR_BLOCK_BYTES, 36);
    assert_eq!(core::mem::size_of::<LosSwtmrCb>(), 36);
    block.interval = 0x0403_0201;
    block.expiry = 0x1413_1211;
    block.arg = 0x2423_2221;
    block.handler = 0x3433_3231;
    let image = block.image();
    let offset_of = |first: u8| image.iter().position(|byte| *byte == first);
    assert_eq!(offset_of(0x01), Some(20));
    assert_eq!(offset_of(0x11), Some(24));
    assert_eq!(offset_of(0x21), Some(28));
    assert_eq!(offset_of(0x31), Some(32));
}

#[test]
fn timer_id_rejects_unaligned_and_out_of_range_pointers() {
    let base = 0x1000;
    assert_eq!(timer_id(base, base), Some(0));
    assert_eq!(
        timer_id(base + (SWTMR_COUNT - 1) * SWTMR_BLOCK_BYTES, base),
        Some(15)
    );
    assert_eq!(timer_id(base + 1, base), None);
    assert_eq!(
        timer_id(base + SWTMR_COUNT * SWTMR_BLOCK_BYTES, base),
        None
    );
    assert_eq!(timer_id(0, base), None);
    assert_eq!(timer_id(base - 36, base), None);
}

#[test]
fn b1_crypto_table_entries_fail_closed() {
    let mut handle = 0;
    assert_eq!(uapi_drv_km_init(), ERROR);
    assert_eq!(uapi_drv_keyslot_create(&mut handle, 0), ERROR);
    assert_eq!(uapi_drv_klad_create(&mut handle), ERROR);
    assert_eq!(uapi_drv_cipher_hash_init(), ERROR);
    assert_eq!(uapi_drv_cipher_hash_start(&mut handle), ERROR);
    assert_eq!(uapi_drv_cipher_symc_init(), ERROR);
    assert_eq!(uapi_drv_cipher_mac_start(&mut handle), ERROR);
    assert_eq!(
        begin_gen_key(Platform::Host, PKE_FIPS_P256R, None, None, None),
        Err(ERROR)
    );
    assert_eq!(
        begin_ecdh_key(Platform::Host, PKE_FIPS_P256R, None, None, None),
        Err(ERROR)
    );
}

#[test]
fn stopping_an_unallocated_software_timer_fails() {
    let mut table = SwtmrTable::new();
    assert_eq!(table.stop(0, true), ERROR);
}

#[test]
fn disabled_dfx_sample_transport_fails_closed() {
    assert_eq!(diag_cmd_report_sample_data(0), u32::MAX);
}

#[test]
fn timers_are_created_until_none_is_free() {
    let mut table = SwtmrTable::new();
    for index in 0..SWTMR_COUNT {
        assert_eq!(table.create(5, 2, Some(0x100), true, 7), Ok(index));
        assert_eq!(table.created(index, true), OK);
    }
    assert_eq!(table.create(5, 2, Some(0x100), true, 7), Err(ERROR));
    assert_eq!(table.delete(3), OK);
    assert_eq!(table.create(5, 2, Some(0x100), true, 7), Ok(3));
    assert_eq!(table.created(3, false), ERROR);
    assert_eq!(table.create(9, 1, Some(0x100), true, 7), Ok(3));
    assert_eq!(table.blocks[3].timer_id, 3);
    assert_eq!(table.blocks[3].expiry, 9);
    assert_eq!(table.delete(16), ERROR);
}

#[test]
fn timers_need_an_interval_a_handler_an_output_and_a_known_mode() {
    let mut table = SwtmrTable::new();
    assert_eq!(table.create(0, 2, Some(1), true, 0), Err(ERROR));
    assert_eq!(table.create(1, 2, None, true, 0), Err(ERROR));
    assert_eq!(table.create(1, 2, Some(1), false, 0), Err(ERROR));
    assert_eq!(table.create(1, 3, Some(1), true, 0), Err(ERROR));
    assert_eq!(timer_mode(0), Some(2));
    assert_eq!(timer_mode(1), Some(1));
    assert_eq!(timer_mode(2), None);
}

#[test]
fn a_periodic_timer_is_set_again_after_its_handler() {
    let mut table = SwtmrTable::new();
    table.create(5, 1, Some(0x100), true, 7).unwrap();
    assert_eq!(table.start(0), Some(5));
    let firing = table.fire(0).unwrap();
    assert_eq!((firing.handler, firing.arg), (0x100, 7));
    assert!(firing.periodic);
    assert_eq!(table.blocks[0].in_process, 1);
    assert_eq!(table.fired(0, true), Some(5));
    assert_eq!(table.blocks[0].in_process, 0);
    assert_eq!(table.blocks[0].state, 3);
    assert_eq!(table.fire(16), None);
    assert_eq!(table.stop(0, true), OK);
    assert_eq!(table.blocks[0].state, 2);
}

#[test]
fn timers_are_started_for_a_number_of_ticks() {
    let mut table = SwtmrTable::new();
    table.create(1, 2, Some(0x100), true, 7).unwrap();
    assert_eq!(table.start_for(Some(0), 30), Ok(30));
    assert_eq!(table.start_for(Some(0), 0), Err(OS_ERROR_PARAMETER));
    assert_eq!(table.start_for(None, 30), Err(OS_ERROR_PARAMETER));
    assert_eq!(table.start_for(Some(1), 30), Err(OS_ERROR));
    assert_eq!(table.remove(Some(0)), OS_OK);
    assert_eq!(table.remove(None), OS_ERROR_PARAMETER);
}

#[test]
fn waits_and_handles_are_translated() {
    assert_eq!(wait_timeout(0), WaitTimeout::NoWait);
    assert_eq!(wait_timeout(7), WaitTimeout::Milliseconds(7));
    assert_eq!(wait_timeout(u32::MAX), WaitTimeout::Forever);
    assert_eq!(runtime_handle(0), None);
    assert_eq!(runtime_handle(9), Some(9));
    assert_eq!(task_delay(0), Delay::Yield);
    assert_eq!(task_delay(3), Delay::SleepMilliseconds(3));
    assert_eq!(pend_status(Some(WaitOutcome::Acquired)), OK);
    assert_eq!(pend_status(Some(WaitOutcome::TimedOut)), ERROR);
    assert_eq!(pend_status(None), ERROR);
    assert_eq!(call_status(true), OK);
    assert_eq!(call_status(false), ERROR);
    assert_eq!(mutex_acquire_status(false, true, 0), OS_ERROR_PARAMETER);
    assert_eq!(mutex_acquire_status(true, true, 0), OS_OK);
    assert_eq!(mutex_acquire_status(true, false, 0), OS_ERROR_TIMEOUT);
    assert_eq!(mutex_acquire_status(true, false, 1), OS_ERROR);
    assert_eq!(object_status(true, false), OS_ERROR);
}

#[test]
fn message_queues_are_bounded() {
    assert_eq!(message_queue_request(0x1_0000, 4), None);
    assert_eq!(message_queue_request(4, 0x1_0000), None);
    assert_eq!(message_queue_request(0xffff, 4), Some((0xffff, 4)));
    assert_eq!(message_size(true, true, 0), Err(OS_ERROR_PARAMETER));
    assert_eq!(message_size(false, true, 8), Err(OS_ERROR_PARAMETER));
    assert_eq!(message_size(true, true, 8), Ok(8));
}

#[test]
fn heap_metrics_are_seen_as_one_pool() {
    assert_eq!(
        memory_status(HeapMetrics {
            used_bytes: 10,
            free_bytes: 20,
            largest_free: 15,
            live_allocations: 3,
            peak_used_bytes: 12,
        }),
        LosMemPoolStatus {
            total_used: 10,
            total_free: 20,
            max_free_node: 15,
            used_nodes: 3,
            free_nodes: 1,
            usage_waterline: 12,
        }
    );
}

fn scalar(value: u8) -> [u8; 32] {
    let mut bytes = [0; 32];
    bytes[31] = value;
    bytes
}

#[test]
fn key_generation_takes_a_private_key_in_range() {
    let output = PkeOutput {
        length: 32,
        present: true,
    };
    let point = PkePointOutput {
        length: 32,
        x_present: true,
        y_present: true,
    };
    let one = scalar(1);
    let operand = CipherPkeData {
        length: 32,
        data: Some(&one),
    };
    let begin = |input| {
        begin_gen_key(
            Platform::Firmware,
            PKE_FIPS_P256R,
            input,
            Some(output),
            Some(point),
        )
    };
    assert_eq!(begin(Some(operand)), Ok(one));
    let zero = scalar(0);
    assert_eq!(
        begin(Some(CipherPkeData {
            length: 32,
            data: Some(&zero),
        })),
        Err(ERROR)
    );
    let order = hisi_crypto::p256::P256_SCALAR_ORDER;
    assert_eq!(
        begin(Some(CipherPkeData {
            length: 32,
            data: Some(&order),
        })),
        Err(ERROR)
    );
    let mut last = order;
    last[31] -= 1;
    assert_eq!(
        begin(Some(CipherPkeData {
            length: 32,
            data: Some(&last),
        })),
        Ok(last)
    );
    assert_eq!(begin(None), Err(ERROR));
    assert_eq!(
        begin_gen_key(
            Platform::Firmware,
            5,
            Some(operand),
            Some(output),
            Some(point)
        ),
        Err(ERROR)
    );
    let generated = AffinePoint {
        x: [1; 32],
        y: [2; 32],
    };
    let written = finish_gen_key(one, Some(generated), output, point);
    assert_eq!(written.status, OK);
    assert_eq!(written.private_key, Some(one));
    assert_eq!(written.public_x, Some([1; 32]));
    assert_eq!(written.public_y, Some([2; 32]));
    let missing = finish_gen_key(
        one,
        Some(generated),
        output,
        PkePointOutput {
            x_present: false,
            ..point
        },
    );
    assert_eq!(missing.status, ERROR);
    assert_eq!(missing.private_key, Some(one));
    assert_eq!(missing.public_y, None);
}

#[test]
fn key_agreement_takes_a_peer_and_gives_a_secret() {
    let two = scalar(2);
    let x = [3; 32];
    let y = [4; 32];
    let output = PkeOutput {
        length: 32,
        present: true,
    };
    let peer = CipherPkePoint {
        length: 32,
        x: Some(&x),
        y: Some(&y),
    };
    let private = CipherPkeData {
        length: 32,
        data: Some(&two),
    };
    assert_eq!(
        begin_ecdh_key(
            Platform::Firmware,
            PKE_FIPS_P256R,
            Some(peer),
            Some(private),
            Some(output)
        ),
        Ok((two, AffinePoint { x, y }))
    );
    assert_eq!(
        begin_ecdh_key(
            Platform::Firmware,
            PKE_FIPS_P256R,
            Some(CipherPkePoint { y: None, ..peer }),
            Some(private),
            Some(output)
        ),
        Err(ERROR)
    );
    assert_eq!(finish_ecdh_key(Some([9; 32]), output), (Some([9; 32]), OK));
    assert_eq!(finish_ecdh_key(None, output), (None, ERROR));
}
