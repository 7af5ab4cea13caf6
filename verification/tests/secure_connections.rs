use hisi_rf_ws63::ble_init_diag::{
    payload_word, stage_begin, stage_end, trace_begin, trace_end, trace_h2c, trace_hex32,
};
use hisi_rf_ws63::ble_sc::{
    reversed, BleScDiagnostics, CryptoFatal, EnginePair, VendorPair,
};
use hisi_rf_ws63::diagnostics::{
    association_timing_diagnostics, hardware_cipher_diagnostic_snapshot,
    hardware_crypto_contention_diagnostic_snapshot,
    hardware_entropy_diagnostic_snapshot, hardware_hash_diagnostic_snapshot,
    hardware_p256_curve_diagnostic_snapshot, hardware_p256_diagnostic_snapshot,
    hardware_p256_field_diagnostic_snapshot, hardware_pbkdf2_diagnostic_snapshot,
    incremental_reconnect_diagnostic_snapshot, missing_rom_callback_line,
    upstream_authenticator_crypto_diagnostic_snapshot,
    upstream_supplicant_association_attempt_diagnostics,
    upstream_supplicant_association_ioctl_diagnostic_snapshot,
    upstream_supplicant_scan_diagnostic_snapshot, upstream_supplicant_scan_diagnostics,
    AssociationIoctlMetrics, AssociationTimingDiagnostics, CryptoDiagnostics, DriverDiagnostics,
    DriverScan, NativeScan, SupplicantDiagnostics,
};
use hisi_rf_ws63::hisi_rf_backend::incremental::IncrementalSupplicant;
use hisi_rf_ws63::hisi_rf_backend::AssociationAttempt;
use hisi_rf_ws63::render::hex8;

fn counting() -> [u8; 32] {
    let mut bytes = [0; 32];
    for (index, byte) in bytes.iter_mut().enumerate() {
        *byte = index as u8;
    }
    bytes
}

#[test]
fn operands_change_their_byte_order() {
    let bytes = counting();
    let turned = reversed(bytes);
    assert_eq!(turned[0], 31);
    assert_eq!(turned[31], 0);
    assert_eq!(reversed(turned), bytes);
}

#[test]
fn a_generated_key_comes_back_in_a_later_agreement() {
    let mut counters = BleScDiagnostics::new();
    counters.begin_keygen(true).unwrap();
    let pair = EnginePair {
        scalar: counting(),
        x: [5; 32],
        y: [6; 32],
    };
    let stored = counters.finish_keygen(Some(pair)).unwrap();
    assert_eq!(stored.private_key[31], 0);
    let agreement = counters.begin_ecdh(Some(stored)).unwrap();
    assert_eq!(agreement.scalar, counting());
    assert_eq!(agreement.peer_x, [5; 32]);
    assert_eq!(counters.finish_ecdh(Some(counting())).unwrap()[0], 31);
    assert_eq!(
        counters,
        BleScDiagnostics {
            ecdh_calls: 1,
            ecdh_failures: 0,
            keygen_calls: 1,
            keygen_failures: 0,
        }
    );
}

#[test]
fn each_failure_is_counted_and_has_its_line() {
    let mut counters = BleScDiagnostics::new();
    assert_eq!(counters.begin_keygen(false), Err(CryptoFatal::KeygenAbi));
    assert_eq!(
        counters.finish_keygen(None),
        Err(CryptoFatal::KeygenHardware)
    );
    assert_eq!(counters.begin_ecdh(None), Err(CryptoFatal::EcdhAbi));
    let zero = VendorPair {
        private_key: [0; 32],
        public_x: [1; 32],
        public_y: [2; 32],
    };
    assert_eq!(
        counters.begin_ecdh(Some(zero)),
        Err(CryptoFatal::EcdhHardware)
    );
    assert_eq!(counters.finish_ecdh(None), Err(CryptoFatal::EcdhHardware));
    assert_eq!(
        counters,
        BleScDiagnostics {
            ecdh_calls: 2,
            ecdh_failures: 3,
            keygen_calls: 1,
            keygen_failures: 2,
        }
    );
    assert_eq!(
        CryptoFatal::EcdhHardware.marker(),
        "RFDBG_BLE_SC_ECDH_HW_ERR\r\n"
    );
    assert_eq!(
        CryptoFatal::KeygenAbi.marker(),
        "RFDBG_BLE_SC_KEYGEN_ABI_ERR\r\n"
    );
}

#[test]
fn lines_carry_names_and_words() {
    assert_eq!(hex8(0x0123_abcd), *b"0123abcd");
    assert_eq!(trace_hex32(0xffff_0000), *b"ffff0000");
    assert_eq!(
        trace_begin(b"bt_init"),
        b"RFDBG_BLE_B1_CONFIG_BEGIN name=bt_init\r\n"
    );
    assert_eq!(
        trace_end(b"bt_init", 0x1f),
        b"RFDBG_BLE_B1_CONFIG_END name=bt_init status=0x0000001f\r\n"
    );
    assert_eq!(
        stage_begin(b"hci_init"),
        b"RFDBG_BLE_B1_STAGE_BEGIN name=hci_init\r\n"
    );
    assert_eq!(
        stage_end(b"hci_init"),
        b"RFDBG_BLE_B1_STAGE_END name=hci_init\r\n"
    );
    assert_eq!(
        trace_h2c(1, 2, 3, 4),
        b"RFDBG_BLE_B1_H2C destination=0x00000001 message=0x00000002 length=0x00000003 payload_word=0x00000004\r\n"
    );
    assert_eq!(payload_word(4, Some(&[1, 2, 3, 4])), 0x0403_0201);
    assert_eq!(payload_word(3, Some(&[1, 2, 3])), 0);
    assert_eq!(payload_word(4, None), 0);
    assert_eq!(
        missing_rom_callback_line(0x00a0_1234),
        b"RFDBG_MISSING_ROM_CALLBACK ra=0x00a01234\r\n"
    );
}

fn port() -> SupplicantDiagnostics {
    SupplicantDiagnostics {
        bring_up: [0; 11],
        association_ioctls: AssociationTimingDiagnostics {
            associate: AssociationIoctlMetrics {
                calls: 1,
                last_ms: 2,
                max_ms: 3,
            },
            stale_disconnect: AssociationIoctlMetrics {
                calls: 4,
                last_ms: 5,
                max_ms: 6,
            },
            associate_retry: AssociationIoctlMetrics {
                calls: 7,
                last_ms: 8,
                max_ms: 9,
            },
            deauthenticate: AssociationIoctlMetrics {
                calls: 10,
                last_ms: 11,
                max_ms: 12,
            },
        },
        external_auth_retry: [0; 2],
        scan: NativeScan {
            starts: 1,
            results: 2,
            done: 3,
            active: 4,
            pending: 0,
            dropped: 6,
            start_ms: 7,
            done_ms: 8,
        },
        authentication: [0; 12],
        authentication_progress: [0; 10],
        eapol: [0; 8],
        events: [0; 6],
        recovery: 0,
        temporary_reject_recovery: [0; 4],
    }
}

#[test]
fn snapshots_are_joined_in_order() {
    let crypto = CryptoDiagnostics {
        entropy: [1; 4],
        pbkdf2: [2; 5],
        hash: [3; 10],
        cipher: [4; 6],
        p256: [5; 8],
        p256_field: [6; 10],
        p256_curve: [7; 10],
        contention: [8; 5],
    };
    assert_eq!(hardware_entropy_diagnostic_snapshot(&crypto), [1; 4]);
    assert_eq!(hardware_pbkdf2_diagnostic_snapshot(&crypto), [2; 5]);
    assert_eq!(hardware_hash_diagnostic_snapshot(&crypto), [3; 10]);
    assert_eq!(hardware_cipher_diagnostic_snapshot(&crypto), [4; 6]);
    assert_eq!(hardware_p256_diagnostic_snapshot(&crypto), [5; 8]);
    assert_eq!(hardware_p256_field_diagnostic_snapshot(&crypto), [6; 10]);
    assert_eq!(hardware_p256_curve_diagnostic_snapshot(&crypto), [7; 10]);
    assert_eq!(hardware_crypto_contention_diagnostic_snapshot(&crypto), [8; 5]);
    let joined = upstream_authenticator_crypto_diagnostic_snapshot(&crypto);
    assert_eq!(joined[..4], [1; 4]);
    assert_eq!(joined[4..9], [2; 5]);
    assert_eq!(joined[9..19], [3; 10]);
    assert_eq!(joined[19..], [4; 6]);
    assert_eq!(
        upstream_supplicant_association_ioctl_diagnostic_snapshot(&port()),
        [1, 2, 3, 4, 5, 6, 7, 8, 9, 10, 11, 12]
    );
    assert_eq!(
        association_timing_diagnostics(&port()),
        port().association_ioctls
    );
}

#[test]
fn association_requests_keep_their_last_and_longest_duration() {
    let mut metrics = AssociationIoctlMetrics::new();
    assert_eq!((metrics.calls, metrics.last_ms, metrics.max_ms), (0, 0, 0));
    metrics.record(7);
    metrics.record(3);
    assert_eq!((metrics.calls, metrics.last_ms, metrics.max_ms), (2, 3, 7));
    metrics.calls = u32::MAX;
    metrics.record(9);
    assert_eq!(
        (metrics.calls, metrics.last_ms, metrics.max_ms),
        (u32::MAX, 9, 9)
    );
}

#[test]
fn scan_words_have_a_typed_form() {
    let driver = DriverDiagnostics {
        scan: DriverScan {
            active: 0,
            done: 1,
            results: 10,
            status: 11,
            done_ms: 12,
        },
        events: [0; 6],
    };
    assert_eq!(
        upstream_supplicant_scan_diagnostic_snapshot(&port(), &driver),
        [1, 2, 3, 4, 0, 6, 7, 8, 0, 1, 10, 11, 12]
    );
    let typed = upstream_supplicant_scan_diagnostics(&port(), Some(&driver));
    assert!(typed.native_active);
    assert!(!typed.queue_pending);
    assert!(!typed.driver_active);
    assert!(typed.driver_done);
    assert_eq!(typed.native_done_ms, 8);
    assert_eq!(typed.driver_status, 11);
    let host = upstream_supplicant_scan_diagnostics(&port(), None);
    assert_eq!(host.native_starts, 0);
    assert!(!host.native_active);
}

#[test]
fn association_results_are_copied_as_far_as_there_is_room() {
    let attempt = |status| AssociationAttempt {
        raw_status: status,
        status,
    };
    let retained = [attempt(1), attempt(2), attempt(3)];
    let mut short = [attempt(9); 2];
    assert_eq!(
        upstream_supplicant_association_attempt_diagnostics(&retained, &mut short),
        2
    );
    assert_eq!(short, [attempt(1), attempt(2)]);
    let mut long = [attempt(9); 4];
    assert_eq!(
        upstream_supplicant_association_attempt_diagnostics(&retained, &mut long),
        3
    );
    assert_eq!(long[3], attempt(9));
    assert_eq!(
        incremental_reconnect_diagnostic_snapshot(&IncrementalSupplicant::new()),
        [0, 0]
    );
}
