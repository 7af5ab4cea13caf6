use embassy_net_driver::Driver;
use hisi_rf_core::WifiL2Capabilities;
use hisi_rf_ws63::netif_l2::storage::{NativeStorage, StorageError};

#[test]
fn claim_is_one_shot_even_after_parts_are_dropped() {
    let mut storage = NativeStorage::new();
    let address = WifiL2Capabilities::try_new([2, 0, 0, 0, 0, 1]).unwrap();
    {
        let parts = storage.claim(address).unwrap();
        assert_eq!(
            parts.device.hardware_address(),
            embassy_net_driver::HardwareAddress::Ethernet([2, 0, 0, 0, 0, 1])
        );
    }
    for _ in 0..2 {
        assert!(matches!(
            storage.claim(address),
            Err(StorageError::AlreadyClaimed)
        ));
    }
}

#[test]
fn physical_report_is_derived_from_the_actual_object() {
    let report = NativeStorage::report().unwrap();
    assert_eq!(report.rx_slots, 4);
    assert_eq!(report.tx_slots, 4);
    assert_eq!(report.mtu, 1514);
    assert_eq!(report.payload_bytes, 12_112);
    assert!(report.metadata_bytes > 0);
    assert_eq!(report.total_bytes, core::mem::size_of::<NativeStorage>());
    assert_eq!(
        report.payload_bytes + report.metadata_bytes,
        report.total_bytes
    );
}
