use core::task::{Context, Waker};

use embassy_net_driver::{Driver, HardwareAddress, LinkState, RxToken, TxToken};
use hisi_rf_core::l2::L2Device;
use hisi_rf_core::WifiL2Capabilities;
use hisi_rf_ws63::netif_l2::link::{NativeLink, TransmitPoll};
use hisi_rf_ws63::netif_l2::storage::NativeStorage;
use hisi_rf_ws63::netif_l2::{CallbackRoute, NATIVE_MTU, NATIVE_TX_SLOTS};

fn l2_capabilities(device: &L2Device<'_, 4, 4, 1514>) -> Option<WifiL2Capabilities> {
    match device.hardware_address() {
        HardwareAddress::Ethernet(address) => WifiL2Capabilities::try_new(address),
        _ => None,
    }
}

#[test]
fn opaque_device_delegates_real_capacity_identity_and_closed_state() {
    let mut storage = NativeStorage::new();
    let address = WifiL2Capabilities::try_new([2, 0, 0, 0, 0, 9]).unwrap();
    let parts = storage.claim(address).unwrap();
    let mut route = CallbackRoute::new();
    let mut link = NativeLink::bind(parts.port, &mut route).unwrap();
    let mut device = parts.device;
    let mut cx = Context::from_waker(Waker::noop());
    assert_eq!(l2_capabilities(&device), Some(address));
    assert_eq!(
        l2_capabilities(&device).map(WifiL2Capabilities::station_mac_address),
        Some([2, 0, 0, 0, 0, 9])
    );
    assert!(Driver::link_state(&mut device, &mut cx) == LinkState::Down);
    assert!(Driver::transmit(&mut device, &mut cx).is_none());
    assert_eq!(
        Driver::capabilities(&device).max_transmission_unit,
        NATIVE_MTU
    );
    link.begin_after_native_quiescence(&mut route).unwrap();
    for byte in 0..NATIVE_TX_SLOTS {
        Driver::transmit(&mut device, &mut cx)
            .unwrap()
            .consume(1, |b| b[0] = byte as u8);
    }
    assert!(Driver::transmit(&mut device, &mut cx).is_none());
    for byte in 0..NATIVE_TX_SLOTS {
        assert!(matches!(
            link.poll_transmit(&mut route, &mut cx, |b: &[u8]| {
                assert_eq!(b, &[byte as u8]);
                Ok::<(), ()>(())
            }),
            TransmitPoll::Ready(Ok(()))
        ));
    }
    let ticket = route.enter().unwrap();
    ticket.receive(&mut route, &[1, 2, 3]).unwrap();
    let (rx, reply) = Driver::receive(&mut device, &mut cx).unwrap();
    rx.consume(|bytes| assert_eq!(bytes, &[1, 2, 3]));
    drop(reply);
    link.close(&mut route).unwrap();
    assert!(Driver::link_state(&mut device, &mut cx) == LinkState::Down);
    assert_eq!(link.rx_diagnostics().delivered, 1);
    assert_eq!(link.tx_diagnostics().delivered, NATIVE_TX_SLOTS as u64);
}

#[test]
fn smoltcp_adapter_uses_the_same_instance_without_a_legacy_queue() {
    let mut storage = NativeStorage::new();
    let address = WifiL2Capabilities::try_new([2, 0, 0, 0, 0, 10]).unwrap();
    let parts = storage.claim(address).unwrap();
    let mut route = CallbackRoute::new();
    let mut link = NativeLink::bind(parts.port, &mut route).unwrap();
    let mut device = parts.device;
    link.begin_after_native_quiescence(&mut route).unwrap();
    let ticket = route.enter().unwrap();
    ticket.receive(&mut route, &[7, 8]).unwrap();
    let (rx, tx) =
        smoltcp::phy::Device::receive(&mut device, smoltcp::time::Instant::ZERO).unwrap();
    smoltcp::phy::RxToken::consume(rx, |bytes| assert_eq!(bytes, &[7, 8]));
    drop(tx);
    assert_eq!(link.rx_diagnostics().delivered, 1);
}
