use core::cell::Cell;
use hisi_rf_core::l2::L2Storage;
use hisi_rf_core::{OperationTracker, WifiL2Capabilities};
use hisi_rf_ws63::netif_l2::link::NativeLink;
use hisi_rf_ws63::netif_l2::rx_mode::post;
use hisi_rf_ws63::netif_l2::CallbackRoute;

#[test]
fn queued_rx_fails_closed_without_transferring_or_freeing_the_input() {
    let rejected = Cell::new(false);
    assert_eq!(
        post(595, || rejected.set(true), || panic!("must not enqueue")),
        103
    );
    assert!(rejected.get());
}

#[test]
fn unrelated_messages_forward_once_and_preserve_the_native_status() {
    for message in [0, 50, 52, 91, 594, 596, u16::MAX] {
        for status in [0, 100, 103, -1] {
            let calls = Cell::new(0);
            assert_eq!(
                post(
                    message,
                    || panic!("must not reject"),
                    || {
                        calls.set(calls.get() + 1);
                        status
                    }
                ),
                status
            );
            assert_eq!(calls.get(), 1);
        }
    }
}

#[test]
fn queued_rx_rejection_invalidates_both_pending_and_already_open_sessions() {
    for open_first in [false, true] {
        let mut storage = L2Storage::<2, 2, 64>::new();
        let parts = storage.split(WifiL2Capabilities::try_new([2, 0, 0, 0, 0, 1]).unwrap());
        let mut route = CallbackRoute::new();
        let mut link = NativeLink::bind(parts.port, &mut route).unwrap();
        let id = OperationTracker::new().queue(0).unwrap();
        route.initial_bootstrap_complete();
        route.initial_connect_started(id);
        route.initial_association_started();
        route.initial_association_result(true);
        if open_first {
            link.begin_initial_session_experiment(&mut route, id).unwrap();
        }
        assert_eq!(
            post(
                595,
                || {
                    route.close_admission();
                },
                || panic!("must not enqueue")
            ),
            103
        );
        assert!(route.enter().is_none());
        assert!(link.begin_initial_session_experiment(&mut route, id).is_err());
    }
}
