use core::task::{Context, Waker};
use embassy_net_driver::{Driver, LinkState, TxToken};
use hisi_rf_core::l2::L2Storage;
use hisi_rf_core::{OperationId, WifiL2Capabilities};
use hisi_rf_ws63::netif_l2::initial_session::InitialSession;
use hisi_rf_ws63::netif_l2::link::{NativeLink, TransmitPoll};
use hisi_rf_ws63::netif_l2::{
    native_initial_open_result, CallbackRoute, LinkError, RouteError,
};

fn operation() -> OperationId {
    hisi_rf_core::OperationTracker::new().queue(0).unwrap()
}

fn associated(route: &mut CallbackRoute<'_, 2, 64>, id: OperationId) {
    route.initial_bootstrap_complete();
    route.initial_connect_started(id);
    route.initial_association_started();
    route.initial_association_result(true);
}

#[test]
fn single_session_can_transfer_but_never_reopen() {
    let mut storage = L2Storage::<2, 2, 64>::new();
    let mut parts = storage.split(WifiL2Capabilities::try_new([2, 0, 0, 0, 0, 1]).unwrap());
    let mut route = CallbackRoute::new();
    let id = operation();
    // Production composition binds after bootstrap, before connect.
    route.initial_bootstrap_complete();
    let mut link = NativeLink::bind(parts.port, &mut route).unwrap();
    let mut cx = Context::from_waker(Waker::noop());
    assert!(parts.device.link_state(&mut cx) == LinkState::Down);
    route.initial_connect_started(id);
    route.initial_association_started();
    route.initial_association_result(true);
    link.begin_initial_session_experiment(&mut route, id).unwrap();
    assert!(parts.device.link_state(&mut cx) == LinkState::Up);
    parts
        .device
        .transmit(&mut cx)
        .unwrap()
        .consume(1, |b| b[0] = 42);
    assert!(matches!(
        link.poll_transmit(&mut route, &mut cx, |b: &[u8]| {
            assert_eq!(b, [42]);
            Ok::<_, ()>(())
        }),
        TransmitPoll::Ready(_)
    ));
    let ticket = route.enter().unwrap();
    ticket.receive(&mut route, &[8]).unwrap();
    assert_eq!(link.rx_diagnostics().pending, 1);
    link.close(&mut route).unwrap();
    assert!(parts.device.link_state(&mut cx) == LinkState::Down);
    assert_eq!(link.rx_diagnostics().dropped, 1);
    assert_eq!(
        link.begin_initial_session_experiment(&mut route, id),
        Err(LinkError::Route(RouteError::InitialSessionRejected))
    );
}

#[test]
fn retry_duplicate_result_and_teardown_permanently_reject_open() {
    for fault in 0..5 {
        let mut storage = L2Storage::<2, 2, 64>::new();
        let parts = storage.split(WifiL2Capabilities::try_new([2, 0, 0, 0, 0, 1]).unwrap());
        let mut route = CallbackRoute::new();
        let mut link = NativeLink::bind(parts.port, &mut route).unwrap();
        let id = operation();
        associated(&mut route, id);
        match fault {
            0 => route.initial_association_started(),
            1 => {
                route.initial_association_result(true);
            }
            2 => {
                route.close_admission();
            }
            3 => route.initial_bootstrap_complete(),
            _ => route.initial_connect_started(id),
        }
        assert_eq!(
            link.begin_initial_session_experiment(&mut route, id),
            Err(LinkError::Route(RouteError::InitialSessionRejected))
        );
        assert!(route.enter().is_none());
    }
}

#[test]
fn authorization_requires_matching_operation_and_successful_association() {
    let mut state = InitialSession::Uninitialized;
    let id = operation();
    assert!(state.check(id).is_err());
    state.bootstrap();
    state.connect(id);
    state.associate();
    assert!(state.check(id).is_err());
    let mut successful = state;
    successful.result(true);
    let other = hisi_rf_core::OperationTracker::new().queue(1).unwrap();
    assert!(successful.check(other).is_err());
    assert!(successful.check(id).is_ok());
    state.result(false);
    assert_eq!(state, InitialSession::Rejected);
    state.result(true);
    assert!(state.check(id).is_err());
}

#[test]
fn close_during_open_keeps_network_and_callback_closed() {
    let mut storage = L2Storage::<2, 2, 64>::new();
    let mut parts = storage.split(WifiL2Capabilities::try_new([2, 0, 0, 0, 0, 1]).unwrap());
    let mut route = CallbackRoute::new();
    let mut registration = route.claim(parts.port.ingress()).unwrap();
    let id = operation();
    associated(&mut route, id);
    let intent = registration.prepare_initial_open(&route, id).unwrap();
    route.close_admission();
    let generation = parts.port.begin_session().unwrap();
    assert_eq!(
        registration.commit_open(&mut route, intent, generation),
        Err(RouteError::OpenInterrupted)
    );
    assert!(route.enter().is_none());
    parts.port.link_down().unwrap();
    assert!(registration.prepare_initial_open(&route, id).is_err());
}

#[test]
fn the_open_result_is_kept_for_a_later_reader() {
    let mut route = CallbackRoute::<4, 1514>::new();
    assert_eq!(native_initial_open_result(&route), None);
    route.record_initial_open_result(Err(LinkError::Route(RouteError::OpenInterrupted)));
    assert_eq!(
        native_initial_open_result(&route),
        Some(Err(LinkError::Route(RouteError::OpenInterrupted)))
    );
}

#[test]
fn a_refused_open_takes_the_queues_down() {
    let mut storage = L2Storage::<2, 2, 64>::new();
    let mut parts = storage.split(WifiL2Capabilities::try_new([2, 0, 0, 0, 0, 1]).unwrap());
    let mut route = CallbackRoute::new();
    let mut link = NativeLink::bind(parts.port, &mut route).unwrap();
    let mut cx = Context::from_waker(Waker::noop());
    link.start_session().unwrap();
    assert!(parts.device.link_state(&mut cx) == LinkState::Up);
    assert_eq!(
        link.begin_initial_session_experiment(&mut route, operation()),
        Err(LinkError::Route(RouteError::InitialSessionRejected))
    );
    assert!(parts.device.link_state(&mut cx) == LinkState::Down);
    assert_eq!(route.initial, InitialSession::Rejected);
}
