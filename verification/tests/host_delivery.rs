use hisi_rf_core::l2::L2Storage;
use hisi_rf_core::WifiL2Capabilities;
use hisi_rf_ws63::netif_l2::host_delivery::{
    begin_installation, finish_installation, installation_action, HostDeliveryDiagnostics,
    InstallStep,
};
use hisi_rf_ws63::netif_l2::link::NativeLink;
use hisi_rf_ws63::netif_l2::{
    native_host_delivery_diagnostics, native_route_diagnostics, CallbackRoute, LinkError,
    RouteError,
};

#[test]
fn hook_registration_rejects_missing_or_foreign_owners() {
    assert_eq!(installation_action(1, 1, 2), Ok(true));
    assert_eq!(installation_action(2, 1, 2), Ok(false));
    for current in [0, 3, usize::MAX] {
        assert_eq!(installation_action(current, 1, 2), Err(()));
    }
    assert_eq!(installation_action(0, 0, 2), Err(()));
    assert_eq!(installation_action(1, 1, 0), Err(()));
    assert_eq!(installation_action(1, 1, 1), Err(()));
}

#[test]
fn hook_installation_reports_its_two_failures() {
    assert_eq!(begin_installation(1, 1, 2), InstallStep::Register);
    assert_eq!(begin_installation(2, 1, 2), InstallStep::Done(Ok(())));
    assert_eq!(
        begin_installation(3, 1, 2),
        InstallStep::Done(Err(0x1000_0010))
    );
    assert_eq!(finish_installation(2, 2), Ok(()));
    assert_eq!(finish_installation(1, 2), Err(0x1000_0011));
}

fn conserved(route: &CallbackRoute<'_, 1, 64>) -> HostDeliveryDiagnostics {
    let d = route.host_delivery_diagnostics();
    assert!(!d.exhausted);
    assert_eq!(d.entered, d.returned + d.abandoned + d.in_flight);
    d
}

#[test]
fn closed_route_still_forwards_each_native_owner_once() {
    let mut route = CallbackRoute::<1, 64>::new();
    for expected in [0, 1, u32::MAX] {
        let ticket = route.enter_host_delivery();
        assert_eq!(conserved(&route).in_flight, 1);
        ticket.finish(&mut route, expected);
    }
    let d = conserved(&route);
    assert_eq!(d.entered, 3);
    assert_eq!(d.returned, 3);
    assert_eq!(d.entered_while_closed, 3);
    assert_eq!(d.nonzero_returns, 2);
    assert_eq!(d.in_flight, 0);
    // No callback observation is misreported as Ethernet admission/drop.
    assert_eq!(route.diagnostics().entered, 0);
}

#[test]
fn reentrant_delivery_and_close_do_not_hold_a_route_borrow() {
    let mut route = CallbackRoute::<1, 64>::new();
    let outer = route.enter_host_delivery();
    let inner = route.enter_host_delivery();
    assert_eq!(conserved(&route).in_flight, 2);
    route.close_admission();
    inner.finish(&mut route, 17);
    assert_eq!(conserved(&route).in_flight, 1);
    outer.finish(&mut route, 23);
    let d = conserved(&route);
    assert_eq!(d.crossed_close, 2);
    assert_eq!(d.peak_in_flight, 2);
    assert_eq!(d.returned, 2);
}

#[test]
fn unwind_retires_the_observation_without_fabricating_a_return() {
    let mut route = CallbackRoute::<1, 64>::new();
    let ticket = route.enter_host_delivery();
    ticket.abandon(&mut route);
    let d = conserved(&route);
    assert_eq!(d.abandoned, 1);
    assert_eq!(d.returned, 0);
    assert_eq!(d.in_flight, 0);
}

#[test]
fn exhausted_diagnostics_still_forward_but_cannot_claim_conservation() {
    let mut route = CallbackRoute::<1, 64>::new();
    route.host_deliveries.entered = u64::MAX;
    route.host_deliveries.returned = u64::MAX;
    let ticket = route.enter_host_delivery();
    ticket.finish(&mut route, 42);
    let d = route.host_delivery_diagnostics();
    assert!(d.exhausted);
    assert_eq!(d.entered, u64::MAX);
    assert_eq!(d.in_flight, 0);
}

#[test]
fn observed_native_call_must_retire_before_open() {
    let mut storage = L2Storage::<1, 1, 64>::new();
    let parts = storage.split(WifiL2Capabilities::try_new([2, 0, 0, 0, 0, 1]).unwrap());
    let mut route = CallbackRoute::new();
    let mut link = NativeLink::bind(parts.port, &mut route).unwrap();
    let ticket = route.enter_host_delivery();
    assert_eq!(
        link.begin_after_native_quiescence(&mut route),
        Err(LinkError::Route(RouteError::CallbacksInFlight))
    );
    ticket.finish(&mut route, 0);
    // Only the test owns all producers here.
    link.begin_after_native_quiescence(&mut route).unwrap();
    assert_eq!(conserved(&route).in_flight, 0);
}

#[test]
fn completed_call_between_prepare_and_commit_invalidates_open() {
    let mut storage = L2Storage::<1, 1, 64>::new();
    let mut parts = storage.split(WifiL2Capabilities::try_new([2, 0, 0, 0, 0, 1]).unwrap());
    let mut route = CallbackRoute::new();
    let mut owner = route.claim(parts.port.ingress()).unwrap();
    let intent = owner.prepare_open(&route).unwrap();
    let ticket = route.enter_host_delivery();
    ticket.finish(&mut route, 0);
    let generation = parts.port.begin_session().unwrap();
    assert_eq!(
        owner.commit_open(&mut route, intent, generation),
        Err(RouteError::OpenInterrupted)
    );
    assert!(route.enter().is_none());
    assert_eq!(conserved(&route).in_flight, 0);
}

#[test]
fn exhausted_observer_never_authorizes_open() {
    let mut storage = L2Storage::<1, 1, 64>::new();
    let parts = storage.split(WifiL2Capabilities::try_new([2, 0, 0, 0, 0, 1]).unwrap());
    let mut route = CallbackRoute::new();
    let mut link = NativeLink::bind(parts.port, &mut route).unwrap();
    route.host_deliveries.entered = u64::MAX;
    route.host_deliveries.returned = u64::MAX;
    let ticket = route.enter_host_delivery();
    ticket.finish(&mut route, 0);
    assert_eq!(
        link.begin_after_native_quiescence(&mut route),
        Err(LinkError::Route(RouteError::LifecycleExhausted))
    );
}

#[test]
fn native_route_snapshots_are_those_of_the_route() {
    let mut route = CallbackRoute::<4, 1514>::new();
    assert!(route.enter().is_none());
    let ticket = route.enter_host_delivery();
    ticket.finish(&mut route, 5);
    assert_eq!(native_route_diagnostics(&route).closed_drops, 1);
    assert_eq!(native_host_delivery_diagnostics(&route).nonzero_returns, 1);
}

#[test]
fn no_more_deliveries_are_at_work_than_were_entered() {
    let mut route = CallbackRoute::<1, 64>::new();
    for entered in 1..=3u64 {
        let outer = route.enter_host_delivery();
        let d = conserved(&route);
        assert_eq!((d.entered, d.in_flight, d.peak_in_flight), (entered, 1, 1));
        outer.finish(&mut route, 0);
    }
    let outer = route.enter_host_delivery();
    let inner = route.enter_host_delivery();
    inner.finish(&mut route, 0);
    outer.finish(&mut route, 0);
    let d = conserved(&route);
    assert_eq!((d.entered, d.in_flight, d.peak_in_flight), (5, 0, 2));
}
