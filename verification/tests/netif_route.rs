use core::task::{Context, Waker};
use embassy_net_driver::{Driver, LinkState, RxToken, TxToken};
use hisi_rf_core::l2::L2Storage;
use hisi_rf_core::WifiL2Capabilities;
use hisi_rf_ws63::netif_l2::link::{hand_over, NativeLink, Opening, SubmitError, TransmitPoll};
use std::sync::atomic::{AtomicUsize, Ordering};
use std::sync::Arc;
use std::task::Wake;
use hisi_rf_ws63::netif_l2::{bind_native, CallbackRoute, LinkError, QueueError, RouteError};

struct Counter(AtomicUsize);

impl Wake for Counter {
    fn wake(self: Arc<Self>) {
        self.0.fetch_add(1, Ordering::Relaxed);
    }

    fn wake_by_ref(self: &Arc<Self>) {
        self.0.fetch_add(1, Ordering::Relaxed);
    }
}

fn mac() -> WifiL2Capabilities {
    WifiL2Capabilities::try_new([2, 0, 0, 0, 0, 1]).unwrap()
}

fn assert_conserved<const RX: usize>(route: &CallbackRoute<'_, RX, 64>) {
    let d = route.diagnostics();
    assert_eq!(d.entered, d.queued + d.dropped + d.in_flight as u64);
}

#[test]
fn route_is_closed_until_claimed_and_opened() {
    let mut storage = L2Storage::<2, 2, 64>::new();
    let mut parts = storage.split(mac());
    let mut route = CallbackRoute::new();
    assert!(route.enter().is_none());
    let mut owner = route.claim(parts.port.ingress()).unwrap();
    assert!(route.enter().is_none());
    assert!(matches!(
        route.claim(parts.port.ingress()),
        Err(RouteError::AlreadyRegistered)
    ));
    let generation = parts.port.begin_session().unwrap();
    owner.open_after_native_quiescence(&mut route, generation).unwrap();
    assert_eq!(
        owner.open_after_native_quiescence(&mut route, generation),
        Err(RouteError::AlreadyOpen)
    );
    let ticket = route.enter().unwrap();
    ticket.receive(&mut route, &[1, 2, 3]).unwrap();
    assert_eq!(parts.port.rx_diagnostics().pending, 1);
    assert_eq!(route.diagnostics().closed_drops, 2);
    assert_conserved(&route);
}

#[test]
fn delayed_callback_cannot_be_retagged_for_a_reconnection() {
    let mut storage = L2Storage::<2, 2, 64>::new();
    let mut parts = storage.split(mac());
    let mut route = CallbackRoute::new();
    let mut owner = route.claim(parts.port.ingress()).unwrap();
    let old = parts.port.begin_session().unwrap();
    owner.open_after_native_quiescence(&mut route, old).unwrap();
    let delayed = route.enter().unwrap();
    owner.close(&mut route);
    parts.port.link_down().unwrap();
    assert!(route.enter().is_none());
    let new = parts.port.begin_session().unwrap();
    assert_eq!(
        owner.open_after_native_quiescence(&mut route, new),
        Err(RouteError::CallbacksInFlight)
    );
    assert_eq!(
        delayed.receive(&mut route, &[9]),
        Err(QueueError::StaleGeneration)
    );
    owner.open_after_native_quiescence(&mut route, new).unwrap();
    let ticket = route.enter().unwrap();
    ticket.receive(&mut route, &[3]).unwrap();
    assert_eq!(parts.port.rx_diagnostics().pending, 1);
    assert_eq!(route.diagnostics().queued, 1);
    assert_conserved(&route);
}

#[test]
fn drop_closes_registration_and_blocks_reclaim_until_tickets_drain() {
    let mut storage = L2Storage::<2, 2, 64>::new();
    let mut parts = storage.split(mac());
    let mut route = CallbackRoute::new();
    let mut owner = route.claim(parts.port.ingress()).unwrap();
    let generation = parts.port.begin_session().unwrap();
    owner.open_after_native_quiescence(&mut route, generation).unwrap();
    let ticket = route.enter().unwrap();
    owner.release(&mut route);
    assert!(route.enter().is_none());
    assert!(matches!(
        route.claim(parts.port.ingress()),
        Err(RouteError::CallbacksInFlight)
    ));
    ticket.abandon(&mut route);
    let _new = route.claim(parts.port.ingress()).unwrap();
    assert!(route.enter().is_none());
    assert_eq!(route.diagnostics().abandoned, 1);
    assert_conserved(&route);
}

#[test]
fn full_oversized_and_abandoned_callbacks_are_accounted() {
    let mut storage = L2Storage::<2, 2, 64>::new();
    let mut parts = storage.split(mac());
    let mut route = CallbackRoute::new();
    let mut owner = route.claim(parts.port.ingress()).unwrap();
    let generation = parts.port.begin_session().unwrap();
    owner.open_after_native_quiescence(&mut route, generation).unwrap();
    for _ in 0..2 {
        let ticket = route.enter().unwrap();
        ticket.receive(&mut route, &[1; 64]).unwrap();
    }
    let full = route.enter().unwrap();
    assert_eq!(full.receive(&mut route, &[2]), Err(QueueError::Full));
    let oversized = route.enter().unwrap();
    assert_eq!(
        oversized.receive(&mut route, &[3; 65]),
        Err(QueueError::FrameTooLarge)
    );
    let abandoned = route.enter().unwrap();
    abandoned.abandon(&mut route);
    assert_eq!(route.diagnostics().queued, 2);
    assert_eq!(route.diagnostics().dropped, 3);
    assert_conserved(&route);
}

#[test]
fn native_link_drop_invalidates_the_device_and_delayed_callbacks() {
    let mut storage = L2Storage::<2, 2, 64>::new();
    let mut parts = storage.split(mac());
    let mut route = CallbackRoute::new();
    let mut link = NativeLink::bind(parts.port, &mut route).unwrap();
    let mut cx = Context::from_waker(Waker::noop());
    assert!(parts.device.link_state(&mut cx) == LinkState::Down);
    link.begin_after_native_quiescence(&mut route).unwrap();
    let ticket = route.enter().unwrap();
    assert!(parts.device.link_state(&mut cx) == LinkState::Up);
    link.release(&mut route).unwrap();
    assert!(parts.device.link_state(&mut cx) == LinkState::Down);
    assert_eq!(
        ticket.receive(&mut route, &[1]),
        Err(QueueError::StaleGeneration)
    );
    assert!(parts.device.receive(&mut cx).is_none());
    assert_conserved(&route);
}

#[test]
fn tx_submission_is_bounded_and_distinguishes_native_failure() {
    let mut storage = L2Storage::<2, 2, 64>::new();
    let mut parts = storage.split(mac());
    let mut route = CallbackRoute::new();
    let mut link = NativeLink::bind(parts.port, &mut route).unwrap();
    link.begin_after_native_quiescence(&mut route).unwrap();
    let mut cx = Context::from_waker(Waker::noop());
    for value in [1, 2] {
        parts
            .device
            .transmit(&mut cx)
            .unwrap()
            .consume(64, |frame| frame.fill(value));
    }
    assert!(parts.device.transmit(&mut cx).is_none());
    assert_eq!(
        link.poll_transmit(&mut route, &mut cx, |frame: &[u8]| {
            assert_eq!(frame, &[1; 64]);
            Ok::<_, u8>(())
        }),
        TransmitPoll::Ready(Ok(()))
    );
    assert_eq!(link.tx_diagnostics().pending, 1);
    assert_eq!(
        link.poll_transmit(&mut route, &mut cx, |frame: &[u8]| {
            assert_eq!(frame, &[2; 64]);
            Err(42)
        }),
        TransmitPoll::Ready(Err(SubmitError::Native(42)))
    );
    assert_eq!(link.tx_diagnostics().delivered, 1);
    assert_eq!(link.tx_diagnostics().dropped, 1);
    assert_eq!(
        link.poll_transmit(&mut route, &mut cx, |_: &[u8]| Ok::<_, u8>(())),
        TransmitPoll::Pending
    );
}

#[test]
fn close_discards_old_queues_and_does_not_reopen_with_live_callback() {
    let mut storage = L2Storage::<2, 2, 64>::new();
    let mut parts = storage.split(mac());
    let mut route = CallbackRoute::new();
    let mut link = NativeLink::bind(parts.port, &mut route).unwrap();
    link.begin_after_native_quiescence(&mut route).unwrap();
    let mut cx = Context::from_waker(Waker::noop());
    parts
        .device
        .transmit(&mut cx)
        .unwrap()
        .consume(1, |frame| frame[0] = 1);
    let first = route.enter().unwrap();
    first.receive(&mut route, &[2]).unwrap();
    let ticket = route.enter().unwrap();
    link.close(&mut route).unwrap();
    assert_eq!(link.rx_diagnostics().dropped, 1);
    assert_eq!(link.tx_diagnostics().dropped, 1);
    assert_eq!(
        link.begin_after_native_quiescence(&mut route),
        Err(LinkError::Route(RouteError::CallbacksInFlight))
    );
    ticket.abandon(&mut route);
    link.begin_after_native_quiescence(&mut route).unwrap();
    assert!(parts.device.receive(&mut cx).is_none());
    assert_eq!(
        link.poll_transmit(&mut route, &mut cx, |_: &[u8]| Ok::<_, u8>(())),
        TransmitPoll::Pending
    );
    assert_conserved(&route);
}

#[test]
fn tx_publication_wakes_worker_and_native_return_releases_real_capacity() {
    let mut storage = L2Storage::<2, 1, 64>::new();
    let mut parts = storage.split(mac());
    let mut route = CallbackRoute::new();
    let mut link = NativeLink::bind(parts.port, &mut route).unwrap();
    link.begin_after_native_quiescence(&mut route).unwrap();
    let counter = Arc::new(Counter(AtomicUsize::new(0)));
    let waker = Waker::from(counter.clone());
    let mut worker = Context::from_waker(&waker);
    let mut network = Context::from_waker(Waker::noop());
    assert_eq!(
        link.poll_transmit(&mut route, &mut worker, |_: &[u8]| Ok::<_, u8>(())),
        TransmitPoll::Pending
    );
    parts
        .device
        .transmit(&mut network)
        .unwrap()
        .consume(1, |frame| frame[0] = 7);
    assert_eq!(counter.0.load(Ordering::Relaxed), 1);
    assert_eq!(
        link.poll_transmit(&mut route, &mut worker, |_: &[u8]| {
            assert!(parts.device.transmit(&mut network).is_none());
            Ok::<_, u8>(())
        }),
        TransmitPoll::Ready(Ok(()))
    );
    assert!(parts.device.transmit(&mut network).is_some());
}

#[test]
fn native_close_takes_the_queues_down_once() {
    let mut storage = L2Storage::<2, 2, 64>::new();
    let mut parts = storage.split(mac());
    let mut route = CallbackRoute::new();
    let mut link = NativeLink::bind(parts.port, &mut route).unwrap();
    link.begin_after_native_quiescence(&mut route).unwrap();
    let mut cx = Context::from_waker(Waker::noop());
    assert_eq!(link.poll_native_close(&mut route), Ok(false));
    assert!(route.close_admission());
    assert!(!route.close_admission());
    assert_eq!(link.poll_native_close(&mut route), Ok(true));
    assert!(parts.device.link_state(&mut cx) == LinkState::Down);
    assert_eq!(link.poll_native_close(&mut route), Ok(false));
}

#[test]
fn a_frame_queued_before_a_close_is_not_submitted() {
    let mut storage = L2Storage::<2, 2, 64>::new();
    let mut parts = storage.split(mac());
    let mut route = CallbackRoute::new();
    let mut link = NativeLink::bind(parts.port, &mut route).unwrap();
    link.begin_after_native_quiescence(&mut route).unwrap();
    let mut cx = Context::from_waker(Waker::noop());
    parts
        .device
        .transmit(&mut cx)
        .unwrap()
        .consume(3, |frame| frame.fill(1));
    route.close_admission();
    assert_eq!(
        link.poll_transmit(&mut route, &mut cx, |_: &[u8]| -> Result<(), u8> {
            panic!("must not submit")
        }),
        TransmitPoll::Ready(Err(SubmitError::AdmissionClosed))
    );
    assert_eq!(route.diagnostics().transmits_in_flight, 0);
}

#[test]
fn an_allocation_of_an_earlier_connection_is_dropped() {
    let mut storage = L2Storage::<4, 2, 1514>::new();
    let mut parts = storage.split(mac());
    let mut route = CallbackRoute::new();
    let mut link = bind_native(parts.port, &mut route).unwrap();
    let closed = route.allocation_epoch();
    link.begin_after_native_quiescence(&mut route).unwrap();
    assert!(route.enter_allocated(closed).is_none());
    let old = route.allocation_epoch();
    link.close(&mut route).unwrap();
    link.begin_after_native_quiescence(&mut route).unwrap();
    assert!(route.enter_allocated(old).is_none());
    let fresh = route.allocation_epoch();
    let ticket = route.enter_allocated(fresh).unwrap();
    ticket.receive(&mut route, &[1, 2, 3]).unwrap();
    assert_eq!(route.diagnostics().allocation_drops, 2);
    assert_eq!(route.diagnostics().queued, 1);
    let mut cx = Context::from_waker(Waker::noop());
    let (rx, _tx) = parts.device.receive(&mut cx).unwrap();
    rx.consume(|frame| assert_eq!(frame, &[1, 2, 3]));
    assert!(matches!(
        bind_native(
            {
                let other: &'static mut L2Storage<4, 2, 1514> = Box::leak(Box::new(L2Storage::new()));
                other.split(mac()).port
            },
            &mut route
        ),
        Err(LinkError::Route(RouteError::AlreadyRegistered))
    ));
}

#[test]
fn a_frame_is_offered_without_the_route() {
    let mut storage = L2Storage::<2, 2, 64>::new();
    let mut parts = storage.split(mac());
    let mut route = CallbackRoute::new();
    let mut owner = route.claim(parts.port.ingress()).unwrap();
    let generation = parts.port.begin_session().unwrap();
    owner.open_after_native_quiescence(&mut route, generation).unwrap();

    let ticket = route.enter().unwrap();
    let open = ticket.is_open(&route);
    assert!(open);
    let result = ticket.offer(open, &[1, 2, 3]);
    assert_eq!(result, Ok(()));
    ticket.settle(&mut route, result);
    assert_eq!(route.diagnostics().queued, 1);

    let long = route.enter().unwrap();
    let refused = long.offer(true, &[0; 65]);
    assert_eq!(refused, Err(QueueError::FrameTooLarge));
    long.settle(&mut route, refused);

    let late = route.enter().unwrap();
    owner.close(&mut route);
    assert!(!late.is_open(&route));
    let refused = late.offer(false, &[4]);
    assert_eq!(refused, Err(QueueError::StaleGeneration));
    late.settle(&mut route, refused);
    assert_eq!(route.diagnostics().dropped, 2);
    assert_eq!(route.diagnostics().in_flight, 0);
    assert_eq!(parts.port.rx_diagnostics().pending, 1);
    assert_conserved(&route);
}

#[test]
fn a_session_is_published_or_withdrawn() {
    let mut storage = L2Storage::<2, 2, 64>::new();
    let mut parts = storage.split(mac());
    let mut route = CallbackRoute::new();
    let mut link = NativeLink::bind(parts.port, &mut route).unwrap();
    let mut cx = Context::from_waker(Waker::noop());

    let intent = link.registration.prepare_open(&route).unwrap();
    let begun = link.start_session();
    route.close_admission();
    let opening = link.publish(&mut route, intent, begun);
    let Opening::Withdrawn(cause) = opening else {
        panic!("a close during the open was overlooked")
    };
    assert!(parts.device.link_state(&mut cx) == LinkState::Up);
    assert_eq!(link.conclude(opening), Err(LinkError::Route(cause)));
    assert!(parts.device.link_state(&mut cx) == LinkState::Down);
    assert!(route.enter().is_none());

    let intent = link.registration.prepare_open(&route).unwrap();
    let begun = link.start_session();
    let opening = link.publish(&mut route, intent, begun);
    assert_eq!(opening, Opening::Opened);
    assert_eq!(link.conclude(opening), Ok(()));
    assert!(parts.device.link_state(&mut cx) == LinkState::Up);

    assert_eq!(
        link.conclude(Opening::Failed(QueueError::SequenceExhausted)),
        Err(LinkError::Queue(QueueError::SequenceExhausted))
    );
    assert!(!link.notice_close(&mut route));
    assert!(link.shut(&mut route));
    assert!(parts.device.link_state(&mut cx) == LinkState::Up);
    assert_eq!(link.take_down(), Ok(()));
    assert!(parts.device.link_state(&mut cx) == LinkState::Down);
    assert!(!link.notice_close(&mut route));
}

#[test]
fn a_frame_is_withheld_from_a_route_that_is_not_open_in_its_session() {
    let mut storage = L2Storage::<2, 2, 64>::new();
    let mut parts = storage.split(mac());
    let mut route = CallbackRoute::new();
    let mut owner = route.claim(parts.port.ingress()).unwrap();
    let old = parts.port.begin_session().unwrap();
    let generation = parts.port.begin_session().unwrap();
    owner.open_after_native_quiescence(&mut route, generation).unwrap();
    let submit = |frame: &[u8]| {
        assert_eq!(frame, &[7]);
        Err::<(), u8>(42)
    };
    assert_eq!(
        hand_over(&owner, &mut route, true, generation, &[7], submit),
        Err(SubmitError::Native(42))
    );
    assert_eq!(
        hand_over(&owner, &mut route, true, generation, &[7], |_: &[u8]| Ok::<(), u8>(())),
        Ok(())
    );
    assert_eq!(
        hand_over(&owner, &mut route, false, generation, &[7], submit),
        Err(SubmitError::StaleGeneration)
    );
    assert_eq!(
        hand_over(&owner, &mut route, true, old, &[7], submit),
        Err(SubmitError::AdmissionClosed)
    );
    assert_eq!(route.diagnostics().transmits_in_flight, 0);
}

#[test]
fn a_worker_waits_without_a_frame_and_reports_what_came_of_one() {
    assert_eq!(TransmitPoll::<u8>::of(None), TransmitPoll::Pending);
    assert_eq!(
        TransmitPoll::of(Some(Err(SubmitError::Native(42)))),
        TransmitPoll::Ready(Err(SubmitError::Native(42)))
    );
    assert_eq!(
        TransmitPoll::<u8>::of(Some(Ok(Ok(())))),
        TransmitPoll::Ready(Ok(()))
    );
    assert_eq!(
        TransmitPoll::<u8>::of(Some(Ok(Err(QueueError::StaleGeneration)))),
        TransmitPoll::Ready(Err(SubmitError::StaleGeneration))
    );
}
