//! Session and transmit owner for the native worker.
//!
//! A link owns no packet buffers and is not shared with the network executor,
//! which owns the one device of the same queues.

use crate::netif_l2::{
    CallbackRoute, LinkError, OpenIntent, QueueError, Registration, RouteDiagnostics, RouteError,
    TransmitTicket,
};
use crate::netif_l2::initial_session::InitialSession;
use crate::netif_l2::answers::{answer, answer_to_both};
use core::task::Context;
use hisi_rf_core::l2::{Generation, L2Ingress, L2Port, TransmitPacket};
use hisi_rf_core::OperationId;
use vstd::prelude::*;

verus! {

/// The radio half of the link queues.
#[verifier::external_type_specification]
#[verifier::external_body]
pub struct ExL2Port<'a, const RX: usize, const TX: usize, const MTU: usize>(
    hisi_rf_core::l2::L2Port<'a, RX, TX, MTU>,
);

/// One frame taken from the transmit queue.
#[verifier::external_type_specification]
#[verifier::external_body]
pub struct ExTransmitPacket<'a, const TX: usize, const MTU: usize>(
    hisi_rf_core::l2::TransmitPacket<'a, TX, MTU>,
);

/// The waker of the task that polls.
#[verifier::external_type_specification]
#[verifier::external_body]
pub struct ExContext<'a>(core::task::Context<'a>);

/// Queue counters; a reservation has not accepted a frame yet.
#[derive(Clone, Copy, Debug, PartialEq, Eq, Structural)]
pub struct QueueDiagnostics {
    pub accepted: u64,
    pub delivered: u64,
    pub dropped: u64,
    pub pending: usize,
    pub reserved: usize,
    pub rejected: u64,
    pub cancelled_reservations: u64,
}

/// `hisi_rf_core::l2::L2Port::ingress`: the receive capability of the same
/// queues. Which queues these are cannot be told from the result.
#[verifier::external_body]
fn port_ingress<'a, const RX: usize, const TX: usize, const MTU: usize>(
    port: &L2Port<'a, RX, TX, MTU>,
) -> (ingress: L2Ingress<'a, RX, MTU>)
{
    port.ingress()
}

/// `hisi_rf_core::l2::L2Port::begin_session`: it fails only when no identity is
/// left. Identities come from one sequence of the whole process, so nothing is
/// said of which one is issued.
#[verifier::external_body]
fn port_begin_session<'a, const RX: usize, const TX: usize, const MTU: usize>(
    port: &mut L2Port<'a, RX, TX, MTU>,
) -> (begun: Result<Generation, QueueError>)
    ensures
        begun matches Err(error) ==> error is SequenceExhausted,
{
    port.begin_session().map_err(|_| QueueError::SequenceExhausted)
}

/// `hisi_rf_core::l2::L2Port::link_down`: it fails only when no identity is left.
#[verifier::external_body]
fn port_link_down<'a, const RX: usize, const TX: usize, const MTU: usize>(
    port: &mut L2Port<'a, RX, TX, MTU>,
) -> (down: Result<(), QueueError>)
    ensures
        down matches Err(error) ==> error is SequenceExhausted,
{
    port.link_down().map_err(|_| QueueError::SequenceExhausted)
}

/// `hisi_rf_core::l2::L2Port::transmit`: registers the waker, and takes the
/// oldest queued frame if there is one. Whether there is one depends on the
/// network executor.
#[verifier::external_body]
fn port_transmit<'p, 'a, const RX: usize, const TX: usize, const MTU: usize>(
    port: &'p L2Port<'a, RX, TX, MTU>,
    cx: &mut Context<'_>,
) -> (packet: Option<TransmitPacket<'p, TX, MTU>>)
{
    port.transmit(cx)
}

/// `hisi_rf_core::l2::TransmitPacket::is_current`: whether the link is up in the
/// frame's session at this moment.
#[verifier::external_body]
fn packet_is_current<'p, const TX: usize, const MTU: usize>(
    packet: &TransmitPacket<'p, TX, MTU>,
) -> (current: bool)
{
    packet.is_current()
}

/// `hisi_rf_core::l2::TransmitPacket::generation`: the session that the frame was
/// queued in, which no operation shows otherwise.
#[verifier::external_body]
fn packet_generation<'p, const TX: usize, const MTU: usize>(
    packet: &TransmitPacket<'p, TX, MTU>,
) -> (generation: Generation)
{
    packet.generation()
}

/// `hisi_rf_core::l2::TransmitPacket::frame`: the queued bytes, which fit one
/// buffer.
#[verifier::external_body]
fn packet_frame<'q, 'p, const TX: usize, const MTU: usize>(
    packet: &'q TransmitPacket<'p, TX, MTU>,
) -> (frame: &'q [u8])
    ensures
        frame@.len() <= MTU,
{
    packet.frame()
}

/// `hisi_rf_core::l2::TransmitPacket::complete`: it fails only because the
/// session of the frame has ended.
#[verifier::external_body]
fn packet_complete<'p, const TX: usize, const MTU: usize>(
    packet: TransmitPacket<'p, TX, MTU>,
) -> (completed: Result<(), QueueError>)
    ensures
        completed matches Err(error) ==> error is StaleGeneration,
{
    packet.complete().map_err(|_| QueueError::StaleGeneration)
}

/// `hisi_rf_core::l2::L2Port::rx_diagnostics`: every accepted frame was
/// delivered, was dropped or is pending, and no more are pending than there are
/// slots.
#[verifier::external_body]
fn port_rx_diagnostics<'a, const RX: usize, const TX: usize, const MTU: usize>(
    port: &L2Port<'a, RX, TX, MTU>,
) -> (counts: QueueDiagnostics)
    ensures
        counts.accepted == counts.delivered + counts.dropped + counts.pending,
        counts.pending + counts.reserved <= RX,
{
    let counts = port.rx_diagnostics();
    QueueDiagnostics {
        accepted: counts.accepted,
        delivered: counts.delivered,
        dropped: counts.dropped,
        pending: counts.pending,
        reserved: counts.reserved,
        rejected: counts.rejected,
        cancelled_reservations: counts.cancelled_reservations,
    }
}

/// `hisi_rf_core::l2::L2Port::tx_diagnostics`: as for the receive queue.
#[verifier::external_body]
fn port_tx_diagnostics<'a, const RX: usize, const TX: usize, const MTU: usize>(
    port: &L2Port<'a, RX, TX, MTU>,
) -> (counts: QueueDiagnostics)
    ensures
        counts.accepted == counts.delivered + counts.dropped + counts.pending,
        counts.pending + counts.reserved <= TX,
{
    let counts = port.tx_diagnostics();
    QueueDiagnostics {
        accepted: counts.accepted,
        delivered: counts.delivered,
        dropped: counts.dropped,
        pending: counts.pending,
        reserved: counts.reserved,
        rejected: counts.rejected,
        cancelled_reservations: counts.cancelled_reservations,
    }
}

/// The receive capability of a port can be `ingress`.
pub closed spec fn port_gives<'a, const RX: usize, const TX: usize, const MTU: usize>(
    port: L2Port<'a, RX, TX, MTU>,
    ingress: L2Ingress<'a, RX, MTU>,
) -> bool {
    call_ensures(port_ingress::<RX, TX, MTU>, (&port,), ingress)
}

/// A port that is asked for a new session can answer `begun`.
pub closed spec fn session_answers<'a, const RX: usize, const TX: usize, const MTU: usize>(
    port: &mut L2Port<'a, RX, TX, MTU>,
    begun: Result<Generation, QueueError>,
) -> bool {
    call_ensures(port_begin_session::<RX, TX, MTU>, (port,), begun)
}

/// A port that is asked to go down can answer `down`.
pub closed spec fn down_answers<'a, const RX: usize, const TX: usize, const MTU: usize>(
    port: &mut L2Port<'a, RX, TX, MTU>,
    down: Result<(), QueueError>,
) -> bool {
    call_ensures(port_link_down::<RX, TX, MTU>, (port,), down)
}

/// A port that is asked for the oldest queued frame can answer `packet`.
pub closed spec fn transmit_answers<'p, 'a, 'c, const RX: usize, const TX: usize, const MTU: usize>(
    port: &'p L2Port<'a, RX, TX, MTU>,
    cx: &mut Context<'c>,
    packet: Option<TransmitPacket<'p, TX, MTU>>,
) -> bool {
    call_ensures(port_transmit::<RX, TX, MTU>, (port, cx), packet)
}

/// What one packet tells of itself: whether its session is current, which one it
/// is, and its bytes.
pub closed spec fn packet_tells<'p, const TX: usize, const MTU: usize>(
    packet: TransmitPacket<'p, TX, MTU>,
    current: bool,
    generation: Generation,
    frame: &[u8],
) -> bool {
    &&& call_ensures(packet_is_current::<TX, MTU>, (&packet,), current)
    &&& call_ensures(packet_generation::<TX, MTU>, (&packet,), generation)
    &&& call_ensures(packet_frame::<TX, MTU>, (&packet,), frame)
}

/// The queue of a packet can answer `completed` to its completion.
pub closed spec fn completion_answers<'p, const TX: usize, const MTU: usize>(
    packet: TransmitPacket<'p, TX, MTU>,
    completed: Result<(), QueueError>,
) -> bool {
    call_ensures(packet_complete::<TX, MTU>, (packet,), completed)
}

/// The counters of the receive queue of a port can be `counts`.
pub closed spec fn rx_counts<'a, const RX: usize, const TX: usize, const MTU: usize>(
    port: L2Port<'a, RX, TX, MTU>,
    counts: QueueDiagnostics,
) -> bool {
    call_ensures(port_rx_diagnostics::<RX, TX, MTU>, (&port,), counts)
}

/// The counters of the transmit queue of a port can be `counts`.
pub closed spec fn tx_counts<'a, const RX: usize, const TX: usize, const MTU: usize>(
    port: L2Port<'a, RX, TX, MTU>,
    counts: QueueDiagnostics,
) -> bool {
    call_ensures(port_tx_diagnostics::<RX, TX, MTU>, (&port,), counts)
}

/// Why a frame was not handed over.
#[derive(Debug, PartialEq, Eq)]
pub enum SubmitError<E> {
    Native(E),
    StaleGeneration,
    AdmissionClosed,
}

/// One step of the transmit worker.
#[derive(Debug, PartialEq, Eq)]
pub enum TransmitPoll<E> {
    Pending,
    Ready(Result<(), SubmitError<E>>),
}

impl<E> TransmitPoll<E> {
    /// The step of a worker: without a frame it waits, a frame that was not handed
    /// over is refused as it was, and one that was handed over counts only while
    /// its session lasts.
    pub open spec fn after(taken: Option<Result<Result<(), QueueError>, SubmitError<E>>>) -> Self {
        match taken {
            None => TransmitPoll::Pending,
            Some(Err(error)) => TransmitPoll::Ready(Err(error)),
            Some(Ok(Ok(_))) => TransmitPoll::Ready(Ok(())),
            Some(Ok(Err(_))) => TransmitPoll::Ready(Err(SubmitError::StaleGeneration)),
        }
    }

    /// The step of a worker, with the frame that was taken, if one was: why it was
    /// not handed over, or how its queue took the completion.
    pub fn of(taken: Option<Result<Result<(), QueueError>, SubmitError<E>>>) -> (poll: Self)
        ensures
            poll == Self::after(taken),
    {
        match taken {
            None => TransmitPoll::Pending,
            Some(Err(error)) => TransmitPoll::Ready(Err(error)),
            Some(Ok(Ok(_))) => TransmitPoll::Ready(Ok(())),
            Some(Ok(Err(_))) => TransmitPoll::Ready(Err(SubmitError::StaleGeneration)),
        }
    }
}

/// What an established session means for a prepared open.
#[derive(Clone, Copy, Debug, PartialEq, Eq)]
pub enum Opening {
    /// The route is open.
    Opened,
    /// The queues have to go down again, and this error is reported.
    Withdrawn(RouteError),
    /// No session was established.
    Failed(QueueError),
}

/// Session and transmit owner of one set of queues.
pub struct NativeLink<'storage, const RX: usize, const TX: usize, const MTU: usize> {
    pub port: L2Port<'storage, RX, TX, MTU>,
    pub registration: Registration,
    pub observed_close: Option<u64>,
}

/// Why a frame may not be handed over now, if it may not: its session must be
/// current, and the route must still be open in it.
pub open spec fn withheld<'storage, E, const RX: usize, const MTU: usize>(
    route: CallbackRoute<'storage, RX, MTU>,
    current: bool,
    generation: Generation,
) -> Option<SubmitError<E>> {
    if !current {
        Some(SubmitError::StaleGeneration)
    } else if route.generation == Some(generation) && route.diagnostics.transmits_in_flight
        < usize::MAX {
        None
    } else {
        Some(SubmitError::AdmissionClosed)
    }
}

/// Admit the submission of one frame, if it may be handed over now.
pub fn grant_submission<'storage, E, const RX: usize, const MTU: usize>(
    registration: &Registration,
    route: &mut CallbackRoute<'storage, RX, MTU>,
    current: bool,
    generation: Generation,
) -> (ticket: Result<TransmitTicket, SubmitError<E>>)
    requires
        old(route).wf(),
    ensures
        final(route).wf(),
        match ticket {
            Ok(_) => {
                &&& withheld::<E, RX, MTU>(*old(route), current, generation) is None
                &&& *final(route) == (CallbackRoute {
                    diagnostics: RouteDiagnostics {
                        transmits_in_flight: (old(route).diagnostics.transmits_in_flight
                            + 1) as usize,
                        ..old(route).diagnostics
                    },
                    ..*old(route)
                })
            },
            Err(error) => {
                &&& withheld::<E, RX, MTU>(*old(route), current, generation) == Some(error)
                &&& *final(route) == *old(route)
            },
        },
{
    if !current {
        return Err(SubmitError::StaleGeneration);
    }
    match registration.enter_transmit(route, generation) {
        Some(ticket) => Ok(ticket),
        None => Err(SubmitError::AdmissionClosed),
    }
}

/// What comes of a frame: it is withheld, or `submit` was given it and decided.
pub open spec fn hands_over<
    'storage,
    E,
    F: FnOnce(&[u8]) -> Result<(), E>,
    const RX: usize,
    const MTU: usize,
>(
    route: CallbackRoute<'storage, RX, MTU>,
    current: bool,
    generation: Generation,
    frame: &[u8],
    submit: F,
    result: Result<(), SubmitError<E>>,
) -> bool {
    match withheld::<E, RX, MTU>(route, current, generation) {
        Some(error) => result == Err::<(), SubmitError<E>>(error),
        None => match result {
            Ok(unit) => submit.ensures((frame,), Ok(unit)),
            Err(SubmitError::Native(error)) => submit.ensures((frame,), Err(error)),
            Err(_) => false,
        },
    }
}

/// Hand one frame over, with what its queue tells of its session. `submit` must
/// copy the frame or finish reading it before it returns.
pub fn hand_over<'storage, E, F: FnOnce(&[u8]) -> Result<(), E>, const RX: usize, const MTU: usize>(
    registration: &Registration,
    route: &mut CallbackRoute<'storage, RX, MTU>,
    current: bool,
    generation: Generation,
    frame: &[u8],
    submit: F,
) -> (result: Result<(), SubmitError<E>>)
    requires
        old(route).wf(),
        submit.requires((frame,)),
    ensures
        final(route).wf(),
        *final(route) == *old(route),
        hands_over(*old(route), current, generation, frame, submit, result),
{
    let ticket = match grant_submission(registration, route, current, generation) {
        Ok(ticket) => ticket,
        Err(error) => {
            return Err(error);
        },
    };
    let submitted = submit(frame);
    ticket.finish(route);
    match submitted {
        Ok(unit) => Ok(unit),
        Err(error) => Err(SubmitError::Native(error)),
    }
}

/// What comes of a poll that took `packet`: its own bytes are handed over, under
/// its own session, and its queue is told only of what was handed over.
pub open spec fn transmits<
    'storage,
    'p,
    E,
    F: FnOnce(&[u8]) -> Result<(), E>,
    const RX: usize,
    const TX: usize,
    const MTU: usize,
>(
    route: CallbackRoute<'storage, RX, MTU>,
    packet: TransmitPacket<'p, TX, MTU>,
    submit: F,
    poll: TransmitPoll<E>,
) -> bool {
    exists|
        current: bool,
        generation: Generation,
        frame: &[u8],
        handed: Result<(), SubmitError<E>>,
    |
        #[trigger] packet_tells(packet, current, generation, frame) && frame@.len() <= MTU
            && #[trigger] hands_over(route, current, generation, frame, submit, handed) && (
        match handed {
            Err(error) => poll == TransmitPoll::after(Some(Err(error))),
            Ok(_) => exists|completed: Result<(), QueueError>| #[trigger]
                completion_answers(packet, completed) && poll == TransmitPoll::<E>::after(
                    Some(Ok(completed)),
                ),
        })
}

impl<'storage, const RX: usize, const TX: usize, const MTU: usize> NativeLink<
    'storage,
    RX,
    TX,
    MTU,
> {
    /// Bind a port that is down to the sole callback registration. When the port
    /// cannot go down, the registration is released again.
    pub fn bind(
        port: L2Port<'storage, RX, TX, MTU>,
        route: &mut CallbackRoute<'storage, RX, MTU>,
    ) -> (result: Result<Self, LinkError>)
        requires
            old(route).wf(),
        ensures
            final(route).wf(),
            match result {
                Ok(link) => {
                    &&& old(route).unclaimable() is None
                    &&& final(route).ingress is Some
                    &&& *final(route) == (CallbackRoute {
                        ingress: final(route).ingress,
                        generation: None,
                        ..*old(route)
                    })
                    &&& link.observed_close == old(route).close_revision
                    &&& port_gives(port, final(route).ingress->0)
                    &&& exists|bound: &mut L2Port<'storage, RX, TX, MTU>| #[trigger]
                        down_answers(bound, Ok(())) && *bound == port && *final(bound) == link.port
                },
                Err(LinkError::Route(error)) => {
                    &&& old(route).unclaimable() == Some(error)
                    &&& *final(route) == *old(route)
                },
                Err(LinkError::Queue(error)) => {
                    &&& old(route).unclaimable() is None
                    &&& error is SequenceExhausted
                    &&& exists|bound: &mut L2Port<'storage, RX, TX, MTU>| #[trigger]
                        down_answers(bound, Err(error)) && *bound == port
                    &&& *final(route) == (CallbackRoute {
                        initial: InitialSession::Rejected,
                        ingress: None,
                        ..old(route).closed()
                    })
                },
            },
    {
        let ghost given = port;
        let mut port = port;
        let ingress = answer(port_ingress::<RX, TX, MTU>, &port);
        let registration = match route.claim(ingress) {
            Ok(registration) => registration,
            Err(error) => {
                return Err(LinkError::Route(error));
            },
        };
        let down = answer(port_link_down::<RX, TX, MTU>, &mut port);
        proof {
            let bound = choose|bound: &mut L2Port<'storage, RX, TX, MTU>| #[trigger]
                call_ensures(port_link_down::<RX, TX, MTU>, (bound,), down) && *bound == given
                    && *final(bound) == port;
            assert(down_answers(bound, down));
        }
        match down {
            Ok(unit) => {
                assert(unit == ());
            },
            Err(error) => {
                let _ = registration.release(route);
                return Err(LinkError::Queue(error));
            },
        }
        Ok(NativeLink { port, registration, observed_close: route.close_revision })
    }

    /// Establish a new session, only after the native work of the previous one
    /// has quiesced.
    pub fn begin_after_native_quiescence(
        &mut self,
        route: &mut CallbackRoute<'storage, RX, MTU>,
    ) -> (result: Result<(), LinkError>)
        requires
            old(route).wf(),
            old(route).ingress is Some,
        ensures
            final(route).wf(),
            match Registration::obstacle(*old(route)) {
                Some(error) => result == Err::<(), LinkError>(LinkError::Route(error))
                    && final(self).port == old(self).port,
                None => exists|
                    port: &mut L2Port<'storage, RX, TX, MTU>,
                    begun: Result<Generation, QueueError>,
                |
                    #[trigger] session_answers(port, begun) && *port == old(self).port && *final(port) == final(self).port && (match begun {
                        Ok(generation) => result is Ok && final(route).generation == Some(
                            generation,
                        ),
                        Err(cause) => result == Err::<(), LinkError>(LinkError::Queue(cause)),
                    }),
            },
            match result {
                Ok(_) => {
                    &&& Registration::obstacle(*old(route)) is None
                    &&& final(route).generation is Some
                    &&& *final(route) == (CallbackRoute {
                        generation: final(route).generation,
                        ..*old(route)
                    })
                    &&& final(self).observed_close == old(route).close_revision
                },
                Err(error) => {
                    &&& *final(route) == *old(route)
                    &&& final(self).observed_close == old(self).observed_close
                    &&& error matches LinkError::Route(cause) ==> Registration::obstacle(
                        *old(route),
                    ) == Some(cause)
                    &&& error matches LinkError::Queue(cause) ==> Registration::obstacle(
                        *old(route),
                    ) is None && cause is SequenceExhausted
                },
            },
    {
        match self.registration.prepare_open(route) {
            Ok(intent) => self.begin(route, intent),
            Err(error) => Err(LinkError::Route(error)),
        }
    }

    /// Establish the one session of a bring-up. Any failure closes the route, and
    /// there is no second attempt.
    pub fn begin_initial_session_experiment(
        &mut self,
        route: &mut CallbackRoute<'storage, RX, MTU>,
        id: OperationId,
    ) -> (result: Result<(), LinkError>)
        requires
            old(route).wf(),
            old(route).ingress is Some,
        ensures
            final(route).wf(),
            Registration::obstacle(*old(route)) is None && old(route).initial
                == InitialSession::Associated(id) ==> exists|
                port: &mut L2Port<'storage, RX, TX, MTU>,
                begun: Result<Generation, QueueError>,
            |
                #[trigger] session_answers(port, begun) && *port == old(self).port && (match begun {
                    Ok(generation) => result is Ok && final(route).generation == Some(generation)
                        && *final(port) == final(self).port,
                    Err(cause) => result == Err::<(), LinkError>(LinkError::Queue(cause)),
                }),
            match result {
                Ok(_) => {
                    &&& Registration::obstacle(*old(route)) is None
                    &&& old(route).initial == InitialSession::Associated(id)
                    &&& final(route).generation is Some
                    &&& *final(route) == (CallbackRoute {
                        generation: final(route).generation,
                        initial: InitialSession::Opened,
                        ..*old(route)
                    })
                    &&& final(self).observed_close == old(route).close_revision
                },
                Err(error) => {
                    &&& *final(route) == (CallbackRoute {
                        initial: InitialSession::Rejected,
                        ..old(route).closed()
                    })
                    &&& final(self).observed_close == final(route).close_revision
                    &&& error matches LinkError::Route(cause) ==> Registration::obstacle(
                        *old(route),
                    ) == Some(cause) || (Registration::obstacle(*old(route)) is None && old(
                        route).initial != InitialSession::Associated(id)
                        && cause is InitialSessionRejected)
                    &&& error matches LinkError::Queue(cause) ==> Registration::obstacle(
                        *old(route),
                    ) is None && old(route).initial == InitialSession::Associated(id)
                        && cause is SequenceExhausted
                    &&& error is Route ==> exists|
                        port: &mut L2Port<'storage, RX, TX, MTU>,
                        down: Result<(), QueueError>,
                    |
                        #[trigger] down_answers(port, down) && *port == old(self).port && *final(port) == final(self).port
                    &&& error matches LinkError::Queue(cause) ==> exists|
                        first: &mut L2Port<'storage, RX, TX, MTU>,
                        port: &mut L2Port<'storage, RX, TX, MTU>,
                        down: Result<(), QueueError>,
                    |
                        #[trigger] session_answers(first, Err(cause)) && *first == old(self).port && #[trigger] down_answers(port, down) && *port == *final(first) && *final(port) == final(self).port
                },
            },
    {
        let result = match self.registration.prepare_initial_open(route, id) {
            Ok(intent) => self.begin(route, intent),
            Err(error) => Err(LinkError::Route(error)),
        };
        if result.is_err() {
            let _ = self.close(route);
        }
        result
    }

    fn begin(&mut self, route: &mut CallbackRoute<'storage, RX, MTU>, intent: OpenIntent) -> (result:
        Result<(), LinkError>)
        requires
            old(route).wf(),
            old(route).ingress is Some,
        ensures
            final(route).wf(),
            exists|port: &mut L2Port<'storage, RX, TX, MTU>, begun: Result<Generation, QueueError>|
                #[trigger]
                session_answers(port, begun) && *port == old(self).port && (Registration::refusal(
                    *old(route),
                    intent,
                ) is None ==> *final(port) == final(self).port && (match begun {
                    Ok(generation) => result is Ok && final(route).generation == Some(generation),
                    Err(cause) => result == Err::<(), LinkError>(LinkError::Queue(cause)),
                })),
            match result {
                Ok(_) => {
                    &&& Registration::refusal(*old(route), intent) is None
                    &&& final(route).generation is Some
                    &&& *final(route) == (CallbackRoute {
                        generation: final(route).generation,
                        initial: if intent.initial_operation is Some {
                            InitialSession::Opened
                        } else {
                            old(route).initial
                        },
                        ..*old(route)
                    })
                    &&& final(self).observed_close == Some(intent.close_revision)
                },
                Err(error) => {
                    &&& *final(route) == *old(route)
                    &&& final(self).observed_close == old(self).observed_close
                    &&& error matches LinkError::Route(cause) ==> Registration::refusal(
                        *old(route),
                        intent,
                    ) == Some(cause)
                    &&& error matches LinkError::Queue(cause) ==> cause is SequenceExhausted
                },
            },
    {
        let begun = self.start_session();
        let opening = self.publish(route, intent, begun);
        self.conclude(opening)
    }

    /// Start a session of the queues. Their wakers run here, so that no part of
    /// the route is needed.
    pub fn start_session(&mut self) -> (begun: Result<Generation, QueueError>)
        ensures
            final(self).observed_close == old(self).observed_close,
            exists|port: &mut L2Port<'storage, RX, TX, MTU>| #[trigger]
                session_answers(port, begun) && *port == old(self).port && *final(port)
                    == final(self).port,
            begun matches Err(error) ==> error is SequenceExhausted,
    {
        let begun = answer(port_begin_session::<RX, TX, MTU>, &mut self.port);
        proof {
            let port = choose|port: &mut L2Port<'storage, RX, TX, MTU>| #[trigger]
                call_ensures(port_begin_session::<RX, TX, MTU>, (port,), begun) && *port == old(self).port
                    && *final(port) == self.port;
            assert(session_answers(port, begun));
        }
        begun
    }

    /// Publish a started session, unless the open was interrupted meanwhile.
    pub fn publish(
        &mut self,
        route: &mut CallbackRoute<'storage, RX, MTU>,
        intent: OpenIntent,
        begun: Result<Generation, QueueError>,
    ) -> (opening: Opening)
        requires
            old(route).wf(),
            old(route).ingress is Some,
        ensures
            final(route).wf(),
            final(self).port == old(self).port,
            final(self).observed_close == (if opening is Opened {
                Some(intent.close_revision)
            } else {
                old(self).observed_close
            }),
            match begun {
                Err(error) => opening == Opening::Failed(error) && *final(route) == *old(route),
                Ok(generation) => match Registration::refusal(*old(route), intent) {
                    Some(error) => opening == Opening::Withdrawn(error) && *final(route) == *old(
                        route,
                    ),
                    None => opening == Opening::Opened && *final(route) == (CallbackRoute {
                        generation: Some(generation),
                        initial: if intent.initial_operation is Some {
                            InitialSession::Opened
                        } else {
                            old(route).initial
                        },
                        ..*old(route)
                    }),
                },
            },
    {
        match begun {
            Err(error) => Opening::Failed(error),
            Ok(generation) => match self.registration.commit_open(route, intent, generation) {
                Ok(_) => {
                    self.observed_close = Some(intent.close_revision);
                    Opening::Opened
                },
                Err(error) => Opening::Withdrawn(error),
            },
        }
    }

    /// Take a session down again that could not be published.
    pub fn conclude(&mut self, opening: Opening) -> (result: Result<(), LinkError>)
        ensures
            final(self).observed_close == old(self).observed_close,
            match opening {
                Opening::Opened => result is Ok && final(self).port == old(self).port,
                Opening::Failed(error) => result == Err::<(), LinkError>(LinkError::Queue(error))
                    && final(self).port == old(self).port,
                Opening::Withdrawn(error) => exists|
                    port: &mut L2Port<'storage, RX, TX, MTU>,
                    down: Result<(), QueueError>,
                |
                    #[trigger] down_answers(port, down) && *port == old(self).port && *final(port)
                        == final(self).port && result == Err::<(), LinkError>(
                        match down {
                            Ok(_) => LinkError::Route(error),
                            Err(cause) => LinkError::Queue(cause),
                        },
                    ),
            },
            result matches Err(LinkError::Queue(cause)) ==> cause is SequenceExhausted || opening
                == Opening::Failed(cause),
    {
        match opening {
            Opening::Opened => Ok(()),
            Opening::Withdrawn(error) => match self.take_down() {
                Ok(_) => Err(LinkError::Route(error)),
                Err(cause) => Err(LinkError::Queue(cause)),
            },
            Opening::Failed(error) => Err(LinkError::Queue(error)),
        }
    }

    /// Take the queues down. Their wakers run here, so that no part of the route
    /// is needed.
    pub fn take_down(&mut self) -> (down: Result<(), QueueError>)
        ensures
            final(self).observed_close == old(self).observed_close,
            exists|port: &mut L2Port<'storage, RX, TX, MTU>| #[trigger]
                down_answers(port, down) && *port == old(self).port && *final(port)
                    == final(self).port,
            down matches Err(error) ==> error is SequenceExhausted,
    {
        let down = answer(port_link_down::<RX, TX, MTU>, &mut self.port);
        proof {
            let port = choose|port: &mut L2Port<'storage, RX, TX, MTU>| #[trigger]
                call_ensures(port_link_down::<RX, TX, MTU>, (port,), down) && *port == old(self).port
                    && *final(port) == self.port;
            assert(down_answers(port, down));
        }
        down
    }

    /// Register the worker, and tell whether the route was closed since the last
    /// look.
    pub fn notice_close(&mut self, route: &mut CallbackRoute<'storage, RX, MTU>) -> (closed: bool)
        ensures
            *final(route) == (CallbackRoute { close_subscribed: true, ..*old(route) }),
            final(self).port == old(self).port,
            final(self).observed_close == old(route).close_revision,
            closed <==> old(self).observed_close != old(route).close_revision,
    {
        let revision = self.registration.subscribe_close(route);
        let unchanged = match (revision, self.observed_close) {
            (Some(now), Some(seen)) => now == seen,
            (None, None) => true,
            _ => false,
        };
        self.observed_close = revision;
        !unchanged
    }

    /// Close the callback side only. Tells whether a waiting worker has to be
    /// woken.
    pub fn shut(&mut self, route: &mut CallbackRoute<'storage, RX, MTU>) -> (wake: bool)
        requires
            old(route).wf(),
        ensures
            final(route).wf(),
            *final(route) == (CallbackRoute {
                initial: InitialSession::Rejected,
                ..old(route).closed()
            }),
            final(self).port == old(self).port,
            final(self).observed_close == final(route).close_revision,
            wake == old(route).close_subscribed,
    {
        let wake = self.registration.close(route);
        self.observed_close = route.close_revision;
        wake
    }

    /// Register the worker, and take the queues down when the route was closed
    /// since the last look. Never reopens anything.
    pub fn poll_native_close(&mut self, route: &mut CallbackRoute<'storage, RX, MTU>) -> (result:
        Result<bool, QueueError>)
        ensures
            *final(route) == (CallbackRoute { close_subscribed: true, ..*old(route) }),
            final(self).observed_close == old(route).close_revision,
            old(self).observed_close == old(route).close_revision ==> result == Ok::<
                bool,
                QueueError,
            >(false) && final(self).port == old(self).port,
            old(self).observed_close != old(route).close_revision ==> exists|
                port: &mut L2Port<'storage, RX, TX, MTU>,
                down: Result<(), QueueError>,
            |
                #[trigger] down_answers(port, down) && *port == old(self).port && *final(port)
                    == final(self).port && result == (match down {
                    Ok(_) => Ok::<bool, QueueError>(true),
                    Err(error) => Err(error),
                }),
            result matches Err(error) ==> error is SequenceExhausted,
    {
        if !self.notice_close(route) {
            return Ok(false);
        }
        match self.take_down() {
            Ok(_) => Ok(true),
            Err(error) => Err(error),
        }
    }

    /// Close the callback side first, then take the queues down. A worker that
    /// waited for the close has to be woken.
    pub fn close(&mut self, route: &mut CallbackRoute<'storage, RX, MTU>) -> (result: Result<
        (),
        QueueError,
    >)
        requires
            old(route).wf(),
        ensures
            final(route).wf(),
            *final(route) == (CallbackRoute {
                initial: InitialSession::Rejected,
                ..old(route).closed()
            }),
            final(self).observed_close == final(route).close_revision,
            exists|port: &mut L2Port<'storage, RX, TX, MTU>| #[trigger]
                down_answers(port, result) && *port == old(self).port && *final(port)
                    == final(self).port,
            result matches Err(error) ==> error is SequenceExhausted,
    {
        let _ = self.shut(route);
        self.take_down()
    }

    /// Hand over at most one frame, if one is queued. `submit` must copy the frame
    /// or finish reading it before it returns; its success is no delivery over the
    /// air. A frame whose session ends while it is handed over counts as stale.
    pub fn poll_transmit<E, F: FnOnce(&[u8]) -> Result<(), E>>(
        &mut self,
        route: &mut CallbackRoute<'storage, RX, MTU>,
        cx: &mut Context<'_>,
        submit: F,
    ) -> (poll: TransmitPoll<E>)
        requires
            old(route).wf(),
            forall|frame: &[u8]| frame@.len() <= MTU ==> #[trigger] submit.requires((frame,)),
        ensures
            final(route).wf(),
            *final(route) == *old(route),
            *final(self) == *old(self),
            exists|worker: &mut Context<'_>, taken: Option<TransmitPacket<'_, TX, MTU>>| #[trigger]
                transmit_answers(&old(self).port, worker, taken) && *worker == *old(cx)
                    && *final(worker) == *final(cx) && (match taken {
                    Some(packet) => transmits(*old(route), packet, submit, poll),
                    None => poll == TransmitPoll::<E>::after(None),
                }),
    {
        let taken = answer_to_both(port_transmit::<RX, TX, MTU>, &self.port, cx);
        proof {
            let worker = choose|worker: &mut Context<'_>| #[trigger]
                call_ensures(port_transmit::<RX, TX, MTU>, (&old(self).port, worker), taken)
                    && *worker == *old(cx) && *final(worker) == *final(cx);
            assert(transmit_answers(&old(self).port, worker, taken));
        }
        let packet = match taken {
            Some(packet) => packet,
            None => {
                return TransmitPoll::of(None);
            },
        };
        let current = answer(packet_is_current::<TX, MTU>, &packet);
        let generation = answer(packet_generation::<TX, MTU>, &packet);
        let frame = answer(packet_frame::<TX, MTU>, &packet);
        let handed = hand_over(&self.registration, route, current, generation, frame, submit);
        proof {
            assert(packet_tells(packet, current, generation, frame));
            assert(hands_over(*old(route), current, generation, frame, submit, handed));
        }
        match handed {
            Err(error) => TransmitPoll::of(Some(Err(error))),
            Ok(_) => {
                let completed = answer(packet_complete::<TX, MTU>, packet);
                assert(completion_answers(packet, completed));
                TransmitPoll::of(Some(Ok(completed)))
            },
        }
    }

    pub fn rx_diagnostics(&self) -> (counts: QueueDiagnostics)
        ensures
            counts.accepted == counts.delivered + counts.dropped + counts.pending,
            counts.pending + counts.reserved <= RX,
            rx_counts(self.port, counts),
    {
        answer(port_rx_diagnostics::<RX, TX, MTU>, &self.port)
    }

    pub fn tx_diagnostics(&self) -> (counts: QueueDiagnostics)
        ensures
            counts.accepted == counts.delivered + counts.dropped + counts.pending,
            counts.pending + counts.reserved <= TX,
            tx_counts(self.port, counts),
    {
        answer(port_tx_diagnostics::<RX, TX, MTU>, &self.port)
    }

    /// Give the link up: the route closes and the queues go down. A worker that
    /// waited for the close has to be woken.
    pub fn release(self, route: &mut CallbackRoute<'storage, RX, MTU>) -> (result: Result<
        (),
        QueueError,
    >)
        requires
            old(route).wf(),
        ensures
            final(route).wf(),
            *final(route) == (CallbackRoute {
                initial: InitialSession::Rejected,
                ingress: None,
                ..old(route).closed().closed()
            }),
            exists|port: &mut L2Port<'storage, RX, TX, MTU>| #[trigger]
                down_answers(port, result) && *port == self.port,
            result matches Err(error) ==> error is SequenceExhausted,
    {
        let mut link = self;
        let result = link.close(route);
        let _ = link.registration.release(route);
        result
    }
}

/// A closed route hands over nothing: no submission can be granted, whatever the
/// session of the frame is.
pub proof fn law_closed_route_transmits_nothing<'storage, const RX: usize, const MTU: usize>(
    route: CallbackRoute<'storage, RX, MTU>,
    current: bool,
    generation: Generation,
)
    ensures
        withheld::<(), RX, MTU>(route.closed(), current, generation) is Some,
{
}

/// A frame is handed over exactly while its session is current and the route is open in
/// it. A frame of an ended session is stale, and any other that is withheld found the
/// route closed.
pub proof fn law_frame_is_handed_over_in_its_session<
    'storage,
    E,
    const RX: usize,
    const MTU: usize,
>(registration: Registration, current: bool, generation: Generation)
    ensures
        forall|
            route: &mut CallbackRoute<'storage, RX, MTU>,
            ticket: Result<TransmitTicket, SubmitError<E>>,
        |
            (*route).wf() && (*route).diagnostics.transmits_in_flight < usize::MAX && #[trigger]
                call_ensures(
                grant_submission::<E, RX, MTU>,
                (&registration, route, current, generation),
                ticket,
            ) ==> {
                &&& ticket is Ok <==> current && (*route).generation == Some(generation)
                &&& ticket matches Err(error) ==> (error is StaleGeneration <==> !current) && (
                error is AdmissionClosed <==> current)
                &&& (*final(route)).diagnostics.transmits_in_flight
                    - (*route).diagnostics.transmits_in_flight == (if ticket is Ok {
                    1int
                } else {
                    0
                })
            },
{
}

/// What a worker tells of a frame: that there was none, that it was handed over and its
/// queue took the completion, or why not. A completion that the queue refused means that
/// the session has ended.
pub proof fn law_worker_tells_what_came_of_a_frame<E>(
    taken: Option<Result<Result<(), QueueError>, SubmitError<E>>>,
    poll: TransmitPoll<E>,
)
    requires
        call_ensures(TransmitPoll::<E>::of, (taken,), poll),
    ensures
        poll is Pending <==> taken is None,
        poll is Ready && poll->Ready_0 is Ok <==> taken is Some && taken->0 is Ok
            && taken->0->Ok_0 is Ok,
        taken is Some && taken->0 is Err ==> poll->Ready_0 == Err::<(), SubmitError<E>>(
            taken->0->Err_0,
        ),
        taken is Some && taken->0 is Ok && taken->0->Ok_0 is Err ==> poll->Ready_0 is Err
            && poll->Ready_0->Err_0 is StaleGeneration,
{
}

/// A frame is handed over as it is, to the one that was asked to take it, whose failure
/// comes back; the route is left as it was found.
pub proof fn law_submission_decides_on_the_frame<
    'storage,
    E,
    F: FnOnce(&[u8]) -> Result<(), E>,
    const RX: usize,
    const MTU: usize,
>(
    registration: Registration,
    current: bool,
    generation: Generation,
    frame: &[u8],
    submit: F,
)
    requires
        submit.requires((frame,)),
    ensures
        forall|route: &mut CallbackRoute<'storage, RX, MTU>, result: Result<(), SubmitError<E>>|
            (*route).wf() && (*route).diagnostics.transmits_in_flight < usize::MAX && #[trigger]
                call_ensures(
                hand_over::<E, F, RX, MTU>,
                (&registration, route, current, generation, frame, submit),
                result,
            ) ==> {
                let open = current && (*route).generation == Some(generation);
                &&& result is Ok ==> open && submit.ensures((frame,), Ok(result->Ok_0))
                &&& result matches Err(SubmitError::Native(error)) ==> open && submit.ensures(
                    (frame,),
                    Err(error),
                )
                &&& !open ==> result is Err && (result->Err_0 is StaleGeneration <==> !current) && (
                result->Err_0 is AdmissionClosed <==> current)
                &&& open ==> result is Ok || result->Err_0 is Native
                &&& *final(route) == *route
            },
{
}

/// A session that could not be started is told as the queues told it; one that was
/// started is published where nothing disturbed it, and is otherwise withdrawn for the
/// reason of the refusal. The route is open only in a session that was published.
pub proof fn law_started_session_is_published_or_withdrawn<
    'storage,
    const RX: usize,
    const TX: usize,
    const MTU: usize,
>(intent: OpenIntent, begun: Result<Generation, QueueError>)
    ensures
        forall|
            link: &mut NativeLink<'storage, RX, TX, MTU>,
            route: &mut CallbackRoute<'storage, RX, MTU>,
            opening: Opening,
        |
            (*route).wf() && (*route).ingress is Some && #[trigger] call_ensures(
                NativeLink::<'storage, RX, TX, MTU>::publish,
                (link, route, intent, begun),
                opening,
            ) ==> {
                let before = *route;
                let free = before.close_revision == Some(intent.close_revision)
                    && before.host_deliveries.entered == intent.host_delivery_revision
                    && !before.host_deliveries.exhausted && before.generation is None
                    && before.diagnostics.in_flight == 0 && before.diagnostics.transmits_in_flight
                    == 0 && before.host_deliveries.in_flight == 0 && (intent.initial_operation is None
                    || before.initial == InitialSession::Associated(intent.initial_operation->0));
                &&& opening is Failed <==> begun is Err
                &&& begun matches Err(error) ==> opening == Opening::Failed(error)
                &&& opening is Opened <==> begun is Ok && free
                &&& opening is Opened ==> (*final(route)).generation == Some(begun->Ok_0)
                    && (*final(link)).observed_close == before.close_revision
                &&& !(opening is Opened) ==> *final(route) == before
                    && (*final(link)).observed_close == (*link).observed_close
                &&& (*final(link)).port == (*link).port
            },
{
}

/// A link notices a close exactly once: when the revision of the route is another one
/// than at its last look.
pub proof fn law_close_is_noticed_once<
    'storage,
    const RX: usize,
    const TX: usize,
    const MTU: usize,
>()
    ensures
        forall|
            link: &mut NativeLink<'storage, RX, TX, MTU>,
            route: &mut CallbackRoute<'storage, RX, MTU>,
            closed: bool,
        | #[trigger]
            call_ensures(
                NativeLink::<'storage, RX, TX, MTU>::notice_close,
                (link, route),
                closed,
            ) ==> {
                &&& closed <==> (*link).observed_close != (*route).close_revision
                &&& (*final(link)).observed_close == (*final(route)).close_revision
                &&& (*final(route)).close_revision == (*route).close_revision
                &&& (*final(route)).close_subscribed
                &&& (*final(route)).generation == (*route).generation
            },
        forall|
            link: &mut NativeLink<'storage, RX, TX, MTU>,
            route: &mut CallbackRoute<'storage, RX, MTU>,
            result: Result<bool, QueueError>,
        | #[trigger]
            call_ensures(
                NativeLink::<'storage, RX, TX, MTU>::poll_native_close,
                (link, route),
                result,
            ) ==> {
                &&& result == Ok::<bool, QueueError>(false) ==> (*link).observed_close
                    == (*route).close_revision && (*final(link)).port == (*link).port
                &&& (*link).observed_close == (*route).close_revision ==> result == Ok::<
                    bool,
                    QueueError,
                >(false)
                &&& (*final(link)).observed_close == (*route).close_revision
                &&& (*final(route)).generation == (*route).generation
                &&& result matches Err(error) ==> error is SequenceExhausted
            },
        forall|
            link: &mut NativeLink<'storage, RX, TX, MTU>,
            route: &mut CallbackRoute<'storage, RX, MTU>,
            wake: bool,
        |
            (*route).wf() && #[trigger] call_ensures(
                NativeLink::<'storage, RX, TX, MTU>::shut,
                (link, route),
                wake,
            ) ==> {
                &&& (*final(route)).generation is None
                &&& (*final(route)).initial is Rejected
                &&& (*final(link)).observed_close == (*final(route)).close_revision
                &&& wake == (*route).close_subscribed
            },
{
}

/// A link is bound exactly to a route that nobody holds and that has drained, and leaves it
/// closed; a port that cannot go down gives the route back.
pub proof fn law_link_is_bound_to_a_free_route<
    'storage,
    const RX: usize,
    const TX: usize,
    const MTU: usize,
>(port: L2Port<'storage, RX, TX, MTU>)
    ensures
        forall|
            route: &mut CallbackRoute<'storage, RX, MTU>,
            result: Result<NativeLink<'storage, RX, TX, MTU>, LinkError>,
        |
            (*route).wf() && #[trigger] call_ensures(
                NativeLink::<'storage, RX, TX, MTU>::bind,
                (port, route),
                result,
            ) ==> {
                let before = *route;
                let after = *final(route);
                let free = before.ingress is None && before.diagnostics.in_flight == 0
                    && before.diagnostics.transmits_in_flight == 0 && before.close_revision is Some;
                &&& result is Ok ==> free && after.ingress is Some && after.generation is None
                    && result->Ok_0.observed_close == after.close_revision
                &&& !free ==> result is Err && result->Err_0 is Route && after == before
                &&& free && result is Err ==> result->Err_0 is Queue && after.ingress is None
                    && after.generation is None && after.initial is Rejected
            },
{
}

/// A session is begun exactly on a route that is closed and has drained, and with a new
/// identity of the queues; the route is then open in it.
pub proof fn law_session_is_begun_after_quiescence<
    'storage,
    const RX: usize,
    const TX: usize,
    const MTU: usize,
>()
    ensures
        forall|
            link: &mut NativeLink<'storage, RX, TX, MTU>,
            route: &mut CallbackRoute<'storage, RX, MTU>,
            result: Result<(), LinkError>,
        |
            (*route).wf() && (*route).ingress is Some && #[trigger] call_ensures(
                NativeLink::<'storage, RX, TX, MTU>::begin_after_native_quiescence,
                (link, route),
                result,
            ) ==> {
                let before = *route;
                let after = *final(route);
                let quiet = before.generation is None && before.diagnostics.in_flight == 0
                    && before.diagnostics.transmits_in_flight == 0
                    && before.host_deliveries.in_flight == 0 && !before.host_deliveries.exhausted
                    && before.close_revision is Some;
                &&& !quiet ==> result is Err && result->Err_0 is Route
                &&& quiet && result is Err ==> result->Err_0 == LinkError::Queue(
                    QueueError::SequenceExhausted,
                )
                &&& result is Ok ==> quiet && after.generation is Some && after.initial
                    == before.initial && (*final(link)).observed_close == before.close_revision
                &&& result is Err ==> after == before
            },
        forall|
            link: &mut NativeLink<'storage, RX, TX, MTU>,
            route: &mut CallbackRoute<'storage, RX, MTU>,
            id: OperationId,
            result: Result<(), LinkError>,
        |
            (*route).wf() && (*route).ingress is Some && #[trigger] call_ensures(
                NativeLink::<'storage, RX, TX, MTU>::begin_initial_session_experiment,
                (link, route, id),
                result,
            ) ==> {
                let before = *route;
                let after = *final(route);
                &&& result is Ok ==> before.initial == InitialSession::Associated(id)
                    && before.generation is None && after.generation is Some
                    && after.initial is Opened
                &&& result is Err ==> after.generation is None && after.initial is Rejected
                    && (*final(link)).observed_close == after.close_revision
                &&& before.initial != InitialSession::Associated(id) ==> result is Err
            },
{
}

/// An opening that was published is kept, one that failed is told as the queues told it,
/// and one that was withdrawn takes the queues down and is told for its own reason, unless
/// they cannot go down.
pub proof fn law_withdrawn_session_is_taken_down<
    'storage,
    const RX: usize,
    const TX: usize,
    const MTU: usize,
>(opening: Opening)
    ensures
        forall|link: &mut NativeLink<'storage, RX, TX, MTU>, result: Result<(), LinkError>| #[trigger]
            call_ensures(
                NativeLink::<'storage, RX, TX, MTU>::conclude,
                (link, opening),
                result,
            ) ==> {
                &&& result is Ok <==> opening is Opened
                &&& opening matches Opening::Failed(error) ==> result == Err::<(), LinkError>(
                    LinkError::Queue(error),
                )
                &&& opening matches Opening::Withdrawn(error) ==> result == Err::<(), LinkError>(
                    LinkError::Route(error),
                ) || result == Err::<(), LinkError>(
                    LinkError::Queue(QueueError::SequenceExhausted),
                )
                &&& !(opening is Withdrawn) ==> (*final(link)).port == (*link).port
                &&& (*final(link)).observed_close == (*link).observed_close
            },
{
}

} // verus!
