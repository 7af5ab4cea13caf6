//! What the claims, entries and sessions of a callback route do, call by call.

use crate::netif_l2::initial_session::InitialSession;
use crate::netif_l2::{
    AllocationEpoch, CallbackRoute, CallbackTicket, OpenIntent, QueueError, Registration,
    RouteError, TransmitTicket,
};
use hisi_rf_core::l2::{Generation, L2Ingress};
use hisi_rf_core::OperationId;
use vstd::prelude::*;

verus! {

/// A route is claimed exactly when nobody holds it, no callback or submission is
/// outstanding and its revisions are not used up; it then belongs to the given
/// queue and is closed. A refusal names the first of these and changes nothing.
pub proof fn law_route_is_claimed_exclusively<'storage, const RX: usize, const MTU: usize>(
    ingress: L2Ingress<'storage, RX, MTU>,
)
    ensures
        forall|
            route: &mut CallbackRoute<'storage, RX, MTU>,
            result: Result<Registration, RouteError>,
        |
            (*route).wf() && #[trigger] call_ensures(
                CallbackRoute::<'storage, RX, MTU>::claim,
                (route, ingress),
                result,
            ) ==> {
                let before = *route;
                let after = *final(route);
                let busy = before.diagnostics.in_flight > 0 || before.diagnostics.transmits_in_flight
                    > 0;
                &&& result is Ok <==> before.ingress is None && !busy && before.close_revision is Some
                &&& result is Ok ==> after.ingress == Some(ingress) && after.generation is None
                    && after.close_revision == before.close_revision
                &&& result matches Err(error) ==> after == before && {
                    &&& error is AlreadyRegistered <==> before.ingress is Some
                    &&& error is CallbacksInFlight <==> before.ingress is None && busy
                    &&& error is LifecycleExhausted <==> before.ingress is None && !busy
                }
            },
{
}

/// Every callback is counted as entered. It is admitted exactly while the route is
/// open, in the connection that is open then, and is in flight from there on;
/// otherwise it is dropped because the route was closed.
pub proof fn law_callback_is_admitted_while_open<'storage, const RX: usize, const MTU: usize>()
    ensures
        forall|
            route: &mut CallbackRoute<'storage, RX, MTU>,
            ticket: Option<CallbackTicket<'storage, RX, MTU>>,
        |
            (*route).wf() && (*route).diagnostics.entered < u64::MAX && (*route).diagnostics.in_flight
                < usize::MAX && #[trigger] call_ensures(
                CallbackRoute::<'storage, RX, MTU>::enter,
                (route,),
                ticket,
            ) ==> {
                let before = (*route).diagnostics;
                let after = (*final(route)).diagnostics;
                &&& after.entered == before.entered + 1
                &&& ticket is Some <==> (*route).generation is Some
                &&& ticket is Some ==> ticket->0.generation == (*route).generation->0
                    && ticket->0.ingress == (*route).ingress->0 && after.in_flight
                    == before.in_flight + 1 && after.dropped == before.dropped
                &&& ticket is None ==> after.dropped == before.dropped + 1 && after.closed_drops
                    == before.closed_drops + 1 && after.in_flight == before.in_flight
                &&& after.allocation_drops == before.allocation_drops && after.abandoned
                    == before.abandoned && after.queued == before.queued
                &&& (*final(route)).generation == (*route).generation
                    && (*final(route)).close_revision == (*route).close_revision
            },
{
}

/// A callback with a buffer of known provenance is admitted exactly in the connection
/// that the buffer was allocated in. A buffer of another one is dropped for that
/// reason.
pub proof fn law_buffer_must_belong_to_the_connection<
    'storage,
    const RX: usize,
    const MTU: usize,
>(epoch: AllocationEpoch)
    ensures
        forall|
            route: &mut CallbackRoute<'storage, RX, MTU>,
            ticket: Option<CallbackTicket<'storage, RX, MTU>>,
        |
            (*route).wf() && (*route).diagnostics.entered < u64::MAX && (*route).diagnostics.in_flight
                < usize::MAX && #[trigger] call_ensures(
                CallbackRoute::<'storage, RX, MTU>::enter_allocated,
                (route, epoch),
                ticket,
            ) ==> {
                let before = (*route).diagnostics;
                let after = (*final(route)).diagnostics;
                let own = epoch.revision is Some && epoch.revision == (*route).close_revision;
                &&& after.entered == before.entered + 1
                &&& ticket is Some <==> own && (*route).generation is Some
                &&& ticket is Some ==> ticket->0.generation == (*route).generation->0
                    && after.in_flight == before.in_flight + 1
                &&& ticket is None ==> after.dropped == before.dropped + 1 && after.in_flight
                    == before.in_flight
                &&& after.allocation_drops - before.allocation_drops == (if own {
                    0int
                } else {
                    1
                })
                &&& after.closed_drops - before.closed_drops == (if own && (*route).generation is None {
                    1int
                } else {
                    0
                })
            },
{
}

/// A buffer gets the provenance of the open connection, and none while there is none.
pub proof fn law_provenance_is_that_of_the_connection<
    'storage,
    const RX: usize,
    const MTU: usize,
>(route: CallbackRoute<'storage, RX, MTU>, epoch: AllocationEpoch)
    requires
        route.wf(),
        call_ensures(CallbackRoute::<'storage, RX, MTU>::allocation_epoch, (&route,), epoch),
    ensures
        route.generation is Some ==> epoch.revision == route.close_revision,
        route.generation is None ==> epoch.revision is None,
{
}

/// A close takes the connection away, moves on to the next revision, ends the initial
/// session, and wakes the worker that waits for it once. It leaves every count alone.
/// A release gives the queue up as well.
pub proof fn law_close_ends_the_connection<'storage, const RX: usize, const MTU: usize>()
    ensures
        forall|route: &mut CallbackRoute<'storage, RX, MTU>, wake: bool|
            (*route).wf() && #[trigger] call_ensures(
                CallbackRoute::<'storage, RX, MTU>::close_admission,
                (route,),
                wake,
            ) ==> is_closed(*route, *final(route), wake) && (*final(route)).initial is Rejected
                && (*final(route)).ingress == (*route).ingress,
        forall|
            registration: &mut Registration,
            route: &mut CallbackRoute<'storage, RX, MTU>,
            wake: bool,
        |
            (*route).wf() && #[trigger] call_ensures(
                Registration::close::<RX, MTU>,
                (registration, route),
                wake,
            ) ==> is_closed(*route, *final(route), wake) && (*final(route)).initial is Rejected
                && (*final(route)).ingress == (*route).ingress,
        forall|
            registration: Registration,
            route: &mut CallbackRoute<'storage, RX, MTU>,
            wake: bool,
        |
            (*route).wf() && #[trigger] call_ensures(
                Registration::release::<RX, MTU>,
                (registration, route),
                wake,
            ) ==> is_closed(*route, *final(route), wake) && (*final(route)).initial is Rejected
                && (*final(route)).ingress is None,
        forall|route: &mut CallbackRoute<'storage, RX, MTU>, success: bool, wake: bool|
            (*route).wf() && #[trigger] call_ensures(
                CallbackRoute::<'storage, RX, MTU>::initial_association_result,
                (route, success),
                wake,
            ) ==> is_closed(*route, *final(route), wake) && (*final(route)).ingress
                == (*route).ingress,
{
}

/// `after` is `before` with its connection ended.
pub open spec fn is_closed<'storage, const RX: usize, const MTU: usize>(
    before: CallbackRoute<'storage, RX, MTU>,
    after: CallbackRoute<'storage, RX, MTU>,
    wake: bool,
) -> bool {
    &&& after.generation is None
    &&& before.close_revision matches Some(number) ==> (number < u64::MAX ==> after.close_revision
        is Some && after.close_revision->0 == number + 1) && (number == u64::MAX
        ==> after.close_revision is None)
    &&& before.close_revision is None ==> after.close_revision is None
    &&& wake == before.close_subscribed
    &&& !after.close_subscribed
    &&& after.diagnostics == before.diagnostics
    &&& after.host_deliveries == before.host_deliveries
}

/// A route can be opened exactly when it is closed, everything of the last connection
/// has drained, and neither its revisions nor the counts of native calls are used up.
/// What is prepared remembers the revision and the native calls that were seen. The
/// initial session needs its association as well, and an ordinary one does not.
pub proof fn law_route_is_opened_after_it_drained<'storage, const RX: usize, const MTU: usize>(
    registration: Registration,
    route: CallbackRoute<'storage, RX, MTU>,
    id: OperationId,
    ordinary: Result<OpenIntent, RouteError>,
    initial: Result<OpenIntent, RouteError>,
)
    requires
        call_ensures(
            Registration::prepare_open::<RX, MTU>,
            (&registration, &route),
            ordinary,
        ),
        call_ensures(
            Registration::prepare_initial_open::<RX, MTU>,
            (&registration, &route, id),
            initial,
        ),
    ensures
        ({
            let outstanding = route.diagnostics.in_flight > 0
                || route.diagnostics.transmits_in_flight > 0 || route.host_deliveries.in_flight > 0;
            &&& ordinary is Ok <==> route.generation is None && !outstanding
                && !route.host_deliveries.exhausted && route.close_revision is Some
            &&& initial is Ok <==> ordinary is Ok && route.initial == InitialSession::Associated(id)
            &&& ordinary matches Ok(intent) ==> route.close_revision == Some(intent.close_revision)
                && intent.host_delivery_revision == route.host_deliveries.entered
                && intent.initial_operation is None
            &&& initial matches Ok(intent) ==> route.close_revision == Some(intent.close_revision)
                && intent.host_delivery_revision == route.host_deliveries.entered
                && intent.initial_operation == Some(id)
            &&& ordinary matches Err(error) ==> {
                &&& error is AlreadyOpen <==> route.generation is Some
                &&& error is CallbacksInFlight <==> route.generation is None
                    && !route.host_deliveries.exhausted && outstanding
                &&& error is AlreadyOpen || error is CallbacksInFlight || error is LifecycleExhausted
            }
            &&& initial is Err && ordinary is Ok ==> initial->Err_0 is InitialSessionRejected
            &&& initial is Err && ordinary is Err ==> initial->Err_0 == ordinary->Err_0
        }),
{
}

/// What was prepared is published exactly when no close and no native call came in
/// between and nothing is outstanding, and the route is then open in the given
/// connection. A refusal changes nothing.
pub proof fn law_open_is_published_undisturbed<'storage, const RX: usize, const MTU: usize>(
    intent: OpenIntent,
    generation: Generation,
)
    ensures
        forall|
            registration: &mut Registration,
            route: &mut CallbackRoute<'storage, RX, MTU>,
            result: Result<(), RouteError>,
        |
            (*route).wf() && (*route).ingress is Some && #[trigger] call_ensures(
                Registration::commit_open::<RX, MTU>,
                (registration, route, intent, generation),
                result,
            ) ==> {
                let before = *route;
                let after = *final(route);
                let undisturbed = before.close_revision == Some(intent.close_revision)
                    && before.host_deliveries.entered == intent.host_delivery_revision;
                let outstanding = before.diagnostics.in_flight > 0
                    || before.diagnostics.transmits_in_flight > 0
                    || before.host_deliveries.in_flight > 0;
                let initial = intent.initial_operation is None || before.initial
                    == InitialSession::Associated(intent.initial_operation->0);
                &&& result is Ok <==> undisturbed && !before.host_deliveries.exhausted
                    && before.generation is None && !outstanding && initial
                &&& result is Ok ==> after.generation == Some(generation) && (
                intent.initial_operation is Some ==> after.initial is Opened) && (
                intent.initial_operation is None ==> after.initial == before.initial)
                &&& after.close_revision == before.close_revision && after.diagnostics
                    == before.diagnostics && after.ingress == before.ingress
                &&& result is Err ==> after == before
                &&& result matches Err(error) ==> {
                    &&& error is OpenInterrupted <==> before.close_revision is Some
                        && !before.host_deliveries.exhausted && !undisturbed
                    &&& error is LifecycleExhausted <==> before.close_revision is None
                        || before.host_deliveries.exhausted
                    &&& error is InitialSessionRejected ==> !initial
                    &&& error is AlreadyOpen ==> before.generation is Some
                    &&& error is CallbacksInFlight ==> outstanding && before.generation is None
                }
            },
        forall|
            registration: &mut Registration,
            route: &mut CallbackRoute<'storage, RX, MTU>,
            result: Result<(), RouteError>,
        |
            (*route).wf() && (*route).ingress is Some && #[trigger] call_ensures(
                Registration::open_after_native_quiescence::<RX, MTU>,
                (registration, route, generation),
                result,
            ) ==> {
                let before = *route;
                &&& result is Ok <==> before.generation is None && before.diagnostics.in_flight == 0
                    && before.diagnostics.transmits_in_flight == 0
                    && before.host_deliveries.in_flight == 0 && !before.host_deliveries.exhausted
                    && before.close_revision is Some
                &&& result is Ok ==> (*final(route)).generation == Some(generation)
                    && (*final(route)).initial == before.initial
                &&& result is Err ==> *final(route) == before
            },
{
}

/// A submission is admitted exactly for a frame of the open connection, and is
/// outstanding until it returns.
pub proof fn law_submission_belongs_to_the_connection<
    'storage,
    const RX: usize,
    const MTU: usize,
>(registration: Registration, generation: Generation)
    ensures
        forall|route: &mut CallbackRoute<'storage, RX, MTU>, ticket: Option<TransmitTicket>|
            (*route).wf() && #[trigger] call_ensures(
                Registration::enter_transmit::<RX, MTU>,
                (&registration, route, generation),
                ticket,
            ) ==> {
                let before = (*route).diagnostics.transmits_in_flight;
                &&& ticket is Some <==> (*route).generation == Some(generation) && before
                    < usize::MAX
                &&& (*final(route)).diagnostics.transmits_in_flight - before == (if ticket is Some {
                    1int
                } else {
                    0
                })
                &&& (*final(route)).generation == (*route).generation
            },
        forall|ticket: TransmitTicket, route: &mut CallbackRoute<'storage, RX, MTU>, unit: ()|
            (*route).wf() && (*route).diagnostics.transmits_in_flight > 0 && #[trigger] call_ensures(
                TransmitTicket::finish::<RX, MTU>,
                (ticket, route),
                unit,
            ) ==> (*final(route)).diagnostics.transmits_in_flight
                == (*route).diagnostics.transmits_in_flight - 1 && (*final(route)).generation
                == (*route).generation,
{
}

/// A callback in flight ends once: as queued exactly when its frame was taken, and
/// else as dropped, which is told from one that offered none. A frame is stale once
/// its connection is over, and is refused as too large exactly when it does not fit.
pub proof fn law_callback_ends_once<'storage, const RX: usize, const MTU: usize>(
    ticket: CallbackTicket<'storage, RX, MTU>,
    frame: &[u8],
)
    ensures
        forall|route: &mut CallbackRoute<'storage, RX, MTU>, result: Result<(), QueueError>|
            (*route).wf() && (*route).diagnostics.in_flight > 0 && #[trigger] call_ensures(
                CallbackTicket::<'storage, RX, MTU>::receive,
                (ticket, route, frame),
                result,
            ) ==> {
                let before = (*route).diagnostics;
                let after = (*final(route)).diagnostics;
                &&& after.in_flight == before.in_flight - 1
                &&& result is Ok ==> after.queued == before.queued + 1 && after.dropped
                    == before.dropped
                &&& result is Err ==> after.queued == before.queued && after.dropped
                    == before.dropped + 1
                &&& after.entered == before.entered && after.abandoned == before.abandoned
                    && after.closed_drops == before.closed_drops
                &&& (*route).generation != Some(ticket.generation) ==> result is Err
                    && result->Err_0 is StaleGeneration
                &&& (*route).generation == Some(ticket.generation) ==> (result == Err::<
                    (),
                    QueueError,
                >(QueueError::FrameTooLarge) <==> frame@.len() > MTU)
            },
        forall|route: &mut CallbackRoute<'storage, RX, MTU>, unit: ()|
            (*route).wf() && (*route).diagnostics.in_flight > 0 && #[trigger] call_ensures(
                CallbackTicket::<'storage, RX, MTU>::abandon,
                (ticket, route),
                unit,
            ) ==> {
                let before = (*route).diagnostics;
                let after = (*final(route)).diagnostics;
                &&& after.in_flight == before.in_flight - 1
                &&& after.dropped == before.dropped + 1
                &&& after.abandoned == before.abandoned + 1
                &&& after.queued == before.queued && after.entered == before.entered
            },
        forall|
            route: &mut CallbackRoute<'storage, RX, MTU>,
            result: Result<(), QueueError>,
            unit: (),
        |
            (*route).wf() && (*route).diagnostics.in_flight > 0 && #[trigger] call_ensures(
                CallbackTicket::<'storage, RX, MTU>::settle,
                (ticket, route, result),
                unit,
            ) ==> {
                let before = (*route).diagnostics;
                let after = (*final(route)).diagnostics;
                &&& after.in_flight == before.in_flight - 1
                &&& result is Ok <==> after.queued == before.queued + 1
                &&& result is Err <==> after.dropped == before.dropped + 1
                &&& after.abandoned == before.abandoned
            },
{
}

/// A worker that subscribes is woken by the next close, and is told the revision that it
/// comes after. Nothing else changes.
pub proof fn law_subscribed_worker_is_woken<'storage, const RX: usize, const MTU: usize>(
    registration: Registration,
)
    ensures
        forall|route: &mut CallbackRoute<'storage, RX, MTU>, revision: Option<u64>| #[trigger]
            call_ensures(
                Registration::subscribe_close::<RX, MTU>,
                (&registration, route),
                revision,
            ) ==> {
                &&& revision == (*route).close_revision
                &&& (*final(route)).close_subscribed
                &&& (*final(route)).generation == (*route).generation
                    && (*final(route)).close_revision == (*route).close_revision
                    && (*final(route)).diagnostics == (*route).diagnostics
            },
{
}

/// A ticket is open exactly while the route is open in its connection, and a frame that is
/// offered under one that is not is stale.
pub proof fn law_ticket_is_open_in_its_connection<'storage, const RX: usize, const MTU: usize>(
    ticket: CallbackTicket<'storage, RX, MTU>,
    route: CallbackRoute<'storage, RX, MTU>,
    frame: &[u8],
    open: bool,
    offered: Result<(), QueueError>,
)
    requires
        call_ensures(CallbackTicket::<'storage, RX, MTU>::is_open, (&ticket, &route), open),
        call_ensures(CallbackTicket::<'storage, RX, MTU>::offer, (&ticket, open, frame), offered),
    ensures
        open <==> route.generation is Some && route.generation->0 == ticket.generation,
        !open ==> offered is Err && offered->Err_0 is StaleGeneration,
        open ==> (offered == Err::<(), QueueError>(QueueError::FrameTooLarge) <==> frame@.len()
            > MTU),
{
}

/// The stages of the initial session are recorded on the route as the session itself takes
/// them, and close nothing but for the result of the association.
pub proof fn law_route_follows_the_initial_session<'storage, const RX: usize, const MTU: usize>(
    id: OperationId,
)
    ensures
        forall|route: &mut CallbackRoute<'storage, RX, MTU>, unit: ()| #[trigger]
            call_ensures(
                CallbackRoute::<'storage, RX, MTU>::initial_bootstrap_complete,
                (route,),
                unit,
            ) ==> {
                &&& (*route).initial is Uninitialized ==> (*final(route)).initial is Bootstrapped
                &&& !((*route).initial is Uninitialized) ==> (*final(route)).initial is Rejected
                &&& (*final(route)).generation == (*route).generation
            },
        forall|route: &mut CallbackRoute<'storage, RX, MTU>, unit: ()| #[trigger]
            call_ensures(
                CallbackRoute::<'storage, RX, MTU>::initial_connect_started,
                (route, id),
                unit,
            ) ==> {
                &&& (*route).initial is Bootstrapped ==> (*final(route)).initial
                    == InitialSession::Armed(id)
                &&& !((*route).initial is Bootstrapped) ==> (*final(route)).initial is Rejected
                &&& (*final(route)).generation == (*route).generation
            },
        forall|route: &mut CallbackRoute<'storage, RX, MTU>, unit: ()| #[trigger]
            call_ensures(
                CallbackRoute::<'storage, RX, MTU>::initial_association_started,
                (route,),
                unit,
            ) ==> {
                &&& (*route).initial == InitialSession::Armed(id) ==> (*final(route)).initial
                    == InitialSession::Associating(id)
                &&& !((*route).initial is Armed) ==> (*final(route)).initial is Rejected
                &&& (*final(route)).generation == (*route).generation
            },
        forall|route: &mut CallbackRoute<'storage, RX, MTU>, success: bool, wake: bool|
            (*route).wf() && #[trigger] call_ensures(
                CallbackRoute::<'storage, RX, MTU>::initial_association_result,
                (route, success),
                wake,
            ) ==> {
                &&& (*route).initial == InitialSession::Associating(id) && success
                    ==> (*final(route)).initial == InitialSession::Associated(id)
                &&& !((*route).initial is Associating && success)
                    ==> (*final(route)).initial is Rejected
            },
{
}

} // verus!
