//! Callback routing for caller-owned Ethernet queues.
//!
//! A route holds an ingress capability and metadata, never packet bytes. It is
//! claimed once, opened only after the native producer of the previous
//! connection has quiesced, and closed before the link epoch changes. A callback
//! ticket captures the epoch on entry and cannot be retagged later.
//!
//! No ticket in flight means only that the tickets have drained. It says nothing
//! about a vendor queue, DMA or an outstanding transmission.

mod answers;
pub mod host_delivery;
pub mod host_tx;
pub mod initial_session;
pub mod link;
pub mod routes;
pub mod rx_mode;
pub mod rx_origin;
pub mod rx_stop;
pub mod slots;
pub mod storage;
pub mod user_cleanup;

use crate::netif_l2::answers::answer_to_all;
use crate::netif_l2::host_delivery::HostDeliveryDiagnostics;
use crate::netif_l2::host_tx::HostTxDiagnostics;
use crate::netif_l2::initial_session::InitialSession;
use crate::netif_l2::link::NativeLink;
use crate::netif_l2::rx_stop::RxStopDiagnostics;
use crate::netif_l2::user_cleanup::UserCleanupDiagnostics;
use hisi_rf_core::l2::{Generation, L2Ingress, L2Port};
use hisi_rf_core::OperationId;
use vstd::prelude::*;

verus! {

pub const NATIVE_RX_SLOTS: usize = 4;

pub const NATIVE_TX_SLOTS: usize = 4;

pub const NATIVE_MTU: usize = 1514;

/// Connection identity issued by the owner of the link queues.
#[verifier::external_type_specification]
#[verifier::external_body]
pub struct ExGeneration(hisi_rf_core::l2::Generation);

/// Receive-only capability of the link queues.
#[verifier::external_type_specification]
#[verifier::external_body]
pub struct ExL2Ingress<'a, const RX: usize, const MTU: usize>(
    hisi_rf_core::l2::L2Ingress<'a, RX, MTU>,
);

/// Failure to enqueue a frame or to change a link session.
#[derive(Clone, Copy, Debug, PartialEq, Eq, Structural)]
pub enum QueueError {
    Full,
    StaleGeneration,
    FrameTooLarge,
    SequenceExhausted,
}

/// `PartialEq` of `hisi_rf_core::l2::Generation`, whose only part is its number.
#[verifier::external_body]
pub(crate) fn same_generation(left: Generation, right: Generation) -> (same: bool)
    ensures
        same == (left == right),
{
    left == right
}

/// `hisi_rf_core::l2::L2Ingress::receive`: a frame is refused as too large if
/// and only if it is longer than the buffers. Whether any other frame is queued
/// depends on what the other holders of the queue have done, and is left open.
#[verifier::external_body]
fn ingress_receive<'a, const RX: usize, const MTU: usize>(
    ingress: &L2Ingress<'a, RX, MTU>,
    generation: Generation,
    frame: &[u8],
) -> (result: Result<(), QueueError>)
    ensures
        (result matches Err(error) && error is FrameTooLarge) <==> frame@.len() > MTU,
{
    ingress.receive(generation, frame).map_err(
        |error| match error {
            hisi_rf_core::l2::QueueError::Full => QueueError::Full,
            hisi_rf_core::l2::QueueError::StaleGeneration => QueueError::StaleGeneration,
            hisi_rf_core::l2::QueueError::FrameTooLarge => QueueError::FrameTooLarge,
            hisi_rf_core::l2::QueueError::SequenceExhausted => QueueError::SequenceExhausted,
        },
    )
}

/// The queue behind `ingress` can answer `result` to this frame of this
/// connection.
pub closed spec fn queue_answers<'a, const RX: usize, const MTU: usize>(
    ingress: L2Ingress<'a, RX, MTU>,
    generation: Generation,
    frame: &[u8],
    result: Result<(), QueueError>,
) -> bool {
    call_ensures(ingress_receive::<RX, MTU>, (&ingress, generation, frame), result)
}

/// Registration and lifecycle failures.
#[derive(Clone, Copy, Debug, PartialEq, Eq, Structural)]
pub enum RouteError {
    AlreadyRegistered,
    CallbacksInFlight,
    AlreadyOpen,
    OpenInterrupted,
    LifecycleExhausted,
    InitialSessionRejected,
}

/// Failure of a link: of its route or of its queues.
#[derive(Clone, Copy, Debug, PartialEq, Eq, Structural)]
pub enum LinkError {
    Route(RouteError),
    Queue(QueueError),
}

/// Callback-entry accounting, with the entries that were rejected while the
/// route was down.
#[derive(Clone, Copy, Debug, PartialEq, Eq, Structural)]
pub struct RouteDiagnostics {
    pub entered: u64,
    pub queued: u64,
    pub dropped: u64,
    pub closed_drops: u64,
    /// Native buffers allocated while closed or before the current connection.
    pub allocation_drops: u64,
    pub abandoned: u64,
    pub in_flight: usize,
    /// Submissions admitted before a close and not yet returned.
    pub transmits_in_flight: usize,
}

impl RouteDiagnostics {
    /// Every entry is queued, dropped or still in flight, and every drop has at
    /// most one reason.
    pub open spec fn conserved(self) -> bool {
        &&& self.entered == self.queued + self.dropped + self.in_flight
        &&& self.closed_drops + self.allocation_drops + self.abandoned <= self.dropped
    }
}

/// Immutable provenance of one native allocation. A close revision is never
/// reused, so an allocation of an earlier connection is told from a current one.
#[derive(Clone, Copy, Debug, PartialEq, Eq, Structural)]
pub struct AllocationEpoch {
    pub revision: Option<u64>,
}

impl AllocationEpoch {
    /// The provenance of an allocation that was made while the route was closed.
    pub fn closed() -> (epoch: AllocationEpoch)
        ensures
            epoch.revision is None,
    {
        AllocationEpoch { revision: None }
    }
}

/// The right to publish an open link, if nothing has happened since.
#[derive(Clone, Copy, Debug)]
pub struct OpenIntent {
    pub close_revision: u64,
    pub host_delivery_revision: u64,
    pub initial_operation: Option<OperationId>,
}

/// One checked route from the vendor's callbacks to one instance.
pub struct CallbackRoute<'storage, const RX: usize, const MTU: usize> {
    pub ingress: Option<L2Ingress<'storage, RX, MTU>>,
    pub generation: Option<Generation>,
    pub close_revision: Option<u64>,
    /// A worker waits to be woken by the next close.
    pub close_subscribed: bool,
    pub diagnostics: RouteDiagnostics,
    pub host_deliveries: HostDeliveryDiagnostics,
    pub initial: InitialSession,
    pub initial_open_result: Option<Result<(), LinkError>>,
}

/// Sole right to open and close a claimed route.
#[derive(Debug)]
pub struct Registration {}

/// One callback entry, with the connection that it belongs to.
pub struct CallbackTicket<'storage, const RX: usize, const MTU: usize> {
    pub ingress: L2Ingress<'storage, RX, MTU>,
    pub generation: Generation,
}

/// Permission for one native submission.
#[derive(Debug)]
pub struct TransmitTicket {}

/// The revision after one more close; exhaustion is final.
pub open spec fn next_revision(revision: Option<u64>) -> Option<u64> {
    match revision {
        Some(number) => if number < u64::MAX {
            Some((number + 1) as u64)
        } else {
            None
        },
        None => None,
    }
}

/// Whether a link revision comes after an earlier one: exhaustion comes last.
pub open spec fn later_revision(earlier: Option<u64>, later: Option<u64>) -> bool {
    match (earlier, later) {
        (Some(first), Some(second)) => first < second,
        (Some(_), None) => true,
        (None, _) => later is None,
    }
}

impl<'storage, const RX: usize, const MTU: usize> CallbackRoute<'storage, RX, MTU> {
    /// The accounting holds, and only a claimed route is open.
    pub open spec fn wf(self) -> bool {
        &&& self.diagnostics.conserved()
        &&& self.host_deliveries.wf()
        &&& self.generation is Some ==> self.ingress is Some
    }

    /// No callback, submission or observed native call is outstanding.
    pub open spec fn drained(self) -> bool {
        &&& self.diagnostics.in_flight == 0
        &&& self.diagnostics.transmits_in_flight == 0
        &&& self.host_deliveries.in_flight == 0
    }

    /// The route after admission was closed.
    pub open spec fn closed(self) -> Self {
        CallbackRoute {
            generation: None,
            close_revision: next_revision(self.close_revision),
            close_subscribed: false,
            ..self
        }
    }

    pub fn new() -> (route: Self)
        ensures
            route.wf(),
            route.ingress is None,
            route.generation is None,
            route.close_revision == Some(0u64),
            !route.close_subscribed,
            route.diagnostics.entered == 0 && route.diagnostics.queued == 0
                && route.diagnostics.in_flight == 0 && route.diagnostics.transmits_in_flight == 0,
            route.host_deliveries == host_delivery::no_deliveries(),
            route.initial is Uninitialized,
            route.initial_open_result is None,
    {
        CallbackRoute {
            ingress: None,
            generation: None,
            close_revision: Some(0),
            close_subscribed: false,
            diagnostics: RouteDiagnostics {
                entered: 0,
                queued: 0,
                dropped: 0,
                closed_drops: 0,
                allocation_drops: 0,
                abandoned: 0,
                in_flight: 0,
                transmits_in_flight: 0,
            },
            host_deliveries: HostDeliveryDiagnostics::new(),
            initial: InitialSession::Uninitialized,
            initial_open_result: None,
        }
    }

    /// Why the route cannot be claimed now, if it cannot.
    pub open spec fn unclaimable(self) -> Option<RouteError> {
        if self.ingress is Some {
            Some(RouteError::AlreadyRegistered)
        } else if self.diagnostics.in_flight != 0 || self.diagnostics.transmits_in_flight != 0 {
            Some(RouteError::CallbacksInFlight)
        } else if self.close_revision is None {
            Some(RouteError::LifecycleExhausted)
        } else {
            None
        }
    }

    /// Claim exclusively. A newly claimed route rejects callbacks until it is
    /// opened.
    pub fn claim(&mut self, ingress: L2Ingress<'storage, RX, MTU>) -> (result: Result<
        Registration,
        RouteError,
    >)
        requires
            old(self).wf(),
        ensures
            final(self).wf(),
            match result {
                Ok(_) => {
                    &&& old(self).unclaimable() is None
                    &&& *final(self) == (CallbackRoute {
                        ingress: Some(ingress),
                        generation: None,
                        ..*old(self)
                    })
                },
                Err(error) => {
                    &&& old(self).unclaimable() == Some(error)
                    &&& *final(self) == *old(self)
                },
            },
    {
        if self.ingress.is_some() {
            return Err(RouteError::AlreadyRegistered);
        }
        if self.diagnostics.in_flight != 0 || self.diagnostics.transmits_in_flight != 0 {
            return Err(RouteError::CallbacksInFlight);
        }
        if self.close_revision.is_none() {
            return Err(RouteError::LifecycleExhausted);
        }
        self.ingress = Some(ingress);
        self.generation = None;
        Ok(Registration {  })
    }

    /// The provenance of an allocation that is made now.
    pub open spec fn epoch(self) -> AllocationEpoch {
        AllocationEpoch {
            revision: if self.ingress is Some && self.generation is Some {
                self.close_revision
            } else {
                None
            },
        }
    }

    /// Capture the provenance of a native allocation before it is made.
    pub fn allocation_epoch(&self) -> (epoch: AllocationEpoch)
        ensures
            epoch == self.epoch(),
    {
        AllocationEpoch {
            revision: if self.ingress.is_some() && self.generation.is_some() {
                self.close_revision
            } else {
                None
            },
        }
    }

    /// `allocation` was not made during the current connection.
    pub open spec fn foreign(self, allocation: Option<AllocationEpoch>) -> bool {
        allocation matches Some(epoch) && (epoch.revision is None || epoch.revision
            != self.close_revision)
    }

    /// The counters after an entry with this provenance.
    pub open spec fn entry_counted(self, allocation: Option<AllocationEpoch>) -> RouteDiagnostics {
        let d = self.diagnostics;
        if self.foreign(allocation) {
            RouteDiagnostics {
                entered: (d.entered + 1) as u64,
                dropped: (d.dropped + 1) as u64,
                allocation_drops: (d.allocation_drops + 1) as u64,
                ..d
            }
        } else if self.ingress is Some && self.generation is Some {
            RouteDiagnostics {
                entered: (d.entered + 1) as u64,
                in_flight: (d.in_flight + 1) as usize,
                ..d
            }
        } else {
            RouteDiagnostics {
                entered: (d.entered + 1) as u64,
                dropped: (d.dropped + 1) as u64,
                closed_drops: (d.closed_drops + 1) as u64,
                ..d
            }
        }
    }

    fn enter_with_allocation(&mut self, allocation: Option<AllocationEpoch>) -> (ticket: Option<
        CallbackTicket<'storage, RX, MTU>,
    >)
        requires
            old(self).wf(),
            old(self).diagnostics.entered < u64::MAX,
            old(self).diagnostics.in_flight < usize::MAX,
        ensures
            final(self).wf(),
            *final(self) == (CallbackRoute {
                diagnostics: old(self).entry_counted(allocation),
                ..*old(self)
            }),
            ticket is Some <==> !old(self).foreign(allocation) && old(self).generation is Some,
            ticket matches Some(entry) ==> Some(entry.generation) == old(self).generation && Some(
                entry.ingress,
            ) == old(self).ingress,
    {
        self.diagnostics.entered = self.diagnostics.entered + 1;
        if let Some(epoch) = allocation {
            let foreign = match (epoch.revision, self.close_revision) {
                (Some(allocated), Some(current)) => allocated != current,
                _ => true,
            };
            if foreign {
                self.diagnostics.dropped = self.diagnostics.dropped + 1;
                self.diagnostics.allocation_drops = self.diagnostics.allocation_drops + 1;
                return None;
            }
        }
        match (self.ingress, self.generation) {
            (Some(ingress), Some(generation)) => {
                self.diagnostics.in_flight = self.diagnostics.in_flight + 1;
                Some(CallbackTicket { ingress, generation })
            },
            _ => {
                self.diagnostics.dropped = self.diagnostics.dropped + 1;
                self.diagnostics.closed_drops = self.diagnostics.closed_drops + 1;
                None
            },
        }
    }

    /// Capture the ingress and the epoch at the beginning of one callback.
    pub fn enter(&mut self) -> (ticket: Option<CallbackTicket<'storage, RX, MTU>>)
        requires
            old(self).wf(),
            old(self).diagnostics.entered < u64::MAX,
            old(self).diagnostics.in_flight < usize::MAX,
        ensures
            final(self).wf(),
            *final(self) == (CallbackRoute {
                diagnostics: old(self).entry_counted(None),
                ..*old(self)
            }),
            ticket is Some <==> old(self).generation is Some,
            ticket matches Some(entry) ==> Some(entry.generation) == old(self).generation && Some(
                entry.ingress,
            ) == old(self).ingress,
    {
        self.enter_with_allocation(None)
    }

    /// Enter with a buffer of known provenance: one that was allocated while the
    /// route was closed, or for an earlier connection, is dropped.
    pub fn enter_allocated(&mut self, epoch: AllocationEpoch) -> (ticket: Option<
        CallbackTicket<'storage, RX, MTU>,
    >)
        requires
            old(self).wf(),
            old(self).diagnostics.entered < u64::MAX,
            old(self).diagnostics.in_flight < usize::MAX,
        ensures
            final(self).wf(),
            *final(self) == (CallbackRoute {
                diagnostics: old(self).entry_counted(Some(epoch)),
                ..*old(self)
            }),
            ticket is Some <==> !old(self).foreign(Some(epoch)) && old(self).generation is Some,
            ticket matches Some(entry) ==> Some(entry.generation) == old(self).generation && Some(
                entry.ingress,
            ) == old(self).ingress,
    {
        self.enter_with_allocation(Some(epoch))
    }

    pub fn diagnostics(&self) -> (diagnostics: RouteDiagnostics)
        ensures
            diagnostics == self.diagnostics,
    {
        self.diagnostics
    }

    pub fn host_delivery_diagnostics(&self) -> (diagnostics: HostDeliveryDiagnostics)
        ensures
            diagnostics == self.host_deliveries,
    {
        self.host_deliveries
    }

    fn shut(&mut self) -> (wake: bool)
        ensures
            *final(self) == old(self).closed(),
            wake == old(self).close_subscribed,
    {
        self.generation = None;
        self.close_revision = match self.close_revision {
            Some(number) => number.checked_add(1),
            None => None,
        };
        let wake = self.close_subscribed;
        self.close_subscribed = false;
        wake
    }

    /// Stop new admission and end the initial session. Tells whether a waiting
    /// worker has to be woken.
    pub fn close_admission(&mut self) -> (wake: bool)
        requires
            old(self).wf(),
        ensures
            final(self).wf(),
            *final(self) == (CallbackRoute {
                initial: InitialSession::Rejected,
                ..old(self).closed()
            }),
            wake == old(self).close_subscribed,
    {
        self.initial = InitialSession::Rejected;
        self.shut()
    }

    /// An association result: it is recorded, and it closes admission like any
    /// other link change.
    pub fn initial_association_result(&mut self, success: bool) -> (wake: bool)
        requires
            old(self).wf(),
        ensures
            final(self).wf(),
            *final(self) == (CallbackRoute {
                initial: old(self).initial.resulted(success),
                ..old(self).closed()
            }),
            wake == old(self).close_subscribed,
    {
        self.initial.result(success);
        self.shut()
    }

    pub fn initial_bootstrap_complete(&mut self)
        ensures
            *final(self) == (CallbackRoute {
                initial: old(self).initial.bootstrapped(),
                ..*old(self)
            }),
    {
        self.initial.bootstrap();
    }

    pub fn initial_connect_started(&mut self, id: OperationId)
        ensures
            *final(self) == (CallbackRoute { initial: old(self).initial.armed(id), ..*old(self) }),
    {
        self.initial.connect(id);
    }

    pub fn initial_association_started(&mut self)
        ensures
            *final(self) == (CallbackRoute {
                initial: old(self).initial.associating(),
                ..*old(self)
            }),
    {
        self.initial.associate();
    }

    pub fn record_initial_open_result(&mut self, result: Result<(), LinkError>)
        ensures
            *final(self) == (CallbackRoute { initial_open_result: Some(result), ..*old(self) }),
    {
        self.initial_open_result = Some(result);
    }
}

impl Registration {
    /// Why a route cannot be opened now, if it cannot.
    pub open spec fn obstacle<'storage, const RX: usize, const MTU: usize>(
        route: CallbackRoute<'storage, RX, MTU>,
    ) -> Option<RouteError> {
        if route.generation is Some {
            Some(RouteError::AlreadyOpen)
        } else if route.host_deliveries.exhausted {
            Some(RouteError::LifecycleExhausted)
        } else if !route.drained() {
            Some(RouteError::CallbacksInFlight)
        } else if route.close_revision is None {
            Some(RouteError::LifecycleExhausted)
        } else {
            None
        }
    }

    /// Register a worker for the next close; returns the current revision.
    pub fn subscribe_close<'storage, const RX: usize, const MTU: usize>(
        &self,
        route: &mut CallbackRoute<'storage, RX, MTU>,
    ) -> (revision: Option<u64>)
        ensures
            revision == old(route).close_revision,
            *final(route) == (CallbackRoute { close_subscribed: true, ..*old(route) }),
    {
        route.close_subscribed = true;
        route.close_revision
    }

    /// Stop admission before the queues are reset. Callbacks that already
    /// entered keep their old connection.
    pub fn close<'storage, const RX: usize, const MTU: usize>(
        &mut self,
        route: &mut CallbackRoute<'storage, RX, MTU>,
    ) -> (wake: bool)
        requires
            old(route).wf(),
        ensures
            final(route).wf(),
            *final(route) == (CallbackRoute {
                initial: InitialSession::Rejected,
                ..old(route).closed()
            }),
            wake == old(route).close_subscribed,
    {
        route.close_admission()
    }

    /// Admit one native submission of a frame of `generation`.
    pub fn enter_transmit<'storage, const RX: usize, const MTU: usize>(
        &self,
        route: &mut CallbackRoute<'storage, RX, MTU>,
        generation: Generation,
    ) -> (ticket: Option<TransmitTicket>)
        requires
            old(route).wf(),
        ensures
            final(route).wf(),
            ticket is Some <==> old(route).generation == Some(generation) && old(
                route,
            ).diagnostics.transmits_in_flight < usize::MAX,
            ticket is None ==> *final(route) == *old(route),
            ticket is Some ==> *final(route) == (CallbackRoute {
                diagnostics: RouteDiagnostics {
                    transmits_in_flight: (old(route).diagnostics.transmits_in_flight + 1) as usize,
                    ..old(route).diagnostics
                },
                ..*old(route)
            }),
    {
        match route.generation {
            Some(current) => {
                if !same_generation(current, generation) {
                    return None;
                }
                match route.diagnostics.transmits_in_flight.checked_add(1) {
                    Some(next) => {
                        route.diagnostics.transmits_in_flight = next;
                        Some(TransmitTicket {  })
                    },
                    None => None,
                }
            },
            None => None,
        }
    }

    /// Look at a route that is about to be opened, without changing it.
    pub fn prepare_open<'storage, const RX: usize, const MTU: usize>(
        &self,
        route: &CallbackRoute<'storage, RX, MTU>,
    ) -> (result: Result<OpenIntent, RouteError>)
        ensures
            match result {
                Ok(intent) => {
                    &&& Self::obstacle(*route) is None
                    &&& Some(intent.close_revision) == route.close_revision
                    &&& intent.host_delivery_revision == route.host_deliveries.entered
                    &&& intent.initial_operation is None
                },
                Err(error) => Self::obstacle(*route) == Some(error),
            },
    {
        if route.generation.is_some() {
            return Err(RouteError::AlreadyOpen);
        }
        if route.host_deliveries.exhausted {
            return Err(RouteError::LifecycleExhausted);
        }
        if route.diagnostics.in_flight != 0 || route.diagnostics.transmits_in_flight != 0
            || route.host_deliveries.in_flight != 0 {
            return Err(RouteError::CallbacksInFlight);
        }
        match route.close_revision {
            None => Err(RouteError::LifecycleExhausted),
            Some(close_revision) => Ok(
                OpenIntent {
                    close_revision,
                    host_delivery_revision: route.host_deliveries.entered,
                    initial_operation: None,
                },
            ),
        }
    }

    /// As [`Self::prepare_open`], for the one connection that brought the link up
    /// for the first time.
    pub fn prepare_initial_open<'storage, const RX: usize, const MTU: usize>(
        &self,
        route: &CallbackRoute<'storage, RX, MTU>,
        id: OperationId,
    ) -> (result: Result<OpenIntent, RouteError>)
        ensures
            match result {
                Ok(intent) => {
                    &&& Self::obstacle(*route) is None
                    &&& route.initial == InitialSession::Associated(id)
                    &&& Some(intent.close_revision) == route.close_revision
                    &&& intent.host_delivery_revision == route.host_deliveries.entered
                    &&& intent.initial_operation == Some(id)
                },
                Err(error) => {
                    ||| Self::obstacle(*route) == Some(error)
                    ||| Self::obstacle(*route) is None && route.initial
                        != InitialSession::Associated(id) && error is InitialSessionRejected
                },
            },
    {
        let intent = match self.prepare_open(route) {
            Ok(intent) => intent,
            Err(error) => {
                return Err(error);
            },
        };
        match route.initial.check(id) {
            Ok(_) => Ok(OpenIntent { initial_operation: Some(id), ..intent }),
            Err(error) => Err(error),
        }
    }

    /// Why an intent can no longer be committed, if it cannot. A close or a
    /// native call since it was prepared interrupts it.
    pub open spec fn refusal<'storage, const RX: usize, const MTU: usize>(
        route: CallbackRoute<'storage, RX, MTU>,
        intent: OpenIntent,
    ) -> Option<RouteError> {
        if route.close_revision is None || route.host_deliveries.exhausted {
            Some(RouteError::LifecycleExhausted)
        } else if route.close_revision != Some(intent.close_revision)
            || route.host_deliveries.entered != intent.host_delivery_revision {
            Some(RouteError::OpenInterrupted)
        } else if route.generation is Some {
            Some(RouteError::AlreadyOpen)
        } else if !route.drained() {
            Some(RouteError::CallbacksInFlight)
        } else if intent.initial_operation matches Some(id) && route.initial
            != InitialSession::Associated(id) {
            Some(RouteError::InitialSessionRejected)
        } else {
            None
        }
    }

    /// Publish an established link, unless it was interrupted.
    pub fn commit_open<'storage, const RX: usize, const MTU: usize>(
        &mut self,
        route: &mut CallbackRoute<'storage, RX, MTU>,
        intent: OpenIntent,
        generation: Generation,
    ) -> (result: Result<(), RouteError>)
        requires
            old(route).wf(),
            old(route).ingress is Some,
        ensures
            final(route).wf(),
            match result {
                Ok(_) => {
                    &&& Self::refusal(*old(route), intent) is None
                    &&& *final(route) == (CallbackRoute {
                        generation: Some(generation),
                        initial: if intent.initial_operation is Some {
                            InitialSession::Opened
                        } else {
                            old(route).initial
                        },
                        ..*old(route)
                    })
                },
                Err(error) => *final(route) == *old(route) && Self::refusal(*old(route), intent)
                    == Some(error),
            },
    {
        let revision: u64 = match route.close_revision {
            Some(revision) => revision,
            None => {
                return Err(RouteError::LifecycleExhausted);
            },
        };
        if route.host_deliveries.exhausted {
            return Err(RouteError::LifecycleExhausted);
        }
        if revision != intent.close_revision || route.host_deliveries.entered
            != intent.host_delivery_revision {
            return Err(RouteError::OpenInterrupted);
        }
        if route.generation.is_some() {
            return Err(RouteError::AlreadyOpen);
        }
        if route.diagnostics.in_flight != 0 || route.diagnostics.transmits_in_flight != 0
            || route.host_deliveries.in_flight != 0 {
            return Err(RouteError::CallbacksInFlight);
        }
        if let Some(id) = intent.initial_operation {
            match route.initial.check(id) {
                Ok(_) => {},
                Err(error) => {
                    return Err(error);
                },
            }
            route.initial = InitialSession::Opened;
        }
        route.generation = Some(generation);
        Ok(())
    }

    /// Publish a newly established link after native quiescence. An active
    /// connection is never replaced.
    pub fn open_after_native_quiescence<'storage, const RX: usize, const MTU: usize>(
        &mut self,
        route: &mut CallbackRoute<'storage, RX, MTU>,
        generation: Generation,
    ) -> (result: Result<(), RouteError>)
        requires
            old(route).wf(),
            old(route).ingress is Some,
        ensures
            final(route).wf(),
            match result {
                Ok(_) => Self::obstacle(*old(route)) is None && *final(route) == (CallbackRoute {
                    generation: Some(generation),
                    ..*old(route)
                }),
                Err(error) => Self::obstacle(*old(route)) == Some(error) && *final(route) == *old(
                    route,
                ),
            },
    {
        match self.prepare_open(route) {
            Ok(intent) => self.commit_open(route, intent, generation),
            Err(error) => Err(error),
        }
    }

    /// Give the registration up: the route closes, and can be claimed again once
    /// its tickets have drained.
    pub fn release<'storage, const RX: usize, const MTU: usize>(
        self,
        route: &mut CallbackRoute<'storage, RX, MTU>,
    ) -> (wake: bool)
        requires
            old(route).wf(),
        ensures
            final(route).wf(),
            *final(route) == (CallbackRoute {
                initial: InitialSession::Rejected,
                ingress: None,
                ..old(route).closed()
            }),
            wake == old(route).close_subscribed,
    {
        let wake = route.close_admission();
        route.ingress = None;
        wake
    }
}

impl TransmitTicket {
    /// The native submission returned.
    pub fn finish<'storage, const RX: usize, const MTU: usize>(
        self,
        route: &mut CallbackRoute<'storage, RX, MTU>,
    )
        requires
            old(route).wf(),
            old(route).diagnostics.transmits_in_flight > 0,
        ensures
            final(route).wf(),
            *final(route) == (CallbackRoute {
                diagnostics: RouteDiagnostics {
                    transmits_in_flight: (old(route).diagnostics.transmits_in_flight - 1) as usize,
                    ..old(route).diagnostics
                },
                ..*old(route)
            }),
    {
        route.diagnostics.transmits_in_flight = route.diagnostics.transmits_in_flight - 1;
    }
}

/// The counters after a ticket was finished.
pub open spec fn finished(d: RouteDiagnostics, queued: bool, abandoned: bool) -> RouteDiagnostics {
    if queued {
        RouteDiagnostics {
            in_flight: (d.in_flight - 1) as usize,
            queued: (d.queued + 1) as u64,
            ..d
        }
    } else {
        RouteDiagnostics {
            in_flight: (d.in_flight - 1) as usize,
            dropped: (d.dropped + 1) as u64,
            abandoned: (d.abandoned + (if abandoned {
                1int
            } else {
                0
            })) as u64,
            ..d
        }
    }
}

impl<'storage, const RX: usize, const MTU: usize> CallbackTicket<'storage, RX, MTU> {
    /// The route is still open in the connection of the ticket.
    pub fn is_open(&self, route: &CallbackRoute<'storage, RX, MTU>) -> (open: bool)
        ensures
            open == (route.generation == Some(self.generation)),
    {
        match route.generation {
            Some(current) => same_generation(current, self.generation),
            None => false,
        }
    }

    /// Copy one frame into the caller-owned queue, if the route was found open.
    /// No part of the route is needed for the copy.
    pub fn offer(&self, open: bool, frame: &[u8]) -> (result: Result<(), QueueError>)
        ensures
            !open ==> result == Err::<(), QueueError>(QueueError::StaleGeneration),
            open ==> queue_answers(self.ingress, self.generation, frame, result),
            open ==> (result == Err::<(), QueueError>(QueueError::FrameTooLarge) <==> frame@.len()
                > MTU),
    {
        if open {
            answer_to_all(ingress_receive::<RX, MTU>, &self.ingress, self.generation, frame)
        } else {
            Err(QueueError::StaleGeneration)
        }
    }

    /// Account for the frame that was offered.
    pub fn settle(
        self,
        route: &mut CallbackRoute<'storage, RX, MTU>,
        result: Result<(), QueueError>,
    )
        requires
            old(route).wf(),
            old(route).diagnostics.in_flight > 0,
        ensures
            final(route).wf(),
            *final(route) == (CallbackRoute {
                diagnostics: finished(old(route).diagnostics, result is Ok, false),
                ..*old(route)
            }),
    {
        finish_ticket(route, result.is_ok(), false);
    }

    /// Copy one frame into the caller-owned queue. A ticket of a connection that
    /// was closed meanwhile is refused as stale, whatever the queue would say.
    pub fn receive(self, route: &mut CallbackRoute<'storage, RX, MTU>, frame: &[u8]) -> (result:
        Result<(), QueueError>)
        requires
            old(route).wf(),
            old(route).diagnostics.in_flight > 0,
        ensures
            final(route).wf(),
            *final(route) == (CallbackRoute {
                diagnostics: finished(old(route).diagnostics, result is Ok, false),
                ..*old(route)
            }),
            old(route).generation != Some(self.generation) ==> result == Err::<(), QueueError>(
                QueueError::StaleGeneration,
            ),
            old(route).generation == Some(self.generation) ==> queue_answers(
                self.ingress,
                self.generation,
                frame,
                result,
            ),
            old(route).generation == Some(self.generation) ==> (result == Err::<(), QueueError>(
                QueueError::FrameTooLarge,
            ) <==> frame@.len() > MTU),
    {
        let open = self.is_open(route);
        let result = self.offer(open, frame);
        self.settle(route, result);
        result
    }

    /// The callback ended without offering a frame.
    pub fn abandon(self, route: &mut CallbackRoute<'storage, RX, MTU>)
        requires
            old(route).wf(),
            old(route).diagnostics.in_flight > 0,
        ensures
            final(route).wf(),
            *final(route) == (CallbackRoute {
                diagnostics: finished(old(route).diagnostics, false, true),
                ..*old(route)
            }),
    {
        finish_ticket(route, false, true);
    }
}

fn finish_ticket<'storage, const RX: usize, const MTU: usize>(
    route: &mut CallbackRoute<'storage, RX, MTU>,
    queued: bool,
    abandoned: bool,
)
    requires
        old(route).wf(),
        old(route).diagnostics.in_flight > 0,
        abandoned ==> !queued,
    ensures
        final(route).wf(),
        *final(route) == (CallbackRoute {
            diagnostics: finished(old(route).diagnostics, queued, abandoned),
            ..*old(route)
        }),
{
    route.diagnostics.in_flight = route.diagnostics.in_flight - 1;
    if queued {
        route.diagnostics.queued = route.diagnostics.queued + 1;
    } else {
        route.diagnostics.dropped = route.diagnostics.dropped + 1;
        if abandoned {
            route.diagnostics.abandoned = route.diagnostics.abandoned + 1;
        }
    }
}

/// Snapshot of the observed native deliveries, not a drain receipt.
pub fn native_host_delivery_diagnostics<'storage>(
    route: &CallbackRoute<'storage, 4, 1514>,
) -> (diagnostics: HostDeliveryDiagnostics)
    ensures
        diagnostics == route.host_deliveries,
{
    route.host_delivery_diagnostics()
}

/// Checked results of user teardowns, not a drain receipt.
pub fn native_user_cleanup_diagnostics(tracker: &user_cleanup::Tracker) -> (diagnostics:
    UserCleanupDiagnostics)
    ensures
        diagnostics == tracker.diagnostic,
{
    tracker.diagnostic
}

/// Work of the host's transmit queue only.
pub fn native_host_tx_diagnostics(tracker: &host_tx::Tracker) -> (diagnostics: HostTxDiagnostics)
    ensures
        diagnostics == tracker.diagnostic,
{
    tracker.diagnostic
}

/// The receipt of the one-shot stop, not a reusable fence.
pub fn native_rx_stop_diagnostics(transaction: &rx_stop::Transaction) -> (diagnostics:
    RxStopDiagnostics)
    ensures
        diagnostics == transaction.diagnostic,
{
    transaction.diagnostic
}

/// Counters of the callback route.
pub fn native_route_diagnostics<'storage>(route: &CallbackRoute<'storage, 4, 1514>) -> (diagnostics:
    RouteDiagnostics)
    ensures
        diagnostics == route.diagnostics,
{
    route.diagnostics()
}

/// The result of the one bring-up session, if it was attempted.
pub fn native_initial_open_result<'storage>(route: &CallbackRoute<'storage, 4, 1514>) -> (result:
    Option<Result<(), LinkError>>)
    ensures
        result == route.initial_open_result,
{
    route.initial_open_result
}

/// Bind the vendor's callbacks to one set of queues. The link stays down until a
/// session is established.
pub fn bind_native<'storage, const TX: usize>(
    port: L2Port<'storage, 4, TX, 1514>,
    route: &mut CallbackRoute<'storage, 4, 1514>,
) -> (result: Result<NativeLink<'storage, 4, TX, 1514>, LinkError>)
    requires
        old(route).wf(),
    ensures
        final(route).wf(),
        match result {
            Ok(link) => {
                &&& old(route).unclaimable() is None
                &&& final(route).ingress is Some
                &&& *final(route) == (CallbackRoute {
                    ingress: final(route).ingress,
                    generation: None,
                    ..*old(route)
                })
                &&& link.observed_close == old(route).close_revision
                &&& crate::netif_l2::link::port_gives(port, final(route).ingress->0)
                &&& exists|bound: &mut L2Port<'storage, 4, TX, 1514>| #[trigger]
                    crate::netif_l2::link::down_answers(bound, Ok(())) && *bound == port && *final(bound) == link.port
            },
            Err(LinkError::Route(error)) => {
                &&& old(route).unclaimable() == Some(error)
                &&& *final(route) == *old(route)
            },
            Err(LinkError::Queue(error)) => {
                &&& old(route).unclaimable() is None
                &&& error is SequenceExhausted
                &&& exists|bound: &mut L2Port<'storage, 4, TX, 1514>| #[trigger]
                    crate::netif_l2::link::down_answers(bound, Err(error)) && *bound == port
                &&& *final(route) == (CallbackRoute {
                    initial: InitialSession::Rejected,
                    ingress: None,
                    ..old(route).closed()
                })
            },
        },
{
    NativeLink::bind(port, route)
}

/// A close revision is never reused: every close moves on to a later one, and
/// an exhausted lifecycle never opens again.
pub proof fn law_close_revisions_are_never_reused<'storage, const RX: usize, const MTU: usize>(
    route: CallbackRoute<'storage, RX, MTU>,
)
    ensures
        later_revision(route.close_revision, route.closed().close_revision),
        route.close_revision is None ==> Registration::obstacle(route) is Some,
{
}

/// A closed route admits no callback and no submission, and an allocation made
/// while it is closed is foreign to every later connection.
pub proof fn law_closed_route_rejects<'storage, const RX: usize, const MTU: usize>(
    route: CallbackRoute<'storage, RX, MTU>,
    later: CallbackRoute<'storage, RX, MTU>,
)
    ensures
        route.closed().generation is None,
        route.closed().epoch().revision is None,
        later.foreign(Some(route.closed().epoch())),
{
}

/// An allocation of an earlier connection cannot be retagged: after a close it
/// is foreign, whatever is opened later.
pub proof fn law_allocation_cannot_be_retagged<'storage, const RX: usize, const MTU: usize>(
    route: CallbackRoute<'storage, RX, MTU>,
    later: CallbackRoute<'storage, RX, MTU>,
)
    requires
        later_revision(route.close_revision, later.close_revision),
    ensures
        later.foreign(Some(route.epoch())),
{
}

/// A close between preparing and committing an open always wins.
pub proof fn law_close_interrupts_open<'storage, const RX: usize, const MTU: usize>(
    route: CallbackRoute<'storage, RX, MTU>,
    later: CallbackRoute<'storage, RX, MTU>,
    intent: OpenIntent,
)
    requires
        Some(intent.close_revision) == route.close_revision,
        later_revision(route.close_revision, later.close_revision),
    ensures
        Registration::refusal(later, intent) is Some,
{
}

} // verus!
