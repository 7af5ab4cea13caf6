//! Observation of the native delivery call that precedes packet admission.
//!
//! The native callback owns its input and is always forwarded exactly once, even
//! while the link is closed. These counters do not cover work queued before the
//! callback is entered or after it returned.

use crate::netif_l2::CallbackRoute;
use vstd::prelude::*;

verus! {

/// Registration found a foreign owner of the native callback slot.
pub const OBSERVER_FOREIGN_OWNER: u32 = 0x1000_0010;

/// Registration did not take effect.
pub const OBSERVER_NOT_INSTALLED: u32 = 0x1000_0011;

/// Call-lifetime accounting.
#[derive(Clone, Copy, Debug, PartialEq, Eq, Structural)]
pub struct HostDeliveryDiagnostics {
    pub entered: u64,
    pub returned: u64,
    pub abandoned: u64,
    pub in_flight: u64,
    pub peak_in_flight: u64,
    pub entered_while_closed: u64,
    pub crossed_close: u64,
    pub nonzero_returns: u64,
    /// A counter reached its end; the counts no longer add up.
    pub exhausted: bool,
}

/// No call was observed yet.
pub open spec fn no_deliveries() -> HostDeliveryDiagnostics {
    HostDeliveryDiagnostics {
        entered: 0,
        returned: 0,
        abandoned: 0,
        in_flight: 0,
        peak_in_flight: 0,
        entered_while_closed: 0,
        crossed_close: 0,
        nonzero_returns: 0,
        exhausted: false,
    }
}

/// A counter after one more event; at its end it stays.
pub open spec fn stepped(counter: u64) -> u64 {
    if counter < u64::MAX {
        (counter + 1) as u64
    } else {
        counter
    }
}

/// Count one event; a counter at its end stays and marks the counts exhausted.
pub fn increment(counter: &mut u64, exhausted: &mut bool)
    ensures
        *final(counter) == stepped(*old(counter)),
        *final(exhausted) == (*old(exhausted) || *old(counter) == u64::MAX),
{
    match counter.checked_add(1) {
        Some(next) => {
            *counter = next;
        },
        None => {
            *exhausted = true;
        },
    }
}

/// Whether the observer has to be installed in a callback slot that holds
/// `current`: not again when it is already there, and never over a foreign owner.
pub fn installation_action(current: usize, expected: usize, observer: usize) -> (install: Result<
    bool,
    (),
>)
    ensures
        install == (if expected == 0 || observer == 0 || expected == observer {
            Err::<bool, ()>(())
        } else if current == observer {
            Ok(false)
        } else if current == expected {
            Ok(true)
        } else {
            Err(())
        }),
{
    if expected == 0 || observer == 0 || expected == observer {
        Err(())
    } else if current == observer {
        Ok(false)
    } else if current == expected {
        Ok(true)
    } else {
        Err(())
    }
}

impl HostDeliveryDiagnostics {
    /// Until a counter is exhausted, every call that entered has returned, was
    /// abandoned, or is still in flight.
    pub open spec fn wf(self) -> bool {
        !self.exhausted ==> {
            &&& self.entered == self.returned + self.abandoned + self.in_flight
            &&& self.in_flight <= self.peak_in_flight <= self.entered
            &&& self.entered_while_closed <= self.entered
            &&& self.nonzero_returns <= self.returned
            &&& self.crossed_close <= self.returned + self.abandoned
        }
    }

    pub fn new() -> (diagnostics: Self)
        ensures
            diagnostics == no_deliveries(),
            diagnostics.wf(),
    {
        HostDeliveryDiagnostics {
            entered: 0,
            returned: 0,
            abandoned: 0,
            in_flight: 0,
            peak_in_flight: 0,
            entered_while_closed: 0,
            crossed_close: 0,
            nonzero_returns: 0,
            exhausted: false,
        }
    }

    /// The counters after a call entered.
    pub open spec fn after_entry(self, closed: bool) -> HostDeliveryDiagnostics {
        HostDeliveryDiagnostics {
            entered: stepped(self.entered),
            in_flight: stepped(self.in_flight),
            peak_in_flight: if stepped(self.in_flight) > self.peak_in_flight {
                stepped(self.in_flight)
            } else {
                self.peak_in_flight
            },
            entered_while_closed: if closed {
                stepped(self.entered_while_closed)
            } else {
                self.entered_while_closed
            },
            exhausted: self.exhausted || self.entered == u64::MAX || self.in_flight == u64::MAX || (
            closed && self.entered_while_closed == u64::MAX),
            ..self
        }
    }

    /// The counters after a call ended: with a status when it returned, without
    /// one when it was unwound.
    pub open spec fn after_exit(self, status: Option<u32>, crossed_close: bool) -> HostDeliveryDiagnostics {
        let failed = status matches Some(code) && code != 0;
        HostDeliveryDiagnostics {
            in_flight: if self.in_flight > 0 {
                (self.in_flight - 1) as u64
            } else {
                0
            },
            returned: if status is Some {
                stepped(self.returned)
            } else {
                self.returned
            },
            abandoned: if status is None {
                stepped(self.abandoned)
            } else {
                self.abandoned
            },
            nonzero_returns: if failed {
                stepped(self.nonzero_returns)
            } else {
                self.nonzero_returns
            },
            crossed_close: if crossed_close {
                stepped(self.crossed_close)
            } else {
                self.crossed_close
            },
            exhausted: self.exhausted || (status is Some && self.returned == u64::MAX) || (status
                is None && self.abandoned == u64::MAX) || (failed && self.nonzero_returns
                == u64::MAX) || (crossed_close && self.crossed_close == u64::MAX),
            ..self
        }
    }

    /// A native call enters; `closed` says that the route is closed.
    pub fn enter(&mut self, closed: bool)
        requires
            old(self).wf(),
        ensures
            final(self).wf(),
            *final(self) == old(self).after_entry(closed),
    {
        increment(&mut self.entered, &mut self.exhausted);
        increment(&mut self.in_flight, &mut self.exhausted);
        if self.in_flight > self.peak_in_flight {
            self.peak_in_flight = self.in_flight;
        }
        if closed {
            increment(&mut self.entered_while_closed, &mut self.exhausted);
        }
    }

    /// A native call ended. `crossed_close` says that the route was closed while
    /// the call ran.
    pub fn exit(&mut self, status: Option<u32>, crossed_close: bool)
        requires
            old(self).wf(),
            old(self).in_flight > 0 || old(self).exhausted,
        ensures
            final(self).wf(),
            *final(self) == old(self).after_exit(status, crossed_close),
    {
        self.in_flight = self.in_flight.saturating_sub(1);
        match status {
            Some(code) => {
                increment(&mut self.returned, &mut self.exhausted);
                if code != 0 {
                    increment(&mut self.nonzero_returns, &mut self.exhausted);
                }
            },
            None => {
                increment(&mut self.abandoned, &mut self.exhausted);
            },
        }
        if crossed_close {
            increment(&mut self.crossed_close, &mut self.exhausted);
        }
    }
}

/// What the registration of the observer does next.
#[derive(Clone, Copy, Debug, PartialEq, Eq)]
pub enum InstallStep {
    Done(Result<(), u32>),
    Register,
}

/// Start a registration from what the callback slot holds.
pub fn begin_installation(current: usize, expected: usize, observer: usize) -> (step: InstallStep)
    ensures
        step == (if expected == 0 || observer == 0 || expected == observer {
            InstallStep::Done(Err(OBSERVER_FOREIGN_OWNER))
        } else if current == observer {
            InstallStep::Done(Ok(()))
        } else if current == expected {
            InstallStep::Register
        } else {
            InstallStep::Done(Err(OBSERVER_FOREIGN_OWNER))
        }),
{
    match installation_action(current, expected, observer) {
        Ok(false) => InstallStep::Done(Ok(())),
        Ok(true) => InstallStep::Register,
        Err(_) => InstallStep::Done(Err(OBSERVER_FOREIGN_OWNER)),
    }
}

/// A registration took effect only if the slot now holds the observer.
pub fn finish_installation(registered: usize, observer: usize) -> (result: Result<(), u32>)
    ensures
        result == (if registered == observer {
            Ok::<(), u32>(())
        } else {
            Err(OBSERVER_NOT_INSTALLED)
        }),
{
    if registered != observer {
        Err(OBSERVER_NOT_INSTALLED)
    } else {
        Ok(())
    }
}

/// One observed native call, with the link revision at its entry.
#[derive(Debug)]
pub struct DeliveryTicket {
    pub revision: Option<u64>,
}

impl<'storage, const RX: usize, const MTU: usize> CallbackRoute<'storage, RX, MTU> {
    /// A native delivery enters, also while the route is closed.
    pub fn enter_host_delivery(&mut self) -> (ticket: DeliveryTicket)
        requires
            old(self).wf(),
        ensures
            final(self).wf(),
            *final(self) == (CallbackRoute {
                host_deliveries: old(self).host_deliveries.after_entry(
                    old(self).generation is None,
                ),
                ..*old(self)
            }),
            ticket.revision == old(self).close_revision,
    {
        let closed = self.generation.is_none();
        self.host_deliveries.enter(closed);
        DeliveryTicket { revision: self.close_revision }
    }
}

impl DeliveryTicket {
    fn leave<'storage, const RX: usize, const MTU: usize>(
        self,
        route: &mut CallbackRoute<'storage, RX, MTU>,
        status: Option<u32>,
    )
        requires
            old(route).wf(),
            old(route).host_deliveries.in_flight > 0 || old(route).host_deliveries.exhausted,
        ensures
            final(route).wf(),
            *final(route) == (CallbackRoute {
                host_deliveries: old(route).host_deliveries.after_exit(
                    status,
                    old(route).close_revision != self.revision,
                ),
                ..*old(route)
            }),
    {
        let crossed = match (route.close_revision, self.revision) {
            (Some(now), Some(entered)) => now != entered,
            (None, None) => false,
            _ => true,
        };
        route.host_deliveries.exit(status, crossed);
    }

    /// The native call returned `status`.
    pub fn finish<'storage, const RX: usize, const MTU: usize>(
        self,
        route: &mut CallbackRoute<'storage, RX, MTU>,
        status: u32,
    )
        requires
            old(route).wf(),
            old(route).host_deliveries.in_flight > 0 || old(route).host_deliveries.exhausted,
        ensures
            final(route).wf(),
            *final(route) == (CallbackRoute {
                host_deliveries: old(route).host_deliveries.after_exit(
                    Some(status),
                    old(route).close_revision != self.revision,
                ),
                ..*old(route)
            }),
    {
        self.leave(route, Some(status));
    }

    /// The native call was left without a return.
    pub fn abandon<'storage, const RX: usize, const MTU: usize>(
        self,
        route: &mut CallbackRoute<'storage, RX, MTU>,
    )
        requires
            old(route).wf(),
            old(route).host_deliveries.in_flight > 0 || old(route).host_deliveries.exhausted,
        ensures
            final(route).wf(),
            *final(route) == (CallbackRoute {
                host_deliveries: old(route).host_deliveries.after_exit(
                    None,
                    old(route).close_revision != self.revision,
                ),
                ..*old(route)
            }),
    {
        self.leave(route, None);
    }
}

/// A native delivery between preparing and committing an open always interrupts
/// it, even when it has returned meanwhile.
pub proof fn law_delivery_interrupts_open<'storage, const RX: usize, const MTU: usize>(
    route: CallbackRoute<'storage, RX, MTU>,
    intent: crate::netif_l2::OpenIntent,
    closed: bool,
    status: Option<u32>,
    crossed_close: bool,
)
    requires
        intent.host_delivery_revision == route.host_deliveries.entered,
    ensures
        crate::netif_l2::Registration::refusal(
            (CallbackRoute {
                host_deliveries: route.host_deliveries.after_entry(closed).after_exit(
                    status,
                    crossed_close,
                ),
                ..route
            }),
            intent,
        ) is Some,
{
}

/// An observed call is retired by its end: as many calls are in flight as before
/// it entered, and it counts as one entry and one return.
pub proof fn law_observation_is_retired(before: HostDeliveryDiagnostics, closed: bool, status: u32)
    requires
        before.wf(),
        !before.after_entry(closed).after_exit(Some(status), false).exhausted,
    ensures
        ({
            let after = before.after_entry(closed).after_exit(Some(status), false);
            &&& after.in_flight == before.in_flight
            &&& after.entered == before.entered + 1
            &&& after.returned == before.returned + 1
            &&& after.abandoned == before.abandoned
            &&& after.crossed_close == before.crossed_close
        }),
{
}

/// Exhaustion is sticky: once the counts no longer add up, nothing restores them.
pub proof fn law_exhaustion_is_sticky(
    diagnostics: HostDeliveryDiagnostics,
    closed: bool,
    status: Option<u32>,
    crossed_close: bool,
)
    requires
        diagnostics.exhausted,
    ensures
        diagnostics.after_entry(closed).exhausted,
        diagnostics.after_exit(status, crossed_close).exhausted,
{
}

/// The observer is registered exactly over the callback that is expected; it stays
/// where it is already, and another owner is left alone and told.
pub proof fn law_observer_replaces_only_what_is_expected(
    current: usize,
    expected: usize,
    observer: usize,
    registered: usize,
    install: Result<bool, ()>,
    step: InstallStep,
    result: Result<(), u32>,
)
    requires
        call_ensures(installation_action, (current, expected, observer), install),
        call_ensures(begin_installation, (current, expected, observer), step),
        call_ensures(finish_installation, (registered, observer), result),
    ensures
        ({
            let usable = expected != 0 && observer != 0 && expected != observer;
            &&& install == Ok::<bool, ()>(true) <==> usable && current == expected
            &&& install == Ok::<bool, ()>(false) <==> usable && current == observer
            &&& step is Register <==> usable && current == expected
            &&& step is Done && step->Done_0 is Ok <==> usable && current == observer
            &&& step matches InstallStep::Done(Err(code)) ==> code == 0x1000_0010
        }),
        result is Ok <==> registered == observer,
        result matches Err(code) ==> code == 0x1000_0011,
{
}

/// A native call that enters is in flight, also while the route is closed, which is
/// counted; until a counter is used up, the most calls at once are remembered.
pub proof fn law_delivery_is_observed_on_entry<'storage, const RX: usize, const MTU: usize>()
    ensures
        forall|route: &mut CallbackRoute<'storage, RX, MTU>, ticket: DeliveryTicket|
            (*route).wf() && #[trigger] call_ensures(
                CallbackRoute::<'storage, RX, MTU>::enter_host_delivery,
                (route,),
                ticket,
            ) ==> {
                let before = (*route).host_deliveries;
                let after = (*final(route)).host_deliveries;
                let closed = (*route).generation is None;
                &&& ticket.revision == (*route).close_revision
                &&& (*final(route)).generation == (*route).generation
                &&& (*final(route)).diagnostics == (*route).diagnostics
                &&& before.exhausted ==> after.exhausted
                &&& !after.exhausted ==> {
                    &&& after.entered == before.entered + 1
                    &&& after.in_flight == before.in_flight + 1
                    &&& after.peak_in_flight >= after.in_flight && after.peak_in_flight
                        >= before.peak_in_flight
                    &&& after.peak_in_flight == after.in_flight || after.peak_in_flight
                        == before.peak_in_flight
                    &&& after.entered_while_closed - before.entered_while_closed == (if closed {
                        1int
                    } else {
                        0
                    })
                    &&& after.returned == before.returned && after.abandoned == before.abandoned
                        && after.nonzero_returns == before.nonzero_returns && after.crossed_close
                        == before.crossed_close
                }
                &&& before.entered < u64::MAX && before.in_flight < u64::MAX
                    && before.entered_while_closed < u64::MAX ==> after.exhausted
                    == before.exhausted
            },
{
}

/// A native call that ends is no longer in flight. It counts as returned or as
/// abandoned, by how it ended; as failed exactly when it returned a status other than
/// zero; and as crossing a close exactly when the route was closed while it ran.
pub proof fn law_delivery_is_observed_on_exit<'storage, const RX: usize, const MTU: usize>(
    ticket: DeliveryTicket,
    status: u32,
)
    ensures
        forall|route: &mut CallbackRoute<'storage, RX, MTU>, unit: ()|
            (*route).wf() && ((*route).host_deliveries.in_flight > 0
                || (*route).host_deliveries.exhausted) && #[trigger] call_ensures(
                DeliveryTicket::finish::<RX, MTU>,
                (ticket, route, status),
                unit,
            ) ==> {
                let before = (*route).host_deliveries;
                let after = (*final(route)).host_deliveries;
                &&& (*final(route)).generation == (*route).generation
                &&& before.exhausted ==> after.exhausted
                &&& !after.exhausted ==> {
                    &&& after.in_flight == before.in_flight - 1
                    &&& after.returned == before.returned + 1 && after.abandoned
                        == before.abandoned && after.entered == before.entered
                    &&& after.nonzero_returns - before.nonzero_returns == (if status != 0 {
                        1int
                    } else {
                        0
                    })
                    &&& after.crossed_close - before.crossed_close == (if ticket.revision
                        != (*route).close_revision {
                        1int
                    } else {
                        0
                    })
                }
            },
        forall|route: &mut CallbackRoute<'storage, RX, MTU>, unit: ()|
            (*route).wf() && ((*route).host_deliveries.in_flight > 0
                || (*route).host_deliveries.exhausted) && #[trigger] call_ensures(
                DeliveryTicket::abandon::<RX, MTU>,
                (ticket, route),
                unit,
            ) ==> {
                let before = (*route).host_deliveries;
                let after = (*final(route)).host_deliveries;
                &&& before.exhausted ==> after.exhausted
                &&& !after.exhausted ==> {
                    &&& after.in_flight == before.in_flight - 1
                    &&& after.abandoned == before.abandoned + 1 && after.returned
                        == before.returned && after.entered == before.entered
                    &&& after.nonzero_returns == before.nonzero_returns
                    &&& after.crossed_close - before.crossed_close == (if ticket.revision
                        != (*route).close_revision {
                        1int
                    } else {
                        0
                    })
                }
            },
{
}

} // verus!
