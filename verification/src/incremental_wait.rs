//! Wake bridge of the incremental radio runner.
//!
//! Callback and interrupt paths only count bounded readiness and wake the
//! runner; all vendor and network work stays with the runner.

use crate::radio::WaitSet;
use vstd::prelude::*;

verus! {

/// Counters of the wake bridge. They stop at their largest value and never take
/// part in a wake decision.
#[derive(Clone, Copy, Debug, PartialEq, Eq, Structural)]
pub struct Ws63IncrementalWaitDiagnostics {
    /// Backend signals.
    pub backend_signals: u32,
    /// Receive signals.
    pub l2_rx_signals: u32,
    /// Calls of the runner's waker after a signal.
    pub waker_notifications: u32,
    /// Polls of the wait contract.
    pub poll_calls: u32,
    /// Polls that found nothing ready.
    pub pending_polls: u32,
    /// Polls that found at least one source ready.
    pub ready_polls: u32,
    /// Ready polls with the timer among the sources.
    pub timer_ready_polls: u32,
}

/// Readiness that was signalled and not consumed yet.
#[derive(Clone, Copy, Debug, PartialEq, Eq, Structural)]
pub struct WaitSignals {
    pub backend_pending: u32,
    pub l2_rx_pending: u32,
    pub diagnostics: Ws63IncrementalWaitDiagnostics,
}

/// A counter after one more event; at its end it stays.
pub open spec fn counted(counter: u32) -> u32 {
    if counter < u32::MAX {
        (counter + 1) as u32
    } else {
        u32::MAX
    }
}

/// A count after one signal was consumed.
pub open spec fn consumed(counter: u32) -> u32 {
    if counter > 0 {
        (counter - 1) as u32
    } else {
        0
    }
}

fn take_one(counter: &mut u32) -> (taken: bool)
    ensures
        taken == (*old(counter) > 0),
        *final(counter) == consumed(*old(counter)),
{
    match counter.checked_sub(1) {
        Some(rest) => {
            *counter = rest;
            true
        },
        None => false,
    }
}

impl WaitSignals {
    /// The bridge after a signal of these sources.
    pub open spec fn signalled(self, source: WaitSet) -> WaitSignals {
        let d = self.diagnostics;
        WaitSignals {
            backend_pending: if source.backend {
                counted(self.backend_pending)
            } else {
                self.backend_pending
            },
            l2_rx_pending: if source.l2_rx {
                counted(self.l2_rx_pending)
            } else {
                self.l2_rx_pending
            },
            diagnostics: Ws63IncrementalWaitDiagnostics {
                backend_signals: if source.backend {
                    counted(d.backend_signals)
                } else {
                    d.backend_signals
                },
                l2_rx_signals: if source.l2_rx {
                    counted(d.l2_rx_signals)
                } else {
                    d.l2_rx_signals
                },
                waker_notifications: counted(d.waker_notifications),
                ..d
            },
        }
    }

    /// The signalled sources among those that are waited for.
    pub open spec fn ready(self, sources: WaitSet) -> WaitSet {
        WaitSet {
            backend: sources.backend && self.backend_pending > 0,
            l2_rx: sources.l2_rx && self.l2_rx_pending > 0,
            ..crate::radio::no_sources()
        }
    }

    /// The bridge after one signal of each waited source was consumed.
    pub open spec fn drained(self, sources: WaitSet) -> WaitSignals {
        WaitSignals {
            backend_pending: if sources.backend {
                consumed(self.backend_pending)
            } else {
                self.backend_pending
            },
            l2_rx_pending: if sources.l2_rx {
                consumed(self.l2_rx_pending)
            } else {
                self.l2_rx_pending
            },
            ..self
        }
    }

    /// Nothing was signalled, and nothing was polled for.
    pub open spec fn unused() -> WaitSignals {
        WaitSignals {
            backend_pending: 0,
            l2_rx_pending: 0,
            diagnostics: Ws63IncrementalWaitDiagnostics {
                backend_signals: 0,
                l2_rx_signals: 0,
                waker_notifications: 0,
                poll_calls: 0,
                pending_polls: 0,
                ready_polls: 0,
                timer_ready_polls: 0,
            },
        }
    }

    /// The bridge after the first look of a poll.
    pub open spec fn begun(self, sources: WaitSet) -> WaitSignals {
        WaitSignals {
            diagnostics: Ws63IncrementalWaitDiagnostics {
                poll_calls: counted(self.diagnostics.poll_calls),
                ..self.diagnostics
            },
            ..self.drained(sources)
        }
    }

    /// What a poll reports whose first look found `ready`. An empty first look is
    /// made once more.
    pub open spec fn reported(self, sources: WaitSet, ready: WaitSet) -> WaitSet {
        if ready.spec_is_empty() {
            self.ready(sources)
        } else {
            ready
        }
    }

    /// The bridge after a poll whose first look found `ready`.
    pub open spec fn finished(self, sources: WaitSet, ready: WaitSet) -> WaitSignals {
        let looked = if ready.spec_is_empty() {
            self.drained(sources)
        } else {
            self
        };
        let d = looked.diagnostics;
        let reported = self.reported(sources, ready);
        WaitSignals {
            diagnostics: if reported.spec_is_empty() {
                Ws63IncrementalWaitDiagnostics { pending_polls: counted(d.pending_polls), ..d }
            } else {
                Ws63IncrementalWaitDiagnostics {
                    ready_polls: counted(d.ready_polls),
                    timer_ready_polls: if reported.timer {
                        counted(d.timer_ready_polls)
                    } else {
                        d.timer_ready_polls
                    },
                    ..d
                }
            },
            ..looked
        }
    }

    /// The bridge after one step.
    pub open spec fn after(self, step: WaitStep) -> WaitSignals {
        match step {
            WaitStep::Signal(source) => self.signalled(source),
            WaitStep::Take(sources) => self.drained(sources),
            WaitStep::Begin(sources) => self.begun(sources),
            WaitStep::Finish(sources, ready) => self.finished(sources, ready),
        }
    }

    /// The bridge after a run of steps.
    pub open spec fn ran(self, steps: Seq<WaitStep>) -> WaitSignals
        decreases steps.len(),
    {
        if steps.len() == 0 {
            self
        } else {
            self.ran(steps.drop_last()).after(steps.last())
        }
    }

    pub fn new() -> (signals: Self)
        ensures
            signals == WaitSignals::unused(),
    {
        WaitSignals {
            backend_pending: 0,
            l2_rx_pending: 0,
            diagnostics: Ws63IncrementalWaitDiagnostics {
                backend_signals: 0,
                l2_rx_signals: 0,
                waker_notifications: 0,
                poll_calls: 0,
                pending_polls: 0,
                ready_polls: 0,
                timer_ready_polls: 0,
            },
        }
    }

    /// Record a signal. The caller wakes the runner afterwards.
    pub fn signal(&mut self, source: WaitSet)
        ensures
            *final(self) == old(self).signalled(source),
    {
        if source.backend {
            self.diagnostics.backend_signals = self.diagnostics.backend_signals.saturating_add(1);
            self.backend_pending = self.backend_pending.saturating_add(1);
        }
        if source.l2_rx {
            self.diagnostics.l2_rx_signals = self.diagnostics.l2_rx_signals.saturating_add(1);
            self.l2_rx_pending = self.l2_rx_pending.saturating_add(1);
        }
        self.diagnostics.waker_notifications =
        self.diagnostics.waker_notifications.saturating_add(1);
    }

    pub fn signal_backend(&mut self)
        ensures
            *final(self) == old(self).signalled(WaitSet { backend: true, ..crate::radio::no_sources() }),
    {
        self.signal(
            WaitSet { command: false, backend: true, l2_rx: false, timer: false, cancel: false },
        );
    }

    pub fn signal_l2_rx(&mut self)
        ensures
            *final(self) == old(self).signalled(WaitSet { l2_rx: true, ..crate::radio::no_sources() }),
    {
        self.signal(
            WaitSet { command: false, backend: false, l2_rx: true, timer: false, cancel: false },
        );
    }

    /// Consume at most one signal of each waited source.
    pub fn take_ready(&mut self, sources: WaitSet) -> (ready: WaitSet)
        ensures
            ready == old(self).ready(sources),
            *final(self) == old(self).drained(sources),
    {
        let mut ready = WaitSet::empty();
        if sources.backend && take_one(&mut self.backend_pending) {
            ready.backend = true;
        }
        if sources.l2_rx && take_one(&mut self.l2_rx_pending) {
            ready.l2_rx = true;
        }
        ready
    }

    /// What is ready at the first look of a poll: signals, frames that wait in
    /// the receive queue, and the deadline.
    pub open spec fn seen(self, sources: WaitSet, frames_waiting: bool, timer_ready: bool) -> WaitSet {
        WaitSet {
            backend: self.ready(sources).backend,
            l2_rx: self.ready(sources).l2_rx || (sources.l2_rx && frames_waiting),
            timer: sources.timer && timer_ready,
            ..crate::radio::no_sources()
        }
    }

    /// The first look of a poll, after the waker was registered.
    pub fn begin_poll(&mut self, sources: WaitSet, frames_waiting: bool, timer_ready: bool) -> (ready:
        WaitSet)
        ensures
            ready == old(self).seen(sources, frames_waiting, timer_ready),
            *final(self) == old(self).begun(sources),
    {
        self.diagnostics.poll_calls = self.diagnostics.poll_calls.saturating_add(1);
        let mut ready = self.take_ready(sources);
        if sources.l2_rx && frames_waiting {
            ready.l2_rx = true;
        }
        if sources.timer && timer_ready {
            ready.timer = true;
        }
        ready
    }

    /// The end of a poll. When the first look found nothing, signals that arrived
    /// since are looked at once more: a later one finds the registered waker.
    pub fn finish_poll(&mut self, sources: WaitSet, ready: WaitSet) -> (outcome: Option<WaitSet>)
        ensures
            outcome == (if old(self).reported(sources, ready).spec_is_empty() {
                None
            } else {
                Some(old(self).reported(sources, ready))
            }),
            *final(self) == old(self).finished(sources, ready),
    {
        let mut ready = ready;
        if ready.is_empty() {
            ready = self.take_ready(sources);
        }
        if ready.is_empty() {
            self.diagnostics.pending_polls = self.diagnostics.pending_polls.saturating_add(1);
            None
        } else {
            self.diagnostics.ready_polls = self.diagnostics.ready_polls.saturating_add(1);
            if ready.timer {
                self.diagnostics.timer_ready_polls =
                self.diagnostics.timer_ready_polls.saturating_add(1);
            }
            Some(ready)
        }
    }
}

/// A snapshot of the bridge's counters. It consumes no readiness.
pub fn incremental_wait_diagnostics(signals: &WaitSignals) -> (diagnostics:
    Ws63IncrementalWaitDiagnostics)
    ensures
        diagnostics == signals.diagnostics,
{
    signals.diagnostics
}

/// What a wait for a deadline does with its timer.
#[derive(Clone, Copy, Debug, PartialEq, Eq, Structural)]
pub enum TimerStep {
    /// There is no timer any more; `ready` says that the deadline has passed.
    Clear { ready: bool },
    /// Set a new timer for a deadline that far ahead.
    Install { deadline_us: u64, after_us: u64 },
    /// The timer that is set still stands for the deadline.
    Keep,
}

/// One step of the wait for a deadline, given the deadline that the timer was
/// set for.
pub fn poll_timer(installed_us: Option<u64>, deadline_us: Option<u64>, now_us: u64) -> (step:
    TimerStep)
    ensures
        step == (match deadline_us {
            None => TimerStep::Clear { ready: false },
            Some(deadline) => if deadline <= now_us {
                TimerStep::Clear { ready: true }
            } else if installed_us == Some(deadline) {
                TimerStep::Keep
            } else {
                TimerStep::Install { deadline_us: deadline, after_us: (deadline - now_us) as u64 }
            },
        }),
{
    match deadline_us {
        None => TimerStep::Clear { ready: false },
        Some(deadline) => {
            if deadline <= now_us {
                return TimerStep::Clear { ready: true };
            }
            let kept = match installed_us {
                Some(installed) => installed == deadline,
                None => false,
            };
            if kept {
                TimerStep::Keep
            } else {
                TimerStep::Install { deadline_us: deadline, after_us: deadline - now_us }
            }
        },
    }
}

/// What happens to the bridge.
#[derive(Clone, Copy, Debug)]
pub enum WaitStep {
    Signal(WaitSet),
    Take(WaitSet),
    /// The first look of a poll for these sources.
    Begin(WaitSet),
    /// The end of a poll for these sources, with what its first look found.
    Finish(WaitSet, WaitSet),
}

/// The polls that began.
pub open spec fn begun_polls(steps: Seq<WaitStep>) -> nat
    decreases steps.len(),
{
    if steps.len() == 0 {
        0
    } else {
        begun_polls(steps.drop_last()) + (if steps.last() is Begin {
            1nat
        } else {
            0
        })
    }
}

/// The polls that ended.
pub open spec fn ended_polls(steps: Seq<WaitStep>) -> nat
    decreases steps.len(),
{
    if steps.len() == 0 {
        0
    } else {
        ended_polls(steps.drop_last()) + (if steps.last() is Finish {
            1nat
        } else {
            0
        })
    }
}

/// However the bridge is signalled and polled, every poll that ended was counted
/// once, as pending or as ready, until a counter has reached its largest value.
/// So the calls are the pending and the ready polls when none is in progress. The
/// timer never ends more polls than were ready.
pub proof fn law_every_poll_is_pending_or_ready(steps: Seq<WaitStep>)
    ensures
        ({
            let d = WaitSignals::unused().ran(steps).diagnostics;
            &&& d.timer_ready_polls <= d.ready_polls
            &&& d.poll_calls < u32::MAX && d.pending_polls < u32::MAX && d.ready_polls
                < u32::MAX ==> {
                &&& d.poll_calls == begun_polls(steps)
                &&& d.pending_polls + d.ready_polls == ended_polls(steps)
                &&& begun_polls(steps) == ended_polls(steps) ==> d.poll_calls == d.pending_polls
                    + d.ready_polls
            }
        }),
    decreases steps.len(),
{
    if steps.len() > 0 {
        law_every_poll_is_pending_or_ready(steps.drop_last());
    }
}

/// Signals are not merged: below the largest count, each one makes its source
/// ready once more, and consuming it restores the state before it.
pub proof fn law_signals_stay_distinct(signals: WaitSignals, sources: WaitSet)
    requires
        signals.backend_pending < u32::MAX,
        signals.l2_rx_pending < u32::MAX,
    ensures
        signals.signalled(sources).ready(sources).backend == sources.backend,
        signals.signalled(sources).ready(sources).l2_rx == sources.l2_rx,
        signals.signalled(sources).drained(sources).backend_pending == signals.backend_pending,
        signals.signalled(sources).drained(sources).l2_rx_pending == signals.l2_rx_pending,
{
}

/// A wait reports no source that it does not wait for, and leaves the signals of
/// the others alone.
pub proof fn law_unwaited_signals_are_kept(
    signals: WaitSignals,
    sources: WaitSet,
    frames_waiting: bool,
    timer_ready: bool,
)
    ensures
        !sources.backend ==> !signals.seen(sources, frames_waiting, timer_ready).backend
            && signals.drained(sources).backend_pending == signals.backend_pending,
        !sources.l2_rx ==> !signals.seen(sources, frames_waiting, timer_ready).l2_rx
            && signals.drained(sources).l2_rx_pending == signals.l2_rx_pending,
        !sources.timer ==> !signals.seen(sources, frames_waiting, timer_ready).timer,
{
}

/// The first look of a poll finds a waited source exactly where there is something:
/// a signal of the backend, a signal or a frame of the receive path, or a deadline
/// that has passed. It takes one signal of each waited source, if there is one.
pub proof fn law_first_look_finds_what_is_there(
    sources: WaitSet,
    frames_waiting: bool,
    timer_ready: bool,
)
    ensures
        forall|signals: &mut WaitSignals, ready: WaitSet| #[trigger]
            call_ensures(
                WaitSignals::begin_poll,
                (signals, sources, frames_waiting, timer_ready),
                ready,
            ) ==> {
                let before = *signals;
                let after = *final(signals);
                &&& ready.backend <==> sources.backend && before.backend_pending > 0
                &&& ready.l2_rx <==> sources.l2_rx && (before.l2_rx_pending > 0 || frames_waiting)
                &&& ready.timer <==> sources.timer && timer_ready
                &&& !ready.command && !ready.cancel
                &&& before.backend_pending - after.backend_pending == (if ready.backend {
                    1int
                } else {
                    0
                })
                &&& before.l2_rx_pending - after.l2_rx_pending == (if sources.l2_rx
                    && before.l2_rx_pending > 0 {
                    1int
                } else {
                    0
                })
            },
{
}

/// A poll ends as pending exactly when neither its first look nor, after an empty
/// one, its second look found a waited signal. What the first look found is what it
/// reports.
pub proof fn law_poll_ends_with_what_was_found(sources: WaitSet, ready: WaitSet)
    ensures
        forall|signals: &mut WaitSignals, outcome: Option<WaitSet>| #[trigger]
            call_ensures(WaitSignals::finish_poll, (signals, sources, ready), outcome) ==> {
                let before = *signals;
                let nothing = ready.spec_bits() == 0;
                &&& !nothing ==> outcome == Some(ready) && (*final(signals)).backend_pending
                    == before.backend_pending && (*final(signals)).l2_rx_pending
                    == before.l2_rx_pending
                &&& nothing ==> (outcome is Some <==> sources.backend && before.backend_pending > 0
                    || sources.l2_rx && before.l2_rx_pending > 0)
                &&& nothing && outcome is Some ==> {
                    &&& outcome->0.backend <==> sources.backend && before.backend_pending > 0
                    &&& outcome->0.l2_rx <==> sources.l2_rx && before.l2_rx_pending > 0
                    &&& !outcome->0.timer && !outcome->0.command && !outcome->0.cancel
                }
            },
{
}

/// A signal of the backend or of the receive path is counted for that source alone,
/// up to the largest count, and each one wakes the runner.
pub proof fn law_signal_is_counted_for_its_source()
    ensures
        forall|signals: &mut WaitSignals, unit: ()| #[trigger]
            call_ensures(WaitSignals::signal_backend, (signals,), unit) ==> {
                let before = *signals;
                let after = *final(signals);
                &&& before.backend_pending < u32::MAX ==> after.backend_pending
                    == before.backend_pending + 1
                &&& before.backend_pending == u32::MAX ==> after.backend_pending == u32::MAX
                &&& after.l2_rx_pending == before.l2_rx_pending
                &&& after.diagnostics.l2_rx_signals == before.diagnostics.l2_rx_signals
                &&& before.diagnostics.backend_signals < u32::MAX
                    ==> after.diagnostics.backend_signals == before.diagnostics.backend_signals + 1
                &&& before.diagnostics.waker_notifications < u32::MAX
                    ==> after.diagnostics.waker_notifications
                    == before.diagnostics.waker_notifications + 1
            },
        forall|signals: &mut WaitSignals, unit: ()| #[trigger]
            call_ensures(WaitSignals::signal_l2_rx, (signals,), unit) ==> {
                let before = *signals;
                let after = *final(signals);
                &&& before.l2_rx_pending < u32::MAX ==> after.l2_rx_pending == before.l2_rx_pending
                    + 1
                &&& before.l2_rx_pending == u32::MAX ==> after.l2_rx_pending == u32::MAX
                &&& after.backend_pending == before.backend_pending
                &&& after.diagnostics.backend_signals == before.diagnostics.backend_signals
                &&& before.diagnostics.l2_rx_signals < u32::MAX ==> after.diagnostics.l2_rx_signals
                    == before.diagnostics.l2_rx_signals + 1
            },
{
}

/// A timer is set exactly for a deadline that lies ahead and that none is set for,
/// as far ahead as it lies; a deadline that has passed is ready, and without one
/// there is no timer.
pub proof fn law_timer_stands_for_the_deadline(
    installed_us: Option<u64>,
    deadline_us: Option<u64>,
    now_us: u64,
    step: TimerStep,
)
    requires
        call_ensures(poll_timer, (installed_us, deadline_us, now_us), step),
    ensures
        step == (TimerStep::Clear { ready: true }) <==> deadline_us is Some && deadline_us->0
            <= now_us,
        step == (TimerStep::Clear { ready: false }) <==> deadline_us is None,
        step is Keep <==> deadline_us is Some && deadline_us->0 > now_us && installed_us
            == deadline_us,
        step matches TimerStep::Install { deadline_us: due, after_us } ==> deadline_us == Some(due)
            && now_us + after_us == due && after_us > 0 && installed_us != Some(due),
{
}

/// Taking what is ready takes at most one signal of each waited source, and tells exactly
/// those that it took.
pub proof fn law_taken_signals_are_told(sources: WaitSet)
    ensures
        forall|signals: &mut WaitSignals, ready: WaitSet| #[trigger]
            call_ensures(WaitSignals::take_ready, (signals, sources), ready) ==> {
                let before = *signals;
                let after = *final(signals);
                &&& ready.backend <==> sources.backend && before.backend_pending > 0
                &&& ready.l2_rx <==> sources.l2_rx && before.l2_rx_pending > 0
                &&& !ready.timer && !ready.command && !ready.cancel
                &&& before.backend_pending - after.backend_pending == (if ready.backend {
                    1int
                } else {
                    0
                })
                &&& before.l2_rx_pending - after.l2_rx_pending == (if ready.l2_rx {
                    1int
                } else {
                    0
                })
                &&& after.diagnostics == before.diagnostics
            },
{
}

} // verus!
