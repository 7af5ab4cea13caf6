//! The device handler of the stop command, as a sequence of native questions.
//!
//! The transaction is shared with the waiter, which may time it out between any
//! two steps, so every step is handed the transaction as it is then.

use crate::netif_l2::rx_stop::rebuild::RxRebuildDiagnostics;
use crate::netif_l2::rx_stop::{
    Checkpoint, RxStopDiagnostics, Transaction, CONTRACT, MAC_ENABLED, QUEUED_RX,
};
use vstd::prelude::*;

verus! {

/// What the handler asks for next.
#[derive(Clone, Copy, Debug, PartialEq, Eq, Structural)]
pub enum HandlerAction {
    ReadClock,
    ReadWorker,
    ReadQueuedRx,
    ReadMac,
    Disable,
    Destroy,
    ReadDevice,
    ReadEmpty,
    Rebuild,
    /// The handler returns this status to the native framework.
    Return(i32),
}

/// The answer to what the handler asked for.
#[derive(Clone, Copy, Debug, PartialEq, Eq)]
pub enum HandlerReply {
    Clock(Option<u64>),
    Worker { expected: u32, current: Option<u32> },
    QueuedRx(bool),
    Mac(u8),
    Disabled,
    Status(i32),
    Device(bool),
    Empty(u8),
    Rebuilt(RxRebuildDiagnostics),
}

/// What the handler waits for.
#[derive(Clone, Copy, Debug, PartialEq, Eq, Structural)]
pub enum HandlerPhase {
    Entry,
    Worker,
    Mode,
    Deadline,
    MacBefore,
    Disabling,
    DisabledAt,
    MacDisabled,
    Destroying,
    DestroyedAt,
    MacAfter,
    Device,
    Empty,
    RebuildAt,
    Rebuilding,
    FinishedAt,
    Returned,
}

/// One run of the handler.
#[derive(Clone, Copy, Debug)]
pub struct StopHandler {
    pub phase: HandlerPhase,
    pub before: u8,
    pub after: u8,
    pub empty: u8,
    pub status: i32,
    pub rebuilt: Option<RxRebuildDiagnostics>,
}

impl StopHandler {
    pub fn new() -> (handler: Self)
        ensures
            handler == (StopHandler {
                phase: HandlerPhase::Entry,
                before: 0xff,
                after: 0xff,
                empty: 0xff,
                status: 0,
                rebuilt: None,
            }),
    {
        StopHandler {
            phase: HandlerPhase::Entry,
            before: 0xff,
            after: 0xff,
            empty: 0xff,
            status: 0,
            rebuilt: None,
        }
    }

    pub open spec fn awaits(self, reply: HandlerReply) -> bool {
        match self.phase {
            HandlerPhase::Entry | HandlerPhase::Deadline | HandlerPhase::DisabledAt
            | HandlerPhase::DestroyedAt | HandlerPhase::RebuildAt
            | HandlerPhase::FinishedAt => reply is Clock,
            HandlerPhase::Worker => reply is Worker,
            HandlerPhase::Mode => reply is QueuedRx,
            HandlerPhase::MacBefore | HandlerPhase::MacDisabled
            | HandlerPhase::MacAfter => reply is Mac,
            HandlerPhase::Disabling => reply is Disabled,
            HandlerPhase::Destroying => reply is Status,
            HandlerPhase::Device => reply is Device,
            HandlerPhase::Empty => reply is Empty,
            HandlerPhase::Rebuilding => reply is Rebuilt,
            HandlerPhase::Returned => false,
        }
    }

    pub open spec fn at(self, phase: HandlerPhase) -> StopHandler {
        StopHandler { phase, ..self }
    }

    /// The teardown left disabled hardware and empty lists.
    pub open spec fn clean(self) -> bool {
        self.status == 0 && self.after == 0 && self.empty == 1
    }

    /// The transaction with the report of a round trip.
    pub open spec fn reported(self, transaction: Transaction) -> Transaction {
        match self.rebuilt {
            Some(report) => {
                let noted = Transaction {
                    diagnostic: RxStopDiagnostics { rebuild: report, ..transaction.diagnostic },
                    ..transaction
                };
                if report.fault != 0 {
                    noted.failed(report.fault)
                } else {
                    noted
                }
            },
            None => transaction,
        }
    }

    /// The handler after a reply, what it asks for next, and the transaction but
    /// for its timings.
    pub open spec fn next(self, reply: HandlerReply, transaction: Transaction) -> (
        StopHandler,
        HandlerAction,
        Transaction,
    ) {
        match (self.phase, reply) {
            (HandlerPhase::Entry, HandlerReply::Clock(now)) => match transaction.overdue(now) {
                Some(status) => (
                    self.at(HandlerPhase::Returned),
                    HandlerAction::Return(status),
                    transaction.judged(now),
                ),
                None => if transaction.phase is Requested {
                    (
                        self.at(HandlerPhase::Worker),
                        HandlerAction::ReadWorker,
                        transaction.entered(),
                    )
                } else {
                    (
                        self.at(HandlerPhase::Returned),
                        HandlerAction::Return(CONTRACT),
                        transaction.entered(),
                    )
                },
            },
            (HandlerPhase::Worker, HandlerReply::Worker { expected, current }) => {
                let noted = Transaction {
                    diagnostic: RxStopDiagnostics {
                        expected_task: expected,
                        current_task: match current {
                            Some(task) => task,
                            None => u32::MAX,
                        },
                        ..transaction.diagnostic
                    },
                    ..transaction
                };
                if expected != 0 && expected != u32::MAX && current == Some(expected) {
                    (self.at(HandlerPhase::Mode), HandlerAction::ReadQueuedRx, noted)
                } else {
                    (
                        self.at(HandlerPhase::Returned),
                        HandlerAction::Return(noted.failed(CONTRACT).diagnostic.fault),
                        noted.failed(CONTRACT),
                    )
                }
            },
            (HandlerPhase::Mode, HandlerReply::QueuedRx(queued)) => if queued {
                (
                    self.at(HandlerPhase::Returned),
                    HandlerAction::Return(transaction.failed(QUEUED_RX).diagnostic.fault),
                    transaction.failed(QUEUED_RX),
                )
            } else {
                (self.at(HandlerPhase::Deadline), HandlerAction::ReadClock, transaction)
            },
            (HandlerPhase::Deadline, HandlerReply::Clock(now)) => match transaction.overdue(now) {
                Some(status) => (
                    self.at(HandlerPhase::Returned),
                    HandlerAction::Return(status),
                    transaction.judged(now),
                ),
                None => (self.at(HandlerPhase::MacBefore), HandlerAction::ReadMac, transaction),
            },
            (HandlerPhase::MacBefore, HandlerReply::Mac(mac)) => (
                StopHandler { phase: HandlerPhase::Disabling, before: mac, ..self },
                HandlerAction::Disable,
                transaction,
            ),
            (HandlerPhase::Disabling, HandlerReply::Disabled) => (
                self.at(HandlerPhase::DisabledAt),
                HandlerAction::ReadClock,
                transaction,
            ),
            (HandlerPhase::DisabledAt, HandlerReply::Clock(_)) => (
                self.at(HandlerPhase::MacDisabled),
                HandlerAction::ReadMac,
                transaction,
            ),
            (HandlerPhase::MacDisabled, HandlerReply::Mac(mac)) => if mac == 0 {
                (self.at(HandlerPhase::Destroying), HandlerAction::Destroy, transaction)
            } else {
                (
                    StopHandler { phase: HandlerPhase::DestroyedAt, status: MAC_ENABLED, ..self },
                    HandlerAction::ReadClock,
                    transaction,
                )
            },
            (HandlerPhase::Destroying, HandlerReply::Status(status)) => (
                StopHandler { phase: HandlerPhase::DestroyedAt, status, ..self },
                HandlerAction::ReadClock,
                transaction,
            ),
            (HandlerPhase::DestroyedAt, HandlerReply::Clock(_)) => (
                self.at(HandlerPhase::MacAfter),
                HandlerAction::ReadMac,
                transaction,
            ),
            (HandlerPhase::MacAfter, HandlerReply::Mac(mac)) => (
                StopHandler { phase: HandlerPhase::Device, after: mac, ..self },
                HandlerAction::ReadDevice,
                transaction,
            ),
            (HandlerPhase::Device, HandlerReply::Device(present)) => if present {
                (self.at(HandlerPhase::Empty), HandlerAction::ReadEmpty, transaction)
            } else {
                (
                    self.at(HandlerPhase::Returned),
                    HandlerAction::Return(transaction.failed(CONTRACT).diagnostic.fault),
                    transaction.failed(CONTRACT),
                )
            },
            (HandlerPhase::Empty, HandlerReply::Empty(empty)) => (
                StopHandler { phase: HandlerPhase::RebuildAt, empty, ..self },
                HandlerAction::ReadClock,
                transaction,
            ),
            (HandlerPhase::RebuildAt, HandlerReply::Clock(now)) => if !self.clean() {
                (self.at(HandlerPhase::FinishedAt), HandlerAction::ReadClock, transaction)
            } else if transaction.overdue(now) is None && transaction.phase is Executing {
                (
                    self.at(HandlerPhase::Rebuilding),
                    HandlerAction::Rebuild,
                    transaction.judged(now),
                )
            } else {
                (
                    self.at(HandlerPhase::FinishedAt),
                    HandlerAction::ReadClock,
                    transaction.judged(now),
                )
            },
            (HandlerPhase::Rebuilding, HandlerReply::Rebuilt(report)) => (
                StopHandler { phase: HandlerPhase::FinishedAt, rebuilt: Some(report), ..self },
                HandlerAction::ReadClock,
                transaction,
            ),
            (HandlerPhase::FinishedAt, HandlerReply::Clock(now)) => {
                let done = self.reported(transaction).judged(now).finished(
                    self.before,
                    self.after,
                    self.empty,
                    self.status,
                );
                (
                    self.at(HandlerPhase::Returned),
                    HandlerAction::Return(done.diagnostic.fault),
                    done,
                )
            },
            _ => (self, HandlerAction::Return(CONTRACT), transaction),
        }
    }

    /// The checkpoint that a reply is recorded at.
    pub open spec fn checkpoint(self) -> Option<Checkpoint> {
        match self.phase {
            HandlerPhase::Entry => Some(Checkpoint::Entered),
            HandlerPhase::DisabledAt => Some(Checkpoint::Disabled),
            HandlerPhase::DestroyedAt => Some(Checkpoint::Destroyed),
            HandlerPhase::FinishedAt => Some(Checkpoint::Finished),
            _ => None,
        }
    }

    #[verifier::spinoff_prover]
    #[verifier::rlimit(80)]
    pub fn resume(&mut self, transaction: &mut Transaction, reply: HandlerReply) -> (action:
        HandlerAction)
        requires
            old(self).awaits(reply),
        ensures
            *final(self) == old(self).next(reply, *old(transaction)).0,
            action == old(self).next(reply, *old(transaction)).1,
            final(transaction).same_but_timings(old(self).next(reply, *old(transaction)).2),
            match (old(self).checkpoint(), reply) {
                (Some(checkpoint), HandlerReply::Clock(now)) => {
                    final(transaction).diagnostic.timings.0@ == old(transaction).timed(
                        checkpoint,
                        now,
                    )
                },
                _ => final(transaction).diagnostic.timings == old(transaction).diagnostic.timings,
            },
    {
        match (self.phase, reply) {
            (HandlerPhase::Entry, HandlerReply::Clock(now)) => match transaction.enter_at(now) {
                Ok(_) => {
                    self.phase = HandlerPhase::Worker;
                    HandlerAction::ReadWorker
                },
                Err(status) => {
                    self.phase = HandlerPhase::Returned;
                    HandlerAction::Return(status)
                },
            },
            (HandlerPhase::Worker, HandlerReply::Worker { expected, current }) => {
                match transaction.identify(expected, current) {
                    Ok(_) => {
                        self.phase = HandlerPhase::Mode;
                        HandlerAction::ReadQueuedRx
                    },
                    Err(status) => {
                        self.phase = HandlerPhase::Returned;
                        HandlerAction::Return(status)
                    },
                }
            },
            (HandlerPhase::Mode, HandlerReply::QueuedRx(queued)) => {
                if queued {
                    self.phase = HandlerPhase::Returned;
                    HandlerAction::Return(transaction.fail(QUEUED_RX))
                } else {
                    self.phase = HandlerPhase::Deadline;
                    HandlerAction::ReadClock
                }
            },
            (HandlerPhase::Deadline, HandlerReply::Clock(now)) => {
                match transaction.check_deadline(now) {
                    Ok(_) => {
                        self.phase = HandlerPhase::MacBefore;
                        HandlerAction::ReadMac
                    },
                    Err(status) => {
                        self.phase = HandlerPhase::Returned;
                        HandlerAction::Return(status)
                    },
                }
            },
            (HandlerPhase::MacBefore, HandlerReply::Mac(mac)) => {
                self.before = mac;
                self.phase = HandlerPhase::Disabling;
                HandlerAction::Disable
            },
            (HandlerPhase::Disabling, HandlerReply::Disabled) => {
                self.phase = HandlerPhase::DisabledAt;
                HandlerAction::ReadClock
            },
            (HandlerPhase::DisabledAt, HandlerReply::Clock(now)) => {
                transaction.observe(Checkpoint::Disabled, now);
                self.phase = HandlerPhase::MacDisabled;
                HandlerAction::ReadMac
            },
            (HandlerPhase::MacDisabled, HandlerReply::Mac(mac)) => {
                if mac == 0 {
                    self.phase = HandlerPhase::Destroying;
                    HandlerAction::Destroy
                } else {
                    self.status = MAC_ENABLED;
                    self.phase = HandlerPhase::DestroyedAt;
                    HandlerAction::ReadClock
                }
            },
            (HandlerPhase::Destroying, HandlerReply::Status(status)) => {
                self.status = status;
                self.phase = HandlerPhase::DestroyedAt;
                HandlerAction::ReadClock
            },
            (HandlerPhase::DestroyedAt, HandlerReply::Clock(now)) => {
                transaction.observe(Checkpoint::Destroyed, now);
                self.phase = HandlerPhase::MacAfter;
                HandlerAction::ReadMac
            },
            (HandlerPhase::MacAfter, HandlerReply::Mac(mac)) => {
                self.after = mac;
                self.phase = HandlerPhase::Device;
                HandlerAction::ReadDevice
            },
            (HandlerPhase::Device, HandlerReply::Device(present)) => {
                if present {
                    self.phase = HandlerPhase::Empty;
                    HandlerAction::ReadEmpty
                } else {
                    self.phase = HandlerPhase::Returned;
                    HandlerAction::Return(transaction.fail(CONTRACT))
                }
            },
            (HandlerPhase::Empty, HandlerReply::Empty(empty)) => {
                self.empty = empty;
                self.phase = HandlerPhase::RebuildAt;
                HandlerAction::ReadClock
            },
            (HandlerPhase::RebuildAt, HandlerReply::Clock(now)) => {
                if self.status == 0 && self.after == 0 && self.empty == 1
                    && transaction.may_rebuild_at(now) {
                    self.phase = HandlerPhase::Rebuilding;
                    HandlerAction::Rebuild
                } else {
                    self.phase = HandlerPhase::FinishedAt;
                    HandlerAction::ReadClock
                }
            },
            (HandlerPhase::Rebuilding, HandlerReply::Rebuilt(report)) => {
                self.rebuilt = Some(report);
                self.phase = HandlerPhase::FinishedAt;
                HandlerAction::ReadClock
            },
            (HandlerPhase::FinishedAt, HandlerReply::Clock(now)) => {
                if let Some(report) = self.rebuilt {
                    transaction.diagnostic.rebuild = report;
                    if report.fault != 0 {
                        transaction.fail(report.fault);
                    }
                }
                transaction.finish_at(now, self.before, self.after, self.empty, self.status);
                self.phase = HandlerPhase::Returned;
                HandlerAction::Return(transaction.diagnostic.fault)
            },
            _ => HandlerAction::Return(CONTRACT),
        }
    }
}

/// Destructive work needs a live transaction: the hardware is disabled only
/// after the worker, the mode and the deadline were checked, the descriptors are
/// destroyed only on disabled hardware, and a round trip only starts within the
/// deadline.
pub proof fn law_destructive_work_is_guarded(
    handler: StopHandler,
    reply: HandlerReply,
    transaction: Transaction,
)
    requires
        handler.awaits(reply),
    ensures
        handler.next(reply, transaction).0.phase is MacBefore ==> transaction.diagnostic.fault == 0
            && transaction.diagnostic.requested,
        handler.next(reply, transaction).1 is Disable ==> handler.phase is MacBefore,
        handler.next(reply, transaction).1 is Destroy ==> reply == HandlerReply::Mac(0)
            && handler.phase is MacDisabled,
        handler.next(reply, transaction).1 is Rebuild ==> transaction.phase is Executing
            && transaction.diagnostic.fault == 0 && handler.clean(),
{
}

/// The handler reports success only for a finished stop without a fault.
pub proof fn law_handler_success_is_a_receipt(
    handler: StopHandler,
    reply: HandlerReply,
    transaction: Transaction,
)
    requires
        handler.awaits(reply),
        handler.next(reply, transaction).1 == HandlerAction::Return(0),
    ensures
        handler.next(reply, transaction).2.phase is Returned,
        handler.next(reply, transaction).2.diagnostic.fault == 0,
        handler.clean(),
{
}

/// The handler keeps the order of the stages, whatever it is answered.
pub proof fn law_handler_keeps_the_stages(
    handler: StopHandler,
    reply: HandlerReply,
    before: Transaction,
    after: Transaction,
)
    requires
        before.wf(),
        handler.awaits(reply),
        after.same_but_timings(handler.next(reply, before).2),
    ensures
        after.wf(),
{
    assert(handler.reported(before).wf());
}

/// A stop that meets no obstacle takes every step once, in this order: its entry, its
/// worker, its mode and its deadline are checked; the hardware is read, turned off and
/// read again; the descriptors are destroyed; the hardware, the device and the lists are
/// looked at; a round trip is made; and the receipt is written.
pub proof fn law_handler_takes_every_step_in_order(
    handler: StopHandler,
    transaction: Transaction,
    now: Option<u64>,
    expected: u32,
    mac: u8,
    empty: u8,
    status: i32,
    report: RxRebuildDiagnostics,
)
    requires
        transaction.overdue(now) is None,
        expected != 0 && expected != u32::MAX,
    ensures
        ({
            let clock = handler.next(HandlerReply::Clock(now), transaction);
            let worker = handler.next(
                HandlerReply::Worker { expected, current: Some(expected) },
                transaction,
            );
            let mode = handler.next(HandlerReply::QueuedRx(false), transaction);
            let read = handler.next(HandlerReply::Mac(mac), transaction);
            let off = handler.next(HandlerReply::Mac(0), transaction);
            let disabled = handler.next(HandlerReply::Disabled, transaction);
            let destroyed = handler.next(HandlerReply::Status(status), transaction);
            let device = handler.next(HandlerReply::Device(true), transaction);
            let lists = handler.next(HandlerReply::Empty(empty), transaction);
            let rebuilt = handler.next(HandlerReply::Rebuilt(report), transaction);
            &&& handler.phase is Entry && transaction.phase is Requested ==> clock.1 is ReadWorker
                && clock.2.phase is Executing && clock.0.phase is Worker
            &&& handler.phase is Worker ==> worker.1 is ReadQueuedRx && worker.0.phase is Mode
            &&& handler.phase is Mode ==> mode.1 is ReadClock && mode.0.phase is Deadline
            &&& handler.phase is Deadline ==> clock.1 is ReadMac && clock.0.phase is MacBefore
            &&& handler.phase is MacBefore ==> read.1 is Disable && read.0.before == mac
                && read.0.phase is Disabling
            &&& handler.phase is Disabling ==> disabled.1 is ReadClock
                && disabled.0.phase is DisabledAt
            &&& handler.phase is DisabledAt ==> clock.1 is ReadMac && clock.0.phase is MacDisabled
            &&& handler.phase is MacDisabled ==> off.1 is Destroy && off.0.phase is Destroying
            &&& handler.phase is MacDisabled && mac != 0 ==> read.1 is ReadClock && read.0.status
                == -0x1022 && read.0.phase is DestroyedAt
            &&& handler.phase is Destroying ==> destroyed.1 is ReadClock && destroyed.0.status
                == status && destroyed.0.phase is DestroyedAt
            &&& handler.phase is DestroyedAt ==> clock.1 is ReadMac && clock.0.phase is MacAfter
            &&& handler.phase is MacAfter ==> read.1 is ReadDevice && read.0.after == mac
                && read.0.phase is Device
            &&& handler.phase is Device ==> device.1 is ReadEmpty && device.0.phase is Empty
            &&& handler.phase is Empty ==> lists.1 is ReadClock && lists.0.empty == empty
                && lists.0.phase is RebuildAt
            &&& handler.phase is RebuildAt && transaction.phase is Executing ==> (
            clock.1 is Rebuild <==> handler.status == 0 && handler.after == 0 && handler.empty == 1)
            &&& handler.phase is Rebuilding ==> rebuilt.1 is ReadClock && rebuilt.0.rebuilt == Some(
                report,
            ) && rebuilt.0.phase is FinishedAt
            &&& handler.phase is FinishedAt && transaction.phase is Executing ==> {
                let d = clock.2.diagnostic;
                &&& clock.1 == HandlerAction::Return(d.fault)
                &&& clock.2.phase is Returned
                &&& d.mac_before == handler.before && d.mac_after == handler.after
                    && d.descriptors_empty == handler.empty && d.native_status == handler.status
                &&& handler.rebuilt is Some ==> d.rebuild == handler.rebuilt->0
                &&& d.fault == 0 <==> handler.status == 0 && handler.after == 0 && handler.empty == 1
                    && (handler.rebuilt is None || handler.rebuilt->0.fault == 0)
            }
        }),
{
}

/// An obstacle ends the handler at once with the fault that the transaction keeps: a
/// request that is late or was not made, another worker, queued reception, or a device
/// that is gone.
pub proof fn law_handler_stops_at_an_obstacle(
    handler: StopHandler,
    transaction: Transaction,
    now: Option<u64>,
    expected: u32,
    current: Option<u32>,
)
    requires
        transaction.diagnostic.fault == 0,
    ensures
        ({
            let clock = handler.next(HandlerReply::Clock(now), transaction);
            let worker = handler.next(HandlerReply::Worker { expected, current }, transaction);
            let mode = handler.next(HandlerReply::QueuedRx(true), transaction);
            let device = handler.next(HandlerReply::Device(false), transaction);
            let late = transaction.diagnostic.requested && now is Some && !(transaction.started_ms
                <= now->0 && now->0 < transaction.started_ms + 1000);
            &&& (handler.phase is Entry || handler.phase is Deadline) && late ==> clock.1
                == HandlerAction::Return(-0x1021i32) && clock.2.diagnostic.fault == -0x1021
            &&& (handler.phase is Entry || handler.phase is Deadline) && (now is None
                || !transaction.diagnostic.requested) ==> clock.1 == HandlerAction::Return(-0x1020i32)
            &&& handler.phase is Worker && current != Some(expected) ==> worker.1
                == HandlerAction::Return(-0x1020i32) && worker.2.diagnostic.fault == -0x1020
            &&& handler.phase is Mode ==> mode.1 == HandlerAction::Return(-0x1024i32)
                && mode.2.diagnostic.fault == -0x1024
            &&& handler.phase is Device ==> device.1 == HandlerAction::Return(-0x1020i32)
                && device.2.diagnostic.fault == -0x1020
            &&& handler.phase is FinishedAt && late && handler.rebuilt is None ==> clock.1
                == HandlerAction::Return(-0x1021i32)
        }),
{
}

} // verus!
