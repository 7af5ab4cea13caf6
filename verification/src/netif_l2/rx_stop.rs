//! One-shot stop of native reception, not a reusable fence.
//!
//! The descriptor teardown runs in its device worker, with a correlated receipt.
//! Disabled hardware plus empty software lists do not prove that DMA or queued
//! work has drained, so reopening stays forbidden.

pub mod handler;
pub mod rebuild;

use crate::netif_l2::rx_stop::rebuild::RxRebuildDiagnostics;
use vstd::prelude::*;

verus! {

pub const CONTRACT: i32 = -0x1020;

pub const TIMEOUT: i32 = -0x1021;

pub const MAC_ENABLED: i32 = -0x1022;

pub const DESCRIPTORS_REMAIN: i32 = -0x1023;

pub const QUEUED_RX: i32 = -0x1024;

pub const DEADLINE_MS: u64 = 1_000;

/// The native message that carries the stop.
pub const MESSAGE: u16 = 91;

/// First word of the stop command.
pub const COMMAND_TAG: u32 = 0x3058_524e;

/// Second word of the stop command: the one ticket of a boot.
pub const COMMAND_TICKET: u32 = 1;

/// Where a stop is observed.
#[derive(Clone, Copy, Debug, PartialEq, Eq, Structural)]
pub enum Checkpoint {
    Entered,
    Disabled,
    Destroyed,
    Initialized,
    Cleaned,
    Finished,
    Posted,
    Observed,
}

/// Milliseconds since the request, by checkpoint. `u32::MAX` means that a
/// checkpoint was not observed or has no representable time.
#[derive(Clone, Copy, Debug, PartialEq, Eq)]
pub struct RxStopTimings(pub [u32; 8]);

/// Progress of the one stop.
#[derive(Clone, Copy, Debug, PartialEq, Eq, Structural)]
pub enum Phase {
    Idle,
    Requested,
    Executing,
    Returned,
}

/// Immediate observations of the stop.
#[derive(Clone, Copy, Debug, PartialEq, Eq)]
pub struct RxStopDiagnostics {
    pub installed: bool,
    pub requested: bool,
    pub entered: bool,
    pub returned: bool,
    pub post_returned: bool,
    pub mac_before: u8,
    pub mac_after: u8,
    pub descriptors_empty: u8,
    pub native_status: i32,
    pub fault: i32,
    pub expected_task: u32,
    pub current_task: u32,
    pub rebuild: RxRebuildDiagnostics,
    pub timings: RxStopTimings,
}

/// The one stop of a boot.
#[derive(Clone, Copy, Debug)]
pub struct Transaction {
    pub phase: Phase,
    pub diagnostic: RxStopDiagnostics,
    pub started_ms: u64,
}

/// The two words of the stop command.
pub fn command() -> (words: [u32; 2])
    ensures
        words@ == seq![COMMAND_TAG, COMMAND_TICKET],
{
    let words: [u32; 2] = [COMMAND_TAG, COMMAND_TICKET];
    assert(words@ =~= seq![COMMAND_TAG, COMMAND_TICKET]);
    words
}

/// Whether a device message is the stop command; any other one keeps its native
/// meaning.
pub fn is_command(payload: Option<(u32, [u32; 2])>) -> (matched: bool)
    ensures
        matched == (payload matches Some((len, words)) && len == 8 && words@ == seq![
            COMMAND_TAG,
            COMMAND_TICKET,
        ]),
{
    match payload {
        Some((len, words)) => {
            let same = words[0] == COMMAND_TAG && words[1] == COMMAND_TICKET;
            assert(same ==> words@ =~= seq![COMMAND_TAG, COMMAND_TICKET]);
            len == 8 && same
        },
        None => false,
    }
}

/// The slot of the stop message in the native handler table.
pub fn handler_slot(minimum: u16, maximum: u16, table_present: bool) -> (slot: Result<u16, i32>)
    ensures
        slot == (if minimum <= MESSAGE < maximum && table_present {
            Ok::<u16, i32>((MESSAGE - minimum) as u16)
        } else {
            Err(CONTRACT)
        }),
{
    if MESSAGE < minimum || MESSAGE >= maximum || !table_present {
        Err(CONTRACT)
    } else {
        Ok(MESSAGE - minimum)
    }
}

/// The native handler may be replaced only while it is the one that the table
/// holds.
pub fn replaceable(current: Result<usize, i32>, original: usize) -> (result: Result<(), i32>)
    ensures
        result == (match current {
            Ok(handler) => if handler == original {
                Ok::<(), i32>(())
            } else {
                Err(CONTRACT)
            },
            Err(status) => Err(status),
        }),
{
    match current {
        Ok(handler) => {
            if handler == original {
                Ok(())
            } else {
                Err(CONTRACT)
            }
        },
        Err(status) => Err(status),
    }
}

/// Whether the current task is the device worker, generation included. The
/// all-ones and zero identities name no worker.
pub fn same_worker(expected: u32, current: Option<u32>) -> (same: bool)
    ensures
        same == (expected != 0 && expected != u32::MAX && current == Some(expected)),
{
    match current {
        Some(task) => expected != 0 && expected != u32::MAX && task == expected,
        None => false,
    }
}

/// The position of a checkpoint in the timings.
pub open spec fn position(checkpoint: Checkpoint) -> int {
    match checkpoint {
        Checkpoint::Entered => 0,
        Checkpoint::Disabled => 1,
        Checkpoint::Destroyed => 2,
        Checkpoint::Initialized => 3,
        Checkpoint::Cleaned => 4,
        Checkpoint::Finished => 5,
        Checkpoint::Posted => 6,
        Checkpoint::Observed => 7,
    }
}

fn checkpoint_index(checkpoint: Checkpoint) -> (index: usize)
    ensures
        index == position(checkpoint),
        index < 8,
{
    match checkpoint {
        Checkpoint::Entered => 0,
        Checkpoint::Disabled => 1,
        Checkpoint::Destroyed => 2,
        Checkpoint::Initialized => 3,
        Checkpoint::Cleaned => 4,
        Checkpoint::Finished => 5,
        Checkpoint::Posted => 6,
        Checkpoint::Observed => 7,
    }
}

impl RxStopTimings {
    /// No checkpoint was observed.
    pub fn unobserved() -> (timings: Self)
        ensures
            timings.0@ == Seq::new(8, |i: int| u32::MAX),
    {
        let timings = RxStopTimings([u32::MAX;8]);
        assert(timings.0@ =~= Seq::new(8, |i: int| u32::MAX));
        timings
    }
}

/// The time of a checkpoint as it is recorded.
pub open spec fn elapsed(started_ms: u64, now: Option<u64>) -> u32 {
    match now {
        Some(time) => if started_ms <= time && time - started_ms <= u32::MAX {
            (time - started_ms) as u32
        } else {
            u32::MAX
        },
        None => u32::MAX,
    }
}

impl Transaction {
    /// The stages follow one another: a stop returns only once it was entered, is
    /// entered only once it was requested, and is requested only with the handler
    /// installed. Without a fault, a posting call that returned belongs to a
    /// request, and a return was clean.
    pub open spec fn wf(self) -> bool {
        let d = self.diagnostic;
        &&& d.returned <==> self.phase is Returned
        &&& d.entered <==> self.phase is Executing || self.phase is Returned
        &&& d.requested <==> !(self.phase is Idle)
        &&& d.requested ==> d.installed
        &&& d.post_returned && d.fault == 0 ==> d.requested
        &&& d.returned && d.fault == 0 ==> d.native_status == 0 && d.mac_after == 0
            && d.descriptors_empty == 1
    }

    /// The timings after a checkpoint: only the first observation of a requested
    /// stop is recorded.
    pub open spec fn timed(self, checkpoint: Checkpoint, now: Option<u64>) -> Seq<u32> {
        let timings = self.diagnostic.timings.0@;
        let i = position(checkpoint);
        if self.diagnostic.requested && timings[i] == u32::MAX {
            timings.update(i, elapsed(self.started_ms, now))
        } else {
            timings
        }
    }

    /// The same transaction but for its timings.
    pub open spec fn same_but_timings(self, other: Transaction) -> bool {
        self == (Transaction {
            diagnostic: RxStopDiagnostics {
                timings: self.diagnostic.timings,
                ..other.diagnostic
            },
            ..other
        })
    }

    /// The first fault is kept.
    pub open spec fn failed(self, status: i32) -> Transaction {
        Transaction {
            diagnostic: RxStopDiagnostics {
                fault: if self.diagnostic.fault == 0 {
                    status
                } else {
                    self.diagnostic.fault
                },
                ..self.diagnostic
            },
            ..self
        }
    }

    /// Why the stop may not go on at `now`, if it may not.
    pub open spec fn overdue(self, now: Option<u64>) -> Option<i32> {
        if self.diagnostic.fault != 0 {
            Some(self.diagnostic.fault)
        } else if !self.diagnostic.requested {
            Some(CONTRACT)
        } else {
            match now {
                None => Some(CONTRACT),
                Some(time) => if self.started_ms <= time && time - self.started_ms < DEADLINE_MS {
                    None
                } else {
                    Some(TIMEOUT)
                },
            }
        }
    }

    /// The transaction after the deadline was checked.
    pub open spec fn judged(self, now: Option<u64>) -> Transaction {
        match self.overdue(now) {
            Some(status) => self.failed(status),
            None => self,
        }
    }

    /// The transaction after the device handler entered.
    pub open spec fn entered(self) -> Transaction {
        if self.phase is Requested && self.diagnostic.fault == 0 {
            Transaction {
                phase: Phase::Executing,
                diagnostic: RxStopDiagnostics { entered: true, ..self.diagnostic },
                ..self
            }
        } else {
            self.failed(CONTRACT)
        }
    }

    /// The transaction after the posting call returned `status`.
    pub open spec fn posted(self, status: i32) -> Transaction {
        let checked = if self.diagnostic.post_returned || !self.diagnostic.requested {
            self.failed(CONTRACT)
        } else {
            self
        };
        let noted = Transaction {
            diagnostic: RxStopDiagnostics { post_returned: true, ..checked.diagnostic },
            ..checked
        };
        if status != 0 {
            noted.failed(status)
        } else {
            noted
        }
    }

    /// The transaction after the teardown returned with these observations.
    pub open spec fn finished(self, before: u8, after: u8, empty: u8, status: i32) -> Transaction {
        if self.phase is Executing {
            let noted = Transaction {
                phase: Phase::Returned,
                diagnostic: RxStopDiagnostics {
                    returned: true,
                    mac_before: before,
                    mac_after: after,
                    descriptors_empty: empty,
                    native_status: status,
                    ..self.diagnostic
                },
                ..self
            };
            if status != 0 {
                noted.failed(status)
            } else if after != 0 {
                noted.failed(MAC_ENABLED)
            } else if empty != 1 {
                noted.failed(DESCRIPTORS_REMAIN)
            } else {
                noted
            }
        } else {
            self.failed(CONTRACT)
        }
    }

    /// Whether both receipts are there, or the fault.
    pub open spec fn outcome(self) -> Result<bool, i32> {
        if self.diagnostic.fault != 0 {
            Err(self.diagnostic.fault)
        } else {
            Ok(self.phase is Returned && self.diagnostic.post_returned)
        }
    }

    pub fn new() -> (transaction: Self)
        ensures
            transaction.wf(),
            transaction.phase is Idle,
            transaction.started_ms == 0,
            !transaction.diagnostic.installed && !transaction.diagnostic.requested
                && !transaction.diagnostic.entered && !transaction.diagnostic.returned
                && !transaction.diagnostic.post_returned,
            transaction.diagnostic.fault == 0 && transaction.diagnostic.native_status == 0,
            transaction.diagnostic.expected_task == 0 && transaction.diagnostic.current_task == 0,
            transaction.diagnostic.rebuild.untried(),
            transaction.diagnostic.mac_before == 0xff && transaction.diagnostic.mac_after == 0xff
                && transaction.diagnostic.descriptors_empty == 0xff,
            transaction.diagnostic.timings.0@ == Seq::new(8, |i: int| u32::MAX),
    {
        Transaction {
            phase: Phase::Idle,
            started_ms: 0,
            diagnostic: RxStopDiagnostics {
                installed: false,
                requested: false,
                entered: false,
                returned: false,
                post_returned: false,
                mac_before: 0xff,
                mac_after: 0xff,
                descriptors_empty: 0xff,
                native_status: 0,
                fault: 0,
                expected_task: 0,
                current_task: 0,
                rebuild: RxRebuildDiagnostics {
                    expected: [0, 0, 0],
                    actual: [0, 0, 0],
                    cleaned: [0, 0, 0],
                    mac_after_init: 0xff,
                    mac_after_cleanup: 0xff,
                    attempted: false,
                    cleanup_attempted: false,
                    init_status: 0,
                    cleanup_status: 0,
                    fault: 0,
                },
                timings: RxStopTimings::unobserved(),
            },
        }
    }

    /// The replacement of the native handler was registered with `status`, and
    /// the table then held `installed`: only the replacement itself counts.
    pub fn installed_as(
        &mut self,
        status: u32,
        installed: Result<usize, i32>,
        replacement: usize,
    ) -> (result: Result<(), i32>)
        ensures
            old(self).wf() ==> final(self).wf(),
            result == (if status != 0 {
                Err::<(), i32>(CONTRACT)
            } else {
                match installed {
                    Ok(handler) => if handler == replacement {
                        Ok(())
                    } else {
                        Err(CONTRACT)
                    },
                    Err(failure) => Err(failure),
                }
            }),
            *final(self) == (Transaction {
                diagnostic: RxStopDiagnostics {
                    installed: old(self).diagnostic.installed || result is Ok,
                    ..old(self).diagnostic
                },
                ..*old(self)
            }),
    {
        if status != 0 {
            return Err(CONTRACT);
        }
        match replaceable(installed, replacement) {
            Ok(_) => {
                self.diagnostic.installed = true;
                Ok(())
            },
            Err(failure) => Err(failure),
        }
    }

    /// Record a fault and return the one that is kept.
    pub fn fail(&mut self, status: i32) -> (fault: i32)
        ensures
            old(self).wf() ==> final(self).wf(),
            *final(self) == old(self).failed(status),
            fault == final(self).diagnostic.fault,
    {
        if self.diagnostic.fault == 0 {
            self.diagnostic.fault = status;
        }
        self.diagnostic.fault
    }

    /// The stop can be requested once, after the handler was installed.
    pub open spec fn may_request(self) -> bool {
        self.diagnostic.installed && self.phase is Idle && self.diagnostic.fault == 0
    }

    pub fn request(&mut self) -> (result: Result<(), i32>)
        ensures
            old(self).wf() ==> final(self).wf(),
            match result {
                Ok(_) => old(self).may_request() && *final(self) == (Transaction {
                    phase: Phase::Requested,
                    diagnostic: RxStopDiagnostics { requested: true, ..old(self).diagnostic },
                    ..*old(self)
                }),
                Err(status) => !old(self).may_request() && *final(self) == old(self).failed(
                    CONTRACT,
                ) && status == final(self).diagnostic.fault,
            },
    {
        if !self.diagnostic.installed || self.phase != Phase::Idle || self.diagnostic.fault != 0 {
            return Err(self.fail(CONTRACT));
        }
        self.phase = Phase::Requested;
        self.diagnostic.requested = true;
        Ok(())
    }

    pub fn request_at(&mut self, started_ms: u64) -> (result: Result<(), i32>)
        ensures
            old(self).wf() ==> final(self).wf(),
            match result {
                Ok(_) => old(self).may_request() && *final(self) == (Transaction {
                    phase: Phase::Requested,
                    diagnostic: RxStopDiagnostics { requested: true, ..old(self).diagnostic },
                    started_ms,
                }),
                Err(status) => !old(self).may_request() && *final(self) == old(self).failed(
                    CONTRACT,
                ) && status == final(self).diagnostic.fault,
            },
    {
        match self.request() {
            Ok(_) => {
                self.started_ms = started_ms;
                Ok(())
            },
            Err(status) => Err(status),
        }
    }

    /// Begin a stop, unless queued reception is or was in use.
    pub fn start(&mut self, queued_rx: bool, now: Option<u64>) -> (result: Result<(), i32>)
        ensures
            old(self).wf() ==> final(self).wf(),
            queued_rx ==> result == Err::<(), i32>(QUEUED_RX) && *final(self) == *old(self),
            !queued_rx && now is None ==> result == Err::<(), i32>(CONTRACT) && *final(self)
                == *old(self),
            !queued_rx && now is Some ==> match result {
                Ok(_) => old(self).may_request() && *final(self) == (Transaction {
                    phase: Phase::Requested,
                    diagnostic: RxStopDiagnostics { requested: true, ..old(self).diagnostic },
                    started_ms: now->0,
                }),
                Err(status) => !old(self).may_request() && *final(self) == old(self).failed(
                    CONTRACT,
                ) && status == final(self).diagnostic.fault,
            },
    {
        if queued_rx {
            return Err(QUEUED_RX);
        }
        match now {
            Some(started_ms) => self.request_at(started_ms),
            None => Err(CONTRACT),
        }
    }

    pub fn check_deadline(&mut self, now: Option<u64>) -> (result: Result<(), i32>)
        ensures
            old(self).wf() ==> final(self).wf(),
            *final(self) == old(self).judged(now),
            match old(self).overdue(now) {
                Some(status) => result == Err::<(), i32>(status),
                None => result == Ok::<(), i32>(()),
            },
    {
        if self.diagnostic.fault != 0 {
            return Err(self.diagnostic.fault);
        }
        if !self.diagnostic.requested {
            return Err(self.fail(CONTRACT));
        }
        match now {
            None => Err(self.fail(CONTRACT)),
            Some(time) => {
                if time < self.started_ms || time - self.started_ms >= DEADLINE_MS {
                    Err(self.fail(TIMEOUT))
                } else {
                    Ok(())
                }
            },
        }
    }

    pub fn observe(&mut self, checkpoint: Checkpoint, now: Option<u64>)
        ensures
            old(self).wf() ==> final(self).wf(),
            final(self).same_but_timings(*old(self)),
            final(self).diagnostic.timings.0@ == old(self).timed(checkpoint, now),
    {
        let index: usize = checkpoint_index(checkpoint);
        if self.diagnostic.requested && self.diagnostic.timings.0[index] == u32::MAX {
            let value: u32 = match now {
                Some(time) => {
                    if time >= self.started_ms && time - self.started_ms <= u32::MAX as u64 {
                        (time - self.started_ms) as u32
                    } else {
                        u32::MAX
                    }
                },
                None => u32::MAX,
            };
            self.diagnostic.timings.0[index] = value;
        }
    }

    pub fn enter_at(&mut self, now: Option<u64>) -> (result: Result<(), i32>)
        ensures
            old(self).wf() ==> final(self).wf(),
            final(self).diagnostic.timings.0@ == old(self).timed(Checkpoint::Entered, now),
            match old(self).overdue(now) {
                Some(status) => result == Err::<(), i32>(status) && final(self).same_but_timings(
                    old(self).judged(now),
                ),
                None => {
                    &&& final(self).same_but_timings(old(self).entered())
                    &&& result == (if old(self).phase is Requested {
                        Ok::<(), i32>(())
                    } else {
                        Err(CONTRACT)
                    })
                },
            },
    {
        self.observe(Checkpoint::Entered, now);
        match self.check_deadline(now) {
            Ok(_) => self.enter(),
            Err(status) => Err(status),
        }
    }

    pub fn may_rebuild_at(&mut self, now: Option<u64>) -> (allowed: bool)
        ensures
            old(self).wf() ==> final(self).wf(),
            *final(self) == old(self).judged(now),
            allowed == (old(self).overdue(now) is None && old(self).phase is Executing),
    {
        self.check_deadline(now).is_ok() && self.may_rebuild()
    }

    /// The teardown returned. Its observations are kept even when it is late, but
    /// its success cannot override the deadline.
    pub fn finish_at(&mut self, now: Option<u64>, before: u8, after: u8, empty: u8, status: i32)
        ensures
            old(self).wf() ==> final(self).wf(),
            final(self).diagnostic.timings.0@ == old(self).timed(Checkpoint::Finished, now),
            final(self).same_but_timings(
                old(self).judged(now).finished(before, after, empty, status),
            ),
    {
        self.observe(Checkpoint::Finished, now);
        let _ = self.check_deadline(now);
        self.finish(before, after, empty, status);
    }

    /// The waiter looks at the time before it looks at the receipts.
    pub fn result_at(&mut self, now: Option<u64>) -> (result: Result<bool, i32>)
        ensures
            old(self).wf() ==> final(self).wf(),
            result == (match old(self).overdue(now) {
                Some(status) => Err::<bool, i32>(status),
                None => old(self).outcome(),
            }),
            final(self).same_but_timings(old(self).judged(now)),
            final(self).diagnostic.timings.0@ == (if result == Ok::<bool, i32>(false) {
                old(self).diagnostic.timings.0@
            } else {
                old(self).timed(Checkpoint::Observed, now)
            }),
    {
        let result = match self.check_deadline(now) {
            Ok(_) => self.result(),
            Err(status) => Err(status),
        };
        match result {
            Ok(false) => {},
            _ => {
                self.observe(Checkpoint::Observed, now);
            },
        }
        result
    }

    pub fn enter(&mut self) -> (result: Result<(), i32>)
        ensures
            old(self).wf() ==> final(self).wf(),
            *final(self) == old(self).entered(),
            result == (if old(self).phase is Requested && old(self).diagnostic.fault == 0 {
                Ok::<(), i32>(())
            } else {
                Err(final(self).diagnostic.fault)
            }),
    {
        if self.phase != Phase::Requested || self.diagnostic.fault != 0 {
            return Err(self.fail(CONTRACT));
        }
        self.phase = Phase::Executing;
        self.diagnostic.entered = true;
        Ok(())
    }

    pub fn may_rebuild(&self) -> (allowed: bool)
        ensures
            allowed == (self.phase is Executing && self.diagnostic.fault == 0),
    {
        self.phase == Phase::Executing && self.diagnostic.fault == 0
    }

    pub fn post_returned(&mut self, status: i32)
        ensures
            old(self).wf() ==> final(self).wf(),
            *final(self) == old(self).posted(status),
    {
        if self.diagnostic.post_returned || !self.diagnostic.requested {
            self.fail(CONTRACT);
        }
        self.diagnostic.post_returned = true;
        if status != 0 {
            self.fail(status);
        }
    }

    pub fn finish(&mut self, before: u8, after: u8, empty: u8, status: i32)
        ensures
            old(self).wf() ==> final(self).wf(),
            *final(self) == old(self).finished(before, after, empty, status),
    {
        if self.phase != Phase::Executing {
            self.fail(CONTRACT);
            return;
        }
        self.phase = Phase::Returned;
        self.diagnostic.returned = true;
        self.diagnostic.mac_before = before;
        self.diagnostic.mac_after = after;
        self.diagnostic.descriptors_empty = empty;
        self.diagnostic.native_status = status;
        if status != 0 {
            self.fail(status);
        } else if after != 0 {
            self.fail(MAC_ENABLED);
        } else if empty != 1 {
            self.fail(DESCRIPTORS_REMAIN);
        }
    }

    pub fn result(&self) -> (result: Result<bool, i32>)
        ensures
            result == self.outcome(),
    {
        if self.diagnostic.fault != 0 {
            Err(self.diagnostic.fault)
        } else {
            Ok(self.phase == Phase::Returned && self.diagnostic.post_returned)
        }
    }

    /// The identity of the worker that runs the handler: a stop must not run in
    /// another task.
    pub fn identify(&mut self, expected: u32, current: Option<u32>) -> (result: Result<(), i32>)
        ensures
            old(self).wf() ==> final(self).wf(),
            ({
                let noted = Transaction {
                    diagnostic: RxStopDiagnostics {
                        expected_task: expected,
                        current_task: match current {
                            Some(task) => task,
                            None => u32::MAX,
                        },
                        ..old(self).diagnostic
                    },
                    ..*old(self)
                };
                if expected != 0 && expected != u32::MAX && current == Some(expected) {
                    result == Ok::<(), i32>(()) && *final(self) == noted
                } else {
                    *final(self) == noted.failed(CONTRACT) && result == Err::<(), i32>(
                        final(self).diagnostic.fault,
                    )
                }
            }),
    {
        self.diagnostic.expected_task = expected;
        self.diagnostic.current_task = match current {
            Some(task) => task,
            None => u32::MAX,
        };
        if same_worker(expected, current) {
            Ok(())
        } else {
            Err(self.fail(CONTRACT))
        }
    }
}

/// Success needs both receipts of a requested stop, on disabled hardware with
/// empty lists, within the deadline: a late, failed or partial stop cannot
/// become one.
pub proof fn law_late_teardown_cannot_succeed(
    transaction: Transaction,
    now: Option<u64>,
    before: u8,
    after: u8,
    empty: u8,
    status: i32,
    later: Option<u64>,
)
    requires
        transaction.overdue(now) is Some,
    ensures
        transaction.judged(now).finished(before, after, empty, status).outcome() is Err,
        transaction.judged(now).finished(before, after, empty, status).overdue(later) is Some,
        !(transaction.judged(now).finished(before, after, empty, status).may_request()),
{
}

/// A fault is never replaced, and nothing starts after it.
pub proof fn law_fault_is_final(
    transaction: Transaction,
    now: Option<u64>,
    before: u8,
    after: u8,
    empty: u8,
    status: i32,
)
    requires
        transaction.diagnostic.fault != 0,
    ensures
        transaction.judged(now).diagnostic.fault == transaction.diagnostic.fault,
        transaction.entered().diagnostic.fault == transaction.diagnostic.fault,
        transaction.entered().phase == transaction.phase,
        transaction.posted(status).diagnostic.fault == transaction.diagnostic.fault,
        transaction.finished(before, after, empty, status).diagnostic.fault
            == transaction.diagnostic.fault,
        transaction.outcome() == Err::<bool, i32>(transaction.diagnostic.fault),
        !transaction.may_request(),
{
}

/// The stop is one-shot: once requested it can never be requested again.
pub proof fn law_stop_is_one_shot(
    transaction: Transaction,
    now: Option<u64>,
    before: u8,
    after: u8,
    empty: u8,
    status: i32,
)
    requires
        !(transaction.phase is Idle),
    ensures
        !transaction.may_request(),
        !transaction.entered().may_request(),
        !transaction.judged(now).may_request(),
        !transaction.posted(status).may_request(),
        !transaction.finished(before, after, empty, status).may_request(),
{
}

/// Returned implies entered, entered implies requested, and requested implies
/// installed. A stop that is reported as done went through all of them, on
/// disabled hardware with empty lists.
pub proof fn law_stages_follow_one_another(transaction: Transaction)
    requires
        transaction.wf(),
    ensures
        transaction.diagnostic.returned ==> transaction.diagnostic.entered,
        transaction.diagnostic.entered ==> transaction.diagnostic.requested,
        transaction.diagnostic.requested ==> transaction.diagnostic.installed,
        transaction.outcome() == Ok::<bool, i32>(true) ==> transaction.diagnostic.returned
            && transaction.diagnostic.post_returned && transaction.diagnostic.native_status == 0
            && transaction.diagnostic.mac_after == 0 && transaction.diagnostic.descriptors_empty
            == 1,
{
}

/// The stop command is one message of eight bytes with two fixed words; it has its place
/// in a table that reaches over its number; and the handler that is replaced is the one
/// that the table holds.
pub proof fn law_stop_command_is_recognized(
    words: [u32; 2],
    payload: Option<(u32, [u32; 2])>,
    matched: bool,
    minimum: u16,
    maximum: u16,
    present: bool,
    slot: Result<u16, i32>,
    current: Result<usize, i32>,
    original: usize,
    replaced: Result<(), i32>,
)
    requires
        call_ensures(command, (), words),
        call_ensures(is_command, (payload,), matched),
        call_ensures(handler_slot, (minimum, maximum, present), slot),
        call_ensures(replaceable, (current, original), replaced),
    ensures
        words[0] == 0x3058_524e && words[1] == 1,
        matched <==> payload is Some && (payload->0).0 == 8 && (payload->0).1[0] == words[0] && (
        payload->0).1[1] == words[1],
        slot is Ok <==> present && minimum <= 91 && 91 < maximum,
        slot matches Ok(place) ==> minimum + place == 91,
        slot matches Err(status) ==> status == -0x1020,
        replaced is Ok <==> current == Ok::<usize, i32>(original),
        current matches Err(status) ==> replaced == Err::<(), i32>(status),
        current is Ok && replaced is Err ==> replaced->Err_0 == -0x1020,
{
    if let Some((len, given)) = payload {
        assert(given@ =~= seq![given[0], given[1]]);
    }
}

/// The stop runs in the task of the device worker and in no other; all ones and zero
/// name no worker.
pub proof fn law_stop_runs_in_its_worker(expected: u32, current: Option<u32>, same: bool)
    requires
        call_ensures(same_worker, (expected, current), same),
    ensures
        same <==> current is Some && current->0 == expected && expected != 0 && expected
            != 0xffff_ffff,
        forall|transaction: &mut Transaction, result: Result<(), i32>| #[trigger]
            call_ensures(Transaction::identify, (transaction, expected, current), result) ==> {
                &&& result is Ok <==> same
                &&& (*final(transaction)).diagnostic.expected_task == expected
                &&& current is Some ==> (*final(transaction)).diagnostic.current_task == current->0
                &&& !same ==> (*final(transaction)).diagnostic.fault != 0
                &&& same ==> (*final(transaction)).diagnostic.fault
                    == (*transaction).diagnostic.fault
                &&& (*final(transaction)).phase == (*transaction).phase
            },
{
}

/// A stop can be requested exactly once, after its handler was installed and before any
/// fault, and not while reception is queued or the time is unknown. It is timed from
/// there.
pub proof fn law_stop_is_requested_once(queued_rx: bool, now: Option<u64>)
    ensures
        forall|transaction: &mut Transaction, result: Result<(), i32>| #[trigger]
            call_ensures(Transaction::start, (transaction, queued_rx, now), result) ==> {
                let before = *transaction;
                let after = *final(transaction);
                let ready = before.diagnostic.installed && before.phase is Idle
                    && before.diagnostic.fault == 0;
                &&& result is Ok <==> !queued_rx && now is Some && ready
                &&& result is Ok ==> after.phase is Requested && after.diagnostic.requested
                    && after.started_ms == now->0
                &&& queued_rx ==> result == Err::<(), i32>(-0x1024i32) && after == before
                &&& !queued_rx && now is None ==> result == Err::<(), i32>(-0x1020i32) && after
                    == before
                &&& result is Err ==> after.phase == before.phase
                &&& result is Err && !queued_rx && now is Some ==> after.diagnostic.fault != 0
                    && result->Err_0 == after.diagnostic.fault
            },
{
}

/// The replacement counts as installed exactly when its registration succeeded and the
/// table holds it then.
pub proof fn law_handler_is_installed_when_it_is_seen(
    status: u32,
    installed: Result<usize, i32>,
    replacement: usize,
)
    ensures
        forall|transaction: &mut Transaction, result: Result<(), i32>| #[trigger]
            call_ensures(
                Transaction::installed_as,
                (transaction, status, installed, replacement),
                result,
            ) ==> {
                &&& result is Ok <==> status == 0 && installed == Ok::<usize, i32>(replacement)
                &&& result is Ok ==> (*final(transaction)).diagnostic.installed
                &&& result is Err ==> *final(transaction) == *transaction
                &&& status != 0 ==> result == Err::<(), i32>(-0x1020i32)
                &&& status == 0 && installed is Err ==> result == Err::<(), i32>(installed->Err_0)
            },
{
}

/// A stop goes on exactly while it was requested, without a fault and for less than a
/// second; a fault is told first, then a request that is missing or a time that is
/// unknown, and then that it is late.
pub proof fn law_stop_has_a_second(now: Option<u64>)
    ensures
        forall|transaction: &mut Transaction, result: Result<(), i32>| #[trigger]
            call_ensures(Transaction::check_deadline, (transaction, now), result) ==> {
                let before = *transaction;
                let d = before.diagnostic;
                &&& result is Ok <==> d.fault == 0 && d.requested && now is Some
                    && before.started_ms <= now->0 && now->0 < before.started_ms + 1000
                &&& result is Ok ==> *final(transaction) == before
                &&& d.fault != 0 ==> result == Err::<(), i32>(d.fault)
                &&& d.fault == 0 && (!d.requested || now is None) ==> result == Err::<(), i32>(
                    -0x1020i32,
                )
                &&& d.fault == 0 && d.requested && now is Some && result is Err ==> result
                    == Err::<(), i32>(-0x1021i32)
                &&& result is Err ==> (*final(transaction)).diagnostic.fault == result->Err_0
            },
{
}

/// A stop is entered from its request, once. Its teardown returns once, with what was
/// seen, and is clean exactly when it succeeded, the hardware is off and every list is
/// empty; the first of these that fails is the fault.
pub proof fn law_teardown_is_judged_by_what_is_seen(before: u8, after: u8, empty: u8, status: i32)
    ensures
        forall|transaction: &mut Transaction, result: Result<(), i32>| #[trigger]
            call_ensures(Transaction::enter, (transaction,), result) ==> {
                &&& result is Ok <==> (*transaction).phase is Requested
                    && (*transaction).diagnostic.fault == 0
                &&& result is Ok ==> (*final(transaction)).phase is Executing
                    && (*final(transaction)).diagnostic.entered
                &&& result is Err ==> (*final(transaction)).phase == (*transaction).phase
                    && (*final(transaction)).diagnostic.fault != 0
            },
        forall|transaction: &mut Transaction, unit: ()| #[trigger]
            call_ensures(
                Transaction::finish,
                (transaction, before, after, empty, status),
                unit,
            ) ==> {
                let first = (*transaction).diagnostic.fault;
                let d = (*final(transaction)).diagnostic;
                &&& (*transaction).phase is Executing ==> {
                    &&& (*final(transaction)).phase is Returned && d.returned
                    &&& d.mac_before == before && d.mac_after == after && d.descriptors_empty
                        == empty && d.native_status == status
                    &&& d.fault == 0 <==> first == 0 && status == 0 && after == 0 && empty == 1
                    &&& first != 0 ==> d.fault == first
                    &&& first == 0 && status != 0 ==> d.fault == status
                    &&& first == 0 && status == 0 && after != 0 ==> d.fault == -0x1022
                    &&& first == 0 && status == 0 && after == 0 && empty != 1 ==> d.fault == -0x1023
                }
                &&& !((*transaction).phase is Executing) ==> (*final(transaction)).phase
                    == (*transaction).phase && d.fault != 0
            },
        forall|transaction: &mut Transaction, unit: ()| #[trigger]
            call_ensures(Transaction::post_returned, (transaction, status), unit) ==> {
                let first = (*transaction).diagnostic;
                let d = (*final(transaction)).diagnostic;
                &&& d.post_returned
                &&& first.fault != 0 ==> d.fault == first.fault
                &&& first.fault == 0 && (first.post_returned || !first.requested) ==> d.fault
                    == -0x1020
                &&& first.fault == 0 && !first.post_returned && first.requested ==> d.fault
                    == status
                &&& (*final(transaction)).phase == (*transaction).phase
            },
{
}

/// The waiter is told a fault or a lateness before anything else; then whether both the
/// teardown and the posting call have returned.
pub proof fn law_waiter_needs_both_returns(now: Option<u64>)
    ensures
        forall|transaction: &mut Transaction, result: Result<bool, i32>| #[trigger]
            call_ensures(Transaction::result_at, (transaction, now), result) ==> {
                let before = *transaction;
                let d = before.diagnostic;
                let timely = d.requested && now is Some && before.started_ms <= now->0 && now->0
                    < before.started_ms + 1000;
                &&& result is Ok <==> d.fault == 0 && timely
                &&& result matches Ok(done) ==> (done <==> before.phase is Returned
                    && d.post_returned)
                &&& d.fault != 0 ==> result == Err::<bool, i32>(d.fault)
                &&& (*final(transaction)).phase == before.phase
            },
{
}

/// Each checkpoint has a place of its own, which takes the first time at which it is
/// observed: in milliseconds since the request, where that is known and fits.
pub proof fn law_checkpoint_keeps_its_first_time(checkpoint: Checkpoint, now: Option<u64>)
    ensures
        forall|transaction: &mut Transaction, unit: ()| #[trigger]
            call_ensures(Transaction::observe, (transaction, checkpoint, now), unit) ==> {
                let before = (*transaction).diagnostic.timings.0@;
                let after = (*final(transaction)).diagnostic.timings.0@;
                let place = match checkpoint {
                    Checkpoint::Entered => 0int,
                    Checkpoint::Disabled => 1,
                    Checkpoint::Destroyed => 2,
                    Checkpoint::Initialized => 3,
                    Checkpoint::Cleaned => 4,
                    Checkpoint::Finished => 5,
                    Checkpoint::Posted => 6,
                    Checkpoint::Observed => 7,
                };
                &&& forall|i: int| 0 <= i < 8 && i != place ==> #[trigger] after[i] == before[i]
                &&& before[place] != 0xffff_ffff || !(*transaction).diagnostic.requested
                    ==> after[place] == before[place]
                &&& before[place] == 0xffff_ffff && (*transaction).diagnostic.requested && now is Some
                    && (*transaction).started_ms <= now->0 && now->0 - (*transaction).started_ms
                    <= 0xffff_ffff ==> (*transaction).started_ms + after[place] == now->0
                &&& now is None ==> after[place] == before[place]
            },
{
}

/// With the time at hand, a stop is entered exactly when it was requested, without a fault
/// and in time, and its descriptors may be rebuilt exactly while it runs so.
pub proof fn law_stop_is_entered_in_time(now: Option<u64>)
    ensures
        forall|transaction: &mut Transaction, result: Result<(), i32>| #[trigger]
            call_ensures(Transaction::enter_at, (transaction, now), result) ==> {
                let before = *transaction;
                let timely = before.diagnostic.fault == 0 && before.diagnostic.requested && now is Some
                    && before.started_ms <= now->0 && now->0 < before.started_ms + 1000;
                &&& result is Ok <==> timely && before.phase is Requested
                &&& result is Ok ==> (*final(transaction)).phase is Executing
                &&& result is Err ==> (*final(transaction)).phase == before.phase
                    && (*final(transaction)).diagnostic.fault != 0
            },
        forall|transaction: &mut Transaction, allowed: bool| #[trigger]
            call_ensures(Transaction::may_rebuild_at, (transaction, now), allowed) ==> {
                let before = *transaction;
                let timely = before.diagnostic.fault == 0 && before.diagnostic.requested && now is Some
                    && before.started_ms <= now->0 && now->0 < before.started_ms + 1000;
                &&& allowed <==> timely && before.phase is Executing
                &&& timely ==> *final(transaction) == before
                &&& !timely ==> (*final(transaction)).diagnostic.fault != 0
            },
{
}

/// A teardown that returns late keeps what it saw, but is a fault.
pub proof fn law_late_teardown_is_a_fault(
    now: Option<u64>,
    before: u8,
    after: u8,
    empty: u8,
    status: i32,
)
    ensures
        forall|transaction: &mut Transaction, unit: ()| #[trigger]
            call_ensures(
                Transaction::finish_at,
                (transaction, now, before, after, empty, status),
                unit,
            ) ==> {
                let first = *transaction;
                let d = (*final(transaction)).diagnostic;
                let timely = first.diagnostic.requested && now is Some && first.started_ms <= now->0
                    && now->0 < first.started_ms + 1000;
                &&& first.phase is Executing ==> (*final(transaction)).phase is Returned
                    && d.mac_before == before && d.mac_after == after && d.descriptors_empty
                    == empty && d.native_status == status
                &&& first.phase is Executing ==> (d.fault == 0 <==> first.diagnostic.fault == 0
                    && timely && status == 0 && after == 0 && empty == 1)
                &&& first.diagnostic.fault != 0 ==> d.fault == first.diagnostic.fault
            },
{
}

} // verus!
