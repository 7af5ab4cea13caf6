//! Ownership of the frames in the host's transmit queue.
//!
//! The posting function hides enqueue and free failures. So both the actual
//! dispatch and a free before it are observed, and completion is never inferred
//! from a zero return. The slots hold opaque identities, not packets.

use crate::netif_l2::slots::vacancy;
use vstd::prelude::*;

verus! {

/// Frames that can be followed at once.
pub const CAPACITY: usize = 32;

/// The native side broke the ownership protocol.
pub const CONTRACT_ERROR: i32 = -0x1002;

/// The queue did not drain in time.
pub const DRAIN_TIMEOUT: i32 = -0x1003;

/// How long the queue may take to drain.
pub const DRAIN_LIMIT_MS: u64 = 1_000;

/// The kind of work whose frames are followed.
pub const TRACKED_KIND: u16 = 4;

/// Identity of one accepted frame. It is never issued again.
#[derive(Clone, Copy, Debug, PartialEq, Eq, Structural)]
pub struct Ticket {
    pub sequence: u64,
}

/// How far the native side has come with a frame.
#[derive(Clone, Copy, Debug, PartialEq, Eq, Structural)]
pub enum Stage {
    Queued,
    Executing,
    Executed,
    Freeing,
    Freed,
}

/// One frame that the native queue owns.
#[derive(Clone, Copy, Debug, PartialEq, Eq, Structural)]
pub struct Active {
    pub ticket: Ticket,
    pub pointer: usize,
    pub stage: Stage,
    pub post_returned: bool,
}

/// Queue accounting; not a receipt of anything sent over the air.
#[derive(Clone, Copy, Debug, PartialEq, Eq, Structural)]
pub struct HostTxDiagnostics {
    pub accepted: u64,
    pub processed: u64,
    pub dropped: u64,
    pub pending: u32,
    pub peak: u32,
    pub rejected: u64,
    pub callback_errors: u64,
    pub closed: bool,
    pub fault: i32,
}

/// Why a frame was not accepted.
#[derive(Clone, Copy, Debug, PartialEq, Eq, Structural)]
pub enum Rejection {
    /// The caller still owns the frame and has to release it.
    Release,
    /// The queue owns this address already: it must not be freed a second time.
    Duplicate,
}

/// The frames in the host's transmit queue.
pub struct Tracker {
    pub slots: [Option<Active>; 32],
    pub diagnostic: HostTxDiagnostics,
    /// Admission is closed for good.
    pub terminal: bool,
}

/// What a tracker holds.
#[verifier::ext_equal]
pub struct Frames {
    pub slots: Seq<Option<Active>>,
    pub diagnostic: HostTxDiagnostics,
    pub terminal: bool,
}

/// Slot `i` holds the frame with this ticket.
pub open spec fn held(slots: Seq<Option<Active>>, i: int, ticket: Ticket) -> bool {
    0 <= i < slots.len() && slots[i] is Some && slots[i]->0.ticket == ticket
}

/// Slot `i` holds a frame at this address that still waits in the queue.
pub open spec fn queued(slots: Seq<Option<Active>>, i: int, pointer: usize) -> bool {
    0 <= i < slots.len() && slots[i] is Some && slots[i]->0.pointer == pointer
        && slots[i]->0.stage is Queued
}

impl View for Tracker {
    type V = Frames;

    open spec fn view(&self) -> Frames {
        Frames {
            slots: self.slots@,
            diagnostic: self.diagnostic,
            terminal: self.terminal,
        }
    }
}

impl Frames {
    /// Every accepted frame was processed, was dropped, or is held in exactly one
    /// slot; tickets are distinct, and an address waits at most once. A fault and
    /// a terminal stop keep admission closed.
    pub open spec fn wf(self) -> bool {
        let d = self.diagnostic;
        &&& self.slots.len() == CAPACITY
        &&& d.accepted == d.processed + d.dropped + d.pending
        &&& d.pending == crate::netif_l2::slots::occupied(self.slots)
        &&& d.pending <= d.peak <= CAPACITY
        &&& d.fault != 0 ==> d.closed
        &&& self.terminal ==> d.closed
        &&& forall|i: int|
            0 <= i < self.slots.len() && (#[trigger] self.slots[i]) is Some ==> 1
                <= self.slots[i]->0.ticket.sequence <= d.accepted && self.slots[i]->0.pointer != 0
        &&& forall|i: int, j: int|
            0 <= i < j < self.slots.len() && (#[trigger] self.slots[i]) is Some && (
            #[trigger] self.slots[j]) is Some ==> self.slots[i]->0.ticket
                != self.slots[j]->0.ticket
        &&& forall|i: int, j: int|
            0 <= i < j < self.slots.len() && (#[trigger] self.slots[i]) is Some && (
            #[trigger] self.slots[j]) is Some && self.slots[i]->0.stage is Queued
                && self.slots[j]->0.stage is Queued ==> self.slots[i]->0.pointer
                != self.slots[j]->0.pointer
    }

    /// The slot that holds `ticket`.
    pub open spec fn slot_of(self, ticket: Ticket) -> Option<int> {
        if exists|i: int| held(self.slots, i, ticket) {
            Some(choose|i: int| held(self.slots, i, ticket))
        } else {
            None
        }
    }

    /// The slot whose frame waits at `pointer`.
    pub open spec fn queued_at(self, pointer: usize) -> Option<int> {
        if exists|i: int| queued(self.slots, i, pointer) {
            Some(choose|i: int| queued(self.slots, i, pointer))
        } else {
            None
        }
    }

    /// The first fault is kept, and admission closes.
    pub open spec fn failed(self, status: i32) -> Frames {
        Frames {
            diagnostic: HostTxDiagnostics {
                fault: if self.diagnostic.fault == 0 {
                    status
                } else {
                    self.diagnostic.fault
                },
                closed: true,
                ..self.diagnostic
            },
            ..self
        }
    }

    pub open spec fn rejection_counted(self) -> Frames {
        Frames {
            diagnostic: HostTxDiagnostics {
                rejected: if self.diagnostic.rejected < u64::MAX {
                    (self.diagnostic.rejected + 1) as u64
                } else {
                    u64::MAX
                },
                ..self.diagnostic
            },
            ..self
        }
    }

    pub open spec fn with_slot(self, i: int, entry: Active) -> Frames {
        Frames { slots: self.slots.update(i, Some(entry)), ..self }
    }

    /// A frame whose post returned and which was executed or freed leaves its
    /// slot; every other frame stays.
    pub open spec fn retired(self, i: int) -> Frames {
        let a = self.slots[i]->0;
        if a.post_returned && (a.stage is Executed || a.stage is Freed) {
            Frames {
                slots: self.slots.update(i, None),
                diagnostic: HostTxDiagnostics {
                    pending: (self.diagnostic.pending - 1) as u32,
                    processed: if a.stage is Executed {
                        (self.diagnostic.processed + 1) as u64
                    } else {
                        self.diagnostic.processed
                    },
                    dropped: if a.stage is Executed {
                        self.diagnostic.dropped
                    } else {
                        (self.diagnostic.dropped + 1) as u64
                    },
                    ..self.diagnostic
                },
                ..self
            }
        } else {
            self
        }
    }

    /// A new frame cannot be taken: it has no address, no slot or no number.
    pub open spec fn unacceptable(self, pointer: usize) -> bool {
        pointer == 0 || self.diagnostic.pending == CAPACITY || self.diagnostic.accepted == u64::MAX
    }

    /// `next` is this table after the frame at `pointer` was accepted.
    pub open spec fn accepts(self, pointer: usize, next: Frames) -> bool {
        let d = self.diagnostic;
        exists|i: int|
            0 <= i < self.slots.len() && (#[trigger] self.slots[i]) is None && next == (Frames {
                slots: self.slots.update(
                    i,
                    Some(
                        Active {
                            ticket: Ticket { sequence: (d.accepted + 1) as u64 },
                            pointer,
                            stage: Stage::Queued,
                            post_returned: false,
                        },
                    ),
                ),
                diagnostic: HostTxDiagnostics {
                    accepted: (d.accepted + 1) as u64,
                    pending: (d.pending + 1) as u32,
                    peak: if d.pending + 1 > d.peak {
                        (d.pending + 1) as u32
                    } else {
                        d.peak
                    },
                    ..d
                },
                ..self
            })
    }

    /// The posting call of `ticket` returned `status`. A failure alone does not
    /// retire an owner.
    pub open spec fn after_post(self, ticket: Ticket, status: i32) -> Frames {
        match self.slot_of(ticket) {
            None => self.failed(CONTRACT_ERROR),
            Some(i) => {
                let a = self.slots[i]->0;
                if a.post_returned {
                    self.failed(CONTRACT_ERROR)
                } else {
                    let marked = self.with_slot(i, Active { post_returned: true, ..a });
                    let noted = if status != 0 {
                        marked.failed(status)
                    } else {
                        marked
                    };
                    noted.retired(i)
                }
            },
        }
    }

    /// The frame at `pointer` is dispatched.
    pub open spec fn after_dispatch(self, pointer: usize) -> Frames {
        match self.queued_at(pointer) {
            None => self.failed(CONTRACT_ERROR),
            Some(i) => self.with_slot(
                i,
                Active { stage: Stage::Executing, ..self.slots[i]->0 },
            ),
        }
    }

    /// The frame at `pointer` is about to be freed; a frame that does not wait is
    /// none of this table's.
    pub open spec fn after_free_attempt(self, pointer: usize) -> Frames {
        match self.queued_at(pointer) {
            None => self,
            Some(i) => self.with_slot(i, Active { stage: Stage::Freeing, ..self.slots[i]->0 }),
        }
    }

    /// The native callback, or the native free, of `ticket` returned `status`.
    pub open spec fn after_completion(self, ticket: Ticket, freeing: bool, status: i32) -> Frames {
        match self.slot_of(ticket) {
            None => self.failed(CONTRACT_ERROR),
            Some(i) => {
                let a = self.slots[i]->0;
                let expected = if freeing {
                    Stage::Freeing
                } else {
                    Stage::Executing
                };
                if a.stage != expected {
                    self.failed(CONTRACT_ERROR)
                } else if freeing && status != 0 {
                    self.failed(status)
                } else {
                    let stage = if freeing {
                        Stage::Freed
                    } else {
                        Stage::Executed
                    };
                    let moved = self.with_slot(i, Active { stage, ..a });
                    let noted = if !freeing && status != 0 {
                        (Frames {
                            diagnostic: HostTxDiagnostics {
                                callback_errors: if moved.diagnostic.callback_errors < u64::MAX {
                                    (moved.diagnostic.callback_errors + 1) as u64
                                } else {
                                    u64::MAX
                                },
                                ..moved.diagnostic
                            },
                            ..moved
                        }).failed(status)
                    } else {
                        moved
                    };
                    noted.retired(i)
                }
            },
        }
    }

    pub open spec fn closed(self) -> Frames {
        Frames {
            diagnostic: HostTxDiagnostics { closed: true, ..self.diagnostic },
            ..self
        }
    }

    /// What keeps a new handshake from using the queue.
    pub open spec fn resume_refusal(self, native_status: i32) -> Option<i32> {
        if native_status != 0 {
            Some(native_status)
        } else if self.diagnostic.fault != 0 {
            Some(self.diagnostic.fault)
        } else if self.terminal || self.diagnostic.pending != 0 {
            Some(CONTRACT_ERROR)
        } else {
            None
        }
    }

    /// Whether the closed queue has drained, or the fault that forbids to say so.
    pub open spec fn drain_state(self) -> Result<bool, i32> {
        if self.diagnostic.fault != 0 {
            Err(self.diagnostic.fault)
        } else {
            Ok(self.diagnostic.closed && self.diagnostic.pending == 0)
        }
    }
}

proof fn lemma_slot_of(frames: Frames, i: int, ticket: Ticket)
    requires
        frames.wf(),
        held(frames.slots, i, ticket),
    ensures
        frames.slot_of(ticket) == Some(i),
{
    let j = choose|j: int| held(frames.slots, j, ticket);
    assert(held(frames.slots, j, ticket));
    if j != i {
        let (a, b) = if i < j {
            (i, j)
        } else {
            (j, i)
        };
        assert(frames.slots[a] is Some && frames.slots[b] is Some);
    }
}

proof fn lemma_queued_at(frames: Frames, i: int, pointer: usize)
    requires
        frames.wf(),
        queued(frames.slots, i, pointer),
    ensures
        frames.queued_at(pointer) == Some(i),
{
    let j = choose|j: int| queued(frames.slots, j, pointer);
    assert(queued(frames.slots, j, pointer));
    if j != i {
        let (a, b) = if i < j {
            (i, j)
        } else {
            (j, i)
        };
        assert(frames.slots[a] is Some && frames.slots[b] is Some);
    }
}

/// Replacing a frame by one with the same ticket and address that does not newly
/// wait keeps the table well-formed.
proof fn lemma_with_slot(frames: Frames, i: int, entry: Active)
    requires
        frames.wf(),
        0 <= i < frames.slots.len(),
        frames.slots[i] is Some,
        entry.ticket == frames.slots[i]->0.ticket,
        entry.pointer == frames.slots[i]->0.pointer,
        entry.stage is Queued ==> frames.slots[i]->0.stage is Queued,
    ensures
        frames.with_slot(i, entry).wf(),
{
    crate::netif_l2::slots::lemma_occupied_update(frames.slots, i, Some(entry));
}

proof fn lemma_retired(frames: Frames, i: int)
    requires
        frames.wf(),
        0 <= i < frames.slots.len(),
        frames.slots[i] is Some,
    ensures
        frames.retired(i).wf(),
        frames.slots[i]->0.post_returned && (frames.slots[i]->0.stage is Executed
            || frames.slots[i]->0.stage is Freed) ==> frames.diagnostic.pending > 0,
{
    crate::netif_l2::slots::lemma_occupied_update(frames.slots, i, None);
    crate::netif_l2::slots::lemma_occupied_bounds(frames.slots);
}

impl Tracker {
    pub fn new() -> (tracker: Self)
        ensures
            tracker@.wf(),
            forall|i: int| 0 <= i < CAPACITY ==> #[trigger] tracker@.slots[i] is None,
            tracker.diagnostic == (HostTxDiagnostics {
                accepted: 0,
                processed: 0,
                dropped: 0,
                pending: 0,
                peak: 0,
                rejected: 0,
                callback_errors: 0,
                closed: false,
                fault: 0,
            }),
            !tracker.terminal,
    {
        let tracker = Tracker {
            slots: [None;32],
            terminal: false,
            diagnostic: HostTxDiagnostics {
                accepted: 0,
                processed: 0,
                dropped: 0,
                pending: 0,
                peak: 0,
                rejected: 0,
                callback_errors: 0,
                closed: false,
                fault: 0,
            },
        };
        proof {
            crate::netif_l2::slots::lemma_occupied_bounds(tracker@.slots);
        }
        tracker
    }

    /// Record a fault; the first one is kept. Admission closes.
    pub fn fail(&mut self, status: i32)
        requires
            old(self)@.wf(),
        ensures
            final(self)@.wf(),
            final(self)@ == old(self)@.failed(status),
    {
        if self.diagnostic.fault == 0 {
            self.diagnostic.fault = status;
        }
        self.diagnostic.closed = true;
    }

    fn find_ticket(&self, ticket: Ticket) -> (index: Option<usize>)
        requires
            self@.wf(),
        ensures
            match index {
                Some(i) => i < CAPACITY && self@.slots[i as int] is Some && self@.slot_of(ticket)
                    == Some(i as int) && self@.slots[i as int]->0.ticket == ticket,
                None => self@.slot_of(ticket) is None,
            },
    {
        let mut i: usize = 0;
        while i < 32
            invariant
                i <= 32,
                self@.wf(),
                forall|j: int| 0 <= j < i ==> !held(self@.slots, j, ticket),
            decreases 32 - i,
        {
            if let Some(active) = self.slots[i] {
                if active.ticket == ticket {
                    proof {
                        lemma_slot_of(self@, i as int, ticket);
                    }
                    return Some(i);
                }
            }
            i = i + 1;
        }
        None
    }

    fn find_queued(&self, pointer: usize) -> (index: Option<usize>)
        requires
            self@.wf(),
        ensures
            match index {
                Some(i) => i < CAPACITY && self@.slots[i as int] is Some && self@.queued_at(
                    pointer,
                ) == Some(i as int) && queued(self@.slots, i as int, pointer),
                None => self@.queued_at(pointer) is None,
            },
    {
        let mut i: usize = 0;
        while i < 32
            invariant
                i <= 32,
                self@.wf(),
                forall|j: int| 0 <= j < i ==> !queued(self@.slots, j, pointer),
            decreases 32 - i,
        {
            if let Some(active) = self.slots[i] {
                if active.pointer == pointer && active.stage == Stage::Queued {
                    proof {
                        lemma_queued_at(self@, i as int, pointer);
                    }
                    return Some(i);
                }
            }
            i = i + 1;
        }
        None
    }

    /// Accept a frame at `pointer` into the queue.
    pub fn begin(&mut self, pointer: usize) -> (result: Result<Ticket, Rejection>)
        requires
            old(self)@.wf(),
        ensures
            final(self)@.wf(),
            match result {
                Ok(ticket) => {
                    &&& old(self)@.queued_at(pointer) is None
                    &&& !old(self)@.unacceptable(pointer)
                    &&& !old(self).diagnostic.closed
                    &&& ticket.sequence == old(self).diagnostic.accepted + 1
                    &&& old(self)@.accepts(pointer, final(self)@)
                },
                Err(Rejection::Duplicate) => {
                    &&& old(self)@.queued_at(pointer) is Some
                    &&& final(self)@ == old(self)@.failed(CONTRACT_ERROR).rejection_counted()
                },
                Err(Rejection::Release) => {
                    &&& old(self)@.queued_at(pointer) is None
                    &&& old(self)@.unacceptable(pointer) || old(self).diagnostic.closed
                    &&& final(self)@ == (if old(self)@.unacceptable(pointer) {
                        old(self)@.failed(CONTRACT_ERROR)
                    } else {
                        old(self)@
                    }).rejection_counted()
                },
            },
    {
        if self.find_queued(pointer).is_some() {
            self.fail(CONTRACT_ERROR);
            self.diagnostic.rejected = self.diagnostic.rejected.saturating_add(1);
            return Err(Rejection::Duplicate);
        }
        let slot = vacancy(&self.slots);
        proof {
            crate::netif_l2::slots::lemma_occupied_bounds(self@.slots);
        }
        let sequence = self.diagnostic.accepted.checked_add(1);
        if pointer == 0 || slot.is_none() || sequence.is_none() {
            self.fail(CONTRACT_ERROR);
        }
        if self.diagnostic.closed {
            self.diagnostic.rejected = self.diagnostic.rejected.saturating_add(1);
            return Err(Rejection::Release);
        }
        let ticket = Ticket { sequence: sequence.unwrap() };
        let index: usize = slot.unwrap();
        let entry = Active { ticket, pointer, stage: Stage::Queued, post_returned: false };
        proof {
            crate::netif_l2::slots::lemma_occupied_update(self@.slots, index as int, Some(entry));
            assert forall|j: int| 0 <= j < self@.slots.len() && self@.slots[j]
                is Some && self@.slots[j]->0.stage is Queued implies self@.slots[j]->0.pointer
                != pointer by {
                assert(!queued(self@.slots, j, pointer));
            }
        }
        self.slots[index] = Some(entry);
        self.diagnostic.accepted = ticket.sequence;
        self.diagnostic.pending = self.diagnostic.pending + 1;
        if self.diagnostic.pending > self.diagnostic.peak {
            self.diagnostic.peak = self.diagnostic.pending;
        }
        proof {
            assert(old(self)@.slots[index as int] is None);
            crate::netif_l2::slots::lemma_occupied_bounds(self@.slots);
        }
        Ok(ticket)
    }

    fn retire(&mut self, index: usize)
        requires
            old(self)@.wf(),
            index < CAPACITY,
            old(self)@.slots[index as int] is Some,
        ensures
            final(self)@.wf(),
            final(self)@ == old(self)@.retired(index as int),
    {
        proof {
            lemma_retired(self@, index as int);
        }
        if let Some(active) = self.slots[index] {
            if !active.post_returned {
                return;
            }
            match active.stage {
                Stage::Executed => {
                    self.slots[index] = None;
                    self.diagnostic.pending = self.diagnostic.pending - 1;
                    self.diagnostic.processed = self.diagnostic.processed + 1;
                },
                Stage::Freed => {
                    self.slots[index] = None;
                    self.diagnostic.pending = self.diagnostic.pending - 1;
                    self.diagnostic.dropped = self.diagnostic.dropped + 1;
                },
                _ => {},
            }
        }
    }

    /// The posting call of `ticket` returned.
    pub fn post_returned(&mut self, ticket: Ticket, status: i32)
        requires
            old(self)@.wf(),
        ensures
            final(self)@.wf(),
            final(self)@ == old(self)@.after_post(ticket, status),
    {
        let index: usize = match self.find_ticket(ticket) {
            Some(index) => index,
            None => {
                self.fail(CONTRACT_ERROR);
                return;
            },
        };
        if let Some(active) = self.slots[index] {
            if active.post_returned {
                self.fail(CONTRACT_ERROR);
                return;
            }
            let marked = Active { post_returned: true, ..active };
            proof {
                lemma_with_slot(self@, index as int, marked);
            }
            self.slots[index] = Some(marked);
            if status != 0 {
                self.fail(status);
            }
            self.retire(index);
        }
    }

    /// The native queue dispatches the frame at `pointer`.
    pub fn dispatch(&mut self, pointer: usize) -> (ticket: Option<Ticket>)
        requires
            old(self)@.wf(),
        ensures
            final(self)@.wf(),
            final(self)@ == old(self)@.after_dispatch(pointer),
            match old(self)@.queued_at(pointer) {
                Some(i) => ticket == Some(old(self)@.slots[i]->0.ticket),
                None => ticket is None,
            },
    {
        match self.find_queued(pointer) {
            Some(index) => {
                if let Some(active) = self.slots[index] {
                    let moved = Active { stage: Stage::Executing, ..active };
                    proof {
                        lemma_with_slot(self@, index as int, moved);
                    }
                    self.slots[index] = Some(moved);
                    return Some(active.ticket);
                }
                None
            },
            None => {
                self.fail(CONTRACT_ERROR);
                None
            },
        }
    }

    /// The native side is about to free the buffer at `pointer`.
    pub fn before_free(&mut self, pointer: usize) -> (ticket: Option<Ticket>)
        requires
            old(self)@.wf(),
        ensures
            final(self)@.wf(),
            final(self)@ == old(self)@.after_free_attempt(pointer),
            match old(self)@.queued_at(pointer) {
                Some(i) => ticket == Some(old(self)@.slots[i]->0.ticket),
                None => ticket is None,
            },
    {
        match self.find_queued(pointer) {
            Some(index) => {
                if let Some(active) = self.slots[index] {
                    let moved = Active { stage: Stage::Freeing, ..active };
                    proof {
                        lemma_with_slot(self@, index as int, moved);
                    }
                    self.slots[index] = Some(moved);
                    return Some(active.ticket);
                }
                None
            },
            None => None,
        }
    }

    /// The native callback (or, when `freeing`, the native free) returned.
    pub fn complete(&mut self, ticket: Ticket, freeing: bool, status: i32)
        requires
            old(self)@.wf(),
        ensures
            final(self)@.wf(),
            final(self)@ == old(self)@.after_completion(ticket, freeing, status),
    {
        let index: usize = match self.find_ticket(ticket) {
            Some(index) => index,
            None => {
                self.fail(CONTRACT_ERROR);
                return;
            },
        };
        if let Some(active) = self.slots[index] {
            let expected = if freeing {
                Stage::Freeing
            } else {
                Stage::Executing
            };
            if active.stage != expected {
                self.fail(CONTRACT_ERROR);
                return;
            }
            if freeing && status != 0 {
                self.fail(status);
                return;
            }
            let stage = if freeing {
                Stage::Freed
            } else {
                Stage::Executed
            };
            let moved = Active { stage, ..active };
            proof {
                lemma_with_slot(self@, index as int, moved);
            }
            self.slots[index] = Some(moved);
            if !freeing && status != 0 {
                self.diagnostic.callback_errors = self.diagnostic.callback_errors.saturating_add(1);
                self.fail(status);
            }
            self.retire(index);
        }
    }

    pub fn close(&mut self)
        requires
            old(self)@.wf(),
        ensures
            final(self)@.wf(),
            final(self)@ == old(self)@.closed(),
    {
        self.diagnostic.closed = true;
    }

    /// Close for good.
    pub fn seal(&mut self)
        requires
            old(self)@.wf(),
        ensures
            final(self)@.wf(),
            final(self)@ == (Frames { terminal: true, ..old(self)@.closed() }),
    {
        self.terminal = true;
        self.diagnostic.closed = true;
    }

    /// Admit the frames of a new handshake, once every earlier owner has retired.
    pub fn resume_handshake(&mut self, native_status: i32) -> (result: Result<(), i32>)
        requires
            old(self)@.wf(),
        ensures
            final(self)@.wf(),
            match result {
                Ok(_) => old(self)@.resume_refusal(native_status) is None && final(self)@ == (
                Frames {
                    diagnostic: HostTxDiagnostics { closed: false, ..old(self).diagnostic },
                    ..old(self)@
                }),
                Err(status) => old(self)@.resume_refusal(native_status) == Some(status)
                    && final(self)@ == old(self)@,
            },
    {
        if native_status != 0 {
            return Err(native_status);
        }
        if self.diagnostic.fault != 0 {
            return Err(self.diagnostic.fault);
        }
        if self.terminal || self.diagnostic.pending != 0 {
            return Err(CONTRACT_ERROR);
        }
        self.diagnostic.closed = false;
        Ok(())
    }

    pub fn drained(&self) -> (result: Result<bool, i32>)
        ensures
            result == self@.drain_state(),
    {
        if self.diagnostic.fault != 0 {
            return Err(self.diagnostic.fault);
        }
        Ok(self.diagnostic.closed && self.diagnostic.pending == 0)
    }

    /// What a post of this kind of work does first.
    pub fn begin_post(&mut self, kind: u16, pointer: usize) -> (step: PostStep)
        requires
            old(self)@.wf(),
        ensures
            final(self)@.wf(),
            kind != TRACKED_KIND ==> step is Forward && final(self)@ == old(self)@,
            kind == TRACKED_KIND ==> match step {
                PostStep::Forward => false,
                PostStep::Track(ticket) => {
                    &&& old(self)@.queued_at(pointer) is None
                    &&& !old(self)@.unacceptable(pointer)
                    &&& !old(self).diagnostic.closed
                    &&& ticket.sequence == old(self).diagnostic.accepted + 1
                    &&& old(self)@.accepts(pointer, final(self)@)
                },
                PostStep::Reject { release, status } => {
                    &&& status == CONTRACT_ERROR
                    &&& release == (old(self)@.queued_at(pointer) is None)
                    &&& release ==> old(self)@.unacceptable(pointer) || old(self).diagnostic.closed
                    &&& final(self)@ == (if !release || old(self)@.unacceptable(pointer) {
                        old(self)@.failed(CONTRACT_ERROR)
                    } else {
                        old(self)@
                    }).rejection_counted()
                },
            },
    {
        if kind != TRACKED_KIND {
            return PostStep::Forward;
        }
        match self.begin(pointer) {
            Ok(ticket) => PostStep::Track(ticket),
            Err(Rejection::Release) => PostStep::Reject { release: true, status: CONTRACT_ERROR },
            Err(Rejection::Duplicate) => PostStep::Reject {
                release: false,
                status: CONTRACT_ERROR,
            },
        }
    }

    /// One look at a queue that was closed at `started_ms`.
    pub fn await_drain(&self, started_ms: u64, now_ms: Option<u64>) -> (step: DrainStep)
        ensures
            step == (match self@.drain_state() {
                Err(status) => DrainStep::Failed(status),
                Ok(true) => DrainStep::Drained,
                Ok(false) => match now_ms {
                    None => DrainStep::Failed(CONTRACT_ERROR),
                    Some(now) => if now < started_ms || now - started_ms >= DRAIN_LIMIT_MS {
                        DrainStep::Failed(DRAIN_TIMEOUT)
                    } else {
                        DrainStep::Sleep
                    },
                },
            }),
    {
        match self.drained() {
            Err(status) => DrainStep::Failed(status),
            Ok(true) => DrainStep::Drained,
            Ok(false) => match now_ms {
                None => DrainStep::Failed(CONTRACT_ERROR),
                Some(now) => {
                    if now < started_ms || now - started_ms >= DRAIN_LIMIT_MS {
                        DrainStep::Failed(DRAIN_TIMEOUT)
                    } else {
                        DrainStep::Sleep
                    }
                },
            },
        }
    }
}

/// What a post does first.
#[derive(Clone, Copy, Debug, PartialEq, Eq, Structural)]
pub enum PostStep {
    /// Untracked work goes to the native queue unchanged.
    Forward,
    /// Post, then report the return with this ticket.
    Track(Ticket),
    /// Do not post. Only a frame that the queue does not own yet is released.
    Reject { release: bool, status: i32 },
}

/// What a waiter for the drained queue does next.
#[derive(Clone, Copy, Debug, PartialEq, Eq, Structural)]
pub enum DrainStep {
    Drained,
    Sleep,
    Failed(i32),
}

/// The address that a queued message names: its payload is one pointer.
pub fn message_identity(payload: Option<(u32, usize)>) -> (pointer: usize)
    ensures
        pointer == (match payload {
            Some((4, pointer)) => pointer,
            _ => 0,
        }),
{
    match payload {
        Some((4, pointer)) => pointer,
        _ => 0,
    }
}

/// A queue that reports itself drained holds no frame, and admits none.
pub proof fn law_drained_queue_owns_nothing(frames: Frames)
    requires
        frames.wf(),
        frames.drain_state() == Ok::<bool, i32>(true),
    ensures
        forall|i: int| 0 <= i < CAPACITY ==> #[trigger] frames.slots[i] is None,
        frames.diagnostic.closed,
        frames.diagnostic.accepted == frames.diagnostic.processed + frames.diagnostic.dropped,
{
    crate::netif_l2::slots::lemma_occupied_bounds(frames.slots);
}

/// A retired ticket is never held again: no later event brings it back, and a
/// new frame at the same address gets another one.
pub proof fn law_retired_ticket_stays_retired(
    frames: Frames,
    ticket: Ticket,
    other: Ticket,
    pointer: usize,
    freeing: bool,
    status: i32,
    next: Frames,
)
    requires
        frames.wf(),
        ticket.sequence <= frames.diagnostic.accepted,
        frames.slot_of(ticket) is None,
    ensures
        frames.failed(status).slot_of(ticket) is None,
        frames.closed().slot_of(ticket) is None,
        frames.after_post(other, status).slot_of(ticket) is None,
        frames.after_dispatch(pointer).slot_of(ticket) is None,
        frames.after_free_attempt(pointer).slot_of(ticket) is None,
        frames.after_completion(other, freeing, status).slot_of(ticket) is None,
        frames.accepts(pointer, next) && frames.diagnostic.accepted < u64::MAX ==> next.slot_of(
            ticket,
        ) is None,
{
    let slots = frames.slots;
    assert forall|i: int| !held(slots, i, ticket) by {}
    if let Some(i) = frames.slot_of(other) {
        assert(held(slots, i, other));
        assert(!held(slots, i, ticket));
        let posted = frames.after_post(other, status);
        assert forall|j: int| !held(posted.slots, j, ticket) by {
            assert(!held(slots, j, ticket));
        }
        let completed = frames.after_completion(other, freeing, status);
        assert forall|j: int| !held(completed.slots, j, ticket) by {
            assert(!held(slots, j, ticket));
        }
    }
    if let Some(i) = frames.queued_at(pointer) {
        assert(queued(slots, i, pointer));
        let a = slots[i]->0;
        let executing = slots.update(i, Some(Active { stage: Stage::Executing, ..a }));
        let freeing_slot = slots.update(i, Some(Active { stage: Stage::Freeing, ..a }));
        assert forall|j: int| !held(executing, j, ticket) && !held(freeing_slot, j, ticket) by {
            assert(!held(slots, i, ticket));
            assert(!held(slots, j, ticket));
        }
    }
    if frames.accepts(pointer, next) && frames.diagnostic.accepted < u64::MAX {
        assert forall|j: int| !held(next.slots, j, ticket) by {
            assert(!held(slots, j, ticket));
        }
    }
}

/// A fault or a terminal stop is never undone: every event keeps the fault, and
/// admission stays closed.
pub proof fn law_fault_is_sticky(
    frames: Frames,
    ticket: Ticket,
    pointer: usize,
    freeing: bool,
    status: i32,
)
    requires
        frames.wf(),
        frames.diagnostic.fault != 0 || frames.terminal,
    ensures
        frames.resume_refusal(status) is Some,
        frames.diagnostic.closed,
        frames.diagnostic.fault != 0 ==> {
            &&& frames.failed(status).diagnostic.fault == frames.diagnostic.fault
            &&& frames.after_post(ticket, status).diagnostic.fault == frames.diagnostic.fault
            &&& frames.after_dispatch(pointer).diagnostic.fault == frames.diagnostic.fault
            &&& frames.after_free_attempt(pointer).diagnostic.fault == frames.diagnostic.fault
            &&& frames.after_completion(ticket, freeing, status).diagnostic.fault
                == frames.diagnostic.fault
        },
{
}

/// A frame waits at `pointer` in the queue.
pub open spec fn waits_at(frames: Frames, pointer: usize) -> bool {
    exists|i: int| queued(frames.slots, i, pointer)
}

/// A frame is accepted exactly when the queue is open, the frame has an address that
/// does not wait in the queue already, and there is a slot and a number for it. It gets
/// the next number and waits. A refused frame is left to the caller, unless the queue
/// owns its address; a refusal is counted, and is a fault unless it is because the
/// queue is closed.
pub proof fn law_frame_is_accepted_once(pointer: usize)
    ensures
        forall|tracker: &mut Tracker, result: Result<Ticket, Rejection>|
            (*tracker)@.wf() && #[trigger] call_ensures(
                Tracker::begin,
                (tracker, pointer),
                result,
            ) ==> {
                let before = (*tracker)@;
                let after = (*final(tracker))@;
                let room = before.diagnostic.pending < 32 && before.diagnostic.accepted < u64::MAX;
                &&& result is Ok <==> !before.diagnostic.closed && pointer != 0 && room
                    && !waits_at(before, pointer)
                &&& result == Err::<Ticket, Rejection>(Rejection::Duplicate) <==> waits_at(
                    before,
                    pointer,
                )
                &&& result matches Ok(ticket) ==> {
                    &&& ticket.sequence == before.diagnostic.accepted + 1
                    &&& after.diagnostic.accepted == before.diagnostic.accepted + 1
                    &&& after.diagnostic.pending == before.diagnostic.pending + 1
                    &&& after.diagnostic.rejected == before.diagnostic.rejected
                    &&& after.diagnostic.fault == before.diagnostic.fault
                }
                &&& result is Err ==> {
                    &&& after.slots == before.slots
                    &&& after.diagnostic.accepted == before.diagnostic.accepted
                    &&& before.diagnostic.rejected < u64::MAX ==> after.diagnostic.rejected
                        == before.diagnostic.rejected + 1
                    &&& waits_at(before, pointer) || pointer == 0 || !room
                        ==> after.diagnostic.closed && after.diagnostic.fault == (
                    if before.diagnostic.fault == 0 {
                        -0x1002i32
                    } else {
                        before.diagnostic.fault
                    })
                    &&& !waits_at(before, pointer) && pointer != 0 && room
                        ==> after.diagnostic.fault == before.diagnostic.fault
                }
            },
{
}

/// A frame leaves the queue exactly when its post and its callback, or its free, have
/// both returned, in either order: as processed after its callback, and as dropped after
/// its free. Until then it is remembered how far it has come.
pub proof fn law_frame_leaves_when_both_have_returned(
    frames: Frames,
    i: int,
    ticket: Ticket,
    status: i32,
)
    requires
        frames.wf(),
        held(frames.slots, i, ticket),
    ensures
        ({
            let frame = frames.slots[i]->0;
            let posted = frames.after_post(ticket, status);
            let executed = frames.after_completion(ticket, false, status);
            let freed = frames.after_completion(ticket, true, 0);
            &&& !frame.post_returned && frame.stage is Executed ==> posted.slots[i] is None
                && posted.diagnostic.processed == frames.diagnostic.processed + 1
                && posted.diagnostic.pending == frames.diagnostic.pending - 1
                && posted.diagnostic.dropped == frames.diagnostic.dropped
            &&& !frame.post_returned && frame.stage is Freed ==> posted.slots[i] is None
                && posted.diagnostic.dropped == frames.diagnostic.dropped + 1
                && posted.diagnostic.pending == frames.diagnostic.pending - 1
                && posted.diagnostic.processed == frames.diagnostic.processed
            &&& !frame.post_returned && !(frame.stage is Executed || frame.stage is Freed)
                ==> posted.slots[i] == Some(Active { post_returned: true, ..frame })
                && posted.diagnostic.pending == frames.diagnostic.pending
            &&& frame.stage is Executing && frame.post_returned ==> executed.slots[i] is None
                && executed.diagnostic.processed == frames.diagnostic.processed + 1
            &&& frame.stage is Executing && !frame.post_returned ==> executed.slots[i] == Some(
                Active { stage: Stage::Executed, ..frame },
            ) && executed.diagnostic.processed == frames.diagnostic.processed
            &&& frame.stage is Freeing && frame.post_returned ==> freed.slots[i] is None
                && freed.diagnostic.dropped == frames.diagnostic.dropped + 1
            &&& frame.stage is Freeing && !frame.post_returned ==> freed.slots[i] == Some(
                Active { stage: Stage::Freed, ..frame },
            ) && freed.diagnostic.dropped == frames.diagnostic.dropped
        }),
{
    crate::netif_l2::slots::lemma_occupied_bounds(frames.slots);
    lemma_slot_of(frames, i, ticket);
}

/// A failed post and a failed callback are faults that close the queue, and neither
/// keeps the frame from leaving. A failed callback is counted as one. A free that failed
/// leaves its frame where it is.
pub proof fn law_native_failures_close_the_queue(
    frames: Frames,
    i: int,
    ticket: Ticket,
    status: i32,
)
    requires
        frames.wf(),
        held(frames.slots, i, ticket),
    ensures
        ({
            let frame = frames.slots[i]->0;
            let posted = frames.after_post(ticket, status);
            let executed = frames.after_completion(ticket, false, status);
            let freed = frames.after_completion(ticket, true, status);
            let first = if frames.diagnostic.fault == 0 {
                status
            } else {
                frames.diagnostic.fault
            };
            &&& !frame.post_returned && status != 0 ==> posted.diagnostic.closed
                && posted.diagnostic.fault == first
            &&& !frame.post_returned && status == 0 ==> posted.diagnostic.fault
                == frames.diagnostic.fault && posted.diagnostic.closed == frames.diagnostic.closed
            &&& frame.stage is Executing && status != 0 ==> executed.diagnostic.closed
                && executed.diagnostic.fault == first && (frames.diagnostic.callback_errors
                < u64::MAX ==> executed.diagnostic.callback_errors
                == frames.diagnostic.callback_errors + 1)
            &&& frame.stage is Executing && status == 0 ==> executed.diagnostic.fault
                == frames.diagnostic.fault && executed.diagnostic.callback_errors
                == frames.diagnostic.callback_errors
            &&& frame.stage is Freeing && status != 0 ==> freed.diagnostic.fault == first
                && freed.slots == frames.slots && freed.diagnostic.dropped
                == frames.diagnostic.dropped
        }),
{
    lemma_slot_of(frames, i, ticket);
}

/// An event that does not fit the stage of its frame breaks the protocol: a second
/// return of a post, a callback or a free that did not begin, and any event of a frame
/// that the queue does not hold. It moves no frame and is the fault of the queue.
pub proof fn law_broken_protocol_is_a_fault(
    frames: Frames,
    ticket: Ticket,
    pointer: usize,
    freeing: bool,
    status: i32,
)
    requires
        frames.wf(),
    ensures
        ({
            let known = exists|i: int| held(frames.slots, i, ticket);
            let broken = |after: Frames|
                after.slots == frames.slots && after.diagnostic.closed && after.diagnostic.fault
                    == (if frames.diagnostic.fault == 0 {
                    -0x1002i32
                } else {
                    frames.diagnostic.fault
                });
            &&& !known ==> broken(frames.after_post(ticket, status)) && broken(
                frames.after_completion(ticket, freeing, status),
            )
            &&& forall|i: int| #[trigger]
                held(frames.slots, i, ticket) && frames.slots[i]->0.post_returned ==> broken(
                    frames.after_post(ticket, status),
                )
            &&& forall|i: int| #[trigger]
                held(frames.slots, i, ticket) && frames.slots[i]->0.stage != (if freeing {
                    Stage::Freeing
                } else {
                    Stage::Executing
                }) ==> broken(frames.after_completion(ticket, freeing, status))
            &&& !waits_at(frames, pointer) ==> broken(frames.after_dispatch(pointer))
                && frames.after_free_attempt(pointer) == frames
        }),
{
    assert forall|i: int| #[trigger] held(frames.slots, i, ticket) implies frames.slot_of(ticket)
        == Some(i) by {
        lemma_slot_of(frames, i, ticket);
    }
}

/// A waiting frame is dispatched or freed by its address, and it is its own ticket that
/// is told.
pub proof fn law_waiting_frame_is_found_by_its_address(pointer: usize)
    ensures
        forall|tracker: &mut Tracker, ticket: Option<Ticket>, i: int|
            (*tracker)@.wf() && #[trigger] queued((*tracker)@.slots, i, pointer) && #[trigger]
                call_ensures(Tracker::dispatch, (tracker, pointer), ticket) ==> {
                let frame = (*tracker)@.slots[i]->0;
                &&& ticket == Some(frame.ticket)
                &&& (*final(tracker))@.slots == (*tracker)@.slots.update(
                    i,
                    Some(Active { stage: Stage::Executing, ..frame }),
                )
                &&& (*final(tracker))@.diagnostic == (*tracker)@.diagnostic
            },
        forall|tracker: &mut Tracker, ticket: Option<Ticket>, i: int|
            (*tracker)@.wf() && #[trigger] queued((*tracker)@.slots, i, pointer) && #[trigger]
                call_ensures(Tracker::before_free, (tracker, pointer), ticket) ==> {
                let frame = (*tracker)@.slots[i]->0;
                &&& ticket == Some(frame.ticket)
                &&& (*final(tracker))@.slots == (*tracker)@.slots.update(
                    i,
                    Some(Active { stage: Stage::Freeing, ..frame }),
                )
                &&& (*final(tracker))@.diagnostic == (*tracker)@.diagnostic
            },
{
    assert forall|frames: Frames, i: int|
        frames.wf() && #[trigger] queued(frames.slots, i, pointer) implies frames.queued_at(pointer)
        == Some(i) by {
        lemma_queued_at(frames, i, pointer);
    }
    assert forall|tracker: &mut Tracker, ticket: Option<Ticket>, i: int|
        (*tracker)@.wf() && #[trigger] queued((*tracker)@.slots, i, pointer) && #[trigger]
            call_ensures(Tracker::dispatch, (tracker, pointer), ticket) implies ({
        let frame = (*tracker)@.slots[i]->0;
        &&& ticket == Some(frame.ticket)
        &&& (*final(tracker))@.slots == (*tracker)@.slots.update(
            i,
            Some(Active { stage: Stage::Executing, ..frame }),
        )
        &&& (*final(tracker))@.diagnostic == (*tracker)@.diagnostic
    }) by {
        lemma_queued_at((*tracker)@, i, pointer);
    }
    assert forall|tracker: &mut Tracker, ticket: Option<Ticket>, i: int|
        (*tracker)@.wf() && #[trigger] queued((*tracker)@.slots, i, pointer) && #[trigger]
            call_ensures(Tracker::before_free, (tracker, pointer), ticket) implies ({
        let frame = (*tracker)@.slots[i]->0;
        &&& ticket == Some(frame.ticket)
        &&& (*final(tracker))@.slots == (*tracker)@.slots.update(
            i,
            Some(Active { stage: Stage::Freeing, ..frame }),
        )
        &&& (*final(tracker))@.diagnostic == (*tracker)@.diagnostic
    }) by {
        lemma_queued_at((*tracker)@, i, pointer);
    }
}

/// A queue has drained exactly when it is closed and holds nothing, and a fault is told
/// before that. A look at it sleeps for less than a second after the close, and else
/// fails with a timeout; a clock that cannot be read is a broken contract.
pub proof fn law_drain_is_awaited_for_a_second(
    tracker: Tracker,
    started_ms: u64,
    now_ms: Option<u64>,
    result: Result<bool, i32>,
    step: DrainStep,
)
    requires
        call_ensures(Tracker::drained, (&tracker,), result),
        call_ensures(Tracker::await_drain, (&tracker, started_ms, now_ms), step),
    ensures
        ({
            let d = tracker.diagnostic;
            let empty = d.closed && d.pending == 0;
            &&& result is Err <==> d.fault != 0
            &&& result matches Err(status) ==> status == d.fault
            &&& result matches Ok(drained) ==> drained == empty
            &&& step is Drained <==> d.fault == 0 && empty
            &&& step is Sleep <==> d.fault == 0 && !empty && now_ms is Some && started_ms
                <= now_ms->0 && now_ms->0 < started_ms + 1000
            &&& step matches DrainStep::Failed(status) ==> (d.fault != 0 ==> status == d.fault) && (
            d.fault == 0 && now_ms is None ==> status == -0x1002) && (d.fault == 0 && now_ms is Some
                ==> status == -0x1003)
        }),
{
}

/// A new handshake is admitted exactly when the native side succeeded, there was no
/// fault, the stop was not final, and nothing is pending; a refusal names the first of
/// these and changes nothing.
pub proof fn law_handshake_resumes_on_an_empty_queue(native_status: i32)
    ensures
        forall|tracker: &mut Tracker, result: Result<(), i32>|
            (*tracker)@.wf() && #[trigger] call_ensures(
                Tracker::resume_handshake,
                (tracker, native_status),
                result,
            ) ==> {
                let d = (*tracker).diagnostic;
                &&& result is Ok <==> native_status == 0 && d.fault == 0 && !(*tracker).terminal
                    && d.pending == 0
                &&& result is Ok ==> !(*final(tracker))@.diagnostic.closed
                    && (*final(tracker))@.slots == (*tracker)@.slots
                &&& result matches Err(status) ==> (*final(tracker))@ == (*tracker)@ && (
                native_status != 0 ==> status == native_status) && (native_status == 0 && d.fault
                    != 0 ==> status == d.fault) && (native_status == 0 && d.fault == 0 ==> status
                    == -0x1002)
            },
        forall|tracker: &mut Tracker, unit: ()|
            (*tracker)@.wf() && #[trigger] call_ensures(Tracker::seal, (tracker,), unit)
                ==> (*final(tracker))@.terminal && (*final(tracker))@.diagnostic.closed
                && (*final(tracker))@.slots == (*tracker)@.slots,
        forall|tracker: &mut Tracker, unit: ()|
            (*tracker)@.wf() && #[trigger] call_ensures(Tracker::close, (tracker,), unit)
                ==> (*final(tracker))@.diagnostic.closed && (*final(tracker))@.terminal
                == (*tracker)@.terminal && (*final(tracker))@.slots == (*tracker)@.slots,
{
}

/// Only work of the tracked kind is followed. The address of a message is its payload,
/// where that is one pointer of four bytes.
pub proof fn law_only_tracked_work_is_followed(
    kind: u16,
    pointer: usize,
    payload: Option<(u32, usize)>,
    identity: usize,
)
    requires
        call_ensures(message_identity, (payload,), identity),
    ensures
        forall|tracker: &mut Tracker, step: PostStep|
            (*tracker)@.wf() && #[trigger] call_ensures(
                Tracker::begin_post,
                (tracker, kind, pointer),
                step,
            ) ==> {
                &&& step is Forward <==> kind != 4
                &&& step is Forward ==> (*final(tracker))@ == (*tracker)@
                &&& step is Track ==> !(*tracker).diagnostic.closed && pointer != 0
                    && step->Track_0.sequence == (*tracker).diagnostic.accepted + 1
                &&& step matches PostStep::Reject { release, status } ==> status == -0x1002
                    && release == !waits_at((*tracker)@, pointer)
            },
        payload is Some && (payload->0).0 == 4 ==> identity == (payload->0).1,
        !(payload is Some && (payload->0).0 == 4) ==> identity == 0,
{
}

} // verus!
