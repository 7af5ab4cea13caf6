//! Checked teardown of a native user.
//!
//! The native delete routine discards the status of the final free. The nested
//! call is followed by the user's identity and a ticket that is never reused,
//! without retaining or reading native memory. An absent, duplicate or failed
//! free cannot turn into a successful delete.

use crate::netif_l2::slots::vacancy;
use vstd::prelude::*;

verus! {

/// Deletes that can be followed at once.
pub const SLOTS: usize = 4;

/// The native side broke the teardown protocol.
pub const CONTRACT_ERROR: u32 = 0xffff_ff01;

/// Identity of one delete. It is never issued again.
#[derive(Clone, Copy, Debug, PartialEq, Eq, Structural)]
pub struct Ticket {
    pub sequence: u64,
}

/// What was seen of the free inside a delete.
#[derive(Clone, Copy, Debug, PartialEq, Eq, Structural)]
pub enum Free {
    NotSeen,
    Running,
    Returned(u32),
    Invalid,
}

/// One delete that runs.
#[derive(Clone, Copy, Debug, PartialEq, Eq, Structural)]
pub struct Active {
    pub ticket: Ticket,
    pub user: usize,
    pub free: Free,
}

/// Checked calls only. No active call is not a statement about the hardware.
#[derive(Clone, Copy, Debug, PartialEq, Eq)]
pub struct UserCleanupDiagnostics {
    pub entered: u64,
    pub completed: u64,
    pub active: u32,
    pub free_completed: u64,
    pub unscoped_free: u64,
    pub fault: u32,
    pub last_outer_status: u32,
    pub last_free_status: Option<u32>,
    pub last_checked_status: u32,
}

/// The deletes that run.
pub struct Tracker {
    pub slots: [Option<Active>; 4],
    pub issued: u64,
    pub diagnostic: UserCleanupDiagnostics,
}

/// What a tracker holds.
#[verifier::ext_equal]
pub struct Deletes {
    pub slots: Seq<Option<Active>>,
    pub issued: u64,
    pub diagnostic: UserCleanupDiagnostics,
}

impl View for Tracker {
    type V = Deletes;

    open spec fn view(&self) -> Deletes {
        Deletes { slots: self.slots@, issued: self.issued, diagnostic: self.diagnostic }
    }
}

/// Slot `i` holds the delete with this ticket.
pub open spec fn held(slots: Seq<Option<Active>>, i: int, ticket: Ticket) -> bool {
    0 <= i < slots.len() && slots[i] is Some && slots[i]->0.ticket == ticket
}

/// Slot `i` holds the delete of this user.
pub open spec fn deletes(slots: Seq<Option<Active>>, i: int, user: usize) -> bool {
    0 <= i < slots.len() && slots[i] is Some && slots[i]->0.user == user
}

/// A counter after one more event; at its end it stays.
pub open spec fn counted(counter: u64) -> u64 {
    if counter < u64::MAX {
        (counter + 1) as u64
    } else {
        u64::MAX
    }
}

/// The deletes whose free has returned, or can no longer count.
pub open spec fn spent(slots: Seq<Option<Active>>) -> nat
    decreases slots.len(),
{
    if slots.len() == 0 {
        0
    } else {
        spent(slots.drop_last()) + (if is_spent(slots.last()) {
            1nat
        } else {
            0
        })
    }
}

pub open spec fn is_spent(slot: Option<Active>) -> bool {
    slot matches Some(active) && (active.free is Returned || active.free is Invalid)
}

impl Deletes {
    /// Every delete that was issued has completed or is held in one slot; tickets
    /// and users are distinct; and a delete counts at most one free.
    pub open spec fn wf(self) -> bool {
        let d = self.diagnostic;
        &&& self.slots.len() == SLOTS
        &&& d.entered <= self.issued
        &&& d.entered == d.completed + d.active
        &&& d.active == crate::netif_l2::slots::occupied(self.slots)
        &&& forall|i: int|
            0 <= i < self.slots.len() && (#[trigger] self.slots[i]) is Some ==> 1
                <= self.slots[i]->0.ticket.sequence <= self.issued && self.slots[i]->0.user != 0
        &&& forall|i: int, j: int|
            0 <= i < j < self.slots.len() && (#[trigger] self.slots[i]) is Some && (
            #[trigger] self.slots[j]) is Some ==> self.slots[i]->0.ticket
                != self.slots[j]->0.ticket && self.slots[i]->0.user != self.slots[j]->0.user
        &&& self.issued < u64::MAX ==> d.entered == self.issued
        &&& d.free_completed <= d.completed + spent(self.slots)
    }

    pub open spec fn slot_of(self, ticket: Ticket) -> Option<int> {
        if exists|i: int| held(self.slots, i, ticket) {
            Some(choose|i: int| held(self.slots, i, ticket))
        } else {
            None
        }
    }

    pub open spec fn delete_of(self, user: usize) -> Option<int> {
        if exists|i: int| deletes(self.slots, i, user) {
            Some(choose|i: int| deletes(self.slots, i, user))
        } else {
            None
        }
    }

    /// The first fault is kept.
    pub open spec fn failed(self, status: u32) -> Deletes {
        Deletes {
            diagnostic: UserCleanupDiagnostics {
                fault: if self.diagnostic.fault == 0 {
                    status
                } else {
                    self.diagnostic.fault
                },
                ..self.diagnostic
            },
            ..self
        }
    }

    pub open spec fn with_slot(self, i: int, entry: Active) -> Deletes {
        Deletes { slots: self.slots.update(i, Some(entry)), ..self }
    }

    /// A delete of `user` cannot be followed.
    pub open spec fn refuses(self, user: usize) -> bool {
        user == 0 || self.delete_of(user) is Some || self.diagnostic.active == SLOTS || self.issued
            == u64::MAX
    }

    /// `next` is this table after a delete of `user` began.
    pub open spec fn begins(self, user: usize, next: Deletes) -> bool {
        let sequence = (self.issued + 1) as u64;
        exists|i: int|
            0 <= i < self.slots.len() && (#[trigger] self.slots[i]) is None && next == (Deletes {
                slots: self.slots.update(
                    i,
                    Some(Active { ticket: Ticket { sequence }, user, free: Free::NotSeen }),
                ),
                issued: sequence,
                diagnostic: UserCleanupDiagnostics {
                    entered: sequence,
                    active: (self.diagnostic.active + 1) as u32,
                    ..self.diagnostic
                },
            })
    }

    /// A free of `user` begins. Outside a delete it satisfies none; a second one
    /// spoils the delete.
    pub open spec fn after_free_began(self, user: usize) -> Deletes {
        match self.delete_of(user) {
            None => Deletes {
                diagnostic: UserCleanupDiagnostics {
                    unscoped_free: counted(self.diagnostic.unscoped_free),
                    ..self.diagnostic
                },
                ..self
            },
            Some(i) => {
                let a = self.slots[i]->0;
                if a.free is NotSeen {
                    self.with_slot(i, Active { free: Free::Running, ..a })
                } else {
                    self.with_slot(i, Active { free: Free::Invalid, ..a }).failed(CONTRACT_ERROR)
                }
            },
        }
    }

    /// The free that `ticket` was issued for returned `status`.
    pub open spec fn after_free_returned(self, ticket: Ticket, status: u32) -> Deletes {
        match self.slot_of(ticket) {
            None => self.failed(CONTRACT_ERROR),
            Some(i) => {
                let a = self.slots[i]->0;
                if a.free is Running {
                    let noted = self.with_slot(i, Active { free: Free::Returned(status), ..a });
                    let counted_free = Deletes {
                        diagnostic: UserCleanupDiagnostics {
                            free_completed: counted(noted.diagnostic.free_completed),
                            ..noted.diagnostic
                        },
                        ..noted
                    };
                    if status != 0 {
                        counted_free.failed(status)
                    } else {
                        counted_free
                    }
                } else {
                    self.with_slot(i, Active { free: Free::Invalid, ..a }).failed(CONTRACT_ERROR)
                }
            },
        }
    }

    /// The status that a delete with this free and this native return earned.
    pub open spec fn earned(free: Free, outer: u32) -> u32 {
        if outer != 0 {
            outer
        } else {
            match free {
                Free::Returned(status) => status,
                _ => CONTRACT_ERROR,
            }
        }
    }

    /// The delete in slot `i` returned `outer`.
    pub open spec fn after_delete(self, i: int, outer: u32) -> Deletes {
        let a = self.slots[i]->0;
        let released = Deletes {
            slots: self.slots.update(i, None),
            diagnostic: UserCleanupDiagnostics {
                active: (self.diagnostic.active - 1) as u32,
                completed: (self.diagnostic.completed + 1) as u64,
                last_outer_status: outer,
                last_free_status: match a.free {
                    Free::Returned(status) => Some(status),
                    _ => None,
                },
                ..self.diagnostic
            },
            ..self
        };
        let checked = Self::earned(a.free, outer);
        let judged = if checked != 0 {
            released.failed(checked)
        } else {
            released
        };
        Deletes {
            diagnostic: UserCleanupDiagnostics {
                last_checked_status: judged.diagnostic.fault,
                ..judged.diagnostic
            },
            ..judged
        }
    }
}

proof fn lemma_spent_update(slots: Seq<Option<Active>>, index: int, entry: Option<Active>)
    requires
        0 <= index < slots.len(),
    ensures
        spent(slots.update(index, entry)) == spent(slots) - (if is_spent(slots[index]) {
            1int
        } else {
            0
        }) + (if is_spent(entry) {
            1int
        } else {
            0
        }),
    decreases slots.len(),
{
    let updated = slots.update(index, entry);
    if index == slots.len() - 1 {
        assert(updated.drop_last() =~= slots.drop_last());
    } else {
        assert(updated.drop_last() =~= slots.drop_last().update(index, entry));
        lemma_spent_update(slots.drop_last(), index, entry);
    }
}

proof fn lemma_spent_are_held(slots: Seq<Option<Active>>)
    ensures
        spent(slots) <= crate::netif_l2::slots::occupied(slots),
    decreases slots.len(),
{
    if slots.len() > 0 {
        lemma_spent_are_held(slots.drop_last());
    }
}

proof fn lemma_slot_of(table: Deletes, i: int, ticket: Ticket)
    requires
        table.wf(),
        held(table.slots, i, ticket),
    ensures
        table.slot_of(ticket) == Some(i),
{
    let j = choose|j: int| held(table.slots, j, ticket);
    assert(held(table.slots, j, ticket));
    if j != i {
        let (a, b) = if i < j {
            (i, j)
        } else {
            (j, i)
        };
        assert(table.slots[a] is Some && table.slots[b] is Some);
    }
}

proof fn lemma_delete_of(table: Deletes, i: int, user: usize)
    requires
        table.wf(),
        deletes(table.slots, i, user),
    ensures
        table.delete_of(user) == Some(i),
{
    let j = choose|j: int| deletes(table.slots, j, user);
    assert(deletes(table.slots, j, user));
    if j != i {
        let (a, b) = if i < j {
            (i, j)
        } else {
            (j, i)
        };
        assert(table.slots[a] is Some && table.slots[b] is Some);
    }
}

proof fn lemma_with_slot(table: Deletes, i: int, entry: Active)
    requires
        table.wf(),
        0 <= i < table.slots.len(),
        table.slots[i] is Some,
        entry.ticket == table.slots[i]->0.ticket,
        entry.user == table.slots[i]->0.user,
        is_spent(table.slots[i]) ==> is_spent(Some(entry)),
    ensures
        table.with_slot(i, entry).wf(),
        spent(table.with_slot(i, entry).slots) == spent(table.slots) + (if is_spent(Some(entry))
            && !is_spent(table.slots[i]) {
            1int
        } else {
            0
        }),
{
    lemma_spent_update(table.slots, i, Some(entry));
    crate::netif_l2::slots::lemma_occupied_update(table.slots, i, Some(entry));
}

impl Tracker {
    pub fn new() -> (tracker: Self)
        ensures
            tracker@.wf(),
            tracker.issued == 0,
            forall|i: int| 0 <= i < SLOTS ==> #[trigger] tracker@.slots[i] is None,
            tracker.diagnostic == (UserCleanupDiagnostics {
                entered: 0,
                completed: 0,
                active: 0,
                free_completed: 0,
                unscoped_free: 0,
                fault: 0,
                last_outer_status: 0,
                last_free_status: None,
                last_checked_status: 0,
            }),
    {
        let tracker = Tracker {
            slots: [None;4],
            issued: 0,
            diagnostic: UserCleanupDiagnostics {
                entered: 0,
                completed: 0,
                active: 0,
                free_completed: 0,
                unscoped_free: 0,
                fault: 0,
                last_outer_status: 0,
                last_free_status: None,
                last_checked_status: 0,
            },
        };
        proof {
            crate::netif_l2::slots::lemma_occupied_bounds(tracker@.slots);
        }
        tracker
    }

    fn fail(&mut self, status: u32) -> (reported: u32)
        requires
            old(self)@.wf(),
        ensures
            final(self)@.wf(),
            final(self)@ == old(self)@.failed(status),
            reported == status,
    {
        if self.diagnostic.fault == 0 {
            self.diagnostic.fault = status;
        }
        status
    }

    /// A native success is only as good as the teardowns before it.
    pub fn checked_status(&self, status: u32) -> (checked: u32)
        ensures
            checked == (if status != 0 {
                status
            } else {
                self.diagnostic.fault
            }),
    {
        if status != 0 {
            status
        } else {
            self.diagnostic.fault
        }
    }

    fn find_user(&self, user: usize) -> (index: Option<usize>)
        requires
            self@.wf(),
        ensures
            match index {
                Some(i) => i < SLOTS && self@.slots[i as int] is Some && self@.delete_of(user)
                    == Some(i as int),
                None => self@.delete_of(user) is None,
            },
    {
        let mut i: usize = 0;
        while i < 4
            invariant
                i <= 4,
                self@.wf(),
                forall|j: int| 0 <= j < i ==> !deletes(self@.slots, j, user),
            decreases 4 - i,
        {
            if let Some(active) = self.slots[i] {
                if active.user == user {
                    proof {
                        lemma_delete_of(self@, i as int, user);
                    }
                    return Some(i);
                }
            }
            i = i + 1;
        }
        None
    }

    fn find_ticket(&self, ticket: Ticket) -> (index: Option<usize>)
        requires
            self@.wf(),
        ensures
            match index {
                Some(i) => i < SLOTS && self@.slots[i as int] is Some && self@.slot_of(ticket)
                    == Some(i as int),
                None => self@.slot_of(ticket) is None,
            },
    {
        let mut i: usize = 0;
        while i < 4
            invariant
                i <= 4,
                self@.wf(),
                forall|j: int| 0 <= j < i ==> !held(self@.slots, j, ticket),
            decreases 4 - i,
        {
            if let Some(active) = self.slots[i] {
                if active.ticket == ticket {
                    proof {
                        lemma_slot_of(self@, i as int, ticket);
                    }
                    return Some(i);
                }
            }
            i = i + 1;
        }
        None
    }

    /// A delete of `user` begins.
    pub fn begin(&mut self, user: usize) -> (ticket: Option<Ticket>)
        requires
            old(self)@.wf(),
        ensures
            final(self)@.wf(),
            match ticket {
                Some(issued) => {
                    &&& !old(self)@.refuses(user)
                    &&& issued.sequence == old(self).issued + 1
                    &&& old(self)@.begins(user, final(self)@)
                },
                None => old(self)@.refuses(user) && final(self)@ == old(self)@.failed(
                    CONTRACT_ERROR,
                ),
            },
    {
        if user == 0 || self.find_user(user).is_some() {
            self.fail(CONTRACT_ERROR);
            return None;
        }
        proof {
            crate::netif_l2::slots::lemma_occupied_bounds(self@.slots);
        }
        let index: usize = match vacancy(&self.slots) {
            Some(index) => index,
            None => {
                self.fail(CONTRACT_ERROR);
                return None;
            },
        };
        let sequence: u64 = match self.issued.checked_add(1) {
            Some(sequence) => sequence,
            None => {
                self.fail(CONTRACT_ERROR);
                return None;
            },
        };
        let ticket = Ticket { sequence };
        let entry = Active { ticket, user, free: Free::NotSeen };
        proof {
            crate::netif_l2::slots::lemma_occupied_update(self@.slots, index as int, Some(entry));
            lemma_spent_update(self@.slots, index as int, Some(entry));
            assert forall|j: int| 0 <= j < self@.slots.len() && self@.slots[j]
                is Some implies self@.slots[j]->0.user != user by {
                assert(!deletes(self@.slots, j, user));
            }
        }
        self.issued = sequence;
        self.slots[index] = Some(entry);
        self.diagnostic.entered = sequence;
        self.diagnostic.active = self.diagnostic.active + 1;
        proof {
            assert(old(self)@.slots[index as int] is None);
        }
        Some(ticket)
    }

    /// A free of `user` begins; the ticket names the delete that it belongs to.
    pub fn begin_free(&mut self, user: usize) -> (ticket: Option<Ticket>)
        requires
            old(self)@.wf(),
        ensures
            final(self)@.wf(),
            final(self)@ == old(self)@.after_free_began(user),
            match old(self)@.delete_of(user) {
                Some(i) => ticket == (if old(self)@.slots[i]->0.free is NotSeen {
                    Some(old(self)@.slots[i]->0.ticket)
                } else {
                    None
                }),
                None => ticket is None,
            },
    {
        let index: usize = match self.find_user(user) {
            Some(index) => index,
            None => {
                self.diagnostic.unscoped_free = self.diagnostic.unscoped_free.saturating_add(1);
                return None;
            },
        };
        if let Some(active) = self.slots[index] {
            match active.free {
                Free::NotSeen => {
                    let running = Active { free: Free::Running, ..active };
                    proof {
                        lemma_with_slot(self@, index as int, running);
                    }
                    self.slots[index] = Some(running);
                    return Some(active.ticket);
                },
                _ => {
                    let invalid = Active { free: Free::Invalid, ..active };
                    proof {
                        lemma_with_slot(self@, index as int, invalid);
                    }
                    self.slots[index] = Some(invalid);
                    self.fail(CONTRACT_ERROR);
                },
            }
        }
        None
    }

    /// The free of a delete returned.
    pub fn finish_free(&mut self, ticket: Ticket, status: u32)
        requires
            old(self)@.wf(),
        ensures
            final(self)@.wf(),
            final(self)@ == old(self)@.after_free_returned(ticket, status),
    {
        let index: usize = match self.find_ticket(ticket) {
            Some(index) => index,
            None => {
                self.fail(CONTRACT_ERROR);
                return;
            },
        };
        if let Some(active) = self.slots[index] {
            match active.free {
                Free::Running => {
                    let returned = Active { free: Free::Returned(status), ..active };
                    proof {
                        lemma_with_slot(self@, index as int, returned);
                    }
                    self.slots[index] = Some(returned);
                    self.diagnostic.free_completed =
                    self.diagnostic.free_completed.saturating_add(1);
                    if status != 0 {
                        self.fail(status);
                    }
                },
                _ => {
                    let invalid = Active { free: Free::Invalid, ..active };
                    proof {
                        lemma_with_slot(self@, index as int, invalid);
                    }
                    self.slots[index] = Some(invalid);
                    self.fail(CONTRACT_ERROR);
                },
            }
        }
    }

    /// The native delete returned `outer`; the status that may be believed.
    pub fn finish(&mut self, ticket: Option<Ticket>, outer: u32) -> (status: u32)
        requires
            old(self)@.wf(),
        ensures
            final(self)@.wf(),
            match ticket {
                Some(issued) if old(self)@.slot_of(issued) is Some => {
                    &&& final(self)@ == old(self)@.after_delete(
                        old(self)@.slot_of(issued)->0,
                        outer,
                    )
                    &&& status == final(self).diagnostic.fault
                },
                _ => final(self)@ == old(self)@.failed(CONTRACT_ERROR) && status == CONTRACT_ERROR,
            },
    {
        let found = match ticket {
            Some(ticket) => self.find_ticket(ticket),
            None => None,
        };
        let index: usize = match found {
            Some(index) => index,
            None => {
                return self.fail(CONTRACT_ERROR);
            },
        };
        proof {
            crate::netif_l2::slots::lemma_occupied_update(self@.slots, index as int, None);
            lemma_spent_update(self@.slots, index as int, None);
            crate::netif_l2::slots::lemma_occupied_bounds(self@.slots);
        }
        if let Some(active) = self.slots[index] {
            self.slots[index] = None;
            self.diagnostic.active = self.diagnostic.active - 1;
            self.diagnostic.completed = self.diagnostic.completed + 1;
            self.diagnostic.last_outer_status = outer;
            let checked: u32 = match active.free {
                Free::Returned(status) => {
                    self.diagnostic.last_free_status = Some(status);
                    if outer != 0 {
                        outer
                    } else {
                        status
                    }
                },
                _ => {
                    self.diagnostic.last_free_status = None;
                    if outer != 0 {
                        outer
                    } else {
                        CONTRACT_ERROR
                    }
                },
            };
            if checked != 0 {
                self.fail(checked);
            }
            self.diagnostic.last_checked_status = self.diagnostic.fault;
        }
        self.diagnostic.fault
    }
}

/// A delete succeeds only when the free of its own user returned zero, the
/// native delete returned zero, and nothing failed before.
pub proof fn law_success_needs_both_receipts(table: Deletes, i: int, outer: u32)
    requires
        table.wf(),
        0 <= i < table.slots.len(),
        table.slots[i] is Some,
        table.after_delete(i, outer).diagnostic.fault == 0,
    ensures
        outer == 0,
        table.slots[i]->0.free == Free::Returned(0),
        table.diagnostic.fault == 0,
{
}

/// A failed teardown poisons every later one.
pub proof fn law_fault_is_sticky(
    table: Deletes,
    user: usize,
    ticket: Ticket,
    i: int,
    status: u32,
)
    requires
        table.wf(),
        table.diagnostic.fault != 0,
        0 <= i < table.slots.len(),
    ensures
        table.failed(status).diagnostic.fault == table.diagnostic.fault,
        table.after_free_began(user).diagnostic.fault == table.diagnostic.fault,
        table.after_free_returned(ticket, status).diagnostic.fault == table.diagnostic.fault,
        table.after_delete(i, status).diagnostic.fault == table.diagnostic.fault,
{
}

/// Every delete that was entered has completed or runs, at most four run, no more
/// frees have completed than deletes were entered, and a delete that finishes
/// after a fault reports that fault, whatever it returned itself.
pub proof fn law_frees_and_deletes_add_up(table: Deletes, i: int, outer: u32)
    requires
        table.wf(),
    ensures
        table.diagnostic.entered == table.diagnostic.completed + table.diagnostic.active,
        table.diagnostic.active <= SLOTS,
        table.diagnostic.free_completed <= table.diagnostic.entered,
        table.diagnostic.fault != 0 && 0 <= i < table.slots.len() ==> table.after_delete(
            i,
            outer,
        ).diagnostic.last_checked_status == table.diagnostic.fault,
{
    crate::netif_l2::slots::lemma_occupied_bounds(table.slots);
    lemma_spent_are_held(table.slots);
}

/// The free of one delete leaves every other delete as it was.
pub proof fn law_receipts_are_not_shared(table: Deletes, i: int, other: Ticket, status: u32)
    requires
        table.wf(),
        0 <= i < table.slots.len(),
        table.slots[i] is Some,
        table.slots[i]->0.ticket != other,
    ensures
        table.after_free_returned(other, status).slots[i] == table.slots[i],
{
    if let Some(j) = table.slot_of(other) {
        assert(held(table.slots, j, other));
    }
}

/// `ticket` is what the beginning of a delete of `user` answers, and `after` what it
/// leaves.
pub open spec fn is_followed(
    before: Deletes,
    user: usize,
    after: Deletes,
    ticket: Option<Ticket>,
) -> bool {
    &&& ticket is Some <==> user != 0 && before.diagnostic.active < 4 && before.issued < u64::MAX
        && (forall|i: int| !deletes(before.slots, i, user))
    &&& ticket matches Some(issued) ==> {
        &&& issued.sequence == before.issued + 1
        &&& after.diagnostic.active == before.diagnostic.active + 1
        &&& after.diagnostic.entered == before.issued + 1
        &&& after.diagnostic.fault == before.diagnostic.fault
        &&& exists|i: int| #[trigger]
            held(after.slots, i, issued) && after.slots[i]->0.user == user
                && after.slots[i]->0.free is NotSeen
    }
    &&& ticket is None ==> after.slots == before.slots && after.issued == before.issued
        && after.diagnostic.fault == (if before.diagnostic.fault == 0 {
        0xffff_ff01u32
    } else {
        before.diagnostic.fault
    })
}

proof fn lemma_is_followed(
    before: Deletes,
    user: usize,
    after: Deletes,
    ticket: Option<Ticket>,
)
    requires
        before.wf(),
        match ticket {
            Some(issued) => {
                &&& !before.refuses(user)
                &&& issued.sequence == before.issued + 1
                &&& before.begins(user, after)
            },
            None => before.refuses(user) && after == before.failed(CONTRACT_ERROR),
        },
    ensures
        is_followed(before, user, after, ticket),
{
    crate::netif_l2::slots::lemma_occupied_bounds(before.slots);
    if let Some(issued) = ticket {
        let sequence = (before.issued + 1) as u64;
        let i = choose|i: int|
            0 <= i < before.slots.len() && (#[trigger] before.slots[i]) is None && after == (
            Deletes {
                slots: before.slots.update(
                    i,
                    Some(Active { ticket: Ticket { sequence }, user, free: Free::NotSeen }),
                ),
                issued: sequence,
                diagnostic: UserCleanupDiagnostics {
                    entered: sequence,
                    active: (before.diagnostic.active + 1) as u32,
                    ..before.diagnostic
                },
            });
        assert(held(after.slots, i, issued));
    }
}

/// A delete can be followed exactly when it names a user that no running delete names,
/// and there is a slot and a number for it. It gets the next number and is running, with
/// no free seen. A refusal is a fault of the protocol.
pub proof fn law_delete_is_followed_once(user: usize)
    ensures
        forall|tracker: &mut Tracker, ticket: Option<Ticket>|
            (*tracker)@.wf() && #[trigger] call_ensures(Tracker::begin, (tracker, user), ticket)
                ==> is_followed((*tracker)@, user, (*final(tracker))@, ticket),
{
    assert forall|tracker: &mut Tracker, ticket: Option<Ticket>|
        (*tracker)@.wf() && #[trigger] call_ensures(
            Tracker::begin,
            (tracker, user),
            ticket,
        ) implies is_followed((*tracker)@, user, (*final(tracker))@, ticket) by {
        lemma_is_followed((*tracker)@, user, (*final(tracker))@, ticket);
    }
}

/// The free inside a delete is seen once, by the user that it frees: it runs, and its
/// return is the receipt of that delete. A second one spoils the delete, a return without
/// one is a fault, and a free outside any delete is counted and satisfies none.
pub proof fn law_free_belongs_to_its_delete(
    table: Deletes,
    i: int,
    user: usize,
    ticket: Ticket,
    status: u32,
)
    requires
        table.wf(),
    ensures
        ({
            let began = table.after_free_began(user);
            let returned = table.after_free_returned(ticket, status);
            let protocol = if table.diagnostic.fault == 0 {
                0xffff_ff01u32
            } else {
                table.diagnostic.fault
            };
            &&& deletes(table.slots, i, user) && table.slots[i]->0.free is NotSeen
                ==> began.slots[i] == Some(Active { free: Free::Running, ..table.slots[i]->0 })
                && began.diagnostic == table.diagnostic
            &&& deletes(table.slots, i, user) && !(table.slots[i]->0.free is NotSeen)
                ==> began.slots[i]->0.free is Invalid && began.diagnostic.fault == protocol
            &&& (forall|j: int| !deletes(table.slots, j, user)) ==> began.slots == table.slots
                && began.diagnostic.fault == table.diagnostic.fault && (
            table.diagnostic.unscoped_free < u64::MAX ==> began.diagnostic.unscoped_free
                == table.diagnostic.unscoped_free + 1)
            &&& held(table.slots, i, ticket) && table.slots[i]->0.free is Running
                ==> returned.slots[i] == Some(
                Active { free: Free::Returned(status), ..table.slots[i]->0 },
            ) && returned.diagnostic.fault == (if table.diagnostic.fault == 0 {
                status
            } else {
                table.diagnostic.fault
            }) && (table.diagnostic.free_completed < u64::MAX ==> returned.diagnostic.free_completed
                == table.diagnostic.free_completed + 1)
            &&& held(table.slots, i, ticket) && !(table.slots[i]->0.free is Running)
                ==> returned.slots[i]->0.free is Invalid && returned.diagnostic.fault == protocol
                && returned.diagnostic.free_completed == table.diagnostic.free_completed
            &&& (forall|j: int| !held(table.slots, j, ticket)) ==> returned.slots == table.slots
                && returned.diagnostic.fault == protocol
        }),
{
    if deletes(table.slots, i, user) {
        lemma_delete_of(table, i, user);
    }
    if held(table.slots, i, ticket) {
        lemma_slot_of(table, i, ticket);
    }
}

/// A delete that ends leaves its slot and is judged: by its own failure, else by its
/// free, which must have returned zero; and the first fault of all is what may be
/// believed. Without a running delete, the protocol is broken.
pub proof fn law_delete_is_judged_by_both_receipts(ticket: Ticket, outer: u32)
    ensures
        forall|tracker: &mut Tracker, status: u32, i: int|
            (*tracker)@.wf() && #[trigger] held((*tracker)@.slots, i, ticket) && #[trigger]
                call_ensures(Tracker::finish, (tracker, Some(ticket), outer), status) ==> {
                let before = (*tracker)@;
                let after = (*final(tracker))@;
                let free = before.slots[i]->0.free;
                let earned = if outer != 0 {
                    outer
                } else if free is Returned {
                    free->Returned_0
                } else {
                    0xffff_ff01u32
                };
                &&& after.slots[i] is None
                &&& after.diagnostic.completed == before.diagnostic.completed + 1
                &&& after.diagnostic.active == before.diagnostic.active - 1
                &&& status == (if before.diagnostic.fault != 0 {
                    before.diagnostic.fault
                } else {
                    earned
                })
                &&& after.diagnostic.fault == status && after.diagnostic.last_checked_status
                    == status
                &&& after.diagnostic.last_outer_status == outer
                &&& after.diagnostic.last_free_status == (if free is Returned {
                    Some(free->Returned_0)
                } else {
                    None
                })
            },
        forall|tracker: &mut Tracker, status: u32|
            (*tracker)@.wf() && #[trigger] call_ensures(
                Tracker::finish,
                (tracker, None, outer),
                status,
            ) ==> status == 0xffff_ff01 && (*final(tracker))@.slots == (*tracker)@.slots && (
            *final(tracker))@.diagnostic.fault != 0,
{
    assert forall|tracker: &mut Tracker, status: u32, i: int|
        (*tracker)@.wf() && #[trigger] held((*tracker)@.slots, i, ticket) && #[trigger]
            call_ensures(Tracker::finish, (tracker, Some(ticket), outer), status) implies ({
        let before = (*tracker)@;
        let after = (*final(tracker))@;
        let free = before.slots[i]->0.free;
        let earned = if outer != 0 {
            outer
        } else if free is Returned {
            free->Returned_0
        } else {
            0xffff_ff01u32
        };
        &&& after.slots[i] is None
        &&& after.diagnostic.completed == before.diagnostic.completed + 1
        &&& after.diagnostic.active == before.diagnostic.active - 1
        &&& status == (if before.diagnostic.fault != 0 {
            before.diagnostic.fault
        } else {
            earned
        })
        &&& after.diagnostic.fault == status && after.diagnostic.last_checked_status == status
        &&& after.diagnostic.last_outer_status == outer
        &&& after.diagnostic.last_free_status == (if free is Returned {
            Some(free->Returned_0)
        } else {
            None
        })
    }) by {
        lemma_slot_of((*tracker)@, i, ticket);
        crate::netif_l2::slots::lemma_occupied_bounds((*tracker)@.slots);
    }
}

/// A native success is believed only while there was no fault.
pub proof fn law_success_is_believed_without_a_fault(tracker: Tracker, status: u32, checked: u32)
    requires
        call_ensures(Tracker::checked_status, (&tracker, status), checked),
    ensures
        checked == 0 <==> status == 0 && tracker.diagnostic.fault == 0,
        status != 0 ==> checked == status,
        status == 0 ==> checked == tracker.diagnostic.fault,
{
}

/// The ticket of a free is that of the delete of its user, the first time; a second free,
/// or one of a user that is not being deleted, gets none.
pub proof fn law_free_gets_the_ticket_of_its_delete(user: usize)
    ensures
        forall|tracker: &mut Tracker, ticket: Option<Ticket>, i: int|
            (*tracker)@.wf() && #[trigger] deletes((*tracker)@.slots, i, user) && #[trigger]
                call_ensures(Tracker::begin_free, (tracker, user), ticket) ==> (if (
            *tracker)@.slots[i]->0.free is NotSeen {
                ticket == Some((*tracker)@.slots[i]->0.ticket)
            } else {
                ticket is None
            }),
{
    assert forall|tracker: &mut Tracker, ticket: Option<Ticket>, i: int|
        (*tracker)@.wf() && #[trigger] deletes((*tracker)@.slots, i, user) && #[trigger]
            call_ensures(Tracker::begin_free, (tracker, user), ticket) implies (if (
    *tracker)@.slots[i]->0.free is NotSeen {
        ticket == Some((*tracker)@.slots[i]->0.ticket)
    } else {
        ticket is None
    }) by {
        lemma_delete_of((*tracker)@, i, user);
    }
}

} // verus!
