//! How often one operation drops a stalled connection.

use crate::hisi_rf_backend::incremental::{
    ActiveOperation, IncrementalRequest, IncrementalSupplicant, OperationOutcome, PollAction,
    PollPhase, PollState, PollTurn, PortReply,
};
use crate::radio::{BackendError, IncrementalCompletion, ScanOutcome, ScanResult, WorkBudget};
use hisi_rf_core::OperationId;
use vstd::prelude::*;

verus! {

/// What a connection can stall on.
#[derive(Clone, Copy, Debug, PartialEq, Eq)]
pub enum Stall {
    FirstEapol,
    ExternalAuth,
}

/// The reconnects for a stall that were counted.
pub open spec fn reconnects(core: IncrementalSupplicant, stall: Stall) -> u32 {
    match stall {
        Stall::FirstEapol => core.first_eapol_reconnects,
        Stall::ExternalAuth => core.external_auth_reconnects,
    }
}

/// The reconnect for a stall was submitted.
pub open spec fn submitted(op: ActiveOperation, stall: Stall) -> bool {
    match stall {
        Stall::FirstEapol => op.first_eapol_reconnect_submitted,
        Stall::ExternalAuth => op.external_auth_reconnect_submitted,
    }
}

/// The poll waits for the answer to a disconnect that it asked for because of a
/// stall.
pub open spec fn dropping(turn: PollTurn, stall: Stall) -> bool {
    match (turn.phase, stall) {
        (PollPhase::Dropping(first, _), Stall::FirstEapol) => first,
        (PollPhase::Dropping(_, external), Stall::ExternalAuth) => external,
        _ => false,
    }
}

/// `reply` accepts a disconnect that was asked for because of a stall.
pub open spec fn drops(state: PollState, reply: PortReply, stall: Stall) -> bool {
    dropping(state.turn, stall) && reply matches PortReply::Submitted(Ok(_))
}

/// The number of disconnects that were accepted because of a stall.
pub open spec fn dropped(before: PollState, replies: Seq<PortReply>, stall: Stall) -> nat
    decreases replies.len(),
{
    if replies.len() == 0 {
        0
    } else {
        dropped(before, replies.drop_last(), stall) + (if drops(
            super::replayed(before, replies.drop_last()),
            replies.last(),
            stall,
        ) {
            1nat
        } else {
            0
        })
    }
}

/// The number of reconnects for a stall that an operation can still submit.
pub open spec fn owed(active: Option<ActiveOperation>, stall: Stall) -> nat {
    if active matches Some(op) && op.kind is Connect && !submitted(op, stall) {
        1
    } else {
        0
    }
}

/// The number of disconnects for a stall that can still be accepted.
pub open spec fn outstanding(state: PollState, stall: Stall) -> nat {
    owed(state.core.active, stall) + (if dropping(state.turn, stall) {
        1nat
    } else {
        0
    })
}

/// What is done with an operation while it is active.
pub enum OperationStep {
    Cancel(OperationId),
    /// A poll whose requests are answered by `replies`.
    Poll {
        id: OperationId,
        budget: WorkBudget,
        output: Seq<ScanResult>,
        replies: Seq<PortReply>,
    },
}

impl OperationStep {
    /// The step takes `before` to `after`.
    pub open spec fn leads(self, before: IncrementalSupplicant, after: IncrementalSupplicant) -> bool {
        match self {
            OperationStep::Cancel(id) => after == (if before.owns(id) {
                IncrementalSupplicant {
                    active: Some(
                        ActiveOperation { cancellation_requested: true, ..before.active.unwrap() },
                    ),
                    ..before
                }
            } else {
                before
            }),
            OperationStep::Poll { id, budget, output, replies } => {
                let begun = super::poll_begun(before, id, budget, output);
                let ended = super::replayed(begun, replies);
                &&& budget.wf()
                &&& super::asked(begun, replies) matches PollAction::Finish(result)
                &&& super::polls_to(begun, replies, ended, result)
                &&& ended.core == after
            },
        }
    }

    /// The number of disconnects that were accepted in the step because of a
    /// stall.
    pub open spec fn dropped(self, before: IncrementalSupplicant, stall: Stall) -> nat {
        match self {
            OperationStep::Cancel(_) => 0,
            OperationStep::Poll { id, budget, output, replies } => dropped(
                super::poll_begun(before, id, budget, output),
                replies,
                stall,
            ),
        }
    }
}

/// Each step takes the state behind it to the next one.
pub open spec fn run(cores: Seq<IncrementalSupplicant>, steps: Seq<OperationStep>) -> bool {
    &&& cores.len() == steps.len() + 1
    &&& forall|i: int|
        0 <= i < steps.len() ==> (#[trigger] steps[i]).leads(cores[i], cores[i + 1])
}

/// The number of disconnects that were accepted in a run because of a stall.
pub open spec fn dropped_in(
    cores: Seq<IncrementalSupplicant>,
    steps: Seq<OperationStep>,
    stall: Stall,
) -> nat
    decreases steps.len(),
{
    if steps.len() == 0 {
        0
    } else {
        dropped_in(cores, steps.drop_last(), stall) + steps.last().dropped(
            cores[steps.len() - 1],
            stall,
        )
    }
}

/// A counter after `events` more events; it wraps around.
pub open spec fn advanced(counter: u32, events: nat) -> int {
    (counter + events) % 0x1_0000_0000
}

/// `step` counts no reconnect and does not wait for a disconnect.
spec fn quiet(state: PollState, step: (PollState, PollAction)) -> bool {
    &&& step.0.core.first_eapol_reconnects == state.core.first_eapol_reconnects
    &&& step.0.core.external_auth_reconnects == state.core.external_auth_reconnects
    &&& !(step.0.turn.phase is Dropping)
}

proof fn lemma_clear_is_quiet(state: PollState, error: BackendError)
    ensures
        quiet(state, state.clear(error)),
{
    reveal(PollState::clear);
}

proof fn lemma_scan_is_quiet(state: PollState)
    ensures
        quiet(state, state.scan_advanced()),
        quiet(state, state.results_copied()),
        quiet(state, state.copy_next()),
{
    reveal(PollState::scan_advanced);
    reveal(PollState::results_copied);
    reveal(PollState::copy_next);
}

proof fn lemma_drain_is_quiet(state: PollState)
    ensures
        quiet(state, state.events_taken()),
        quiet(state, state.drain()),
{
    reveal(PollState::events_taken);
    reveal(PollState::drain);
    lemma_scan_is_quiet(state);
}

proof fn lemma_measured_is_quiet(state: PollState)
    ensures
        quiet(state, state.measured()),
        forall|observed: bool, pending: bool|
            quiet(state, #[trigger] state.deadline_checked(observed, pending)),
{
    reveal(PollState::measured);
    reveal(PollState::deadline_checked);
    reveal(PollState::clear);
}

/// Only the decision on a stall waits for a disconnect that is counted, and only
/// its answer counts one.
proof fn lemma_other_phases_are_quiet(state: PollState, reply: PortReply)
    requires
        state.turn.awaits(reply),
        !(state.turn.phase is Deciding),
        !(state.turn.phase is Dropping),
    ensures
        quiet(state, state.next(reply)),
{
    assert forall|error: BackendError| quiet(state, #[trigger] state.clear(error)) by {
        lemma_clear_is_quiet(state, error);
    }
    assert forall|other: PollState| quiet(other, #[trigger] other.scan_advanced()) by {
        lemma_scan_is_quiet(other);
    }
    assert forall|other: PollState| quiet(other, #[trigger] other.results_copied()) by {
        lemma_scan_is_quiet(other);
    }
    assert forall|other: PollState| quiet(other, #[trigger] other.copy_next()) by {
        lemma_scan_is_quiet(other);
    }
    assert forall|other: PollState| quiet(other, #[trigger] other.events_taken()) by {
        lemma_drain_is_quiet(other);
    }
    assert forall|other: PollState| quiet(other, #[trigger] other.drain()) by {
        lemma_drain_is_quiet(other);
    }
    assert forall|other: PollState| quiet(other, #[trigger] other.measured()) by {
        lemma_measured_is_quiet(other);
    }
    lemma_measured_is_quiet(state);
}

/// Each answer counts the disconnects that it accepts, and takes them from those
/// that were outstanding.
proof fn lemma_step_counts_its_drops(state: PollState, reply: PortReply, stall: Stall)
    requires
        state.inv(),
        state.turn.awaits(reply),
    ensures
        reconnects(state.next(reply).0.core, stall) == super::counted(
            reconnects(state.core, stall),
            drops(state, reply, stall),
        ),
        outstanding(state.next(reply).0, stall) + (if drops(state, reply, stall) {
            1nat
        } else {
            0
        }) <= outstanding(state, stall),
        dropping(state.next(reply).0.turn, stall) ==> state.next(reply).1 is Disconnect,
{
    super::law_poll_keeps_the_operation(state, reply);
    if !(state.turn.phase is Deciding || state.turn.phase is Dropping) {
        lemma_other_phases_are_quiet(state, reply);
    } else if let PortReply::Submitted(Err(error)) = reply {
        lemma_clear_is_quiet(state, error);
    }
}

/// `after` and `action` follow `state` and an answer that was or was not a drop.
spec fn follows(
    state: PollState,
    after: PollState,
    action: PollAction,
    stall: Stall,
    drop: bool,
) -> bool {
    &&& after.inv()
    &&& forall|answer: PortReply|
        super::answers(action, answer) ==> #[trigger] after.turn.awaits(answer)
    &&& reconnects(after.core, stall) == super::counted(reconnects(state.core, stall), drop)
    &&& outstanding(after, stall) + (if drop {
        1nat
    } else {
        0
    }) <= outstanding(state, stall)
    &&& dropping(after.turn, stall) ==> action is Disconnect
    &&& after.turn.phase is Over <==> action is Finish
}

proof fn lemma_step_follows(state: PollState, reply: PortReply, stall: Stall)
    requires
        state.inv(),
        state.turn.awaits(reply),
    ensures
        follows(
            state,
            state.next(reply).0,
            state.next(reply).1,
            stall,
            drops(state, reply, stall),
        ),
{
    super::law_poll_keeps_its_accounting(state, reply);
    lemma_step_counts_its_drops(state, reply, stall);
}

proof fn lemma_last_reply_follows(before: PollState, replies: Seq<PortReply>, stall: Stall)
    requires
        replies.len() > 0,
        super::replayed(before, replies.drop_last()).inv(),
        super::replayed(before, replies.drop_last()).turn.awaits(replies.last()),
    ensures
        follows(
            super::replayed(before, replies.drop_last()),
            super::replayed(before, replies),
            super::asked(before, replies),
            stall,
            drops(super::replayed(before, replies.drop_last()), replies.last(), stall),
        ),
{
    reveal(super::asked);
    lemma_step_follows(super::replayed(before, replies.drop_last()), replies.last(), stall);
}

/// What holds after any number of answers.
proof fn lemma_replies_count_their_drops(
    before: PollState,
    replies: Seq<PortReply>,
    stall: Stall,
)
    requires
        before.inv(),
        before.turn.phase is Starting,
        forall|i: int|
            0 <= i < replies.len() ==> super::answers(
                super::asked(before, replies.take(i)),
                #[trigger] replies[i],
            ),
    ensures
        super::replayed(before, replies).inv(),
        super::replayed(before, replies).turn.phase is Over <==> super::asked(
            before,
            replies,
        ) is Finish,
        forall|answer: PortReply|
            super::answers(super::asked(before, replies), answer) ==> #[trigger] super::replayed(
                before,
                replies,
            ).turn.awaits(answer),
        reconnects(super::replayed(before, replies).core, stall) == advanced(
            reconnects(before.core, stall),
            dropped(before, replies, stall),
        ),
        outstanding(super::replayed(before, replies), stall) + dropped(before, replies, stall)
            <= outstanding(before, stall),
        dropping(super::replayed(before, replies).turn, stall) ==> super::asked(
            before,
            replies,
        ) is Disconnect,
    decreases replies.len(),
{
    if replies.len() > 0 {
        let earlier = replies.drop_last();
        let reply = replies.last();
        assert(earlier == replies.take(replies.len() - 1));
        assert forall|i: int| 0 <= i < earlier.len() implies super::answers(
            super::asked(before, earlier.take(i)),
            #[trigger] earlier[i],
        ) by {
            assert(earlier.take(i) == replies.take(i));
            assert(earlier[i] == replies[i]);
        }
        lemma_replies_count_their_drops(before, earlier, stall);
        assert(super::answers(super::asked(before, earlier), replies[replies.len() - 1]));
        assert(super::replayed(before, earlier).turn.awaits(reply));
        lemma_last_reply_follows(before, replies, stall);
    } else {
        reveal(super::asked);
    }
}

/// What holds after any number of steps.
proof fn lemma_steps_count_their_drops(
    cores: Seq<IncrementalSupplicant>,
    steps: Seq<OperationStep>,
    stall: Stall,
)
    requires
        run(cores, steps),
        cores[0].active matches Some(op) ==> op.scan_written <= op.scan_seen,
    ensures
        cores.last().active matches Some(op) ==> op.scan_written <= op.scan_seen,
        reconnects(cores.last(), stall) == advanced(
            reconnects(cores[0], stall),
            dropped_in(cores, steps, stall),
        ),
        owed(cores.last().active, stall) + dropped_in(cores, steps, stall) <= owed(
            cores[0].active,
            stall,
        ),
    decreases steps.len(),
{
    if steps.len() > 0 {
        let earlier = cores.drop_last();
        let done = steps.drop_last();
        let last = steps.last();
        assert forall|i: int| 0 <= i < done.len() implies (#[trigger] done[i]).leads(
            earlier[i],
            earlier[i + 1],
        ) by {
            assert(steps[i].leads(cores[i], cores[i + 1]));
        }
        lemma_steps_count_their_drops(earlier, done, stall);
        lemma_dropped_in_prefix(cores, earlier, done, stall);
        assert(steps[steps.len() - 1].leads(cores[steps.len() - 1], cores[steps.len() as int]));
        if let OperationStep::Poll { id, budget, output, replies } = last {
            lemma_replies_count_their_drops(
                super::poll_begun(earlier.last(), id, budget, output),
                replies,
                stall,
            );
        }
    }
}

/// What a run dropped depends on the states in which its steps begin alone.
proof fn lemma_dropped_in_prefix(
    cores: Seq<IncrementalSupplicant>,
    earlier: Seq<IncrementalSupplicant>,
    steps: Seq<OperationStep>,
    stall: Stall,
)
    requires
        steps.len() <= earlier.len() <= cores.len(),
        forall|i: int| 0 <= i < earlier.len() ==> cores[i] == earlier[i],
    ensures
        dropped_in(cores, steps, stall) == dropped_in(earlier, steps, stall),
    decreases steps.len(),
{
    if steps.len() > 0 {
        lemma_dropped_in_prefix(cores, earlier, steps.drop_last(), stall);
    }
}

/// One operation, from its acceptance on and however it is polled and cancelled,
/// drops a stalled connection at most once for each kind of stall. The counts of
/// reconnects rise by exactly the disconnects that the vendor accepted for that
/// reason. Only a connection is ever dropped: the bootstrap, a scan and a
/// disconnect leave both counts as they were.
pub proof fn law_an_operation_reconnects_at_most_once(
    core: IncrementalSupplicant,
    id: OperationId,
    request: IncrementalRequest,
    now_us: u64,
    cores: Seq<IncrementalSupplicant>,
    steps: Seq<OperationStep>,
    stall: Stall,
)
    requires
        run(cores, steps),
        cores[0] == (IncrementalSupplicant {
            active: Some(super::requested(id, request, now_us)),
            ..core
        }),
    ensures
        dropped_in(cores, steps, stall) <= 1,
        reconnects(cores.last(), stall) == super::counted(
            reconnects(core, stall),
            dropped_in(cores, steps, stall) == 1,
        ),
        !(request is Connect) ==> reconnects(cores.last(), stall) == reconnects(core, stall),
{
    lemma_steps_count_their_drops(cores, steps, stall);
}

/// What is counted as dropped because of a stall is the accepted answer to a
/// disconnect that the poll asked for.
pub proof fn law_a_reconnect_follows_a_disconnect(
    before: IncrementalSupplicant,
    id: OperationId,
    budget: WorkBudget,
    output: Seq<ScanResult>,
    replies: Seq<PortReply>,
    i: int,
    stall: Stall,
)
    requires
        budget.wf(),
        before.active matches Some(op) ==> op.scan_written <= op.scan_seen,
        forall|j: int|
            0 <= j < replies.len() ==> super::answers(
                super::asked(super::poll_begun(before, id, budget, output), replies.take(j)),
                #[trigger] replies[j],
            ),
        0 <= i < replies.len(),
        drops(
            super::replayed(super::poll_begun(before, id, budget, output), replies.take(i)),
            replies[i],
            stall,
        ),
    ensures
        super::asked(super::poll_begun(before, id, budget, output), replies.take(i)) is Disconnect,
        replies[i] is Submitted && replies[i]->Submitted_0 is Ok,
{
    let begun = super::poll_begun(before, id, budget, output);
    let earlier = replies.take(i);
    assert forall|j: int| 0 <= j < earlier.len() implies super::answers(
        super::asked(begun, earlier.take(j)),
        #[trigger] earlier[j],
    ) by {
        assert(earlier.take(j) == replies.take(j));
        assert(earlier[j] == replies[j]);
    }
    lemma_replies_count_their_drops(begun, earlier, stall);
}

} // verus!
