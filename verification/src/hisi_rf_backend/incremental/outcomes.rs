//! How a poll ends, as its caller sees it: by the answers that it was given.

use crate::hisi_rf_backend::incremental::{
    ActiveOperation, IncrementalSupplicant, IncrementalSupplicantBackend, MonotonicClock,
    OperationOutcome, PollAction, PollPhase, PollState, PollTurn, PortReply, SupplicantPort,
};
use crate::hisi_rf_backend::NativeEvent;
use crate::radio::{
    BackendError, BackendErrorClass, DiagnosticStage, DiagnosticTraceKind, IncrementalCompletion,
    PollDisposition, ScanResult, WorkBudget, WorkReport,
};
use hisi_rf_core::OperationId;
use vstd::prelude::*;

verus! {

/// What an event means for an operation is decided by the number of the event: a
/// failure fails a connection and a disconnection with the status of the event,
/// cancelled or not; an authorization completes a connection, and a disconnect a
/// disconnection, unless it was cancelled; a disconnect ends what was cancelled;
/// and nothing else ends anything.
pub proof fn law_event_number_decides_the_outcome(kind: u8, status: i32)
    ensures
        forall|active: &mut ActiveOperation, outcome: OperationOutcome| #[trigger]
            call_ensures(ActiveOperation::observe, (active, kind, status), outcome) ==> {
                let station = (*active).kind is Connect || (*active).kind is Disconnect;
                let cancelled = (*active).cancellation_requested;
                &&& outcome is Failed <==> station && kind == 5
                &&& outcome matches OperationOutcome::Failed(code) ==> code == status
                &&& outcome is Cancelled <==> station && kind == 4 && cancelled
                &&& outcome is Complete <==> !cancelled && ((*active).kind is Connect && kind == 3
                    || (*active).kind is Disconnect && kind == 4)
                &&& outcome matches OperationOutcome::Complete(done) ==> ((*active).kind is Connect
                    ==> done == IncrementalCompletion::Connected((*active).kind->Connect_0)) && ((
                *active).kind is Disconnect ==> done is Disconnected)
            },
{
}

/// An event is remembered by its number, and a disconnect that interrupts a
/// connection by its status, unless that is zero. Nothing else of the operation
/// changes.
pub proof fn law_event_is_remembered(kind: u8, status: i32)
    ensures
        forall|active: &mut ActiveOperation, outcome: OperationOutcome| #[trigger]
            call_ensures(ActiveOperation::observe, (active, kind, status), outcome) ==> {
                let after = *final(active);
                &&& after.last_event_kind == kind
                &&& after.last_disconnect_status == (if (*active).kind is Connect && kind == 4
                    && status != 0 && !(*active).cancellation_requested {
                    Some(status)
                } else {
                    (*active).last_disconnect_status
                })
                &&& after == (ActiveOperation {
                    last_event_kind: after.last_event_kind,
                    last_disconnect_status: after.last_disconnect_status,
                    ..*active
                })
            },
{
}

/// The time between two readings of the clock, which wraps around.
pub open spec fn between(from_us: u64, to_us: u64) -> int {
    if from_us <= to_us {
        to_us - from_us
    } else {
        0x1_0000_0000_0000_0000 - from_us + to_us
    }
}

/// What a poll reports as its time is the time that passed.
pub proof fn lemma_elapsed(from_us: u64, to_us: u64)
    ensures
        super::elapsed_us(from_us, to_us) == between(from_us, to_us),
{
    if from_us > to_us {
        vstd::arithmetic::div_mod::lemma_fundamental_div_mod_converse(
            to_us - from_us,
            0x1_0000_0000_0000_0000,
            -1,
            between(from_us, to_us),
        );
    }
}

/// Each answer is of the kind that its request asks for.
pub open spec fn answered(begun: PollState, replies: Seq<PortReply>) -> bool {
    forall|i: int|
        0 <= i < replies.len() ==> super::answers(
            super::asked(begun, replies.take(i)),
            #[trigger] replies[i],
        )
}

/// `step` goes on in the same poll, copies no scan result and charges nothing.
pub open spec fn keeps(state: PollState, step: (PollState, PollAction)) -> bool {
    let after = step.0;
    &&& after.turn.started_us == state.turn.started_us
    &&& after.turn.consumed == state.turn.consumed
    &&& !(after.turn.phase is Starting)
    &&& !(after.turn.phase is Polling)
    &&& after.output == state.output
    &&& after.core.active matches Some(op) ==> state.core.active is Some && op.scan_seen
        == state.op().scan_seen && op.scan_written == state.op().scan_written && op.scan_truncated
        == state.op().scan_truncated
}

proof fn lemma_clear_keeps(state: PollState, error: BackendError)
    ensures
        keeps(state, state.clear(error)),
{
    reveal(PollState::clear);
}

proof fn lemma_scan_keeps(state: PollState)
    requires
        state.core.active is Some,
    ensures
        keeps(state, state.scan_advanced()),
        keeps(state, state.results_copied()),
        keeps(state, state.copy_next()),
{
    reveal(PollState::scan_advanced);
    reveal(PollState::results_copied);
    reveal(PollState::copy_next);
}

proof fn lemma_drain_keeps(state: PollState)
    requires
        state.core.active is Some,
    ensures
        keeps(state, state.events_taken()),
        keeps(state, state.drain()),
{
    reveal(PollState::events_taken);
    reveal(PollState::drain);
    lemma_scan_keeps(state);
}

proof fn lemma_measured_keeps(state: PollState)
    requires
        state.core.active is Some,
    ensures
        keeps(state, state.measured()),
        forall|observed: bool, pending: bool|
            keeps(state, #[trigger] state.deadline_checked(observed, pending)),
{
    reveal(PollState::measured);
    reveal(PollState::deadline_checked);
    reveal(PollState::clear);
}

/// Only a supplicant poll, an event and a scan result are charged.
pub proof fn lemma_other_answers_keep(state: PollState, reply: PortReply)
    requires
        state.inv(),
        state.turn.awaits(reply),
        !(state.turn.phase is Starting),
        !(state.turn.phase is Polling),
        !(state.turn.phase is Copying),
        !(state.turn.phase is Draining && reply matches PortReply::Event(Ok(Some(_)))),
    ensures
        keeps(state, state.next(reply)),
{
    assert forall|error: BackendError| keeps(state, #[trigger] state.clear(error)) by {
        lemma_clear_keeps(state, error);
    }
    assert forall|other: PollState| other.core.active is Some implies keeps(
        other,
        #[trigger] other.scan_advanced(),
    ) by {
        lemma_scan_keeps(other);
    }
    assert forall|other: PollState| other.core.active is Some implies keeps(
        other,
        #[trigger] other.results_copied(),
    ) by {
        lemma_scan_keeps(other);
    }
    assert forall|other: PollState| other.core.active is Some implies keeps(
        other,
        #[trigger] other.copy_next(),
    ) by {
        lemma_scan_keeps(other);
    }
    assert forall|other: PollState| other.core.active is Some implies keeps(
        other,
        #[trigger] other.events_taken(),
    ) by {
        lemma_drain_keeps(other);
    }
    assert forall|other: PollState| other.core.active is Some implies keeps(
        other,
        #[trigger] other.drain(),
    ) by {
        lemma_drain_keeps(other);
    }
    assert forall|other: PollState| other.core.active is Some implies keeps(
        other,
        #[trigger] other.measured(),
    ) by {
        lemma_measured_keeps(other);
    }
    if state.core.active is Some {
        lemma_measured_keeps(state);
    }
}

/// A supplicant poll leaves the buffer and the counts of a scan alone.
pub proof fn lemma_polling_keeps_the_scan(state: PollState, reply: PortReply)
    requires
        state.inv(),
        state.turn.awaits(reply),
        state.turn.phase is Polling,
    ensures
        state.next(reply).0.output == state.output,
        state.next(reply).0.core.active matches Some(op) ==> op.scan_seen == state.op().scan_seen
            && op.scan_written == state.op().scan_written && op.scan_truncated
            == state.op().scan_truncated,
{
    assert forall|other: PollState| other.core.active is Some implies keeps(
        other,
        #[trigger] other.drain(),
    ) by {
        lemma_drain_keeps(other);
    }
    reveal(PollState::clear);
}

/// A result that was looked at is counted, and stored where there is room.
pub proof fn lemma_copying_keeps_the_scan(state: PollState, reply: PortReply)
    requires
        state.inv(),
        state.turn.awaits(reply),
        state.turn.phase is Copying,
    ensures
        ({
            let after = state.next(reply).0;
            let op = state.op();
            let stored = reply->ScanEntry_0 is Some && op.scan_written < state.output.len();
            &&& after.output == (if stored {
                state.output.update(op.scan_written as int, reply->ScanEntry_0->0)
            } else {
                state.output
            })
            &&& after.core.active matches Some(left) ==> {
                &&& left.scan_seen == op.scan_seen + 1
                &&& left.scan_written == op.scan_written + (if stored {
                    1int
                } else {
                    0
                })
                &&& left.scan_truncated == (op.scan_truncated || !stored)
            }
        }),
{
    assert forall|other: PollState| other.core.active is Some implies keeps(
        other,
        #[trigger] other.copy_next(),
    ) by {
        lemma_scan_keeps(other);
    }
}

/// What an answer costs of the event grant.
pub open spec fn charge(reply: PortReply) -> nat {
    match reply {
        PortReply::Polled(Ok(result)) => result.work_completed as nat,
        PortReply::Event(Ok(Some(_))) => 1,
        PortReply::ScanEntry(_) => 1,
        _ => 0,
    }
}

/// What answers cost of the event grant.
pub open spec fn charged(replies: Seq<PortReply>) -> nat
    decreases replies.len(),
{
    if replies.len() == 0 {
        0
    } else {
        charged(replies.drop_last()) + charge(replies.last())
    }
}

/// `after` follows `state`, in a poll that began at `started_us`.
spec fn follows(state: PollState, reply: PortReply, after: PollState, action: PollAction) -> bool {
    &&& after.inv()
    &&& after.turn.phase is Over <==> action is Finish
    &&& forall|answer: PortReply|
        super::answers(action, answer) ==> #[trigger] after.turn.awaits(answer)
    &&& after.turn.id == state.turn.id
    &&& after.turn.budget == state.turn.budget
    &&& super::same_request(state.core.active, after.core.active)
    &&& after.output.len() == state.output.len()
    &&& !(after.turn.phase is Starting)
    &&& after.turn.phase is Polling ==> after.turn.consumed == 0
    &&& after.turn.started_us == (if state.turn.phase is Starting {
        reply->Clock_0
    } else {
        state.turn.started_us
    })
    &&& after.turn.consumed == state.turn.consumed + charge(reply) || after.turn.phase is Over
        || after.turn.phase is Clearing
}

proof fn lemma_step_follows(state: PollState, reply: PortReply)
    requires
        state.inv(),
        state.turn.awaits(reply),
        state.turn.phase is Starting || state.turn.phase is Polling ==> state.turn.consumed == 0,
    ensures
        follows(state, reply, state.next(reply).0, state.next(reply).1),
{
    super::law_poll_keeps_its_accounting(state, reply);
    super::law_poll_keeps_the_operation(state, reply);
    assert forall|other: PollState| other.core.active is Some implies keeps(
        other,
        #[trigger] other.drain(),
    ) by {
        lemma_drain_keeps(other);
    }
    assert forall|other: PollState| other.core.active is Some implies keeps(
        other,
        #[trigger] other.copy_next(),
    ) by {
        lemma_scan_keeps(other);
    }
    if state.turn.phase is Starting {
    } else if state.turn.phase is Polling {
        reveal(PollState::clear);
    } else if state.turn.phase is Copying {
    } else if state.turn.phase is Draining && reply is Event && reply->Event_0 is Ok
        && reply->Event_0->Ok_0 is Some {
    } else {
        lemma_other_answers_keep(state, reply);
    }
}

/// `state` and `action` are where a poll stands after `replies`.
pub open spec fn stands(
    begun: PollState,
    replies: Seq<PortReply>,
    state: PollState,
    action: PollAction,
) -> bool {
    &&& state.inv()
    &&& state.turn.phase is Over <==> action is Finish
    &&& forall|answer: PortReply|
        super::answers(action, answer) ==> #[trigger] state.turn.awaits(answer)
    &&& state.turn.id == begun.turn.id
    &&& state.turn.budget == begun.turn.budget
    &&& super::same_request(begun.core.active, state.core.active)
    &&& state.output.len() == begun.output.len()
    &&& state.turn.phase is Starting <==> replies.len() == 0
    &&& state.turn.phase is Starting || state.turn.phase is Polling ==> state.turn.consumed == 0
    &&& replies.len() > 0 ==> replies[0] is Clock && state.turn.started_us == replies[0]->Clock_0
    &&& state.turn.consumed == charged(replies) || state.turn.phase is Over
        || state.turn.phase is Clearing
}

proof fn lemma_last_reply_follows(begun: PollState, replies: Seq<PortReply>)
    requires
        replies.len() > 0,
        stands(
            begun,
            replies.drop_last(),
            super::replayed(begun, replies.drop_last()),
            super::asked(begun, replies.drop_last()),
        ),
        super::replayed(begun, replies.drop_last()).turn.awaits(replies.last()),
    ensures
        follows(
            super::replayed(begun, replies.drop_last()),
            replies.last(),
            super::replayed(begun, replies),
            super::asked(begun, replies),
        ),
{
    reveal(super::asked);
    lemma_step_follows(super::replayed(begun, replies.drop_last()), replies.last());
}

/// A poll stands somewhere after any number of answers.
pub proof fn lemma_poll_stands(begun: PollState, replies: Seq<PortReply>)
    requires
        begun.inv(),
        begun.turn.phase is Starting,
        begun.turn.consumed == 0,
        answered(begun, replies),
    ensures
        stands(begun, replies, super::replayed(begun, replies), super::asked(begun, replies)),
    decreases replies.len(),
{
    if replies.len() > 0 {
        let earlier = replies.drop_last();
        assert(earlier == replies.take(replies.len() - 1));
        assert forall|i: int| 0 <= i < earlier.len() implies super::answers(
            super::asked(begun, earlier.take(i)),
            #[trigger] earlier[i],
        ) by {
            assert(earlier.take(i) == replies.take(i));
            assert(earlier[i] == replies[i]);
        }
        lemma_poll_stands(begun, earlier);
        assert(super::answers(super::asked(begun, earlier), replies[replies.len() - 1]));
        assert(super::replayed(begun, earlier).turn.awaits(replies.last()));
        lemma_last_reply_follows(begun, replies);
        if earlier.len() > 0 {
            assert(replies[0] == earlier[0]);
        }
    } else {
        reveal(super::asked);
    }
}

/// What a poll asks for after one more answer, and where it stands then.
pub proof fn lemma_poll_goes_on(begun: PollState, replies: Seq<PortReply>, i: int)
    requires
        begun.inv(),
        begun.turn.phase is Starting,
        begun.turn.consumed == 0,
        answered(begun, replies),
        0 <= i < replies.len(),
    ensures
        stands(
            begun,
            replies.take(i),
            super::replayed(begun, replies.take(i)),
            super::asked(begun, replies.take(i)),
        ),
        super::replayed(begun, replies.take(i)).turn.awaits(replies[i]),
        super::replayed(begun, replies.take(i + 1)) == super::replayed(
            begun,
            replies.take(i),
        ).next(replies[i]).0,
        super::asked(begun, replies.take(i + 1)) == super::replayed(begun, replies.take(i)).next(
            replies[i],
        ).1,
{
    let earlier = replies.take(i);
    assert forall|j: int| 0 <= j < earlier.len() implies super::answers(
        super::asked(begun, earlier.take(j)),
        #[trigger] earlier[j],
    ) by {
        assert(earlier.take(j) == replies.take(j));
        assert(earlier[j] == replies[j]);
    }
    lemma_poll_stands(begun, earlier);
    assert(super::answers(super::asked(begun, replies.take(i)), replies[i]));
    let longer = replies.take(i + 1);
    assert(longer.drop_last() == replies.take(i));
    assert(longer.last() == replies[i]);
    reveal(super::asked);
}

/// `op` is a valid operation that `id` names, polled with this grant.
pub open spec fn polled_operation(
    core: IncrementalSupplicant,
    id: OperationId,
    budget: WorkBudget,
) -> bool {
    &&& budget.wf()
    &&& core.owns(id)
    &&& core.active.unwrap().scan_written <= core.active.unwrap().scan_seen
}

/// The steps of a poll from a terminal event to its end.
proof fn lemma_terminal_event(
    begun: PollState,
    replies: Seq<PortReply>,
    i: int,
    event: NativeEvent,
    outcome: OperationOutcome,
)
    requires
        begun.inv(),
        begun.turn.phase is Starting,
        begun.turn.consumed == 0,
        answered(begun, replies),
        super::asked(begun, replies) is Finish,
        0 <= i < replies.len(),
        replies[i] == PortReply::Event(Ok::<Option<NativeEvent>, BackendError>(Some(event))),
        begun.core.active is Some,
        begun.op().kind is Connect || begun.op().kind is Disconnect,
        outcome == begun.op().observed(event.kind, event.status).1,
        !(outcome is Continue),
    ensures
        i + 2 < replies.len(),
        replies[i + 2] is Clock,
        ({
            let last = super::replayed(begun, replies.take(i + 3));
            let elapsed = between(replies[0]->Clock_0, replies[i + 2]->Clock_0);
            &&& elapsed > u32::MAX ==> replies.len() == i + 3 && super::asked(begun, replies)
                == PollAction::Finish(
                Err::<WorkReport, BackendError>(super::contract_failure(super::ERROR_WORK_BUDGET)),
            ) && super::replayed(begun, replies).core.active is None
            &&& elapsed <= u32::MAX ==> {
                &&& replies.len() == i + 4
                &&& replies[i + 3] is Flag
                &&& last.turn.outcome == outcome
                &&& last.core.active is Some && (last.op().kind is Connect
                    || last.op().kind is Disconnect)
                &&& last.turn.id == begun.turn.id
                &&& last.turn.consumed == charged(replies)
                &&& last.elapsed() == elapsed
                &&& super::replayed(begun, replies) == last.conclude(replies[i + 3]->Flag_0).0
                &&& super::asked(begun, replies) == last.conclude(replies[i + 3]->Flag_0).1
            }
        }),
{
    reveal(PollState::events_taken);
    reveal(PollState::scan_advanced);
    reveal(PollState::measured);
    reveal(PollState::deadline_checked);
    assert(replies == replies.take(replies.len() as int));
    lemma_poll_goes_on(begun, replies, i);
    let taken = super::replayed(begun, replies.take(i));
    assert(taken.turn.phase is Draining);
    assert(taken.op().observed(event.kind, event.status).1 == outcome);
    assert(super::asked(begun, replies.take(i + 1)) is ReadClock);
    assert(i + 1 < replies.len());
    lemma_poll_goes_on(begun, replies, i + 1);
    let seen = super::replayed(begun, replies.take(i + 1));
    assert(seen.turn.phase == PollPhase::Observing(event));
    assert(super::asked(begun, replies.take(i + 2)) is ReadClock);
    assert(i + 2 < replies.len());
    lemma_poll_goes_on(begun, replies, i + 2);
    let finishing = super::replayed(begun, replies.take(i + 2));
    assert(finishing.turn.phase is Finishing);
    assert(finishing.turn.outcome == outcome);
    assert(replies[0] == replies.take(i + 2)[0]);
    let started_us = replies[0]->Clock_0;
    let ended_us = replies[i + 2]->Clock_0;
    assert(finishing.turn.started_us == started_us);
    lemma_elapsed(started_us, ended_us);
    if between(started_us, ended_us) > u32::MAX {
        reveal(PollState::clear);
        assert(super::asked(begun, replies.take(i + 3)) is Finish);
        if i + 3 < replies.len() {
            lemma_poll_goes_on(begun, replies, i + 3);
            assert(false);
        }
    } else {
        assert(super::asked(begun, replies.take(i + 3)) is ReadInputPending);
        assert(i + 3 < replies.len());
        lemma_poll_goes_on(begun, replies, i + 3);
        let last = super::replayed(begun, replies.take(i + 3));
        assert(last.turn.phase is InputReading);
        reveal(PollState::clear);
        assert(super::asked(begun, replies.take(i + 4)) is Finish);
        if i + 4 < replies.len() {
            lemma_poll_goes_on(begun, replies, i + 4);
            assert(false);
        }
        assert(charged(replies) == charged(replies.take(i + 3))) by {
            assert(replies.drop_last() == replies.take(i + 3));
        }
    }
}

/// The poll that takes an event of a failure ends with a connect failure whose
/// code is the status of the event, and gives the operation up. That holds of
/// every connection and disconnection, cancelled or not, and whatever was asked
/// and answered before. Only a poll that ran for longer than it can report ends as
/// one that broke its contract instead.
pub proof fn law_failure_event_fails_the_operation(
    core: IncrementalSupplicant,
    id: OperationId,
    budget: WorkBudget,
    output: Seq<ScanResult>,
    replies: Seq<PortReply>,
    after: PollState,
    result: Result<WorkReport, BackendError>,
    i: int,
    event: NativeEvent,
)
    requires
        polled_operation(core, id, budget),
        core.active.unwrap().kind is Connect || core.active.unwrap().kind is Disconnect,
        super::polls_to(super::poll_begun(core, id, budget, output), replies, after, result),
        0 <= i < replies.len(),
        replies[i] == PortReply::Event(Ok::<Option<NativeEvent>, BackendError>(Some(event))),
        event.kind == 5,
    ensures
        after.core.active is None,
        result is Err,
        i + 2 < replies.len() && replies[0] is Clock && replies[i + 2] is Clock,
        between(replies[0]->Clock_0, replies[i + 2]->Clock_0) <= u32::MAX ==> {
            let error = result->Err_0;
            &&& error.class == BackendErrorClass::Connect
            &&& error.code == event.status as u32
            &&& error.stage == DiagnosticStage::Connect
            &&& error.trace@.len() == 1
            &&& error.trace@[0].kind == DiagnosticTraceKind::VendorStatus
            &&& error.trace@[0].value == event.status as u32
        },
        between(replies[0]->Clock_0, replies[i + 2]->Clock_0) > u32::MAX ==> result->Err_0.class
            == BackendErrorClass::Other && result->Err_0.code == 0x5732_b003,
{
    let begun = super::poll_begun(core, id, budget, output);
    lemma_terminal_event(begun, replies, i, event, OperationOutcome::Failed(event.status));
    lemma_poll_goes_on(begun, replies, 0);
    reveal(PollState::clear);
}

/// The poll that takes the authorization of a connection, or the disconnect that a
/// disconnection waits for, reports it as complete and as its last one; it tells
/// the network that was asked for. What was cancelled is reported as cancelled by
/// the disconnect, and by it alone.
pub proof fn law_awaited_event_completes_the_operation(
    core: IncrementalSupplicant,
    id: OperationId,
    budget: WorkBudget,
    output: Seq<ScanResult>,
    replies: Seq<PortReply>,
    after: PollState,
    result: Result<WorkReport, BackendError>,
    i: int,
    event: NativeEvent,
)
    requires
        polled_operation(core, id, budget),
        super::polls_to(super::poll_begun(core, id, budget, output), replies, after, result),
        0 <= i < replies.len(),
        replies[i] == PortReply::Event(Ok::<Option<NativeEvent>, BackendError>(Some(event))),
        core.active.unwrap().kind is Connect && event.kind == 3
            && !core.active.unwrap().cancellation_requested || core.active.unwrap().kind is Connect
            && event.kind == 4 && core.active.unwrap().cancellation_requested
            || core.active.unwrap().kind is Disconnect && event.kind == 4,
    ensures
        after.core.active is None,
        i + 2 < replies.len() && replies[0] is Clock && replies[i + 2] is Clock,
        ({
            let op = core.active.unwrap();
            let elapsed = between(replies[0]->Clock_0, replies[i + 2]->Clock_0);
            &&& result is Ok <==> elapsed <= u32::MAX
            &&& result matches Ok(report) ==> {
                &&& report.operation == id
                &&& report.elapsed_us == elapsed
                &&& report.consumed_events == charged(replies)
                &&& report.made_progress
                &&& op.cancellation_requested ==> report.disposition is Cancelled
                &&& !op.cancellation_requested && op.kind is Connect ==> report.disposition
                    == PollDisposition::Complete(
                    IncrementalCompletion::Connected(op.kind->Connect_0),
                )
                &&& !op.cancellation_requested && op.kind is Disconnect ==> report.disposition
                    == PollDisposition::Complete(IncrementalCompletion::Disconnected)
            }
        }),
{
    let begun = super::poll_begun(core, id, budget, output);
    let outcome = begun.op().observed(event.kind, event.status).1;
    lemma_terminal_event(begun, replies, i, event, outcome);
    lemma_poll_goes_on(begun, replies, 0);
    if i + 3 < replies.len() {
        lemma_progress_is_kept(begun, replies, i);
    }
}

/// An event that was taken counts as progress until the poll reports it.
proof fn lemma_progress_is_kept(begun: PollState, replies: Seq<PortReply>, i: int)
    requires
        begun.inv(),
        begun.turn.phase is Starting,
        begun.turn.consumed == 0,
        answered(begun, replies),
        0 <= i,
        i + 3 < replies.len(),
        replies[i] matches PortReply::Event(Ok(Some(_))),
        begun.core.active is Some,
        begun.op().kind is Connect || begun.op().kind is Disconnect,
        !(begun.op().observed(
            replies[i]->Event_0->Ok_0->0.kind,
            replies[i]->Event_0->Ok_0->0.status,
        ).1 is Continue),
    ensures
        super::replayed(begun, replies.take(i + 3)).turn.made_progress,
{
    reveal(PollState::events_taken);
    reveal(PollState::scan_advanced);
    reveal(PollState::measured);
    reveal(PollState::deadline_checked);
    reveal(PollState::clear);
    lemma_poll_goes_on(begun, replies, i);
    lemma_poll_goes_on(begun, replies, i + 1);
    lemma_poll_goes_on(begun, replies, i + 2);
}

/// Wherever `replies` hold an event of a failure, `result` is the connect failure with the
/// status of that event, unless the poll ran for longer than it can report, and no
/// operation is left.
pub open spec fn fails_on_failure(
    replies: Seq<PortReply>,
    after: IncrementalSupplicant,
    result: Result<WorkReport, BackendError>,
) -> bool {
    forall|i: int|
        0 <= i < replies.len() && #[trigger] is_failure(replies[i]) ==> {
            let event = replies[i]->Event_0->Ok_0->0;
            &&& after.active is None
            &&& result is Err
            &&& i + 2 < replies.len() && between(replies[0]->Clock_0, replies[i + 2]->Clock_0)
                <= u32::MAX ==> result->Err_0.class == BackendErrorClass::Connect
                && result->Err_0.code == event.status as u32
        }
}

/// The vendor side answered with an event of a failure.
pub open spec fn is_failure(reply: PortReply) -> bool {
    reply matches PortReply::Event(Ok(Some(event))) && event.kind == 5
}

/// Whatever the vendor side answers, a poll of a connection or a disconnection that is
/// answered with an event of a failure ends with that failure.
pub proof fn law_backend_poll_ends_with_the_failure<P: SupplicantPort, C: MonotonicClock>(
    id: OperationId,
    budget: WorkBudget,
)
    requires
        budget.wf(),
    ensures
        forall|
            backend: &mut IncrementalSupplicantBackend<P, C>,
            output: &mut [ScanResult],
            result: Result<WorkReport, BackendError>,
        |
            (*backend).accounted() && (*backend).core.owns(id) && (
            (*backend).core.active->0.kind is Connect || (*backend).core.active->0.kind is Disconnect)
                && #[trigger] call_ensures(
                IncrementalSupplicantBackend::<P, C>::poll,
                (backend, id, budget, output),
                result,
            ) ==> exists|replies: Seq<PortReply>, turn: PollTurn| #[trigger]
                super::polls_to(
                    super::poll_begun((*backend).core, id, budget, (*output)@),
                    replies,
                    super::poll_state((*final(backend)).core, turn, (*final(output))@),
                    result,
                ) && fails_on_failure(replies, (*final(backend)).core, result),
{
    assert forall|
        backend: &mut IncrementalSupplicantBackend<P, C>,
        output: &mut [ScanResult],
        result: Result<WorkReport, BackendError>,
    |
        (*backend).accounted() && (*backend).core.owns(id) && (
        (*backend).core.active->0.kind is Connect || (*backend).core.active->0.kind is Disconnect)
            && #[trigger] call_ensures(
            IncrementalSupplicantBackend::<P, C>::poll,
            (backend, id, budget, output),
            result,
        ) implies exists|replies: Seq<PortReply>, turn: PollTurn| #[trigger]
        super::polls_to(
            super::poll_begun((*backend).core, id, budget, (*output)@),
            replies,
            super::poll_state((*final(backend)).core, turn, (*final(output))@),
            result,
        ) && fails_on_failure(replies, (*final(backend)).core, result) by {
        let core = (*backend).core;
        let (replies, turn) = choose|replies: Seq<PortReply>, turn: PollTurn| #[trigger]
            super::polls_to(
                super::poll_begun(core, id, budget, (*output)@),
                replies,
                super::poll_state((*final(backend)).core, turn, (*final(output))@),
                result,
            );
        let after = super::poll_state((*final(backend)).core, turn, (*final(output))@);
        assert forall|i: int| 0 <= i < replies.len() && #[trigger] is_failure(replies[i]) implies ({
            let event = replies[i]->Event_0->Ok_0->0;
            &&& after.core.active is None
            &&& result is Err
            &&& i + 2 < replies.len() && between(replies[0]->Clock_0, replies[i + 2]->Clock_0)
                <= u32::MAX ==> result->Err_0.class == BackendErrorClass::Connect
                && result->Err_0.code == event.status as u32
        }) by {
            law_failure_event_fails_the_operation(
                core,
                id,
                budget,
                (*output)@,
                replies,
                after,
                result,
                i,
                replies[i]->Event_0->Ok_0->0,
            );
        }
    }
}

} // verus!
