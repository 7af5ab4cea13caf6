//! What a scan leaves in the buffer of its caller.

use crate::hisi_rf_backend::incremental::{
    IncrementalSupplicant, OperationOutcome, PollAction, PollPhase, PollState, PortReply,
};
use crate::radio::{
    BackendError, IncrementalCompletion, PollDisposition, ScanResult, WorkBudget, WorkReport,
};
use hisi_rf_core::OperationId;
use vstd::prelude::*;

verus! {

/// The number of results that were looked at.
pub open spec fn looked(replies: Seq<PortReply>) -> nat
    decreases replies.len(),
{
    if replies.len() == 0 {
        0
    } else {
        looked(replies.drop_last()) + (if replies.last() is ScanEntry {
            1nat
        } else {
            0
        })
    }
}

/// The valid ones among the results that were looked at, in their order.
pub open spec fn found(replies: Seq<PortReply>) -> Seq<ScanResult>
    decreases replies.len(),
{
    if replies.len() == 0 {
        seq![]
    } else {
        match replies.last() {
            PortReply::ScanEntry(Some(result)) => found(replies.drop_last()).push(result),
            _ => found(replies.drop_last()),
        }
    }
}

/// How many of `count` results fit into `room` places of which `written` are taken.
pub open spec fn fitting(written: int, room: int, count: int) -> int {
    if written + count <= room {
        count
    } else if written <= room {
        room - written
    } else {
        0
    }
}

/// The buffer and the counts of a scan after `replies`.
pub open spec fn collected(begun: PollState, replies: Seq<PortReply>, state: PollState) -> bool {
    let first = begun.op();
    let room = begun.output.len() as int;
    let kept = fitting(first.scan_written as int, room, found(replies).len() as int);
    &&& found(replies).len() <= looked(replies)
    &&& state.output.len() == room
    &&& forall|j: int|
        0 <= j < room ==> #[trigger] state.output[j] == (if first.scan_written <= j
            < first.scan_written + kept {
            found(replies)[j - first.scan_written]
        } else {
            begun.output[j]
        })
    &&& state.core.active matches Some(op) ==> {
        &&& op.scan_seen == first.scan_seen + looked(replies)
        &&& op.scan_written == first.scan_written + kept
        &&& op.scan_truncated <==> first.scan_truncated || kept < looked(replies)
    }
}

/// What holds of a scan between two answers: nothing is looked at before the number
/// of results is known, and what it completes with is what it counted.
pub open spec fn sound(state: PollState) -> bool {
    state.core.active matches Some(op) ==> {
        &&& op.scan_total is None ==> op.scan_seen == 0 && !op.scan_truncated
        &&& state.turn.phase is LatePolling ==> op.scan_total is None
        &&& state.turn.phase is LateTiming ==> op.scan_seen == 0 && !op.scan_truncated
            && op.scan_total == Some(state.turn.phase->LateTiming_0)
        &&& state.turn.phase is LateCacheChecking ==> op.scan_seen == 0 && !op.scan_truncated
            && op.scan_total == Some(0usize)
        &&& state.turn.outcome matches OperationOutcome::Complete(
            IncrementalCompletion::Scan(outcome),
        ) ==> {
            &&& op.scan_total == Some(op.scan_seen)
            &&& outcome.count == op.scan_written
            &&& outcome.truncated <==> op.scan_truncated || op.scan_written < op.scan_seen
        }
    }
}

/// `step` is sound, and asks for no result but the next one.
spec fn goes_on(step: (PollState, PollAction)) -> bool {
    &&& sound(step.0)
    &&& step.1 matches PollAction::ReadScanResult(index) ==> step.0.core.active is Some
        && step.0.op().scan_seen == index && step.0.op().scan_total is Some && index
        < step.0.op().scan_total->0
    &&& step.1 matches PollAction::Finish(Ok(report)) ==> !(report.disposition is Complete)
}

proof fn lemma_clear_goes_on(state: PollState, error: BackendError)
    requires
        sound(state),
    ensures
        goes_on(state.clear(error)),
{
    reveal(PollState::clear);
}

proof fn lemma_scan_goes_on(state: PollState)
    requires
        sound(state),
        state.core.active is Some,
        state.core.active is Some ==> state.op().scan_written <= state.op().scan_seen,
    ensures
        goes_on(state.scan_advanced()),
        goes_on(state.results_copied()),
        goes_on(state.copy_next()),
        goes_on(state.events_taken()),
        goes_on(state.drain()),
{
    reveal(PollState::scan_advanced);
    reveal(PollState::results_copied);
    reveal(PollState::copy_next);
    reveal(PollState::events_taken);
    reveal(PollState::drain);
}

proof fn lemma_measured_goes_on(state: PollState)
    requires
        sound(state),
        state.core.active is Some,
    ensures
        goes_on(state.measured()),
        forall|observed: bool, pending: bool|
            goes_on(#[trigger] state.deadline_checked(observed, pending)),
{
    reveal(PollState::measured);
    reveal(PollState::deadline_checked);
    reveal(PollState::clear);
}

/// The answers to the first requests of a poll keep a scan sound.
proof fn lemma_first_answer_goes_on(state: PollState, reply: PortReply)
    requires
        state.inv(),
        state.turn.awaits(reply),
        sound(state),
        state.turn.phase is Starting || state.turn.phase is CancellingScan
            || state.turn.phase is CancellingConnect || state.turn.phase is Configuring
            || state.turn.phase is Submitting || state.turn.phase is Stepping
            || state.turn.phase is Clearing || state.turn.phase is InputReading,
    ensures
        sound(state.next(reply).0),
        !(state.turn.phase is InputReading) && !(state.turn.phase is Starting) ==> goes_on(
            state.next(reply),
        ),
        !(state.next(reply).1 is ReadScanResult),
{
    reveal(PollState::clear);
}

/// The answers on which events and results are taken keep a scan sound.
proof fn lemma_work_answer_goes_on(state: PollState, reply: PortReply)
    requires
        state.inv(),
        state.turn.awaits(reply),
        sound(state),
        state.turn.phase is Polling || state.turn.phase is Draining || state.turn.phase is Observing
            || state.turn.phase is ScanPolling || state.turn.phase is CacheChecking
            || state.turn.phase is Copying,
    ensures
        goes_on(state.next(reply)),
{
    assert forall|error: BackendError| goes_on(#[trigger] state.clear(error)) by {
        lemma_clear_goes_on(state, error);
    }
    assert forall|other: PollState|
        sound(other) && other.core.active is Some && other.op().scan_written
            <= other.op().scan_seen implies goes_on(#[trigger] other.scan_advanced()) by {
        lemma_scan_goes_on(other);
    }
    assert forall|other: PollState|
        sound(other) && other.core.active is Some && other.op().scan_written
            <= other.op().scan_seen implies goes_on(#[trigger] other.results_copied()) by {
        lemma_scan_goes_on(other);
    }
    assert forall|other: PollState|
        sound(other) && other.core.active is Some && other.op().scan_written
            <= other.op().scan_seen implies goes_on(#[trigger] other.copy_next()) by {
        lemma_scan_goes_on(other);
    }
    assert forall|other: PollState|
        sound(other) && other.core.active is Some && other.op().scan_written
            <= other.op().scan_seen implies goes_on(#[trigger] other.events_taken()) by {
        lemma_scan_goes_on(other);
    }
    assert forall|other: PollState|
        sound(other) && other.core.active is Some && other.op().scan_written
            <= other.op().scan_seen implies goes_on(#[trigger] other.drain()) by {
        lemma_scan_goes_on(other);
    }
}

/// The answers on which a poll ends keep a scan sound.
proof fn lemma_last_answer_goes_on(state: PollState, reply: PortReply)
    requires
        state.inv(),
        state.turn.awaits(reply),
        sound(state),
        state.turn.phase is Settling || state.turn.phase is Reconnecting
            || state.turn.phase is RecoveryReading || state.turn.phase is StallReading
            || state.turn.phase is Deciding || state.turn.phase is Dropping
            || state.turn.phase is Finishing || state.turn.phase is LatePolling
            || state.turn.phase is LateTiming || state.turn.phase is LateCacheChecking
            || state.turn.phase is FinalCacheChecking || state.turn.phase is ContextReading
            || state.turn.phase is DriverReading || state.turn.phase is MatchReading,
    ensures
        goes_on(state.next(reply)),
{
    assert forall|error: BackendError| goes_on(#[trigger] state.clear(error)) by {
        lemma_clear_goes_on(state, error);
    }
    assert forall|other: PollState| sound(other) && other.core.active is Some implies goes_on(
        #[trigger] other.measured(),
    ) by {
        lemma_measured_goes_on(other);
    }
    lemma_measured_goes_on(state);
}

/// Every answer keeps a scan sound.
proof fn lemma_answer_goes_on(state: PollState, reply: PortReply)
    requires
        state.inv(),
        state.turn.awaits(reply),
        sound(state),
    ensures
        sound(state.next(reply).0),
        !(state.turn.phase is InputReading) && !(state.turn.phase is Starting) ==> goes_on(
            state.next(reply),
        ),
        state.turn.phase is Starting ==> !(state.next(reply).1 is ReadScanResult),
{
    match state.turn.phase {
        PollPhase::Polling
        | PollPhase::Draining
        | PollPhase::Observing(_)
        | PollPhase::ScanPolling
        | PollPhase::CacheChecking
        | PollPhase::Copying => {
            lemma_work_answer_goes_on(state, reply);
        },
        PollPhase::Starting
        | PollPhase::CancellingScan
        | PollPhase::CancellingConnect
        | PollPhase::Configuring
        | PollPhase::Submitting
        | PollPhase::Stepping(_, _)
        | PollPhase::Clearing(_)
        | PollPhase::InputReading => {
            lemma_first_answer_goes_on(state, reply);
        },
        PollPhase::Over => {},
        _ => {
            lemma_last_answer_goes_on(state, reply);
        },
    }
}

/// A result is stored behind those before it, and every other answer leaves the
/// buffer and the counts alone.
proof fn lemma_answer_is_collected(
    begun: PollState,
    replies: Seq<PortReply>,
    state: PollState,
    reply: PortReply,
)
    requires
        begun.core.active is Some,
        begun.inv(),
        state.inv(),
        state.turn.awaits(reply),
        state.turn.phase is Starting ==> state == begun,
        collected(begun, replies, state),
    ensures
        collected(begun, replies.push(reply), state.next(reply).0),
{
    let longer = replies.push(reply);
    assert(longer.drop_last() == replies);
    assert(longer.last() == reply);
    if state.turn.phase is Starting {
    } else if state.turn.phase is Polling {
        super::outcomes::lemma_polling_keeps_the_scan(state, reply);
    } else if state.turn.phase is Copying {
        super::outcomes::lemma_copying_keeps_the_scan(state, reply);
    } else if state.turn.phase is Draining && reply is Event && reply->Event_0 is Ok
        && reply->Event_0->Ok_0 is Some {
    } else {
        super::outcomes::lemma_other_answers_keep(state, reply);
    }
}

/// What holds of a scan after any number of answers.
proof fn lemma_replies_are_collected(begun: PollState, replies: Seq<PortReply>)
    requires
        begun.inv(),
        begun.turn.phase is Starting,
        begun.turn.consumed == 0,
        begun.core.active is Some,
        sound(begun),
        super::outcomes::answered(begun, replies),
    ensures
        collected(begun, replies, super::replayed(begun, replies)),
        sound(super::replayed(begun, replies)),
    decreases replies.len(),
{
    if replies.len() > 0 {
        let earlier = replies.drop_last();
        let at = replies.len() - 1;
        assert(earlier == replies.take(at));
        assert(replies == replies.take(at + 1));
        assert(earlier.push(replies.last()) == replies);
        assert forall|i: int| 0 <= i < earlier.len() implies super::answers(
            super::asked(begun, earlier.take(i)),
            #[trigger] earlier[i],
        ) by {
            assert(earlier.take(i) == replies.take(i));
            assert(earlier[i] == replies[i]);
        }
        lemma_replies_are_collected(begun, earlier);
        super::outcomes::lemma_poll_goes_on(begun, replies, at);
        let state = super::replayed(begun, earlier);
        lemma_answer_goes_on(state, replies.last());
        lemma_answer_is_collected(begun, earlier, state, replies.last());
    }
}

/// `core` holds a scan that `id` names and that has looked at nothing before it
/// knew how many results there are.
pub open spec fn polled_scan(
    core: IncrementalSupplicant,
    id: OperationId,
    budget: WorkBudget,
) -> bool {
    let op = core.active.unwrap();
    &&& super::outcomes::polled_operation(core, id, budget)
    &&& op.kind is Scan
    &&& op.scan_total is None ==> op.scan_seen == 0 && !op.scan_truncated
}

/// A scan stores the valid results in the order of the cache, behind those that
/// earlier polls stored, as far as the buffer has room, and touches nothing else of
/// the buffer. It counts each result that it looked at, and remembers that one was
/// left out. It is complete once it looked at every result, and then reports how
/// many it stored and whether any was left out.
pub proof fn law_scan_stores_results_in_order(
    core: IncrementalSupplicant,
    id: OperationId,
    budget: WorkBudget,
    output: Seq<ScanResult>,
    replies: Seq<PortReply>,
    after: PollState,
    result: Result<WorkReport, BackendError>,
)
    requires
        polled_scan(core, id, budget),
        super::polls_to(super::poll_begun(core, id, budget, output), replies, after, result),
    ensures
        ({
            let op = core.active.unwrap();
            let written = op.scan_written as int;
            let kept = fitting(written, output.len() as int, found(replies).len() as int);
            &&& after.output.len() == output.len()
            &&& forall|j: int|
                0 <= j < kept ==> #[trigger] after.output[written + j] == found(replies)[j]
            &&& forall|j: int|
                0 <= j < output.len() && !(written <= j < written + kept)
                    ==> #[trigger] after.output[j] == output[j]
            &&& after.core.active matches Some(left) ==> {
                &&& left.scan_seen == op.scan_seen + looked(replies)
                &&& left.scan_written == written + kept
                &&& left.scan_truncated <==> op.scan_truncated || kept < looked(replies)
            }
            &&& result matches Ok(report) ==> (report.disposition matches PollDisposition::Complete(
                IncrementalCompletion::Scan(outcome),
            ) ==> {
                &&& outcome.count == written + kept
                &&& outcome.truncated <==> op.scan_truncated || kept < looked(replies) || written
                    + kept < op.scan_seen + looked(replies)
            })
        }),
{
    let begun = super::poll_begun(core, id, budget, output);
    assert(replies.len() > 0) by {
        reveal(super::asked);
    }
    let at = replies.len() - 1;
    let earlier = replies.take(at);
    assert(replies == replies.take(at + 1));
    assert(replies.drop_last() == earlier);
    super::outcomes::lemma_poll_goes_on(begun, replies, at);
    assert forall|i: int| 0 <= i < earlier.len() implies super::answers(
        super::asked(begun, earlier.take(i)),
        #[trigger] earlier[i],
    ) by {
        assert(earlier.take(i) == replies.take(i));
        assert(earlier[i] == replies[i]);
    }
    lemma_replies_are_collected(begun, replies);
    lemma_replies_are_collected(begun, earlier);
    let state = super::replayed(begun, earlier);
    lemma_answer_goes_on(state, replies.last());
    if result is Ok && result->Ok_0.disposition is Complete {
        if state.turn.phase is Starting {
            assert(earlier.len() == 0);
            assert(state == begun);
        }
        assert(state.turn.phase is InputReading);
        reveal(PollState::clear);
        assert(state.turn.outcome == OperationOutcome::Complete(
            result->Ok_0.disposition->Complete_0,
        ));
    }
    let written = core.active.unwrap().scan_written as int;
    let kept = fitting(written, output.len() as int, found(replies).len() as int);
    assert forall|j: int| 0 <= j < kept implies #[trigger] after.output[written + j] == found(
        replies,
    )[j] by {
        assert(after.output[written + j] == found(replies)[written + j - written]);
    }
}

/// The results of a scan are asked for one after the other, each of them once, and
/// none beyond the number that the scan reported.
pub proof fn law_scan_asks_for_each_result_once(
    core: IncrementalSupplicant,
    id: OperationId,
    budget: WorkBudget,
    output: Seq<ScanResult>,
    replies: Seq<PortReply>,
    i: int,
)
    requires
        polled_scan(core, id, budget),
        super::outcomes::answered(super::poll_begun(core, id, budget, output), replies),
        0 < i <= replies.len(),
    ensures
        super::asked(
            super::poll_begun(core, id, budget, output),
            replies.take(i),
        ) matches PollAction::ReadScanResult(index) ==> index == core.active.unwrap().scan_seen
            + looked(replies.take(i)),
{
    let begun = super::poll_begun(core, id, budget, output);
    let earlier = replies.take(i - 1);
    assert(replies.take(i).drop_last() == earlier);
    assert(replies.take(i).last() == replies[i - 1]);
    super::outcomes::lemma_poll_goes_on(begun, replies, i - 1);
    assert forall|j: int| 0 <= j < earlier.len() implies super::answers(
        super::asked(begun, earlier.take(j)),
        #[trigger] earlier[j],
    ) by {
        assert(earlier.take(j) == replies.take(j));
        assert(earlier[j] == replies[j]);
    }
    lemma_replies_are_collected(begun, earlier);
    let state = super::replayed(begun, earlier);
    lemma_answer_goes_on(state, replies[i - 1]);
    let longer = replies.take(i);
    assert forall|j: int| 0 <= j < longer.len() implies super::answers(
        super::asked(begun, longer.take(j)),
        #[trigger] longer[j],
    ) by {
        assert(longer.take(j) == replies.take(j));
        assert(longer[j] == replies[j]);
    }
    lemma_replies_are_collected(begun, longer);
    if state.turn.phase is InputReading {
        reveal(PollState::clear);
    }
}

} // verus!
