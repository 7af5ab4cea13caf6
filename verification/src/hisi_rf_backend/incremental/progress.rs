//! What counts as progress of a connection or a disconnection.

use crate::hisi_rf_backend::incremental::{
    IncrementalSupplicant, PollAction, PollPhase, PollState, PortReply,
};
use crate::radio::{BackendError, ScanResult, WorkBudget, WorkReport};
use hisi_rf_core::OperationId;
use vstd::prelude::*;

verus! {

/// The vendor side accepted a submission.
pub open spec fn accepts(reply: PortReply) -> bool {
    reply matches PortReply::Submitted(Ok(_))
}

/// Something was charged, or a submission was accepted.
pub open spec fn progressed(replies: Seq<PortReply>) -> bool {
    super::outcomes::charged(replies) > 0 || exists|i: int|
        0 <= i < replies.len() && accepts(#[trigger] replies[i])
}

/// The operation is a connection or a disconnection.
pub open spec fn of_station(state: PollState) -> bool {
    state.core.active matches Some(op) ==> op.kind is Connect || op.kind is Disconnect
}

/// Whether there was progress after one more answer.
proof fn lemma_answer_makes_progress(state: PollState, reply: PortReply)
    requires
        state.inv(),
        state.turn.awaits(reply),
        state.turn.working(),
        of_station(state),
        state.turn.phase is Polling || state.turn.phase is Draining || state.turn.phase is Observing
            || state.turn.phase is Settling || state.turn.phase is Reconnecting
            || state.turn.phase is RecoveryReading || state.turn.phase is StallReading
            || state.turn.phase is Deciding || state.turn.phase is Dropping
            || state.turn.phase is Finishing || state.turn.phase is ContextReading
            || state.turn.phase is DriverReading || state.turn.phase is MatchReading
            || state.turn.phase is InputReading,
    ensures
        ({
            let after = state.next(reply).0;
            after.turn.phase is Over || after.turn.made_progress == (if state.turn.phase is Polling {
                super::outcomes::charge(reply) > 0
            } else {
                state.turn.made_progress || super::outcomes::charge(reply) > 0 || accepts(reply)
            })
        }),
        ({
            let phase = state.next(reply).0.turn.phase;
            phase is Over || phase is Draining || phase is Observing || phase is Settling
                || phase is Reconnecting || phase is RecoveryReading || phase is StallReading
                || phase is Deciding || phase is Dropping || phase is Finishing
                || phase is ContextReading || phase is DriverReading || phase is MatchReading
                || phase is InputReading
        }),
{
    reveal(PollState::scan_advanced);
    reveal(PollState::events_taken);
    reveal(PollState::drain);
    reveal(PollState::measured);
    reveal(PollState::deadline_checked);
    reveal(PollState::clear);
}

/// A phase of a poll that has advanced the supplicant, for a connection or a disconnection.
spec fn ordinary(phase: PollPhase) -> bool {
    phase is Draining || phase is Observing || phase is Settling || phase is Reconnecting
        || phase is RecoveryReading || phase is StallReading || phase is Deciding
        || phase is Dropping || phase is Finishing || phase is ContextReading
        || phase is DriverReading || phase is MatchReading || phase is InputReading
}

/// A poll knows after any number of answers whether there was progress.
proof fn lemma_progress_is_known(begun: PollState, replies: Seq<PortReply>)
    requires
        begun.inv(),
        begun.turn.phase is Starting,
        begun.turn.consumed == 0,
        begun.core.active is Some,
        of_station(begun),
        super::outcomes::answered(begun, replies),
        replies.len() > 1,
        replies[1] is Polled,
    ensures
        ({
            let state = super::replayed(begun, replies);
            state.turn.phase is Over || ordinary(state.turn.phase) && (state.turn.made_progress
                <==> progressed(replies))
        }),
    decreases replies.len(),
{
    let at = replies.len() - 1;
    let earlier = replies.take(at);
    assert(replies == replies.take(at + 1));
    assert(replies.drop_last() == earlier);
    super::outcomes::lemma_poll_goes_on(begun, replies, at);
    let state = super::replayed(begun, earlier);
    if at == 1 {
        assert(state.turn.phase is Polling);
        lemma_answer_makes_progress(state, replies[1]);
        super::outcomes::lemma_poll_goes_on(begun, replies, 0);
        assert(earlier.drop_last() == Seq::<PortReply>::empty());
        assert(earlier.last() == replies[0]);
        assert(super::outcomes::charged(earlier) == 0);
        assert(super::outcomes::charged(replies) == super::outcomes::charge(replies[1]));
    } else {
        assert forall|i: int| 0 <= i < earlier.len() implies super::answers(
            super::asked(begun, earlier.take(i)),
            #[trigger] earlier[i],
        ) by {
            assert(earlier.take(i) == replies.take(i));
            assert(earlier[i] == replies[i]);
        }
        assert(earlier[1] == replies[1]);
        lemma_progress_is_known(begun, earlier);
        assert(ordinary(state.turn.phase));
        lemma_answer_makes_progress(state, replies[at]);
        if progressed(earlier) && super::outcomes::charged(earlier) == 0 {
            let i = choose|i: int| 0 <= i < earlier.len() && accepts(#[trigger] earlier[i]);
            assert(accepts(replies[i]));
        }
        if accepts(replies[at]) {
            assert(progressed(replies));
        }
        if progressed(replies) && super::outcomes::charged(replies) == 0 {
            let i = choose|i: int| 0 <= i < replies.len() && accepts(#[trigger] replies[i]);
            if i < at {
                assert(accepts(earlier[i]));
            }
        }
    }
}

/// A poll of a connection or a disconnection that advanced the supplicant reports progress
/// exactly when the supplicant did work, an event was taken, or the vendor side accepted a
/// submission.
pub proof fn law_progress_is_work_or_a_submission(
    core: IncrementalSupplicant,
    id: OperationId,
    budget: WorkBudget,
    output: Seq<ScanResult>,
    replies: Seq<PortReply>,
    after: PollState,
    report: WorkReport,
)
    requires
        super::outcomes::polled_operation(core, id, budget),
        core.active.unwrap().kind is Connect || core.active.unwrap().kind is Disconnect,
        super::polls_to(
            super::poll_begun(core, id, budget, output),
            replies,
            after,
            Ok::<WorkReport, BackendError>(report),
        ),
        replies.len() > 2,
        replies[1] is Polled,
    ensures
        report.made_progress <==> progressed(replies),
{
    let begun = super::poll_begun(core, id, budget, output);
    let at = replies.len() - 1;
    let earlier = replies.take(at);
    assert(replies == replies.take(at + 1));
    assert(replies.drop_last() == earlier);
    super::outcomes::lemma_poll_goes_on(begun, replies, at);
    assert forall|i: int| 0 <= i < earlier.len() implies super::answers(
        super::asked(begun, earlier.take(i)),
        #[trigger] earlier[i],
    ) by {
        assert(earlier.take(i) == replies.take(i));
        assert(earlier[i] == replies[i]);
    }
    assert(earlier[1] == replies[1]);
    lemma_progress_is_known(begun, earlier);
    let state = super::replayed(begun, earlier);
    lemma_report_is_last(state, replies[at]);
    if progressed(earlier) && super::outcomes::charged(earlier) == 0 {
        let i = choose|i: int| 0 <= i < earlier.len() && accepts(#[trigger] earlier[i]);
        assert(accepts(replies[i]));
    }
    if progressed(replies) && super::outcomes::charged(replies) == 0 {
        let i = choose|i: int| 0 <= i < replies.len() && accepts(#[trigger] replies[i]);
        assert(i < at);
        assert(accepts(earlier[i]));
    }
}

/// Only the last answer of an ordinary poll leads to a report, and it is no submission.
proof fn lemma_report_is_last(state: PollState, reply: PortReply)
    requires
        state.inv(),
        state.turn.awaits(reply),
        ordinary(state.turn.phase),
        of_station(state),
        state.next(reply).1 matches PollAction::Finish(Ok(_)),
    ensures
        state.turn.phase is InputReading,
        reply is Flag,
        state.next(reply).1->Finish_0->Ok_0.made_progress == state.turn.made_progress,
{
    reveal(PollState::scan_advanced);
    reveal(PollState::events_taken);
    reveal(PollState::drain);
    reveal(PollState::measured);
    reveal(PollState::deadline_checked);
    reveal(PollState::clear);
}

} // verus!
