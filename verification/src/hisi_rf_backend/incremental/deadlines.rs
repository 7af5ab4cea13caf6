//! When an operation runs out of time, and what an ordinary poll reports.

use crate::hisi_rf_backend::incremental::{
    ActiveOperation, IncrementalSupplicant, PollAction, PollPhase, PollResult, PollState, PortReply,
};
use crate::radio::{
    BackendError, BackendErrorClass, DiagnosticStage, DiagnosticTraceKind, ScanResult, WorkBudget,
    WorkReport,
};
use hisi_rf_core::OperationId;
use vstd::prelude::*;

verus! {

/// The last time that was read.
pub open spec fn last_clock(replies: Seq<PortReply>) -> Option<u64>
    decreases replies.len(),
{
    if replies.len() == 0 {
        None
    } else {
        match replies.last() {
            PortReply::Clock(now_us) => Some(now_us),
            _ => last_clock(replies.drop_last()),
        }
    }
}

/// The work of the poll is over and its end is being reported.
pub open spec fn ending(phase: PollPhase) -> bool {
    phase is LatePolling || phase is LateTiming || phase is LateCacheChecking
        || phase is FinalCacheChecking || phase is ContextReading || phase is DriverReading
        || phase is MatchReading || phase is InputReading
}

/// The poll makes the one submission that its operation owes.
pub open spec fn submitting(phase: PollPhase) -> bool {
    phase is Starting || phase is CancellingScan || phase is CancellingConnect
        || phase is Configuring || phase is Submitting || phase is Stepping
}

/// What a poll that ends knows of its time.
pub open spec fn timely(state: PollState) -> bool {
    &&& state.turn.phase is InputReading && state.core.active is Some ==> {
        &&& state.continuing() ==> state.turn.finished_us < state.op().deadline_us
            || state.turn.completion_observed && state.turn.scan_work_pending
        &&& !state.is_scan() ==> !state.turn.scan_work_pending && !state.turn.completion_observed
        &&& state.turn.completion_observed ==> state.op().scan_total is Some
        &&& state.is_scan() && state.op().scan_total is Some && state.op().scan_seen
            < state.op().scan_total->0 ==> state.turn.scan_work_pending
        &&& state.op().backend_deadline_us == super::timer_due(state.turn.next_deadline_ms)
    }
    &&& state.turn.phase matches PollPhase::ContextReading(error) ==> state.core.active is Some && {
        &&& state.turn.finished_us >= state.op().deadline_us
        &&& error == super::operation_timeout(state.op())
    }
}

/// `step` is not at the end of its poll.
spec fn before_the_end(state: PollState, step: (PollState, PollAction)) -> bool {
    &&& !ending(step.0.turn.phase)
    &&& !submitting(step.0.turn.phase)
    &&& !(step.1 is ReadContextWord)
    &&& step.0.turn.next_deadline_ms == state.turn.next_deadline_ms
    &&& step.0.turn.output_pending == state.turn.output_pending
    &&& step.1 matches PollAction::Finish(result) ==> result is Err
}

/// `step` is at the end of its poll, or gives the operation up.
spec fn at_the_end(state: PollState, step: (PollState, PollAction)) -> bool {
    &&& !submitting(step.0.turn.phase)
    &&& timely(step.0)
    &&& step.1 is ReadContextWord <==> step.0.turn.phase is ContextReading
    &&& step.0.turn.finished_us == state.turn.finished_us
    &&& step.0.turn.next_deadline_ms == state.turn.next_deadline_ms
    &&& step.0.turn.output_pending == state.turn.output_pending
    &&& step.1 matches PollAction::Finish(result) ==> result is Err
}

proof fn lemma_clear_is_no_end(state: PollState, error: BackendError)
    ensures
        before_the_end(state, state.clear(error)),
{
    reveal(PollState::clear);
}

proof fn lemma_work_is_no_end(state: PollState)
    ensures
        before_the_end(state, state.scan_advanced()),
        before_the_end(state, state.results_copied()),
        before_the_end(state, state.copy_next()),
        before_the_end(state, state.events_taken()),
        before_the_end(state, state.drain()),
{
    reveal(PollState::scan_advanced);
    reveal(PollState::results_copied);
    reveal(PollState::copy_next);
    reveal(PollState::events_taken);
    reveal(PollState::drain);
}

proof fn lemma_measured_is_the_end(state: PollState)
    requires
        state.core.active is Some,
    ensures
        at_the_end(state, state.measured()),
        forall|pending: bool|
            at_the_end(state, (#[trigger] state.final_cache_checked(pending))) || !state.is_scan(),
{
    reveal(PollState::measured);
    reveal(PollState::deadline_checked);
    reveal(PollState::clear);
}

/// `after` and `action` follow `state` and `reply`.
spec fn ends_in_time(
    state: PollState,
    reply: PortReply,
    after: PollState,
    action: PollAction,
) -> bool {
    &&& submitting(after.turn.phase) ==> submitting(state.turn.phase)
    &&& timely(after)
    &&& action is ReadContextWord ==> after.turn.phase is ContextReading
    &&& ending(after.turn.phase) ==> after.turn.finished_us == (if reply is Clock {
        reply->Clock_0
    } else {
        state.turn.finished_us
    }) && (reply is Clock || ending(state.turn.phase))
    &&& (state.turn.phase is Polling && after.turn.next_deadline_ms
        == reply->Polled_0->Ok_0.next_deadline_ms && after.turn.output_pending == (
    reply->Polled_0->Ok_0.output_pending != 0)) || (!(state.turn.phase is Polling)
        && after.turn.next_deadline_ms == state.turn.next_deadline_ms && after.turn.output_pending
        == state.turn.output_pending) || after.turn.phase is Over || after.turn.phase is Clearing
    &&& action matches PollAction::Finish(Ok(_)) ==> submitting(state.turn.phase)
        || state.turn.phase is InputReading
}

proof fn lemma_first_answer_ends_in_time(state: PollState, reply: PortReply)
    requires
        state.inv(),
        state.turn.awaits(reply),
        submitting(state.turn.phase) || state.turn.phase is Clearing
            || state.turn.phase is InputReading,
    ensures
        ends_in_time(state, reply, state.next(reply).0, state.next(reply).1),
        !(state.next(reply).0.turn.phase is FinalCacheChecking),
{
    reveal(PollState::clear);
}

proof fn lemma_work_answer_ends_in_time(state: PollState, reply: PortReply)
    requires
        state.inv(),
        state.turn.awaits(reply),
        state.turn.phase is Polling || state.turn.phase is Draining || state.turn.phase is Observing
            || state.turn.phase is ScanPolling || state.turn.phase is CacheChecking
            || state.turn.phase is Copying,
    ensures
        ends_in_time(state, reply, state.next(reply).0, state.next(reply).1),
        !(state.next(reply).0.turn.phase is FinalCacheChecking),
{
    assert forall|error: BackendError| before_the_end(
        state,
        #[trigger] state.clear(error),
    ) && (state.clear(error).0.turn.phase is Over || state.clear(error).0.turn.phase is Clearing) by {
        lemma_clear_is_no_end(state, error);
        reveal(PollState::clear);
    }
    assert forall|other: PollState| before_the_end(other, #[trigger] other.scan_advanced()) by {
        lemma_work_is_no_end(other);
    }
    assert forall|other: PollState| before_the_end(other, #[trigger] other.results_copied()) by {
        lemma_work_is_no_end(other);
    }
    assert forall|other: PollState| before_the_end(other, #[trigger] other.copy_next()) by {
        lemma_work_is_no_end(other);
    }
    assert forall|other: PollState| before_the_end(other, #[trigger] other.events_taken()) by {
        lemma_work_is_no_end(other);
    }
    assert forall|other: PollState| before_the_end(other, #[trigger] other.drain()) by {
        lemma_work_is_no_end(other);
    }
}

proof fn lemma_last_answer_ends_in_time(state: PollState, reply: PortReply)
    requires
        state.inv(),
        state.turn.awaits(reply),
        state.turn.phase is FinalCacheChecking ==> state.is_scan(),
        state.turn.phase is Settling || state.turn.phase is Reconnecting
            || state.turn.phase is RecoveryReading || state.turn.phase is StallReading
            || state.turn.phase is Deciding || state.turn.phase is Dropping
            || state.turn.phase is Finishing || state.turn.phase is LatePolling
            || state.turn.phase is LateTiming || state.turn.phase is LateCacheChecking
            || state.turn.phase is FinalCacheChecking || state.turn.phase is ContextReading
            || state.turn.phase is DriverReading || state.turn.phase is MatchReading,
    ensures
        ends_in_time(state, reply, state.next(reply).0, state.next(reply).1),
        state.next(reply).0.turn.phase is FinalCacheChecking ==> state.next(reply).0.is_scan(),
{
    assert forall|error: BackendError| before_the_end(state, #[trigger] state.clear(error)) by {
        lemma_clear_is_no_end(state, error);
    }
    assert forall|other: PollState| other.core.active is Some implies at_the_end(
        other,
        #[trigger] other.measured(),
    ) && (other.measured().0.turn.phase is FinalCacheChecking ==> other.measured().0.is_scan()) by {
        lemma_measured_is_the_end(other);
        lemma_only_scans_have_a_cache(other);
    }
    if state.turn.phase is FinalCacheChecking {
        lemma_measured_is_the_end(state);
        reveal(PollState::deadline_checked);
    }
}

proof fn lemma_only_scans_have_a_cache(state: PollState)
    requires
        state.core.active is Some,
    ensures
        state.measured().0.turn.phase is FinalCacheChecking ==> state.measured().0.is_scan(),
{
    reveal(PollState::measured);
    reveal(PollState::deadline_checked);
    reveal(PollState::clear);
}

proof fn lemma_answer_ends_in_time(state: PollState, reply: PortReply)
    requires
        state.inv(),
        state.turn.awaits(reply),
        state.turn.phase is FinalCacheChecking ==> state.is_scan(),
    ensures
        ends_in_time(state, reply, state.next(reply).0, state.next(reply).1),
        state.next(reply).0.turn.phase is FinalCacheChecking ==> state.next(reply).0.is_scan(),
{
    match state.turn.phase {
        PollPhase::Polling
        | PollPhase::Draining
        | PollPhase::Observing(_)
        | PollPhase::ScanPolling
        | PollPhase::CacheChecking
        | PollPhase::Copying => {
            lemma_work_answer_ends_in_time(state, reply);
        },
        PollPhase::Starting
        | PollPhase::CancellingScan
        | PollPhase::CancellingConnect
        | PollPhase::Configuring
        | PollPhase::Submitting
        | PollPhase::Stepping(_, _)
        | PollPhase::Clearing(_)
        | PollPhase::InputReading => {
            lemma_first_answer_ends_in_time(state, reply);
        },
        PollPhase::Over => {},
        _ => {
            lemma_last_answer_ends_in_time(state, reply);
        },
    }
}

/// What a poll knows of its time after `replies`.
pub open spec fn timed(begun: PollState, replies: Seq<PortReply>, state: PollState, action: PollAction) -> bool {
    &&& timely(state)
    &&& state.turn.phase is FinalCacheChecking ==> state.is_scan()
    &&& action is ReadContextWord ==> state.turn.phase is ContextReading
    &&& ending(state.turn.phase) ==> last_clock(replies) == Some(state.turn.finished_us)
    &&& replies.len() > 1 && replies[1] is Polled ==> !submitting(state.turn.phase)
    &&& replies.len() > 1 && replies[1] is Polled ==> state.turn.phase is Over
        || state.turn.phase is Clearing || replies[1]->Polled_0 is Ok && state.turn.next_deadline_ms
        == replies[1]->Polled_0->Ok_0.next_deadline_ms && state.turn.output_pending == (
    replies[1]->Polled_0->Ok_0.output_pending != 0)
}

proof fn lemma_poll_is_timed(begun: PollState, replies: Seq<PortReply>)
    requires
        begun.inv(),
        begun.turn.phase is Starting,
        begun.turn.consumed == 0,
        super::outcomes::answered(begun, replies),
    ensures
        timed(begun, replies, super::replayed(begun, replies), super::asked(begun, replies)),
    decreases replies.len(),
{
    if replies.len() > 0 {
        let at = replies.len() - 1;
        let earlier = replies.drop_last();
        assert(earlier == replies.take(at));
        assert(replies == replies.take(at + 1));
        assert forall|i: int| 0 <= i < earlier.len() implies super::answers(
            super::asked(begun, earlier.take(i)),
            #[trigger] earlier[i],
        ) by {
            assert(earlier.take(i) == replies.take(i));
            assert(earlier[i] == replies[i]);
        }
        lemma_poll_is_timed(begun, earlier);
        super::outcomes::lemma_poll_goes_on(begun, replies, at);
        let state = super::replayed(begun, earlier);
        lemma_answer_ends_in_time(state, replies.last());
        if at == 1 && replies[1] is Polled {
            assert(state.turn.phase is Polling);
            lemma_polled_goes_on(state, replies[1]);
        }
        if at > 1 {
            assert(earlier[1] == replies[1]);
            if replies[1] is Polled && state.turn.phase is Polling {
                lemma_polling_comes_first(begun, replies, at);
            }
        }
    } else {
        reveal(super::asked);
    }
}

/// A failed supplicant poll gives the operation up.
proof fn lemma_polled_goes_on(state: PollState, reply: PortReply)
    requires
        state.turn.phase is Polling,
        reply is Polled,
    ensures
        reply->Polled_0 is Err ==> state.next(reply).0.turn.phase is Over || state.next(
            reply,
        ).0.turn.phase is Clearing,
        !submitting(state.next(reply).0.turn.phase),
{
    reveal(PollState::clear);
    reveal(PollState::drain);
    reveal(PollState::events_taken);
    reveal(PollState::scan_advanced);
}

/// The supplicant is advanced with the second request of a poll or not at all.
proof fn lemma_polling_comes_first(begun: PollState, replies: Seq<PortReply>, i: int)
    requires
        begun.inv(),
        begun.turn.phase is Starting,
        begun.turn.consumed == 0,
        super::outcomes::answered(begun, replies),
        1 < i < replies.len(),
    ensures
        !(super::replayed(begun, replies.take(i)).turn.phase is Polling),
{
    super::outcomes::lemma_poll_goes_on(begun, replies, i - 1);
    let state = super::replayed(begun, replies.take(i - 1));
    let reply = replies[i - 1];
    assert(!(state.turn.phase is Starting));
    if state.turn.phase is Polling {
        reveal(PollState::clear);
        reveal(PollState::drain);
        reveal(PollState::events_taken);
        reveal(PollState::scan_advanced);
    } else if state.turn.phase is Copying {
        reveal(PollState::copy_next);
        reveal(PollState::results_copied);
        reveal(PollState::scan_advanced);
    } else if state.turn.phase is Draining && reply is Event && reply->Event_0 is Ok
        && reply->Event_0->Ok_0 is Some {
    } else {
        super::outcomes::lemma_other_answers_keep(state, reply);
    }
}

/// A poll that advanced the supplicant reports the time between its first and its
/// last reading of the clock, and everything that it was charged. While its
/// operation goes on, that is before the deadline, or a scan is still being
/// collected. It is out of budget exactly when the whole grant of events or of time
/// is used. The next poll is wanted at once where progress was made and work is
/// known to be left: scan results, input, or output beyond the grant. The timer of
/// the supplicant becomes a deadline of the operation.
pub proof fn law_poll_reports_its_turn(
    core: IncrementalSupplicant,
    id: OperationId,
    budget: WorkBudget,
    output: Seq<ScanResult>,
    replies: Seq<PortReply>,
    after: PollState,
    report: WorkReport,
    advanced: PollResult,
)
    requires
        super::outcomes::polled_operation(core, id, budget),
        super::polls_to(
            super::poll_begun(core, id, budget, output),
            replies,
            after,
            Ok::<WorkReport, BackendError>(report),
        ),
        replies.len() > 1,
        replies[1] == PortReply::Polled(Ok::<PollResult, BackendError>(advanced)),
    ensures
        replies[0] is Clock && last_clock(replies) is Some,
        report.operation == id,
        report.consumed_events == super::outcomes::charged(replies),
        report.elapsed_us == super::outcomes::between(
            replies[0]->Clock_0,
            last_clock(replies)->0,
        ),
        report.time_budget_exhausted <==> report.elapsed_us >= budget.max_time_us,
        replies.last() is Flag,
        !report.disposition.terminal() ==> {
            let op = after.core.active.unwrap();
            let exhausted = report.consumed_events == budget.max_events || report.elapsed_us
                >= budget.max_time_us;
            let wait = if exhausted {
                report.disposition->BudgetExhausted_0
            } else {
                report.disposition->Pending_0
            };
            let collecting = op.kind is Scan && op.scan_total is Some;
            &&& after.core.active is Some && op.id == id
            &&& report.disposition is BudgetExhausted <==> exhausted
            &&& collecting || last_clock(replies)->0 < op.deadline_us
            &&& wait == crate::radio::no_sources() || wait == crate::radio::backend_or_timer()
            &&& report.made_progress && (replies.last()->Flag_0 || advanced.output_pending != 0
                && report.consumed_events == budget.max_events || collecting && op.scan_seen
                < op.scan_total->0) ==> wait == crate::radio::no_sources()
            &&& wait == crate::radio::no_sources() ==> report.made_progress && (
            replies.last()->Flag_0 || advanced.output_pending != 0 && report.consumed_events
                == budget.max_events || op.kind is Scan)
            &&& advanced.next_deadline_ms == u64::MAX <==> op.backend_deadline_us is None
            &&& op.backend_deadline_us matches Some(due) ==> due == 1000 * advanced.next_deadline_ms
                || due == u64::MAX && 1000 * advanced.next_deadline_ms > u64::MAX
        },
{
    let begun = super::poll_begun(core, id, budget, output);
    let at = replies.len() - 1;
    let earlier = replies.take(at);
    assert(replies == replies.take(at + 1));
    assert(replies.drop_last() == earlier);
    super::outcomes::lemma_poll_goes_on(begun, replies, at);
    assert forall|i: int| 0 <= i < earlier.len() implies super::answers(
        super::asked(begun, earlier.take(i)),
        #[trigger] earlier[i],
    ) by {
        assert(earlier.take(i) == replies.take(i));
        assert(earlier[i] == replies[i]);
    }
    lemma_poll_is_timed(begun, earlier);
    let state = super::replayed(begun, earlier);
    lemma_answer_ends_in_time(state, replies.last());
    if at == 1 {
        assert(state.turn.phase is Polling);
    }
    assert(earlier.len() > 1 && earlier[1] == replies[1] && earlier[0] == replies[0]);
    assert(state.turn.phase is InputReading);
    super::outcomes::lemma_elapsed(replies[0]->Clock_0, last_clock(replies)->0);
    reveal(PollState::clear);
}

/// `error` tells of an operation that ran out of time.
pub open spec fn tells_timeout(error: BackendError, op: ActiveOperation, words: Seq<u32>) -> bool {
    &&& error.class == BackendErrorClass::OperationTimeout
    &&& error.code == 0x5732_b004u32 | op.last_event_kind as u32
    &&& op.kind is Scan ==> error.stage == DiagnosticStage::Scan
    &&& op.kind is Connect ==> error.stage == DiagnosticStage::Connect
    &&& op.kind is Disconnect ==> error.stage == DiagnosticStage::Disconnect
    &&& error.trace@.len() == 1 + words.len()
    &&& error.trace@[0].kind == DiagnosticTraceKind::VendorStatus
    &&& op.last_disconnect_status matches Some(status) ==> error.trace@[0].value == status as u32
    &&& op.last_disconnect_status is None ==> error.trace@[0].value == 0
    &&& words.len() > 0 ==> error.trace@[1].kind == DiagnosticTraceKind::SupplicantContext
        && error.trace@[1].value == words[0]
    &&& words.len() > 1 ==> error.trace@[2].kind == DiagnosticTraceKind::DriverContext
        && error.trace@[2].value == words[1]
    &&& words.len() > 2 ==> error.trace@[3].kind == DiagnosticTraceKind::BackendStatus
        && error.trace@[3].value == words[2]
}

/// The failure of an operation that ran out of time, with the words that were read.
spec fn late_error(op: ActiveOperation, context: u32, driver: u32, network: u32) -> BackendError {
    super::operation_timeout(op).traced(DiagnosticTraceKind::SupplicantContext, context).traced(
        DiagnosticTraceKind::DriverContext,
        driver,
    ).traced(DiagnosticTraceKind::BackendStatus, network)
}

proof fn lemma_late_error(op: ActiveOperation, context: u32, driver: u32, network: u32)
    ensures
        tells_timeout(
            late_error(op, context, driver, network),
            op,
            seq![context, driver, network],
        ),
{
}

proof fn lemma_words_are_read(state: PollState, context: u32, driver: u32, network: u32)
    requires
        state.core.active is Some,
        state.turn.phase == PollPhase::ContextReading(super::operation_timeout(state.op())),
    ensures
        ({
            let first = state.next(PortReply::Word(context));
            let second = first.0.next(PortReply::Word(driver));
            let third = second.0.next(PortReply::Word(network));
            &&& first.1 is ReadDriverWord
            &&& second.1 is ReadMatchWord
            &&& third == second.0.clear(late_error(state.op(), context, driver, network))
            &&& second.0.core == state.core
        }),
{
}

/// A poll that reads the words of the contexts has found its operation past its
/// deadline. It ends with an operation timeout that tells the last event, the
/// status of the last disconnect and the three words, in the order in which they
/// were read, and gives the operation up.
pub proof fn law_late_operation_times_out(
    core: IncrementalSupplicant,
    id: OperationId,
    budget: WorkBudget,
    output: Seq<ScanResult>,
    replies: Seq<PortReply>,
    after: PollState,
    result: Result<WorkReport, BackendError>,
    i: int,
)
    requires
        super::outcomes::polled_operation(core, id, budget),
        super::polls_to(super::poll_begun(core, id, budget, output), replies, after, result),
        0 < i < replies.len(),
        super::asked(
            super::poll_begun(core, id, budget, output),
            replies.take(i),
        ) is ReadContextWord,
    ensures
        last_clock(replies.take(i)) is Some,
        last_clock(replies.take(i))->0 >= core.active.unwrap().deadline_us,
        after.core.active is None,
        i + 2 < replies.len(),
        replies[i] is Word && replies[i + 1] is Word && replies[i + 2] is Word,
        result is Err,
        super::replayed(super::poll_begun(core, id, budget, output), replies.take(i)).op().kind
            == core.active.unwrap().kind,
        tells_timeout(
            result->Err_0,
            super::replayed(super::poll_begun(core, id, budget, output), replies.take(i)).op(),
            seq![replies[i]->Word_0, replies[i + 1]->Word_0, replies[i + 2]->Word_0],
        ),
{
    let begun = super::poll_begun(core, id, budget, output);
    let earlier = replies.take(i);
    assert(replies == replies.take(replies.len() as int));
    assert forall|j: int| 0 <= j < earlier.len() implies super::answers(
        super::asked(begun, earlier.take(j)),
        #[trigger] earlier[j],
    ) by {
        assert(earlier.take(j) == replies.take(j));
        assert(earlier[j] == replies[j]);
    }
    lemma_poll_is_timed(begun, earlier);
    super::outcomes::lemma_poll_goes_on(begun, replies, i);
    let state = super::replayed(begun, earlier);
    let context = replies[i]->Word_0;
    lemma_words_are_read(state, context, 0, 0);
    super::outcomes::lemma_poll_goes_on(begun, replies, i + 1);
    let driver = replies[i + 1]->Word_0;
    lemma_words_are_read(state, context, driver, 0);
    super::outcomes::lemma_poll_goes_on(begun, replies, i + 2);
    let network = replies[i + 2]->Word_0;
    lemma_words_are_read(state, context, driver, network);
    lemma_late_error(state.op(), context, driver, network);
    let last = super::replayed(begun, replies.take(i + 2));
    lemma_given_up(begun, replies, i + 2, last, late_error(state.op(), context, driver, network));
}

/// A poll that gives its operation up ends with the error it was given up for.
proof fn lemma_given_up(
    begun: PollState,
    replies: Seq<PortReply>,
    i: int,
    state: PollState,
    error: BackendError,
)
    requires
        begun.inv(),
        begun.turn.phase is Starting,
        begun.turn.consumed == 0,
        super::outcomes::answered(begun, replies),
        super::asked(begun, replies) is Finish,
        0 <= i < replies.len(),
        state == super::replayed(begun, replies.take(i)),
        state.next(replies[i]) == state.clear(error),
    ensures
        super::asked(begun, replies) == PollAction::Finish(Err::<WorkReport, BackendError>(error)),
        super::replayed(begun, replies).core.active is None,
{
    assert(replies == replies.take(replies.len() as int));
    super::outcomes::lemma_poll_goes_on(begun, replies, i);
    reveal(PollState::clear);
    if replies.len() > i + 1 {
        super::outcomes::lemma_poll_goes_on(begun, replies, i + 1);
        if replies.len() > i + 2 {
            super::outcomes::lemma_poll_goes_on(begun, replies, i + 2);
        }
    }
}

} // verus!
