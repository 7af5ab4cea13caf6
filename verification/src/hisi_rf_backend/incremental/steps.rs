//! What a poll asks for next, step by step.

use crate::hisi_rf_backend::incremental::{
    ActiveOperation, PollAction, PollPhase, PollResult, PollState, PortReply,
};
use crate::hisi_rf_backend::NativeEvent;
use crate::radio::{BackendError, ScanResult, WorkReport};
use vstd::prelude::*;

verus! {

/// `step` gives the operation up with `error`: at once, or once its scan was cancelled.
pub open spec fn gives_up(
    state: PollState,
    step: (PollState, PollAction),
    error: BackendError,
) -> bool {
    let failure = PollAction::Finish(Err::<WorkReport, BackendError>(error));
    if state.is_scan() {
        &&& step.1 is CancelScan
        &&& step.0.next(PortReply::Done).1 == failure
        &&& step.0.next(PortReply::Done).0.core.active is None
    } else {
        step.1 == failure && step.0.core.active is None
    }
}

/// After the supplicant was advanced, and after each event that ends nothing, the next
/// event is asked for exactly while there is output and the grant is not used up. A
/// supplicant that did more than it was granted broke its contract.
pub proof fn law_events_are_taken_while_granted(
    state: PollState,
    advanced: PollResult,
    event: NativeEvent,
    now_us: u64,
)
    requires
        state.inv(),
        state.turn.working(),
    ensures
        ({
            let polled = state.next(PortReply::Polled(Ok(advanced)));
            let taken = state.next(PortReply::Event(Ok(Some(event))));
            let none = state.next(PortReply::Event(Ok(None)));
            let seen = state.next(PortReply::Clock(now_us));
            let granted = state.turn.budget.max_events;
            &&& state.turn.phase is Polling && advanced.work_completed <= granted ==> {
                &&& polled.1 is NextEvent <==> advanced.output_pending != 0
                    && advanced.work_completed < granted
                &&& polled.1 is NextEvent || polled.1 is PollScan || polled.1 is ReadClock
                &&& !(polled.1 is NextEvent) ==> (polled.1 is PollScan <==> state.is_scan())
            }
            &&& state.turn.phase is Polling && advanced.work_completed > granted ==> exists|
                error: BackendError,
            | #[trigger]
                gives_up(state, polled, error) && error.code == 0x5732_b003
            &&& state.turn.phase is Draining ==> taken.1 is ReadClock && taken.0.turn.phase
                == PollPhase::Observing(event) && taken.0.turn.made_progress
                && taken.0.turn.consumed == state.turn.consumed + 1
            &&& state.turn.phase is Draining ==> (none.1 is PollScan <==> state.is_scan()) && (
            none.1 is ReadClock <==> !state.is_scan())
            &&& state.turn.phase == PollPhase::Observing(event) && state.is_scan() ==> {
                &&& seen.1 is NextEvent <==> state.turn.output_pending && state.turn.consumed
                    < granted
                &&& seen.1 is NextEvent || seen.1 is PollScan
            }
            &&& state.turn.phase == PollPhase::Observing(event) && !state.is_scan() && event.kind < 3
                ==> {
                &&& seen.1 is NextEvent <==> state.turn.output_pending && state.turn.consumed
                    < granted
                &&& seen.1 is NextEvent || seen.1 is ReadClock
            }
        }),
{
    reveal(PollState::drain);
    reveal(PollState::events_taken);
    reveal(PollState::scan_advanced);
    reveal(PollState::clear);
    let polled = state.next(PortReply::Polled(Ok(advanced)));
    if state.turn.phase is Polling && advanced.work_completed > state.turn.budget.max_events {
        assert(gives_up(state, polled, super::contract_failure(super::ERROR_WORK_BUDGET)));
    }
}

/// A vendor call that fails while the operation runs gives the operation up with the
/// failure of that call.
pub proof fn law_vendor_failure_gives_up(state: PollState, error: BackendError)
    requires
        state.inv(),
        state.turn.working(),
    ensures
        state.turn.phase is Polling ==> gives_up(
            state,
            state.next(PortReply::Polled(Err(error))),
            error,
        ),
        state.turn.phase is Draining ==> gives_up(
            state,
            state.next(PortReply::Event(Err(error))),
            error,
        ),
        state.turn.phase is ScanPolling || state.turn.phase is LatePolling ==> gives_up(
            state,
            state.next(PortReply::ScanTotal(Err(error))),
            error,
        ),
        state.turn.phase is Reconnecting || state.turn.phase is Dropping ==> gives_up(
            state,
            state.next(PortReply::Submitted(Err(error))),
            error,
        ),
{
    reveal(PollState::clear);
}

/// A scan is asked for its number of results, then whether its cache is drained, and then,
/// once it is, for the next result while there is one and the grant lasts. A cancelled scan
/// ends as soon as its cache is drained. A number that is known is kept until a later one
/// is told.
pub proof fn law_scan_is_collected_once_its_cache_is_drained(
    state: PollState,
    total: Option<usize>,
)
    requires
        state.inv(),
        state.turn.working(),
    ensures
        ({
            let told = state.next(PortReply::ScanTotal(Ok(total)));
            let busy = state.next(PortReply::Flag(true));
            let drained = state.next(PortReply::Flag(false));
            let op = state.op();
            &&& state.turn.phase is ScanPolling ==> told.1 is ReadScanCachePending
                && told.0.op().scan_total == (if total is Some {
                total
            } else {
                op.scan_total
            })
            &&& state.turn.phase is CacheChecking ==> busy.1 is ReadClock
                && busy.0.turn.outcome is Continue
            &&& state.turn.phase is CacheChecking && op.cancellation_requested && op.scan_total
                != Some(op.scan_seen) ==> drained.1 is ReadClock
                && drained.0.turn.outcome is Cancelled
            &&& state.turn.phase is CacheChecking && !op.cancellation_requested ==> {
                &&& drained.1 is ReadScanResult <==> op.scan_total is Some && op.scan_seen
                    < op.scan_total->0 && state.turn.consumed < state.turn.budget.max_events
                &&& drained.1 matches PollAction::ReadScanResult(index) ==> index == op.scan_seen
                &&& drained.0.turn.outcome is Complete <==> op.scan_total == Some(op.scan_seen)
            }
        }),
{
    reveal(PollState::copy_next);
    reveal(PollState::results_copied);
    reveal(PollState::scan_advanced);
}

/// A result is followed by the next one while there is one and the grant lasts; the last
/// one completes the scan.
pub proof fn law_results_follow_one_another(state: PollState, result: Option<ScanResult>)
    requires
        state.inv(),
        state.turn.phase is Copying,
    ensures
        ({
            let copied = state.next(PortReply::ScanEntry(result));
            let seen = state.op().scan_seen + 1;
            let total = state.op().scan_total->0;
            &&& copied.1 == PollAction::ReadScanResult(seen as usize) <==> seen < total
                && state.turn.consumed + 1 < state.turn.budget.max_events
            &&& copied.0.turn.outcome is Complete <==> seen == total
            &&& seen < total && state.turn.consumed + 1 == state.turn.budget.max_events
                ==> copied.1 is ReadClock && copied.0.turn.outcome is Continue
        }),
{
    reveal(PollState::copy_next);
    reveal(PollState::results_copied);
    reveal(PollState::scan_advanced);
}

/// A connection that settled is submitted again, and else the recovery word, the retry of
/// external authentication and the time are read. The connection is dropped exactly when
/// one of the two stalls is due. A drop that was accepted waits for its disconnect, and
/// counts for the stalls that it was for.
pub proof fn law_stalled_connection_is_dropped(
    state: PollState,
    word: u32,
    stalled: bool,
    now_us: u64,
)
    requires
        state.inv(),
        state.turn.working(),
    ensures
        ({
            let op = state.op();
            let timed = state.next(PortReply::Clock(now_us));
            let read = state.next(PortReply::Word(word));
            let told = state.next(PortReply::Flag(stalled));
            let done = state.next(PortReply::Submitted(Ok(())));
            let settled = op.reconnect_submit_deadline_us is Some
                && op.reconnect_submit_deadline_us->0 <= now_us;
            let watched = op.kind is Connect && !op.cancellation_requested;
            let first = watched && !op.first_eapol_reconnect_submitted && word & 0xf != 0 && word
                & 0xff_0000 != 0 && word & 0x100_0000 == 0 && op.first_eapol_reconnect_deadline_us
                is Some && op.first_eapol_reconnect_deadline_us->0 <= now_us;
            let external = watched && !op.external_auth_reconnect_submitted && stalled
                && op.external_auth_reconnect_deadline_us is Some
                && op.external_auth_reconnect_deadline_us->0 <= now_us;
            &&& state.turn.phase is Settling ==> (timed.1 is Connect <==> settled) && (
            timed.1 is ReadRecoveryWord <==> !settled)
            &&& state.turn.phase is Settling && settled
                ==> timed.0.op().reconnect_submit_deadline_us is None
            &&& state.turn.phase is Reconnecting ==> done.1 is ReadRecoveryWord
                && done.0.turn.made_progress
            &&& state.turn.phase is RecoveryReading ==> read.1 is ReadExternalAuthStalled
                && read.0.turn.phase == PollPhase::StallReading(word)
            &&& state.turn.phase == PollPhase::StallReading(word) ==> told.1 is ReadClock
                && told.0.turn.phase == PollPhase::Deciding(word, stalled)
            &&& state.turn.phase == PollPhase::Deciding(word, stalled) && now_us < u64::MAX ==> {
                &&& timed.1 is Disconnect <==> first || external
                &&& timed.1 is ReadClock <==> !first && !external
                &&& timed.1 is Disconnect ==> timed.0.turn.phase == PollPhase::Dropping(
                    first,
                    external,
                )
            }
            &&& state.turn.phase matches PollPhase::Dropping(for_first, for_external) ==> {
                &&& done.1 is ReadClock && done.0.turn.made_progress
                &&& done.0.op() == (ActiveOperation { reconnect_after_disconnect: true, ..op })
                &&& state.core.first_eapol_reconnects < u32::MAX
                    ==> done.0.core.first_eapol_reconnects - state.core.first_eapol_reconnects == (
                if for_first {
                    1int
                } else {
                    0
                })
                &&& state.core.external_auth_reconnects < u32::MAX
                    ==> done.0.core.external_auth_reconnects - state.core.external_auth_reconnects
                    == (if for_external {
                    1int
                } else {
                    0
                })
            }
        }),
{
}

/// A scan that reached its deadline without a number of results is asked for it once more:
/// none found completes it once its cache is drained, and a number that is told lets it be
/// collected. Any other operation is measured at once.
pub proof fn law_late_scan_is_asked_once_more(state: PollState, now_us: u64, total: usize)
    requires
        state.inv(),
        state.turn.working(),
    ensures
        ({
            let ended = state.next(PortReply::Clock(now_us));
            let told = state.next(PortReply::ScanTotal(Ok(Some(total))));
            let drained = state.next(PortReply::Flag(false));
            &&& state.turn.phase is Finishing ==> (ended.1 is PollScan <==> state.is_scan()
                && state.turn.outcome is Continue && now_us >= state.op().deadline_us
                && state.op().scan_total is None)
            &&& state.turn.phase is LatePolling ==> told.1 is ReadClock && told.0.op().scan_total
                == Some(total) && told.0.turn.made_progress && told.0.turn.phase
                == PollPhase::LateTiming(total)
            &&& state.turn.phase == PollPhase::LateTiming(0) ==> ended.1 is ReadScanCachePending
                && ended.0.turn.phase is LateCacheChecking
            &&& state.turn.phase is LateCacheChecking && state.elapsed() <= u32::MAX
                ==> drained.0.turn.outcome is Complete
        }),
{
    reveal(PollState::measured);
    reveal(PollState::deadline_checked);
    reveal(PollState::clear);
}

} // verus!
