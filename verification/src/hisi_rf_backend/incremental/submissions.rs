//! What a request becomes, and what its first polls hand over to the vendor side.

use crate::hisi_rf_backend::incremental::{
    ActiveOperation, IncrementalRequest, IncrementalSupplicant, IncrementalSupplicantBackend,
    MonotonicClock, PollAction, PollState, PortReply, StartPhase, SupplicantPort,
};
use crate::radio::{
    BackendError, BackendErrorClass, PollDisposition, ScanResult, WaitSet, WorkBudget, WorkReport,
};
use hisi_rf_core::OperationId;
use vstd::prelude::*;

verus! {

/// A request becomes the operation that it names, under the identity it was given,
/// with its own timeout in milliseconds from now on; nothing is armed, cancelled or
/// found yet. A connection is to the network that its configuration names.
pub proof fn law_request_becomes_its_operation(
    id: OperationId,
    request: IncrementalRequest,
    now_us: u64,
    op: ActiveOperation,
)
    requires
        call_ensures(ActiveOperation::from_request, (id, request, now_us), op),
    ensures
        op.id == id,
        request is Initialize <==> op.kind is Initialize,
        request is Scan <==> op.kind is Scan,
        request is Connect <==> op.kind is Connect,
        request is Disconnect <==> op.kind is Disconnect,
        request is Initialize ==> op.start_phase is Ready && op.deadline_us == now_us,
        request matches IncrementalRequest::Scan { timeout_ms } ==> op.start_phase is Scan
            && ends_after(op.deadline_us, now_us, timeout_ms),
        request matches IncrementalRequest::Connect(config) ==> op.start_phase
            == StartPhase::ConnectConfigure(config) && ends_after(
            op.deadline_us,
            now_us,
            config.operation_timeout_ms,
        ) && op.kind->Connect_0.bssid == config.bssid,
        request is Connect && 1 <= request->Connect_0.channel <= 13
            ==> op.kind->Connect_0.frequency_mhz == 2407 + 5 * request->Connect_0.channel,
        request matches IncrementalRequest::Disconnect { timeout_ms }
            ==> op.start_phase is Disconnect && ends_after(op.deadline_us, now_us, timeout_ms),
        !op.cancellation_requested && !op.cancellation_action_submitted,
        !op.first_eapol_reconnect_submitted && !op.external_auth_reconnect_submitted,
        !op.reconnect_after_disconnect,
        op.backend_deadline_us is None && op.first_eapol_reconnect_deadline_us is None
            && op.external_auth_reconnect_deadline_us is None && op.reconnect_submit_deadline_us
            is None,
        op.last_event_kind == 0 && op.last_disconnect_status is None,
        op.scan_total is None && op.scan_seen == 0 && op.scan_written == 0 && !op.scan_truncated,
{
}

/// `deadline_us` lies this many milliseconds after `now_us`, or at the end of the
/// clock's range.
pub open spec fn ends_after(deadline_us: u64, now_us: u64, timeout_ms: u32) -> bool {
    ||| deadline_us - now_us == 1000 * timeout_ms
    ||| deadline_us == u64::MAX && now_us + 1000 * timeout_ms > u64::MAX
}

/// An operation is accepted exactly while none is active; a refusal is told as busy
/// and changes nothing.
pub proof fn law_one_operation_at_a_time(
    id: OperationId,
    request: IncrementalRequest,
    now_us: u64,
)
    ensures
        forall|core: &mut IncrementalSupplicant, result: Result<(), BackendError>| #[trigger]
            call_ensures(IncrementalSupplicant::start, (core, id, request, now_us), result) ==> {
                &&& result is Ok <==> (*core).active is None
                &&& result is Ok ==> (*final(core)).owns(id)
                &&& result matches Err(error) ==> error.class == BackendErrorClass::Busy
                    && error.code == 1 && *final(core) == *core
                &&& (*final(core)).first_eapol_reconnects == (*core).first_eapol_reconnects
                &&& (*final(core)).external_auth_reconnects == (*core).external_auth_reconnects
            },
        forall|core: &mut IncrementalSupplicant, result: Result<(), BackendError>| #[trigger]
            call_ensures(IncrementalSupplicant::cancel, (core, id), result) ==> {
                &&& result is Ok <==> (*core).active is Some && (*core).active->0.id == id
                &&& result is Ok ==> (*final(core)).active is Some
                    && (*final(core)).active->0.cancellation_requested
                &&& result matches Err(error) ==> error.class == BackendErrorClass::Other
                    && error.code == 0x5732_b002 && *final(core) == *core
            },
{
}

/// The next wake is at the earliest of the deadlines that are set.
pub proof fn law_wake_is_the_earliest_deadline(op: ActiveOperation, deadline_us: u64)
    requires
        call_ensures(ActiveOperation::next_deadline_us, (&op,), deadline_us),
    ensures
        deadline_us <= op.deadline_us,
        op.backend_deadline_us matches Some(due) ==> deadline_us <= due,
        op.first_eapol_reconnect_deadline_us matches Some(due) ==> deadline_us <= due,
        op.external_auth_reconnect_deadline_us matches Some(due) ==> deadline_us <= due,
        op.reconnect_submit_deadline_us matches Some(due) ==> deadline_us <= due,
        deadline_us == op.deadline_us || op.backend_deadline_us == Some(deadline_us)
            || op.first_eapol_reconnect_deadline_us == Some(deadline_us)
            || op.external_auth_reconnect_deadline_us == Some(deadline_us)
            || op.reconnect_submit_deadline_us == Some(deadline_us),
{
}

/// A stall of the first EAPOL frame needs a timeout and a retry in the recovery
/// word and none pending. It is acted on at the first look that is a second after
/// the first one, once, and only for a connection that was not cancelled.
pub proof fn law_stalled_handshake_waits_a_second(recovery: u32, now_us: u64)
    ensures
        forall|op: &mut ActiveOperation, submit: bool| #[trigger]
            call_ensures(
                ActiveOperation::should_submit_first_eapol_reconnect,
                (op, recovery, now_us),
                submit,
            ) ==> {
                let stalled = (*op).kind is Connect && !(*op).cancellation_requested
                    && !(*op).first_eapol_reconnect_submitted && recovery & 0xf != 0 && recovery
                    & 0xff_0000 != 0 && recovery & 0x100_0000 == 0;
                let armed = (*op).first_eapol_reconnect_deadline_us;
                &&& !stalled ==> !submit && *final(op) == *op
                &&& stalled && armed is Some ==> (submit <==> now_us >= armed->0)
                &&& stalled && armed is None && now_us <= u64::MAX - 1_000_000 ==> !submit && (
                *final(op)).first_eapol_reconnect_deadline_us == Some((now_us + 1_000_000) as u64)
                &&& stalled && armed is Some && !submit ==> (
                *final(op)).first_eapol_reconnect_deadline_us == armed
                &&& (*final(op)).first_eapol_reconnect_submitted == ((
                *op).first_eapol_reconnect_submitted || submit)
                &&& submit ==> (*final(op)).first_eapol_reconnect_deadline_us is None
            },
{
}

/// A stall of external authentication is acted on once it was seen for a second
/// without a break, once, and only for a connection that was not cancelled.
pub proof fn law_stalled_authentication_waits_a_second(stalled: bool, now_us: u64)
    ensures
        forall|op: &mut ActiveOperation, submit: bool| #[trigger]
            call_ensures(
                ActiveOperation::should_submit_external_auth_reconnect,
                (op, stalled, now_us),
                submit,
            ) ==> {
                let watched = (*op).kind is Connect && !(*op).cancellation_requested
                    && !(*op).external_auth_reconnect_submitted;
                let armed = (*op).external_auth_reconnect_deadline_us;
                &&& !watched ==> !submit && *final(op) == *op
                &&& watched && !stalled ==> !submit && (
                *final(op)).external_auth_reconnect_deadline_us is None
                &&& watched && stalled && armed is Some ==> (submit <==> now_us >= armed->0)
                &&& watched && stalled && armed is None && now_us <= u64::MAX - 1_000_000
                    ==> !submit && (*final(op)).external_auth_reconnect_deadline_us == Some(
                    (now_us + 1_000_000) as u64,
                )
                &&& watched && stalled && armed is Some && !submit ==> (
                *final(op)).external_auth_reconnect_deadline_us == armed
                &&& (*final(op)).external_auth_reconnect_submitted == ((
                *op).external_auth_reconnect_submitted || submit)
                &&& submit ==> (*final(op)).external_auth_reconnect_deadline_us is None
            },
{
}

/// A connection that was dropped is submitted again five milliseconds after the
/// disconnect that it waited for, not before and not twice.
pub proof fn law_reconnect_settles_for_five_milliseconds(kind: u8, now_us: u64)
    ensures
        forall|op: &mut ActiveOperation, unit: ()| #[trigger]
            call_ensures(
                ActiveOperation::observe_reconnect_disconnect,
                (op, kind, now_us),
                unit,
            ) ==> {
                let awaited = (*op).reconnect_after_disconnect && !(*op).cancellation_requested
                    && kind == 4;
                &&& !awaited ==> *final(op) == *op
                &&& awaited ==> !(*final(op)).reconnect_after_disconnect
                &&& awaited && now_us <= u64::MAX - 5000 ==> (
                *final(op)).reconnect_submit_deadline_us == Some((now_us + 5000) as u64)
            },
        forall|op: &mut ActiveOperation, settled: bool| #[trigger]
            call_ensures(ActiveOperation::take_reconnect_when_settled, (op, now_us), settled) ==> {
                &&& settled <==> (*op).reconnect_submit_deadline_us is Some
                    && (*op).reconnect_submit_deadline_us->0 <= now_us
                &&& settled ==> (*final(op)).reconnect_submit_deadline_us is None
                &&& !settled ==> *final(op) == *op
            },
{
}

/// The report on a vendor submission that took `elapsed` microseconds: one event
/// was spent, and unless the time ran out the wait is on `sources`.
pub open spec fn reports_submission(
    result: Result<WorkReport, BackendError>,
    id: OperationId,
    budget: WorkBudget,
    elapsed: int,
    sources: WaitSet,
) -> bool {
    &&& result is Ok <==> elapsed <= u32::MAX
    &&& result matches Ok(report) ==> {
        &&& report.operation == id
        &&& report.consumed_events == 1
        &&& report.elapsed_us == elapsed
        &&& report.made_progress
        &&& report.time_budget_exhausted <==> elapsed >= budget.max_time_us
        &&& report.disposition == (if elapsed >= budget.max_time_us {
            PollDisposition::BudgetExhausted(sources)
        } else {
            PollDisposition::Pending(sources)
        })
    }
    &&& result matches Err(error) ==> error.code == 0x5732_b003
}

/// A poll of an operation that still owes a submission makes that one and nothing
/// else: a scan is started, a connection configured as it was asked for and then,
/// with the next poll and at once, submitted, and a disconnection submitted. A
/// refusal is what the poll ends with. Once nothing is owed, the supplicant is
/// advanced by the whole grant.
pub proof fn law_poll_submits_what_is_owed(
    core: IncrementalSupplicant,
    id: OperationId,
    budget: WorkBudget,
    output: Seq<ScanResult>,
    replies: Seq<PortReply>,
    after: PollState,
    result: Result<WorkReport, BackendError>,
)
    requires
        super::outcomes::polled_operation(core, id, budget),
        !core.active.unwrap().cancellation_requested,
        !(core.active.unwrap().kind is Initialize),
        super::polls_to(super::poll_begun(core, id, budget, output), replies, after, result),
    ensures
        replies.len() > 1 && replies[0] is Clock,
        ({
            let op = core.active.unwrap();
            let request = super::asked(
                super::poll_begun(core, id, budget, output),
                replies.take(1),
            );
            &&& op.start_phase is Scan <==> request is StartScan
            &&& op.start_phase matches StartPhase::ConnectConfigure(config) ==> request
                == PollAction::Configure(config)
            &&& op.start_phase is ConnectSubmit <==> request is Connect
            &&& op.start_phase is Disconnect <==> request is Disconnect
            &&& op.start_phase is Ready ==> request == PollAction::PollSupplicant(
                budget.max_events as u32,
            )
            &&& !(op.start_phase is Ready) ==> {
                &&& replies[1] is Submitted
                &&& replies[1] matches PortReply::Submitted(Err(error)) ==> replies.len() == 2
                    && result == Err::<WorkReport, BackendError>(error)
                &&& replies[1]->Submitted_0 is Ok ==> {
                    &&& replies.len() >= 3 && replies[2] is Clock
                    &&& result is Ok ==> replies.len() == 3
                    &&& reports_submission(
                        result,
                        id,
                        budget,
                        super::outcomes::between(replies[0]->Clock_0, replies[2]->Clock_0),
                        if op.start_phase is ConnectConfigure {
                            crate::radio::no_sources()
                        } else {
                            crate::radio::backend_or_timer()
                        },
                    )
                    &&& result is Ok ==> after.core.active is Some && after.core.active->0 == (
                    ActiveOperation {
                        start_phase: if op.start_phase is ConnectConfigure {
                            StartPhase::ConnectSubmit
                        } else {
                            StartPhase::Ready
                        },
                        ..op
                    })
                }
            }
        }),
{
    let begun = super::poll_begun(core, id, budget, output);
    assert(replies == replies.take(replies.len() as int));
    assert(replies.len() > 0) by {
        reveal(super::asked);
    }
    super::outcomes::lemma_poll_goes_on(begun, replies, 0);
    lemma_poll_begins(begun, replies);
    let request = super::asked(begun, replies.take(1));
    assert(!(request is Finish));
    assert(replies.len() > 1);
    super::outcomes::lemma_poll_goes_on(begun, replies, 1);
    if !(begun.op().start_phase is Ready) {
        if let PortReply::Submitted(Ok(_)) = replies[1] {
            assert(super::asked(begun, replies.take(2)) is ReadClock);
            assert(replies.len() > 2);
            super::outcomes::lemma_poll_goes_on(begun, replies, 2);
            assert(replies.take(2)[0] == replies[0]);
            super::outcomes::lemma_elapsed(replies[0]->Clock_0, replies[2]->Clock_0);
            reveal(PollState::clear);
            if replies.len() > 3 {
                super::outcomes::lemma_poll_goes_on(begun, replies, 3);
            }
            if replies.len() > 4 {
                super::outcomes::lemma_poll_goes_on(begun, replies, 4);
            }
        } else if replies.len() > 2 {
            super::outcomes::lemma_poll_goes_on(begun, replies, 2);
        }
    }
}

proof fn lemma_poll_begins(begun: PollState, replies: Seq<PortReply>)
    requires
        begun.turn.phase is Starting,
        replies.len() > 0,
        super::replayed(begun, replies.take(0)).turn.awaits(replies[0]),
    ensures
        super::replayed(begun, replies.take(0)) == begun,
        replies[0] is Clock,
{
    assert(replies.take(0).len() == 0);
}

/// Cancelling is acted on once. What was not submitted yet is given up without a
/// vendor call; a scan is cancelled and given up; a disconnection is given up; and a
/// connection is disconnected, once, and waits for the event. After that the
/// supplicant is advanced as ever.
pub proof fn law_poll_acts_on_a_cancellation(
    core: IncrementalSupplicant,
    id: OperationId,
    budget: WorkBudget,
    output: Seq<ScanResult>,
    replies: Seq<PortReply>,
    after: PollState,
    result: Result<WorkReport, BackendError>,
)
    requires
        super::outcomes::polled_operation(core, id, budget),
        core.active.unwrap().cancellation_requested,
        !(core.active.unwrap().kind is Initialize),
        super::polls_to(super::poll_begun(core, id, budget, output), replies, after, result),
    ensures
        replies.len() > 1 && replies[0] is Clock,
        ({
            let op = core.active.unwrap();
            let request = super::asked(
                super::poll_begun(core, id, budget, output),
                replies.take(1),
            );
            let given_up = |at: int, consumed: int|
                replies.len() == at + 1 && replies[at] is Clock && after.core.active is None && (
                result is Ok <==> super::outcomes::between(
                    replies[0]->Clock_0,
                    replies[at]->Clock_0,
                ) <= u32::MAX) && (result is Ok ==> result->Ok_0.disposition is Cancelled
                    && result->Ok_0.consumed_events == consumed && result->Ok_0.operation == id);
            &&& !(op.start_phase is Ready) ==> request is ReadClock && given_up(1, 0)
            &&& op.start_phase is Ready && !op.cancellation_action_submitted ==> {
                &&& op.kind is Scan ==> request is CancelScan && given_up(2, 1)
                &&& op.kind is Disconnect ==> request is ReadClock && given_up(1, 1)
                &&& op.kind is Connect ==> request is Disconnect && replies[1] is Submitted
                &&& op.kind is Connect && replies[1]->Submitted_0 is Err ==> replies.len() == 2
                    && result == Err::<WorkReport, BackendError>(replies[1]->Submitted_0->Err_0)
                    && after.core.active == core.active
                &&& op.kind is Connect && replies[1]->Submitted_0 is Ok ==> replies.len() == 3
                    && replies[2] is Clock && reports_submission(
                    result,
                    id,
                    budget,
                    super::outcomes::between(replies[0]->Clock_0, replies[2]->Clock_0),
                    crate::radio::backend_or_timer(),
                ) && (result is Ok ==> after.core.active is Some && after.core.active->0 == (
                ActiveOperation { cancellation_action_submitted: true, ..op }))
            }
            &&& op.start_phase is Ready && op.cancellation_action_submitted ==> request
                == PollAction::PollSupplicant(budget.max_events as u32)
        }),
{
    let begun = super::poll_begun(core, id, budget, output);
    assert(replies == replies.take(replies.len() as int));
    assert(replies.len() > 0) by {
        reveal(super::asked);
    }
    super::outcomes::lemma_poll_goes_on(begun, replies, 0);
    lemma_poll_begins(begun, replies);
    assert(!(super::asked(begun, replies.take(1)) is Finish));
    assert(replies.len() > 1);
    super::outcomes::lemma_poll_goes_on(begun, replies, 1);
    reveal(PollState::clear);
    if replies[1] is Clock {
        super::outcomes::lemma_elapsed(replies[0]->Clock_0, replies[1]->Clock_0);
    }
    if replies.len() > 2 {
        super::outcomes::lemma_poll_goes_on(begun, replies, 2);
        if replies[2] is Clock {
            super::outcomes::lemma_elapsed(replies[0]->Clock_0, replies[2]->Clock_0);
        }
    }
    if replies.len() > 3 {
        super::outcomes::lemma_poll_goes_on(begun, replies, 3);
    }
}

/// Only the identity that started an operation may advance it; any other is stale. The
/// failure of an operation that ran out of time tells its kind, its last event and the
/// status of its last disconnect.
pub proof fn law_operation_failures_explain_themselves(
    op: ActiveOperation,
    id: OperationId,
    code: u32,
    allowed: Result<(), BackendError>,
    late: BackendError,
    broken: BackendError,
)
    requires
        call_ensures(ActiveOperation::ensure_id, (&op, id), allowed),
        call_ensures(super::timeout_error, (&op,), late),
        call_ensures(super::operation_error, (code,), broken),
    ensures
        allowed is Ok <==> op.id == id,
        allowed matches Err(error) ==> error.code == 0x5732_b002 && error.class
            == BackendErrorClass::Other,
        super::deadlines::tells_timeout(late, op, seq![]),
        broken.class == BackendErrorClass::Other && broken.code == code && broken.trace@.len() == 0,
{
}

/// The backend accepts an operation exactly while none is active, without touching the
/// vendor side; its deadline lies its own timeout after the time that the clock tells then.
pub proof fn law_backend_accepts_without_vendor_work<P: SupplicantPort, C: MonotonicClock>(
    id: OperationId,
    request: IncrementalRequest,
)
    ensures
        forall|backend: &mut IncrementalSupplicantBackend<P, C>, result: Result<(), BackendError>|
            #[trigger]
            call_ensures(
                IncrementalSupplicantBackend::<P, C>::start,
                (backend, id, request),
                result,
            ) ==> {
                let after = (*final(backend)).core;
                &&& result is Ok <==> (*backend).core.active is None
                &&& result matches Err(error) ==> error.class == BackendErrorClass::Busy && after
                    == (*backend).core
                &&& (*final(backend)).port == (*backend).port
                &&& result is Ok ==> after.active is Some && after.active->0.id == id
                    && !after.active->0.cancellation_requested
                &&& result is Ok && request is Scan ==> after.active->0.kind is Scan && exists|
                    now_us: u64,
                | #[trigger]
                    call_ensures(C::now_us, (&(*backend).clock,), now_us) && ends_after(
                        after.active->0.deadline_us,
                        now_us,
                        request->Scan_timeout_ms,
                    )
                &&& result is Ok && request is Connect ==> after.active->0.kind is Connect && exists|
                    now_us: u64,
                | #[trigger]
                    call_ensures(C::now_us, (&(*backend).clock,), now_us) && ends_after(
                        after.active->0.deadline_us,
                        now_us,
                        request->Connect_0.operation_timeout_ms,
                    )
                &&& result is Ok && request is Disconnect ==> after.active->0.kind is Disconnect
                    && exists|now_us: u64| #[trigger]
                    call_ensures(C::now_us, (&(*backend).clock,), now_us) && ends_after(
                        after.active->0.deadline_us,
                        now_us,
                        request->Disconnect_timeout_ms,
                    )
            },
{
}

} // verus!
