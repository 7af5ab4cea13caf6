//! Cancellation and timeout of an operation, without radio hardware.
//!
//! The port below never completes anything on its own: a scan stays pending, a
//! connection is never authorized, and a disconnect is confirmed by one event.

use crate::hisi_rf_backend::incremental::{
    ActiveOperation, IncrementalRequest, IncrementalSupplicant, IncrementalSupplicantBackend,
    MonotonicClock, PollAction, PollResult, PollState, PollTurn, PortReply, StartPhase,
    SupplicantPort,
};
use crate::hisi_rf_backend::{NativeEvent, NATIVE_EVENT_DISCONNECTED};
use crate::radio::{
    BackendError, BackendErrorClass, Diagnostic, DiagnosticStage, DiagnosticTraceKind,
    IncrementalCompletion, PollDisposition, ScanResult, StationConfig, WorkBudget,
};
use hisi_rf_core::OperationId;
use vstd::prelude::*;

verus! {

/// A port that only confirms disconnects.
#[derive(Clone, Copy, Debug, PartialEq, Eq, Structural)]
pub struct OperationFixturePort {
    pub scan_pending: bool,
    pub disconnect_event_pending: bool,
}

impl OperationFixturePort {
    pub fn new() -> (port: Self)
        ensures
            port == (OperationFixturePort { scan_pending: false, disconnect_event_pending: false }),
    {
        OperationFixturePort { scan_pending: false, disconnect_event_pending: false }
    }
}

impl SupplicantPort for OperationFixturePort {
    fn start_scan(&mut self) -> (result: Result<(), BackendError>)
        ensures
            result == Ok::<(), BackendError>(()),
            *final(self) == (OperationFixturePort { scan_pending: true, ..*old(self) }),
    {
        self.scan_pending = true;
        Ok(())
    }

    fn poll_scan(&mut self) -> (result: Result<Option<usize>, BackendError>)
        ensures
            result == Ok::<Option<usize>, BackendError>(None),
            *final(self) == *old(self),
    {
        Ok(None)
    }

    fn scan_result(&self, _index: usize) -> (result: Option<ScanResult>)
        ensures
            result is None,
    {
        None
    }

    fn scan_cache_pending(&self) -> (pending: bool)
        ensures
            pending == self.scan_pending,
    {
        self.scan_pending
    }

    fn cancel_scan(&mut self)
        ensures
            *final(self) == (OperationFixturePort { scan_pending: false, ..*old(self) }),
    {
        self.scan_pending = false;
    }

    fn configure(&mut self, _config: &StationConfig) -> (result: Result<(), BackendError>)
        ensures
            result == Ok::<(), BackendError>(()),
            *final(self) == *old(self),
    {
        Ok(())
    }

    fn connect(&mut self) -> (result: Result<(), BackendError>)
        ensures
            result == Ok::<(), BackendError>(()),
            *final(self) == *old(self),
    {
        Ok(())
    }

    fn disconnect(&mut self) -> (result: Result<(), BackendError>)
        ensures
            result == Ok::<(), BackendError>(()),
            *final(self) == (OperationFixturePort { disconnect_event_pending: true, ..*old(self) }),
    {
        self.disconnect_event_pending = true;
        Ok(())
    }

    fn poll(&mut self, _budget: u32) -> (result: Result<PollResult, BackendError>)
        ensures
            result == Ok::<PollResult, BackendError>(
                PollResult {
                    work_completed: 0,
                    output_pending: if old(self).disconnect_event_pending {
                        1
                    } else {
                        0
                    },
                    next_deadline_ms: u64::MAX,
                },
            ),
            *final(self) == *old(self),
    {
        Ok(
            PollResult {
                work_completed: 0,
                output_pending: if self.disconnect_event_pending {
                    1
                } else {
                    0
                },
                next_deadline_ms: u64::MAX,
            },
        )
    }

    fn input_pending(&self) -> (pending: bool)
        ensures
            !pending,
    {
        false
    }

    fn next_event(&mut self) -> (result: Result<Option<NativeEvent>, BackendError>)
        ensures
            result == Ok::<Option<NativeEvent>, BackendError>(
                if old(self).disconnect_event_pending {
                    Some(NativeEvent { kind: NATIVE_EVENT_DISCONNECTED, status: 0 })
                } else {
                    None
                },
            ),
            *final(self) == (OperationFixturePort { disconnect_event_pending: false, ..*old(self) }),
    {
        if !self.disconnect_event_pending {
            return Ok(None);
        }
        self.disconnect_event_pending = false;
        Ok(Some(NativeEvent { kind: NATIVE_EVENT_DISCONNECTED, status: 0 }))
    }

    fn recovery_diagnostic_word(&self) -> (word: u32)
        ensures
            word == 0,
    {
        0
    }

    fn context_diagnostic_word(&self) -> (word: u32)
        ensures
            word == 0,
    {
        0
    }

    fn driver_diagnostic_word(&self) -> (word: u32)
        ensures
            word == 0,
    {
        0
    }

    fn match_diagnostic_word(&self) -> (word: u32)
        ensures
            word == 0,
    {
        0
    }

    fn external_auth_retry_stalled(&self) -> (stalled: bool)
        ensures
            !stalled,
    {
        false
    }
}

/// A clock that stands still until it is set.
#[derive(Clone, Copy, Debug, PartialEq, Eq, Structural)]
pub struct OperationFixtureClock {
    pub time_us: u64,
}

impl MonotonicClock for OperationFixtureClock {
    fn now_us(&self) -> (now: u64)
        ensures
            now == self.time_us,
    {
        self.time_us
    }
}

type FixtureBackend = IncrementalSupplicantBackend<OperationFixturePort, OperationFixtureClock>;

/// What the fixture answers to a request at `time_us`.
pub open spec fn fixture_reply(
    action: PollAction,
    port: OperationFixturePort,
    time_us: u64,
) -> PortReply {
    match action {
        PollAction::ReadClock => PortReply::Clock(time_us),
        PollAction::CancelScan => PortReply::Done,
        PollAction::PollSupplicant(_) => PortReply::Polled(
            Ok(
                PollResult {
                    work_completed: 0,
                    output_pending: if port.disconnect_event_pending {
                        1
                    } else {
                        0
                    },
                    next_deadline_ms: u64::MAX,
                },
            ),
        ),
        PollAction::NextEvent => PortReply::Event(
            Ok(
                if port.disconnect_event_pending {
                    Some(NativeEvent { kind: NATIVE_EVENT_DISCONNECTED, status: 0 })
                } else {
                    None
                },
            ),
        ),
        PollAction::PollScan => PortReply::ScanTotal(Ok(None)),
        PollAction::ReadScanCachePending => PortReply::Flag(port.scan_pending),
        PollAction::ReadScanResult(_) => PortReply::ScanEntry(None),
        PollAction::ReadExternalAuthStalled => PortReply::Flag(false),
        PollAction::ReadInputPending => PortReply::Flag(false),
        PollAction::ReadRecoveryWord => PortReply::Word(0),
        PollAction::ReadContextWord => PortReply::Word(0),
        PollAction::ReadDriverWord => PortReply::Word(0),
        PollAction::ReadMatchWord => PortReply::Word(0),
        _ => PortReply::Submitted(Ok(())),
    }
}

/// The port after a request.
pub open spec fn fixture_after(action: PollAction, port: OperationFixturePort) -> OperationFixturePort {
    match action {
        PollAction::StartScan => OperationFixturePort { scan_pending: true, ..port },
        PollAction::CancelScan => OperationFixturePort { scan_pending: false, ..port },
        PollAction::Disconnect => OperationFixturePort { disconnect_event_pending: true, ..port },
        PollAction::NextEvent => OperationFixturePort { disconnect_event_pending: false, ..port },
        _ => port,
    }
}

proof fn lemma_read(
    action: PollAction,
    port: OperationFixturePort,
    clock: OperationFixtureClock,
    reply: PortReply,
)
    requires
        crate::hisi_rf_backend::incremental::reads(action),
        crate::hisi_rf_backend::incremental::read_answer(action, port, clock, reply),
    ensures
        reply == fixture_reply(action, port, clock.time_us),
        fixture_after(action, port) == port,
{
}

proof fn lemma_call(action: PollAction, at: &mut OperationFixturePort, reply: PortReply)
    requires
        !crate::hisi_rf_backend::incremental::reads(action),
        crate::hisi_rf_backend::incremental::call_answer(action, at, reply),
    ensures
        reply == fixture_reply(action, *old(at), 0),
        *final(at) == fixture_after(action, *old(at)),
{
}

/// A poll against the fixture in progress.
pub struct FixtureRun {
    pub state: PollState,
    pub action: PollAction,
    pub port: OperationFixturePort,
}

impl FixtureRun {
    /// The poll after the fixture answered what it asks for.
    pub open spec fn answered(self, time_us: u64) -> FixtureRun {
        let (state, action) = self.state.next(fixture_reply(self.action, self.port, time_us));
        FixtureRun { state, action, port: fixture_after(self.action, self.port) }
    }

    /// The poll after at most `count` answers; a finished one asks for nothing.
    pub open spec fn advanced(self, time_us: u64, count: nat) -> FixtureRun
        decreases count,
    {
        if count == 0 {
            self
        } else {
            let before = self.advanced(time_us, (count - 1) as nat);
            if before.action is Finish {
                before
            } else {
                before.answered(time_us)
            }
        }
    }
}

/// A poll of the fixture that has not asked for anything yet.
pub open spec fn fixture_poll(
    core: IncrementalSupplicant,
    port: OperationFixturePort,
    id: OperationId,
    budget: WorkBudget,
    output: Seq<ScanResult>,
) -> FixtureRun {
    FixtureRun {
        state: crate::hisi_rf_backend::incremental::poll_begun(core, id, budget, output),
        action: PollAction::ReadClock,
        port,
    }
}

/// The fixture's answers determine a poll: it has made `i` requests and stands
/// where `i` answers lead.
proof fn lemma_replies_follow_the_run(
    run: FixtureRun,
    time_us: u64,
    replies: Seq<PortReply>,
    ports: Seq<OperationFixturePort>,
    i: nat,
)
    requires
        i <= replies.len(),
        run.action is ReadClock,
        ports.len() == replies.len() + 1,
        ports[0] == run.port,
        forall|k: int|
            #![trigger replies.take(k)]
            0 <= k < replies.len() ==> crate::hisi_rf_backend::incremental::answers(
                crate::hisi_rf_backend::incremental::asked(run.state, replies.take(k)),
                replies[k],
            ) && replies[k] == fixture_reply(
                crate::hisi_rf_backend::incremental::asked(run.state, replies.take(k)),
                ports[k],
                time_us,
            ) && ports[k + 1] == fixture_after(
                crate::hisi_rf_backend::incremental::asked(run.state, replies.take(k)),
                ports[k],
            ),
    ensures
        run.advanced(time_us, i) == (FixtureRun {
            state: crate::hisi_rf_backend::incremental::replayed(run.state, replies.take(i as int)),
            action: crate::hisi_rf_backend::incremental::asked(run.state, replies.take(i as int)),
            port: ports[i as int],
        }),
    decreases i,
{
    reveal(crate::hisi_rf_backend::incremental::asked);
    if i == 0 {
        assert(replies.take(0).len() == 0);
    } else {
        let k = i - 1;
        lemma_replies_follow_the_run(run, time_us, replies, ports, k as nat);
        assert(replies.take(i as int).drop_last() =~= replies.take(k));
        assert(replies.take(i as int).last() == replies[k]);
        assert(crate::hisi_rf_backend::incremental::answers(
            crate::hisi_rf_backend::incremental::asked(run.state, replies.take(k)),
            replies[k],
        ));
    }
}

/// A finished poll does not move on.
proof fn lemma_finished_run_stays(run: FixtureRun, time_us: u64, count: nat, more: nat)
    requires
        count <= more,
        run.advanced(time_us, count).action is Finish,
    ensures
        run.advanced(time_us, more) == run.advanced(time_us, count),
    decreases more,
{
    if count < more {
        lemma_finished_run_stays(run, time_us, count, (more - 1) as nat);
    }
}

/// A poll that is over has come to where its run finishes.
proof fn lemma_poll_is_its_run(
    run: FixtureRun,
    time_us: u64,
    replies: Seq<PortReply>,
    ports: Seq<OperationFixturePort>,
    count: nat,
)
    requires
        run.action is ReadClock,
        ports.len() == replies.len() + 1,
        ports[0] == run.port,
        forall|k: int|
            #![trigger replies.take(k)]
            0 <= k < replies.len() ==> crate::hisi_rf_backend::incremental::answers(
                crate::hisi_rf_backend::incremental::asked(run.state, replies.take(k)),
                replies[k],
            ) && replies[k] == fixture_reply(
                crate::hisi_rf_backend::incremental::asked(run.state, replies.take(k)),
                ports[k],
                time_us,
            ) && ports[k + 1] == fixture_after(
                crate::hisi_rf_backend::incremental::asked(run.state, replies.take(k)),
                ports[k],
            ),
        crate::hisi_rf_backend::incremental::asked(run.state, replies) is Finish,
        run.advanced(time_us, count).action is Finish,
    ensures
        run.advanced(time_us, count) == (FixtureRun {
            state: crate::hisi_rf_backend::incremental::replayed(run.state, replies),
            action: crate::hisi_rf_backend::incremental::asked(run.state, replies),
            port: ports.last(),
        }),
{
    assert(replies.take(replies.len() as int) =~= replies);
    lemma_replies_follow_the_run(run, time_us, replies, ports, replies.len());
    if count < replies.len() {
        lemma_replies_follow_the_run(run, time_us, replies, ports, count);
        assert(crate::hisi_rf_backend::incremental::answers(
            crate::hisi_rf_backend::incremental::asked(run.state, replies.take(count as int)),
            replies[count as int],
        ));
    } else {
        lemma_finished_run_stays(run, time_us, replies.len(), count);
    }
}

/// A finished poll whose disposition is pending.
spec fn pending(run: FixtureRun) -> bool {
    run.action matches PollAction::Finish(finished) && finished matches Ok(report)
        && report.disposition is Pending
}

/// A poll that submits what its operation still owes ends pending.
proof fn lemma_submission(
    core: IncrementalSupplicant,
    port: OperationFixturePort,
    id: OperationId,
    budget: WorkBudget,
    output: Seq<ScanResult>,
    time_us: u64,
)
    requires
        core.owns(id),
        budget.wf(),
        core.active->0.kind is Connect || core.active->0.kind is Disconnect,
        !core.active->0.cancellation_requested,
    ensures
        ({
            let op = core.active->0;
            let end = fixture_poll(core, port, id, budget, output).advanced(time_us, 3);
            &&& op.start_phase is ConnectConfigure ==> pending(end) && end.port == port
                && end.state.core == (IncrementalSupplicant {
                active: Some(ActiveOperation { start_phase: StartPhase::ConnectSubmit, ..op }),
                ..core
            })
            &&& op.start_phase is ConnectSubmit ==> pending(end) && end.port == port
                && end.state.core == (IncrementalSupplicant {
                active: Some(ActiveOperation { start_phase: StartPhase::Ready, ..op }),
                ..core
            })
            &&& op.start_phase is Disconnect ==> pending(end) && end.port == (
            OperationFixturePort { disconnect_event_pending: true, ..port }) && end.state.core == (
            IncrementalSupplicant {
                active: Some(ActiveOperation { start_phase: StartPhase::Ready, ..op }),
                ..core
            })
        }),
{
    reveal_with_fuel(FixtureRun::advanced, 4);
}

/// The poll that submits a cancellation ends pending, with a disconnect under way.
proof fn lemma_cancellation_submitted(
    core: IncrementalSupplicant,
    port: OperationFixturePort,
    id: OperationId,
    budget: WorkBudget,
    output: Seq<ScanResult>,
    time_us: u64,
)
    requires
        core.owns(id),
        budget.wf(),
        core.active->0.kind is Connect,
        core.active->0.start_phase is Ready,
        core.active->0.cancellation_requested,
        !core.active->0.cancellation_action_submitted,
    ensures
        ({
            let end = fixture_poll(core, port, id, budget, output).advanced(time_us, 3);
            &&& pending(end)
            &&& end.port == (OperationFixturePort { disconnect_event_pending: true, ..port })
            &&& end.state.core == (IncrementalSupplicant {
                active: Some(
                    ActiveOperation { cancellation_action_submitted: true, ..core.active->0 },
                ),
                ..core
            })
        }),
{
    reveal_with_fuel(FixtureRun::advanced, 4);
}

/// The disconnect event ends a cancelled connection as cancelled and a
/// disconnect as complete.
proof fn lemma_disconnect_confirmed(
    core: IncrementalSupplicant,
    port: OperationFixturePort,
    id: OperationId,
    budget: WorkBudget,
    output: Seq<ScanResult>,
    time_us: u64,
)
    requires
        core.owns(id),
        budget.wf(),
        core.active->0.start_phase is Ready,
        port.disconnect_event_pending,
        core.active->0.kind is Connect && core.active->0.cancellation_requested
            && core.active->0.cancellation_action_submitted || core.active->0.kind is Disconnect
            && !core.active->0.cancellation_requested,
    ensures
        ({
            let end = fixture_poll(core, port, id, budget, output).advanced(time_us, 7);
            &&& end.action matches PollAction::Finish(finished)
            &&& finished matches Ok(report)
            &&& report.disposition == (if core.active->0.kind is Connect {
                PollDisposition::Cancelled
            } else {
                PollDisposition::Complete(IncrementalCompletion::Disconnected)
            })
            &&& end.port == (OperationFixturePort { disconnect_event_pending: false, ..port })
            &&& end.state.core == (IncrementalSupplicant { active: None, ..core })
        }),
{
    reveal_with_fuel(FixtureRun::advanced, 8);
    reveal(PollState::drain);
    reveal(PollState::events_taken);
    reveal(PollState::scan_advanced);
    reveal(PollState::measured);
    reveal(PollState::deadline_checked);
}

/// The failure that a connection against the fixture times out with.
pub open spec fn fixture_timeout() -> BackendError {
    crate::hisi_rf_backend::staged(
        BackendErrorClass::OperationTimeout,
        0x5732_b004u32 | 0u8 as u32,
        DiagnosticStage::Connect,
    ).traced(DiagnosticTraceKind::VendorStatus, 0i32 as u32).traced(
        DiagnosticTraceKind::SupplicantContext,
        0,
    ).traced(DiagnosticTraceKind::DriverContext, 0).traced(DiagnosticTraceKind::BackendStatus, 0)
}

/// A connection of which nothing is heard times out once its deadline has
/// passed, and pends until then.
#[verifier::spinoff_prover]
#[verifier::rlimit(80)]
proof fn lemma_silent_connection(
    core: IncrementalSupplicant,
    port: OperationFixturePort,
    id: OperationId,
    budget: WorkBudget,
    output: Seq<ScanResult>,
    time_us: u64,
)
    requires
        core.owns(id),
        budget.wf(),
        core.active->0.kind is Connect,
        core.active->0.start_phase is Ready,
        !core.active->0.cancellation_requested,
        core.active->0.reconnect_submit_deadline_us is None,
        core.active->0.last_event_kind == 0,
        core.active->0.last_disconnect_status is None,
        !port.disconnect_event_pending,
    ensures
        time_us >= core.active->0.deadline_us ==> fixture_poll(
            core,
            port,
            id,
            budget,
            output,
        ).advanced(time_us, 11).action == PollAction::Finish(Err(fixture_timeout())),
        time_us < core.active->0.deadline_us ==> pending(
            fixture_poll(core, port, id, budget, output).advanced(time_us, 8),
        ),
{
    assert(0u32 & crate::hisi_rf_backend::incremental::FIRST_EAPOL_TIMEOUT_MASK == 0) by (bit_vector);
    let run = fixture_poll(core, port, id, budget, output);
    let op = core.active->0;
    assert({
        let at = run.advanced(time_us, 2);
        &&& at.action is ReadClock && at.port == port
        &&& at.state.turn.phase is Settling && at.state.turn.outcome is Continue
        &&& at.state.core == core && at.state.turn.started_us == time_us
        &&& at.state.turn.consumed == 0 && at.state.turn.next_deadline_ms == u64::MAX
        &&& at.state.turn.budget == budget
    }) by {
        reveal_with_fuel(FixtureRun::advanced, 3);
        reveal(PollState::drain);
        reveal(PollState::events_taken);
        reveal(PollState::scan_advanced);
    }
    let heard = ActiveOperation {
        external_auth_reconnect_deadline_us: if op.external_auth_reconnect_submitted {
            op.external_auth_reconnect_deadline_us
        } else {
            None
        },
        ..op
    };
    assert({
        let at = run.advanced(time_us, 6);
        &&& at.action is ReadClock && at.port == port
        &&& at.state.turn.phase is Finishing && at.state.turn.outcome is Continue
        &&& at.state.core == (IncrementalSupplicant { active: Some(heard), ..core })
        &&& at.state.turn.started_us == time_us
        &&& at.state.turn.consumed == 0 && at.state.turn.next_deadline_ms == u64::MAX
        &&& at.state.turn.budget == budget
    }) by {
        reveal_with_fuel(FixtureRun::advanced, 5);
    }
    reveal(PollState::measured);
    reveal(PollState::deadline_checked);
    reveal(PollState::clear);
    reveal_with_fuel(FixtureRun::advanced, 6);
}

fn fixture_backend() -> (backend: FixtureBackend)
    ensures
        backend.core.active is None,
        backend.port == (OperationFixturePort {
            scan_pending: false,
            disconnect_event_pending: false,
        }),
        backend.clock.time_us == 0,
{
    IncrementalSupplicantBackend::new(
        OperationFixturePort::new(),
        OperationFixtureClock { time_us: 0 },
    )
}

/// A finished run leaves `after` and `result`.
pub open spec fn ends_with(
    end: FixtureRun,
    after: FixtureBackend,
    result: Result<PollDisposition, BackendError>,
) -> bool {
    match end.action {
        PollAction::Finish(finished) => {
            &&& after.core == end.state.core
            &&& after.port == end.port
            &&& result == (match finished {
                Ok(report) => Ok::<PollDisposition, BackendError>(report.disposition),
                Err(error) => Err(error),
            })
        },
        _ => true,
    }
}

/// `after` and `result` are what a poll of `before` comes to.
pub open spec fn comes_to(
    before: FixtureBackend,
    after: FixtureBackend,
    id: OperationId,
    budget: WorkBudget,
    result: Result<PollDisposition, BackendError>,
    output: Seq<ScanResult>,
) -> bool {
    forall|count: nat|
        ends_with(
            #[trigger] fixture_poll(before.core, before.port, id, budget, output).advanced(
                before.clock.time_us,
                count,
            ),
            after,
            result,
        )
}

fn turn(backend: &mut FixtureBackend, id: OperationId, budget: WorkBudget) -> (result: Result<
    PollDisposition,
    BackendError,
>)
    requires
        budget.wf(),
        old(backend).accounted(),
    ensures
        final(backend).accounted(),
        final(backend).clock == old(backend).clock,
        exists|output: Seq<ScanResult>| #[trigger]
            comes_to(*old(backend), *final(backend), id, budget, result, output),
{
    let mut output: [ScanResult; 1] = [ScanResult::empty()];
    let ghost given = output@;
    let ghost before = *backend;
    let polled = backend.poll(id, budget, &mut output);
    proof {
        let run = fixture_poll(before.core, before.port, id, budget, given);
        let time_us = before.clock.time_us;
        let (turn, replies, ports) = choose|
            turn: PollTurn,
            replies: Seq<PortReply>,
            ports: Seq<OperationFixturePort>,
        |
            {
                &&& #[trigger] crate::hisi_rf_backend::incremental::polls_to(
                    crate::hisi_rf_backend::incremental::poll_begun(before.core, id, budget, given),
                    replies,
                    crate::hisi_rf_backend::incremental::poll_state(backend.core, turn, output@),
                    polled,
                )
                &&& #[trigger] crate::hisi_rf_backend::incremental::reads_answered(
                    crate::hisi_rf_backend::incremental::poll_begun(before.core, id, budget, given),
                    replies,
                    ports,
                    before.clock,
                )
                &&& ports.first() == before.port && ports.last() == backend.port
                &&& forall|i: int|
                    #![trigger replies.take(i)]
                    0 <= i < replies.len() && !crate::hisi_rf_backend::incremental::reads(
                        crate::hisi_rf_backend::incremental::asked(
                            crate::hisi_rf_backend::incremental::poll_begun(before.core, id, budget, given),
                            replies.take(i),
                        ),
                    ) ==> exists|at: &mut OperationFixturePort|
                        #[trigger] crate::hisi_rf_backend::incremental::call_answer(
                            crate::hisi_rf_backend::incremental::asked(
                                crate::hisi_rf_backend::incremental::poll_begun(before.core, id, budget, given),
                                replies.take(i),
                            ),
                            at,
                            replies[i],
                        ) && *at == ports[i] && *final(at) == ports[i + 1]
            };
        assert forall|k: int|
            #![trigger replies.take(k)]
            0 <= k < replies.len() implies crate::hisi_rf_backend::incremental::answers(
            crate::hisi_rf_backend::incremental::asked(run.state, replies.take(k)),
            replies[k],
        ) && replies[k] == fixture_reply(
            crate::hisi_rf_backend::incremental::asked(run.state, replies.take(k)),
            ports[k],
            time_us,
        ) && ports[k + 1] == fixture_after(
            crate::hisi_rf_backend::incremental::asked(run.state, replies.take(k)),
            ports[k],
        ) by {
            let action = crate::hisi_rf_backend::incremental::asked(run.state, replies.take(k));
            if crate::hisi_rf_backend::incremental::reads(action) {
                lemma_read(action, ports[k], before.clock, replies[k]);
            } else {
                let at = choose|at: &mut OperationFixturePort|
                    #[trigger] crate::hisi_rf_backend::incremental::call_answer(
                        action,
                        at,
                        replies[k],
                    ) && *at == ports[k] && *final(at) == ports[k + 1];
                lemma_call(action, at, replies[k]);
            }
        }
        let result = match polled {
            Ok(report) => Ok::<PollDisposition, BackendError>(report.disposition),
            Err(error) => Err(error),
        };
        assert forall|count: nat|
            ends_with(#[trigger] run.advanced(time_us, count), *backend, result) by {
            if run.advanced(time_us, count).action is Finish {
                lemma_poll_is_its_run(run, time_us, replies, ports, count);
            }
        }
        assert(comes_to(before, *backend, id, budget, result, given));
    }
    match polled {
        Ok(report) => Ok(report.disposition),
        Err(error) => Err(error),
    }
}

/// One turn that submits what the operation still owes.
fn submits(backend: &mut FixtureBackend, id: OperationId, budget: WorkBudget) -> (pends: bool)
    requires
        budget.wf(),
        old(backend).accounted(),
        old(backend).core.owns(id),
        old(backend).core.active->0.kind is Connect || old(backend).core.active->0.kind
            is Disconnect,
        !old(backend).core.active->0.cancellation_requested,
        old(backend).core.active->0.start_phase is ConnectConfigure || old(
            backend,
        ).core.active->0.start_phase is ConnectSubmit || old(backend).core.active->0.start_phase
            is Disconnect,
    ensures
        pends,
        final(backend).accounted(),
        final(backend).clock == old(backend).clock,
        final(backend).port == (if old(backend).core.active->0.start_phase is Disconnect {
            OperationFixturePort { disconnect_event_pending: true, ..old(backend).port }
        } else {
            old(backend).port
        }),
        final(backend).core == (IncrementalSupplicant {
            active: Some(
                ActiveOperation {
                    start_phase: if old(backend).core.active->0.start_phase is ConnectConfigure {
                        StartPhase::ConnectSubmit
                    } else {
                        StartPhase::Ready
                    },
                    ..old(backend).core.active->0
                },
            ),
            ..old(backend).core
        }),
{
    let ghost before = *backend;
    let result = turn(backend, id, budget);
    proof {
        let output = choose|output: Seq<ScanResult>| #[trigger]
            comes_to(before, *backend, id, budget, result, output);
        lemma_submission(
            before.core,
            before.port,
            id,
            budget,
            output,
            before.clock.time_us,
        );
    }
    match result {
        Ok(PollDisposition::Pending(_)) => true,
        _ => false,
    }
}

/// Start a connection, and submit it in two turns.
fn connecting(id: OperationId, config: StationConfig, budget: WorkBudget) -> (submitted: Option<
    FixtureBackend,
>)
    requires
        budget.wf(),
    ensures
        submitted matches Some(backend) && {
            &&& backend.accounted()
            &&& backend.clock.time_us == 0
            &&& !backend.port.disconnect_event_pending
            &&& backend.core.active == Some(
                ActiveOperation {
                    start_phase: StartPhase::Ready,
                    ..crate::hisi_rf_backend::incremental::requested(
                        id,
                        IncrementalRequest::Connect(config),
                        0,
                    )
                },
            )
        },
{
    let mut backend = fixture_backend();
    if backend.start(id, IncrementalRequest::Connect(config)).is_err() || !submits(
        &mut backend,
        id,
        budget,
    ) || !submits(&mut backend, id, budget) {
        return None;
    }
    Some(backend)
}

/// The failure that a cancelled operation is reported as.
pub open spec fn cancellation() -> BackendError {
    BackendError {
        class: BackendErrorClass::Cancelled,
        code: 0,
        stage: crate::radio::default_stage(BackendErrorClass::Cancelled),
        profile_revision: None,
        trace: crate::radio::no_trace(),
    }
}

/// Cancel a connection that is never authorized, and disconnect after it.
fn cancelled(
    connect_id: OperationId,
    disconnect_id: OperationId,
    config: StationConfig,
    budget: WorkBudget,
) -> (diagnostic: Option<Diagnostic>)
    requires
        budget.wf(),
    ensures
        diagnostic == Some(crate::radio::backend_diagnostic(cancellation())),
{
    let mut backend = match connecting(connect_id, config, budget) {
        Some(backend) => backend,
        None => {
            return None;
        },
    };
    if backend.cancel(connect_id).is_err() {
        return None;
    }
    let ghost asked = backend;
    let submitted = turn(&mut backend, connect_id, budget);
    proof {
        let output = choose|output: Seq<ScanResult>| #[trigger]
            comes_to(asked, backend, connect_id, budget, submitted, output);
        lemma_cancellation_submitted(asked.core, asked.port, connect_id, budget, output, 0);
    }
    match submitted {
        Ok(PollDisposition::Pending(_)) => {},
        _ => {
            return None;
        },
    }
    let ghost dropped = backend;
    let ended = turn(&mut backend, connect_id, budget);
    proof {
        let output = choose|output: Seq<ScanResult>| #[trigger]
            comes_to(dropped, backend, connect_id, budget, ended, output);
        lemma_disconnect_confirmed(dropped.core, dropped.port, connect_id, budget, output, 0);
    }
    match ended {
        Ok(PollDisposition::Cancelled) => {},
        _ => {
            return None;
        },
    }
    if backend.start(disconnect_id, IncrementalRequest::Disconnect { timeout_ms: 10_000 }).is_err()
        || !submits(&mut backend, disconnect_id, budget) {
        return None;
    }
    let ghost leaving = backend;
    let left = turn(&mut backend, disconnect_id, budget);
    proof {
        let output = choose|output: Seq<ScanResult>| #[trigger]
            comes_to(leaving, backend, disconnect_id, budget, left, output);
        lemma_disconnect_confirmed(leaving.core, leaving.port, disconnect_id, budget, output, 0);
    }
    match left {
        Ok(PollDisposition::Complete(IncrementalCompletion::Disconnected)) => Some(
            BackendError::new(BackendErrorClass::Cancelled, 0).diagnostic(),
        ),
        _ => None,
    }
}

/// Let a connection run into its timeout, one millisecond after it started.
fn timed_out(id: OperationId, config: StationConfig, budget: WorkBudget) -> (diagnostic: Option<
    Diagnostic,
>)
    requires
        budget.wf(),
    ensures
        diagnostic == (if config.operation_timeout_ms <= 1 {
            Some(crate::radio::backend_diagnostic(fixture_timeout()))
        } else {
            None
        }),
{
    let mut backend = match connecting(id, config, budget) {
        Some(backend) => backend,
        None => {
            return None;
        },
    };
    backend.clock.time_us = 1_000;
    let ghost waiting = backend;
    let result = turn(&mut backend, id, budget);
    proof {
        let output = choose|output: Seq<ScanResult>| #[trigger]
            comes_to(waiting, backend, id, budget, result, output);
        lemma_silent_connection(waiting.core, waiting.port, id, budget, output, 1_000);
    }
    match result {
        Err(error) => match error.class() {
            BackendErrorClass::OperationTimeout => Some(error.diagnostic()),
            _ => None,
        },
        _ => None,
    }
}

/// Cancel a connection that is never authorized, disconnect after it, and let
/// another one run into its timeout. The result is the diagnostic of each; there
/// is none if and only if the second connection has more than a millisecond left.
pub fn operation_error_injection_fixture(
    connect_id: OperationId,
    disconnect_id: OperationId,
    timeout_id: OperationId,
    cancelled_config: StationConfig,
    expiring_config: StationConfig,
) -> (diagnostics: Option<(Diagnostic, Diagnostic)>)
    ensures
        diagnostics == (if expiring_config.operation_timeout_ms <= 1 {
            Some(
                (
                    crate::radio::backend_diagnostic(cancellation()),
                    crate::radio::backend_diagnostic(fixture_timeout()),
                ),
            )
        } else {
            None
        }),
{
    match WorkBudget::try_new(4, 100) {
        None => None,
        Some(budget) => match cancelled(connect_id, disconnect_id, cancelled_config, budget) {
            None => None,
            Some(cancellation_reported) => match timed_out(timeout_id, expiring_config, budget) {
                None => None,
                Some(timeout_reported) => Some((cancellation_reported, timeout_reported)),
            },
        },
    }
}

/// The injected cancellation is told as one, and the injected timeout as that of a
/// connection of which nothing was heard; both can be retried. There are none exactly when
/// the connection that is to expire has more than a millisecond.
pub proof fn law_injected_errors_are_told(
    connect_id: OperationId,
    disconnect_id: OperationId,
    timeout_id: OperationId,
    cancelled_config: StationConfig,
    expiring_config: StationConfig,
    diagnostics: Option<(Diagnostic, Diagnostic)>,
)
    requires
        call_ensures(
            operation_error_injection_fixture,
            (connect_id, disconnect_id, timeout_id, cancelled_config, expiring_config),
            diagnostics,
        ),
    ensures
        diagnostics is Some <==> expiring_config.operation_timeout_ms <= 1,
        diagnostics matches Some((cancelled, expired)) ==> {
            &&& cancelled.code is OperationCancelled && cancelled.action is RetryOperation
            &&& cancelled.backend_code == Some(0u32) && cancelled.trace@.len() == 0
            &&& expired.code is OperationTimeout && expired.action is RetryOperation
            &&& expired.stage is Connect && expired.backend_code == Some(0x5732_b004u32)
            &&& expired.trace@.len() == 4
        },
{
    assert(0x5732_b004u32 | 0u32 == 0x5732_b004u32) by (bit_vector);
}

} // verus!
