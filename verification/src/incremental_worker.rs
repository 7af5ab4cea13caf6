//! Mailbox between the radio runner and the budgeted worker of the backend.

use crate::hisi_rf_backend::incremental::{
    IncrementalRequest, IncrementalSupplicantBackend, MonotonicClock, SupplicantPort,
};
use crate::radio::{
    same_operation, BackendError, BackendErrorClass, IncrementalCompletion, PollDisposition,
    ScanResult, WaitSet, WorkBudget, WorkReport,
};
use hisi_rf_core::OperationId;
use vstd::prelude::*;

verus! {

pub const WORKER_STACK_BYTES: usize = 8192;

pub const WORKER_PRIORITY: u8 = 9;

pub const WORKER_CAPACITY_MS: u32 = 100;

pub const WORKER_PERIOD_MS: u32 = 200;

/// Scan results that the mailbox holds.
pub const SCAN_CAPACITY: usize = 32;

pub const ERROR_WORKER_BUSY: u32 = 0x5732_b101;

pub const ERROR_WORKER_RUNTIME: u32 = 0x5732_b102;

pub const ERROR_WORKER_PROTOCOL: u32 = 0x5732_b103;

/// Why the runner polls.
#[derive(Clone, Copy, Debug, PartialEq, Eq, Structural)]
pub enum WakeReason {
    Command,
    Backend,
    L2Rx,
    Timer,
}

/// Work for the worker.
#[derive(Debug)]
pub enum WorkerCommand {
    Start { id: OperationId, request: IncrementalRequest },
    Poll { id: OperationId, reason: WakeReason, budget: WorkBudget },
}

/// What the worker did.
#[derive(Clone, Copy, Debug)]
pub enum WorkerResponse {
    Started { id: OperationId, started: Result<(), BackendError> },
    Polled { id: OperationId, result: Result<WorkReport, BackendError> },
}

/// The exchange of commands and responses, one of each at a time.
#[derive(Debug)]
pub struct WorkerMailbox {
    pub command: Option<WorkerCommand>,
    pub response: Option<WorkerResponse>,
    pub cancellation: Option<OperationId>,
    pub worker_busy: bool,
    pub active: Option<OperationId>,
    pub deadline_us: Option<u64>,
    pub scan: [ScanResult; 32],
}

/// What the worker takes out of the mailbox at one wake.
#[derive(Debug)]
pub struct WorkerTurn {
    pub cancel: Option<OperationId>,
    pub command: Option<WorkerCommand>,
    pub previous_active: Option<OperationId>,
}

/// What a poll of the runner comes to.
#[derive(Clone, Copy, Debug)]
pub enum ProxyPoll {
    /// Return this.
    Return(Result<WorkReport, BackendError>),
    /// A command was left: wake the worker, then return this report.
    Wake(WorkReport),
}

/// A failure of the worker.
pub open spec fn worker_failure(code: u32) -> BackendError {
    BackendError {
        class: BackendErrorClass::Other,
        code,
        stage: crate::radio::default_stage(BackendErrorClass::Other),
        profile_revision: None,
        trace: crate::radio::no_trace(),
    }
}

pub fn worker_error(code: u32) -> (error: BackendError)
    ensures
        error == worker_failure(code),
{
    BackendError::new(BackendErrorClass::Other, code)
}

/// The operation that is active after a response.
pub open spec fn active_after(
    previous: Option<OperationId>,
    response: Option<WorkerResponse>,
) -> Option<OperationId> {
    match response {
        None => previous,
        Some(WorkerResponse::Started { id, started }) => if started is Ok {
            Some(id)
        } else {
            None
        },
        Some(WorkerResponse::Polled { id, result }) => match result {
            Ok(report) => if report.disposition.terminal() {
                None
            } else {
                Some(id)
            },
            Err(_) => None,
        },
    }
}

/// A wake for a cancellation alone keeps the active operation; a terminal or
/// failed response releases it.
pub fn next_active(previous: Option<OperationId>, response: Option<&WorkerResponse>) -> (active: Option<
    OperationId,
>)
    ensures
        active == active_after(
            previous,
            match response {
                Some(given) => Some(*given),
                None => None,
            },
        ),
{
    match response {
        None => previous,
        Some(given) => match given {
            WorkerResponse::Started { id, started } => match started {
                Ok(_) => Some(*id),
                Err(_) => None,
            },
            WorkerResponse::Polled { id, result } => match result {
                Ok(report) => match report.disposition {
                    PollDisposition::Pending(_) | PollDisposition::BudgetExhausted(_) => Some(*id),
                    _ => None,
                },
                Err(_) => None,
            },
        },
    }
}

/// The report while the worker has not answered: no progress, wait for it.
pub open spec fn waiting(id: OperationId, budget: WorkBudget) -> WorkReport {
    WorkReport {
        operation: id,
        consumed_events: 0,
        elapsed_us: 0,
        time_budget_exhausted: 0 >= budget.max_time_us,
        made_progress: false,
        disposition: PollDisposition::Pending(WaitSet { backend: true, ..crate::radio::no_sources() }),
    }
}

pub fn waiting_report(id: OperationId, budget: WorkBudget) -> (report: Result<
    WorkReport,
    BackendError,
>)
    ensures
        report == Ok::<WorkReport, BackendError>(waiting(id, budget)),
{
    let backend = WaitSet {
        command: false,
        backend: true,
        l2_rx: false,
        timer: false,
        cancel: false,
    };
    match WorkReport::try_new(id, budget, 0, 0, false, PollDisposition::Pending(backend)) {
        Some(report) => Ok(report),
        None => Err(worker_error(ERROR_WORKER_PROTOCOL)),
    }
}

/// The number of scan results that a response hands out.
pub open spec fn handed_out(response: Option<WorkerResponse>, room: nat) -> int {
    match response {
        Some(WorkerResponse::Polled { result: Ok(report), .. }) => match report.disposition {
            PollDisposition::Complete(IncrementalCompletion::Scan(outcome)) => {
                let count = outcome.count as int;
                let bounded = if count <= SCAN_CAPACITY {
                    count
                } else {
                    SCAN_CAPACITY as int
                };
                if bounded <= room {
                    bounded
                } else {
                    room as int
                }
            },
            _ => 0,
        },
        _ => 0,
    }
}

impl WorkerMailbox {
    /// A new command would be lost: one is waiting, runs, or was not answered.
    pub open spec fn occupied(self) -> bool {
        self.command is Some || self.worker_busy || self.response is Some
    }

    pub fn new() -> (mailbox: Self)
        ensures
            !mailbox.occupied(),
            mailbox.cancellation is None,
            mailbox.active is None,
            mailbox.deadline_us is None,
            forall|i: int| 0 <= i < SCAN_CAPACITY ==> (#[trigger] mailbox.scan[i]).spec_unwritten(),
    {
        WorkerMailbox {
            command: None,
            response: None,
            cancellation: None,
            worker_busy: false,
            active: None,
            deadline_us: None,
            scan: [ScanResult::empty();32],
        }
    }

    /// Leave a command for the worker. The caller wakes the worker afterwards.
    pub fn submit(&mut self, command: WorkerCommand) -> (result: Result<(), BackendError>)
        ensures
            old(self).occupied() ==> result == Err::<(), BackendError>(
                worker_failure(ERROR_WORKER_BUSY),
            ) && *final(self) == *old(self),
            !old(self).occupied() ==> result == Ok::<(), BackendError>(()) && *final(self) == (
            WorkerMailbox { command: Some(command), ..*old(self) }),
    {
        if self.command.is_some() || self.worker_busy || self.response.is_some() {
            return Err(worker_error(ERROR_WORKER_BUSY));
        }
        self.command = Some(command);
        Ok(())
    }

    /// Ask for a cancellation; it is never refused.
    pub fn request_cancel(&mut self, id: OperationId)
        ensures
            *final(self) == (WorkerMailbox { cancellation: Some(id), ..*old(self) }),
    {
        self.cancellation = Some(id);
    }

    /// Take the response, and copy the scan results that it completes.
    pub fn take_response(&mut self, scan_output: &mut [ScanResult]) -> (response: Option<
        WorkerResponse,
    >)
        ensures
            response == old(self).response,
            *final(self) == (WorkerMailbox { response: None, ..*old(self) }),
            final(scan_output)@.len() == old(scan_output)@.len(),
            forall|i: int|
                0 <= i < old(scan_output)@.len() ==> #[trigger] final(scan_output)@[i] == (if i
                    < handed_out(old(self).response, old(scan_output)@.len()) {
                    old(self).scan@[i]
                } else {
                    old(scan_output)@[i]
                }),
    {
        let response = self.response;
        self.response = None;
        let count: usize = match response {
            Some(WorkerResponse::Polled { result, .. }) => match result {
                Ok(report) => match report.disposition {
                    PollDisposition::Complete(IncrementalCompletion::Scan(outcome)) => {
                        let bounded: usize = if outcome.count as u64 <= 32 {
                            outcome.count as usize
                        } else {
                            32
                        };
                        if bounded <= scan_output.len() {
                            bounded
                        } else {
                            scan_output.len()
                        }
                    },
                    _ => 0,
                },
                Err(_) => 0,
            },
            _ => 0,
        };
        let ghost before = scan_output@;
        let mut i: usize = 0;
        while i < count
            invariant
                i <= count <= 32,
                count <= scan_output@.len(),
                scan_output@.len() == before.len(),
                forall|j: int|
                    0 <= j < before.len() ==> #[trigger] scan_output@[j] == (if j < i {
                        self.scan@[j]
                    } else {
                        before[j]
                    }),
            decreases count - i,
        {
            scan_output[i] = self.scan[i];
            i = i + 1;
        }
        response
    }

    /// The deadline of an operation, while it is the active one.
    pub fn deadline(&self, id: OperationId) -> (deadline_us: Option<u64>)
        ensures
            deadline_us == (if self.active == Some(id) {
                self.deadline_us
            } else {
                None
            }),
    {
        match self.active {
            Some(active) => if same_operation(active, id) {
                self.deadline_us
            } else {
                None
            },
            None => None,
        }
    }

    /// The worker woke: it takes what is there, and is busy while it has any.
    pub fn take_turn(&mut self) -> (turn: WorkerTurn)
        ensures
            turn.cancel == old(self).cancellation,
            turn.command == old(self).command,
            turn.previous_active == old(self).active,
            *final(self) == (WorkerMailbox {
                cancellation: None,
                command: None,
                worker_busy: old(self).cancellation is Some || old(self).command is Some,
                ..*old(self)
            }),
    {
        let cancel = self.cancellation;
        self.cancellation = None;
        let command = self.command.take();
        self.worker_busy = cancel.is_some() || command.is_some();
        WorkerTurn { cancel, command, previous_active: self.active }
    }

    /// The worker finished its turn.
    pub fn finish_turn(
        &mut self,
        active: Option<OperationId>,
        deadline_us: Option<u64>,
        response: Option<WorkerResponse>,
        scan: Option<[ScanResult; 32]>,
    )
        ensures
            *final(self) == (WorkerMailbox {
                worker_busy: false,
                active,
                deadline_us,
                scan: match scan {
                    Some(results) => results,
                    None => old(self).scan,
                },
                response: if response is Some {
                    response
                } else {
                    old(self).response
                },
                ..*old(self)
            }),
    {
        self.worker_busy = false;
        self.active = active;
        self.deadline_us = deadline_us;
        if let Some(results) = scan {
            self.scan = results;
        }
        if response.is_some() {
            self.response = response;
        }
    }

    fn submit_poll(&mut self, id: OperationId, reason: WakeReason, budget: WorkBudget) -> (poll:
        ProxyPoll)
        ensures
            old(self).occupied() ==> poll == ProxyPoll::Return(Ok(waiting(id, budget)))
                && *final(self) == *old(self),
            !old(self).occupied() ==> poll == ProxyPoll::Wake(waiting(id, budget)) && *final(self)
                == (WorkerMailbox {
                command: Some(WorkerCommand::Poll { id, reason, budget }),
                ..*old(self)
            }),
    {
        let submitted = self.submit(WorkerCommand::Poll { id, reason, budget });
        match waiting_report(id, budget) {
            Ok(report) => match submitted {
                Ok(_) => ProxyPoll::Wake(report),
                Err(_) => ProxyPoll::Return(Ok(report)),
            },
            Err(error) => ProxyPoll::Return(Err(error)),
        }
    }

    /// One poll of the runner: hand out the answer to this operation, or leave a
    /// poll for the worker. An answer to another operation is a protocol error.
    pub fn poll(
        &mut self,
        id: OperationId,
        reason: WakeReason,
        budget: WorkBudget,
        scan_output: &mut [ScanResult],
    ) -> (poll: ProxyPoll)
        ensures
            final(scan_output)@.len() == old(scan_output)@.len(),
            forall|i: int|
                0 <= i < old(scan_output)@.len() ==> #[trigger] final(scan_output)@[i] == (if i
                    < handed_out(old(self).response, old(scan_output)@.len()) {
                    old(self).scan@[i]
                } else {
                    old(scan_output)@[i]
                }),
            ({
                let emptied = WorkerMailbox { response: None, ..*old(self) };
                let asked = WorkerMailbox {
                    command: Some(WorkerCommand::Poll { id, reason, budget }),
                    ..emptied
                };
                match old(self).response {
                    Some(WorkerResponse::Polled { id: answered, result }) => *final(self) == emptied
                        && poll == ProxyPoll::Return(
                        if answered == id {
                            result
                        } else {
                            Err(worker_failure(ERROR_WORKER_PROTOCOL))
                        },
                    ),
                    Some(WorkerResponse::Started { id: answered, started }) => if answered != id {
                        *final(self) == emptied && poll == ProxyPoll::Return(
                            Err(worker_failure(ERROR_WORKER_PROTOCOL)),
                        )
                    } else {
                        match started {
                            Err(error) => *final(self) == emptied && poll == ProxyPoll::Return(
                                Err(error),
                            ),
                            Ok(_) => if emptied.occupied() {
                                *final(self) == emptied && poll == ProxyPoll::Return(
                                    Ok(waiting(id, budget)),
                                )
                            } else {
                                *final(self) == asked && poll == ProxyPoll::Wake(
                                    waiting(id, budget),
                                )
                            },
                        }
                    },
                    None => if old(self).occupied() {
                        *final(self) == *old(self) && poll == ProxyPoll::Return(
                            Ok(waiting(id, budget)),
                        )
                    } else {
                        *final(self) == asked && poll == ProxyPoll::Wake(waiting(id, budget))
                    },
                }
            }),
    {
        match self.take_response(scan_output) {
            Some(WorkerResponse::Started { id: answered, started }) => {
                if !same_operation(answered, id) {
                    return ProxyPoll::Return(Err(worker_error(ERROR_WORKER_PROTOCOL)));
                }
                match started {
                    Ok(_) => self.submit_poll(id, reason, budget),
                    Err(error) => ProxyPoll::Return(Err(error)),
                }
            },
            Some(WorkerResponse::Polled { id: answered, result }) => {
                if !same_operation(answered, id) {
                    return ProxyPoll::Return(Err(worker_error(ERROR_WORKER_PROTOCOL)));
                }
                ProxyPoll::Return(result)
            },
            None => self.submit_poll(id, reason, budget),
        }
    }
}

/// What a turn of the worker leaves for the mailbox.
#[derive(Debug)]
pub struct TurnOutcome {
    pub active: Option<OperationId>,
    pub deadline_us: Option<u64>,
    pub response: Option<WorkerResponse>,
    pub scan: Option<[ScanResult; 32]>,
}

/// Serve one turn with the backend: a cancellation first, then the command.
pub fn serve<P: SupplicantPort, C: MonotonicClock>(
    backend: &mut IncrementalSupplicantBackend<P, C>,
    turn: WorkerTurn,
) -> (outcome: TurnOutcome)
    requires
        turn.command matches Some(WorkerCommand::Poll { budget, .. }) ==> budget.wf(),
        old(backend).accounted(),
    ensures
        final(backend).accounted(),
        outcome.active == active_after(turn.previous_active, outcome.response),
        outcome.deadline_us == (match outcome.active {
            Some(id) => if final(backend).core.owns(id) {
                Some(final(backend).core.active.unwrap().due_us())
            } else {
                None
            },
            None => None,
        }),
        match turn.command {
            None => {
                &&& outcome.response is None && outcome.scan is None
                &&& *final(backend) == old(backend).after_cancel(turn.cancel)
            },
            Some(WorkerCommand::Start { id, request }) => {
                &&& outcome.scan is None
                &&& exists|
                    at: &mut IncrementalSupplicantBackend<P, C>,
                    started: Result<(), BackendError>,
                |
                    {
                        &&& #[trigger] call_ensures(
                            IncrementalSupplicantBackend::<P, C>::start,
                            (at, id, request),
                            started,
                        )
                        &&& *at == old(backend).after_cancel(turn.cancel)
                        &&& *final(at) == *final(backend)
                        &&& outcome.response == Some(WorkerResponse::Started { id, started })
                    }
            },
            Some(WorkerCommand::Poll { id, budget, .. }) => exists|
                at: &mut IncrementalSupplicantBackend<P, C>,
                output: &mut [ScanResult],
                result: Result<WorkReport, BackendError>,
            |
                {
                    &&& #[trigger] call_ensures(
                        IncrementalSupplicantBackend::<P, C>::poll,
                        (at, id, budget, output),
                        result,
                    )
                    &&& *at == old(backend).after_cancel(turn.cancel)
                    &&& *final(at) == *final(backend)
                    &&& (*output)@.len() == 32
                    &&& forall|i: int| 0 <= i < 32 ==> (#[trigger] (*output)@[i]).spec_unwritten()
                    &&& outcome.scan matches Some(scan) && scan@ == (*final(output))@
                    &&& outcome.response == Some(WorkerResponse::Polled { id, result })
                },
        },
{
    if let Some(id) = turn.cancel {
        let _ = backend.cancel(id);
    }
    let mut scan: Option<[ScanResult; 32]> = None;
    let response = match turn.command {
        None => None,
        Some(WorkerCommand::Start { id, request }) => {
            let started = backend.start(id, request);
            Some(WorkerResponse::Started { id, started })
        },
        Some(WorkerCommand::Poll { id, reason: _, budget }) => {
            let mut output = [ScanResult::empty();32];
            let result = backend.poll(id, budget, &mut output);
            scan = Some(output);
            Some(WorkerResponse::Polled { id, result })
        },
    };
    let active = next_active(turn.previous_active, response.as_ref());
    let deadline_us = match active {
        Some(id) => backend.next_deadline_us(id),
        None => None,
    };
    TurnOutcome { active, deadline_us, response, scan }
}

/// A completed, cancelled or failed operation is no longer active.
pub proof fn law_terminal_answer_releases_the_operation(
    previous: Option<OperationId>,
    id: OperationId,
    result: Result<WorkReport, BackendError>,
)
    ensures
        active_after(previous, Some(WorkerResponse::Polled { id, result })) is None <==> (result
            is Err || (result matches Ok(report) && report.disposition.terminal())),
        active_after(previous, None) == previous,
{
}

/// The answer to a start makes its operation the active one exactly when it was
/// accepted; a report keeps it while it goes on; and no answer changes nothing.
pub proof fn law_answer_decides_the_active_operation(
    previous: Option<OperationId>,
    response: WorkerResponse,
    active: Option<OperationId>,
    unchanged: Option<OperationId>,
)
    requires
        call_ensures(next_active, (previous, Some(&response)), active),
        call_ensures(next_active, (previous, None), unchanged),
    ensures
        unchanged == previous,
        response matches WorkerResponse::Started { id, started } ==> active == (if started is Ok {
            Some(id)
        } else {
            None
        }),
        response matches WorkerResponse::Polled { id, result } ==> {
            &&& active == Some(id) || active is None
            &&& active is Some <==> result is Ok && (result->Ok_0.disposition is Pending
                || result->Ok_0.disposition is BudgetExhausted)
        },
{
}

/// While the worker has not answered, the runner waits for the backend alone, and
/// no work is reported.
pub proof fn law_runner_waits_for_the_worker(
    id: OperationId,
    budget: WorkBudget,
    report: Result<WorkReport, BackendError>,
)
    requires
        budget.wf(),
        call_ensures(waiting_report, (id, budget), report),
    ensures
        report is Ok,
        report->Ok_0.operation == id,
        report->Ok_0.consumed_events == 0 && report->Ok_0.elapsed_us == 0,
        !report->Ok_0.made_progress && !report->Ok_0.time_budget_exhausted,
        report->Ok_0.disposition is Pending,
        report->Ok_0.disposition->Pending_0.backend,
        report->Ok_0.disposition->Pending_0.spec_bits() == 2,
{
}

/// A command is taken exactly when none waits, none runs and every answer was
/// fetched, and then waits as it was given; otherwise it is refused as busy and
/// nothing changes. A cancellation is always taken.
pub proof fn law_one_command_at_a_time(command: WorkerCommand, id: OperationId)
    ensures
        forall|mailbox: &mut WorkerMailbox, result: Result<(), BackendError>| #[trigger]
            call_ensures(WorkerMailbox::submit, (mailbox, command), result) ==> {
                &&& result is Ok <==> (*mailbox).command is None && !(*mailbox).worker_busy
                    && (*mailbox).response is None
                &&& result is Ok ==> (*final(mailbox)).command == Some(command)
                &&& result matches Err(error) ==> error.code == 0x5732_b101 && error.class
                    == BackendErrorClass::Other && *final(mailbox) == *mailbox
                &&& (*final(mailbox)).cancellation == (*mailbox).cancellation
                &&& (*final(mailbox)).active == (*mailbox).active
            },
        forall|mailbox: &mut WorkerMailbox, unit: ()| #[trigger]
            call_ensures(WorkerMailbox::request_cancel, (mailbox, id), unit) ==> {
                &&& (*final(mailbox)).cancellation == Some(id)
                &&& (*final(mailbox)).command == (*mailbox).command
                &&& (*final(mailbox)).response == (*mailbox).response
                &&& (*final(mailbox)).worker_busy == (*mailbox).worker_busy
            },
{
}

/// The worker takes the cancellation and the command together, once, and is busy
/// until it answers. What it answers is what waits then; a turn without an answer
/// leaves an earlier one alone.
pub proof fn law_worker_takes_everything_once(
    active: Option<OperationId>,
    deadline_us: Option<u64>,
    response: Option<WorkerResponse>,
    scan: Option<[ScanResult; 32]>,
)
    ensures
        forall|mailbox: &mut WorkerMailbox, turn: WorkerTurn| #[trigger]
            call_ensures(WorkerMailbox::take_turn, (mailbox,), turn) ==> {
                &&& turn.cancel == (*mailbox).cancellation
                &&& turn.command == (*mailbox).command
                &&& turn.previous_active == (*mailbox).active
                &&& (*final(mailbox)).cancellation is None && (*final(mailbox)).command is None
                &&& (*final(mailbox)).worker_busy <==> turn.cancel is Some || turn.command is Some
                &&& (*final(mailbox)).response == (*mailbox).response
                &&& (*final(mailbox)).active == (*mailbox).active
            },
        forall|mailbox: &mut WorkerMailbox, unit: ()| #[trigger]
            call_ensures(
                WorkerMailbox::finish_turn,
                (mailbox, active, deadline_us, response, scan),
                unit,
            ) ==> {
                &&& !(*final(mailbox)).worker_busy
                &&& (*final(mailbox)).active == active
                &&& (*final(mailbox)).deadline_us == deadline_us
                &&& response is Some ==> (*final(mailbox)).response == response
                &&& response is None ==> (*final(mailbox)).response == (*mailbox).response
                &&& scan is Some ==> (*final(mailbox)).scan == scan->0
                &&& scan is None ==> (*final(mailbox)).scan == (*mailbox).scan
                &&& (*final(mailbox)).command == (*mailbox).command
                &&& (*final(mailbox)).cancellation == (*mailbox).cancellation
            },
{
}

/// A poll of the runner hands out the report on its own operation, and a failure
/// to start it. It fails on an answer to another operation, with a protocol error.
/// Without an answer it leaves a poll for the worker, unless the worker has one.
/// Whatever it finds, no answer is left behind.
pub proof fn law_runner_gets_its_own_answer(
    id: OperationId,
    reason: WakeReason,
    budget: WorkBudget,
)
    ensures
        forall|mailbox: &mut WorkerMailbox, output: &mut [ScanResult], poll: ProxyPoll| #[trigger]
            call_ensures(WorkerMailbox::poll, (mailbox, id, reason, budget, output), poll) ==> {
                let before = *mailbox;
                let after = *final(mailbox);
                let idle = before.command is None && !before.worker_busy;
                &&& after.response is None
                &&& before.response matches Some(WorkerResponse::Polled { id: answered, result })
                    ==> (answered == id ==> poll == ProxyPoll::Return(result)) && after.command
                    == before.command
                &&& before.response matches Some(WorkerResponse::Started { id: answered, started })
                    ==> (answered == id && started is Err ==> poll == ProxyPoll::Return(
                    Err::<WorkReport, BackendError>(started->Err_0),
                ))
                &&& before.response is Some && answered_id(before.response->0) != id
                    ==> poll is Return && poll->Return_0 is Err && poll->Return_0->Err_0.code
                    == 0x5732_b103 && after.command == before.command
                &&& poll is Wake <==> idle && (before.response is None
                    || before.response->0 is Started && answered_id(before.response->0) == id
                    && before.response->0->started is Ok)
                &&& poll is Wake ==> after.command == Some(
                    WorkerCommand::Poll { id, reason, budget },
                )
                &&& !(poll is Wake) ==> after.command == before.command
                &&& before.response is None && !idle ==> poll is Return && poll->Return_0 is Ok
                    && poll->Return_0->Ok_0.disposition is Pending
            },
{
}

/// The operation that an answer is about.
pub open spec fn answered_id(response: WorkerResponse) -> OperationId {
    match response {
        WorkerResponse::Started { id, .. } => id,
        WorkerResponse::Polled { id, .. } => id,
    }
}

/// A completed scan hands out as many of its results as it counted, the mailbox
/// holds and the caller has room for, in their order; every other answer leaves the
/// caller's buffer alone.
pub proof fn law_completed_scan_is_handed_out()
    ensures
        forall|
            mailbox: &mut WorkerMailbox,
            output: &mut [ScanResult],
            response: Option<WorkerResponse>,
        | #[trigger]
            call_ensures(WorkerMailbox::take_response, (mailbox, output), response) ==> {
                &&& response == (*mailbox).response
                &&& (*final(mailbox)).response is None
                &&& (*final(output))@.len() == (*output)@.len()
                &&& !completes_scan(response) ==> forall|i: int|
                    0 <= i < (*output)@.len() ==> #[trigger] (*final(output))@[i] == (*output)@[i]
                &&& completes_scan(response) ==> forall|i: int|
                    0 <= i < (*output)@.len() ==> #[trigger] (*final(output))@[i] == (if i < 32
                        && i < scanned(response) {
                        (*mailbox).scan@[i]
                    } else {
                        (*output)@[i]
                    })
            },
{
}

/// The answer reports a completed scan.
pub open spec fn completes_scan(response: Option<WorkerResponse>) -> bool {
    &&& response is Some && response->0 is Polled
    &&& response->0->result is Ok
    &&& response->0->result->Ok_0.disposition is Complete
    &&& response->0->result->Ok_0.disposition->Complete_0 is Scan
}

/// The number of results of a completed scan.
pub open spec fn scanned(response: Option<WorkerResponse>) -> usize {
    response->0->result->Ok_0.disposition->Complete_0->Scan_0.count
}

/// A deadline is told for the active operation alone.
pub proof fn law_deadline_is_that_of_the_active_operation(
    mailbox: WorkerMailbox,
    id: OperationId,
    deadline_us: Option<u64>,
)
    requires
        call_ensures(WorkerMailbox::deadline, (&mailbox, id), deadline_us),
    ensures
        mailbox.active == Some(id) ==> deadline_us == mailbox.deadline_us,
        mailbox.active != Some(id) ==> deadline_us is None,
{
}

/// A turn of the worker answers exactly where it had a command, and about the
/// operation of that command. A cancellation reaches the operation that it names
/// and no other, and alone does nothing else.
pub proof fn law_turn_answers_its_command<P: SupplicantPort, C: MonotonicClock>(turn: WorkerTurn)
    requires
        turn.command matches Some(WorkerCommand::Poll { budget, .. }) ==> budget.wf(),
    ensures
        forall|backend: &mut IncrementalSupplicantBackend<P, C>, outcome: TurnOutcome|
            (*backend).accounted() && #[trigger] call_ensures(
                serve::<P, C>,
                (backend, turn),
                outcome,
            ) ==> {
                &&& outcome.response is Some <==> turn.command is Some
                &&& turn.command matches Some(WorkerCommand::Start { id, .. })
                    ==> outcome.response->0 is Started && answered_id(outcome.response->0) == id
                &&& turn.command matches Some(WorkerCommand::Poll { id, .. })
                    ==> outcome.response->0 is Polled && answered_id(outcome.response->0) == id
                &&& turn.command is None ==> outcome.active == turn.previous_active
                &&& turn.command is None && turn.cancel is None ==> *final(backend) == *backend
                &&& turn.command is None && turn.cancel is Some ==> {
                    let named = (*backend).core.active is Some && (*backend).core.active->0.id
                        == turn.cancel->0;
                    &&& named ==> (*final(backend)).core.active is Some
                        && (*final(backend)).core.active->0.cancellation_requested
                    &&& !named ==> (*final(backend)).core == (*backend).core
                    &&& (*final(backend)).port == (*backend).port
                }
            },
{
}

} // verus!
