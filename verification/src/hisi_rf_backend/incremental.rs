//! Bounded scan, connect and disconnect operations over the native supplicant.
//!
//! One operation is active at a time. A poll advances it by at most the granted
//! number of events and never enters vendor code itself: it asks for one vendor
//! call after the other, and decides on each reply what to ask for next.

pub mod calls;
pub mod deadlines;
pub mod outcomes;
pub mod progress;
pub mod reconnects;
pub mod scans;
pub mod steps;
pub mod submissions;

use crate::hisi_rf_backend::{
    channel_to_frequency, classify_native_connect_event, staged_error, NativeConnectEvent,
    NativeEvent,
};
use crate::radio::{
    same_operation, BackendError, BackendErrorClass, ConnectionInfo, DiagnosticStage,
    DiagnosticTraceKind, IncrementalCompletion, PollDisposition, ScanOutcome, ScanResult,
    StationConfig, WaitSet, WorkBudget, WorkReport,
};
use hisi_rf_core::OperationId;
use vstd::prelude::*;

verus! {

pub const ERROR_STALE_OPERATION: u32 = 0x5732_b002;

pub const ERROR_WORK_BUDGET: u32 = 0x5732_b003;

pub const ERROR_OPERATION_TIMEOUT: u32 = 0x5732_b004;

pub const FIRST_EAPOL_RECONNECT_DELAY_US: u64 = 1_000_000;

/// The vendor supplicant defers a reconnect to the same network by five
/// milliseconds after a disconnect event; resubmission waits as long.
pub const RECONNECT_SETTLE_US: u64 = 5_000;

pub const FIRST_EAPOL_TIMEOUT_MASK: u32 = 0x0000_000f;

pub const FIRST_EAPOL_RETRY_MASK: u32 = 0x00ff_0000;

pub const FIRST_EAPOL_RETRY_PENDING: u32 = 0x0100_0000;

/// What an operation is for.
#[derive(Clone, Copy, Debug, PartialEq, Eq)]
pub enum OperationKind {
    Initialize,
    Scan,
    Connect(ConnectionInfo),
    Disconnect,
}

/// The vendor submission that an operation still owes.
#[derive(Debug)]
pub enum StartPhase {
    Ready,
    Scan,
    ConnectConfigure(StationConfig),
    ConnectSubmit,
    Disconnect,
}

/// Where an operation stands after the events of one poll.
#[derive(Clone, Copy, Debug, PartialEq, Eq)]
pub enum OperationOutcome {
    Continue,
    Complete(IncrementalCompletion),
    Cancelled,
    Failed(i32),
}

/// Request moved into the backend.
#[derive(Debug)]
pub enum IncrementalRequest {
    /// Acknowledge the bootstrap that has already completed.
    Initialize,
    Scan { timeout_ms: u32 },
    Connect(StationConfig),
    Disconnect { timeout_ms: u32 },
}

/// The one operation that the backend works on.
#[derive(Debug)]
pub struct ActiveOperation {
    pub id: OperationId,
    pub kind: OperationKind,
    pub start_phase: StartPhase,
    pub deadline_us: u64,
    pub backend_deadline_us: Option<u64>,
    pub cancellation_requested: bool,
    pub cancellation_action_submitted: bool,
    pub first_eapol_reconnect_deadline_us: Option<u64>,
    pub first_eapol_reconnect_submitted: bool,
    pub external_auth_reconnect_deadline_us: Option<u64>,
    pub external_auth_reconnect_submitted: bool,
    pub reconnect_after_disconnect: bool,
    pub reconnect_submit_deadline_us: Option<u64>,
    pub last_event_kind: u8,
    pub last_disconnect_status: Option<i32>,
    pub scan_total: Option<usize>,
    pub scan_seen: usize,
    pub scan_written: usize,
    pub scan_truncated: bool,
}

/// A point in time, held at the end of the clock's range.
pub open spec fn held(time_us: int) -> u64 {
    if time_us <= u64::MAX {
        time_us as u64
    } else {
        u64::MAX
    }
}

/// The earlier of a point in time and one that may not be set.
pub open spec fn earliest(time_us: u64, other: Option<u64>) -> u64 {
    match other {
        Some(due) => if due <= time_us {
            due
        } else {
            time_us
        },
        None => time_us,
    }
}

fn earlier_of(time_us: u64, other: Option<u64>) -> (first: u64)
    ensures
        first == earliest(time_us, other),
{
    match other {
        Some(due) => if due <= time_us {
            due
        } else {
            time_us
        },
        None => time_us,
    }
}

/// A failure of the operation contract itself.
pub open spec fn contract_failure(code: u32) -> BackendError {
    crate::hisi_rf_backend::staged(BackendErrorClass::Other, code, DiagnosticStage::Operation)
}

pub fn operation_error(code: u32) -> (error: BackendError)
    ensures
        error == contract_failure(code),
{
    staged_error(BackendErrorClass::Other, code, DiagnosticStage::Operation)
}

/// The stage that an operation is in as a whole.
pub open spec fn kind_stage(kind: OperationKind) -> DiagnosticStage {
    match kind {
        OperationKind::Initialize => DiagnosticStage::Initialize,
        OperationKind::Scan => DiagnosticStage::Scan,
        OperationKind::Connect(_) => DiagnosticStage::Connect,
        OperationKind::Disconnect => DiagnosticStage::Disconnect,
    }
}

/// The failure of an operation that ran out of time.
pub open spec fn operation_timeout(active: ActiveOperation) -> BackendError {
    crate::hisi_rf_backend::staged(
        BackendErrorClass::OperationTimeout,
        0x5732_b004u32 | active.last_event_kind as u32,
        kind_stage(active.kind),
    ).traced(
        DiagnosticTraceKind::VendorStatus,
        (match active.last_disconnect_status {
            Some(status) => status,
            None => 0i32,
        }) as u32,
    )
}

pub fn timeout_error(active: &ActiveOperation) -> (error: BackendError)
    ensures
        error == operation_timeout(*active),
{
    let status: i32 = match active.last_disconnect_status {
        Some(status) => status,
        None => 0,
    };
    staged_error(
        BackendErrorClass::OperationTimeout,
        ERROR_OPERATION_TIMEOUT | active.last_event_kind as u32,
        match active.kind {
            OperationKind::Initialize => DiagnosticStage::Initialize,
            OperationKind::Scan => DiagnosticStage::Scan,
            OperationKind::Connect(_) => DiagnosticStage::Connect,
            OperationKind::Disconnect => DiagnosticStage::Disconnect,
        },
    ).with_trace(DiagnosticTraceKind::VendorStatus, status as u32)
}

/// An operation that was just accepted at `now_us`.
pub open spec fn accepted(
    id: OperationId,
    kind: OperationKind,
    timeout_ms: u32,
    start_phase: StartPhase,
    now_us: u64,
) -> ActiveOperation {
    ActiveOperation {
        id,
        kind,
        start_phase,
        deadline_us: held(now_us + 1000 * timeout_ms),
        backend_deadline_us: None,
        cancellation_requested: false,
        cancellation_action_submitted: false,
        first_eapol_reconnect_deadline_us: None,
        first_eapol_reconnect_submitted: false,
        external_auth_reconnect_deadline_us: None,
        external_auth_reconnect_submitted: false,
        reconnect_after_disconnect: false,
        reconnect_submit_deadline_us: None,
        last_event_kind: 0,
        last_disconnect_status: None,
        scan_total: None,
        scan_seen: 0,
        scan_written: 0,
        scan_truncated: false,
    }
}

/// The operation that a request asks for.
pub open spec fn requested(
    id: OperationId,
    request: IncrementalRequest,
    now_us: u64,
) -> ActiveOperation {
    match request {
        IncrementalRequest::Initialize => accepted(
            id,
            OperationKind::Initialize,
            0,
            StartPhase::Ready,
            now_us,
        ),
        IncrementalRequest::Scan { timeout_ms } => accepted(
            id,
            OperationKind::Scan,
            timeout_ms,
            StartPhase::Scan,
            now_us,
        ),
        IncrementalRequest::Connect(config) => accepted(
            id,
            OperationKind::Connect(
                ConnectionInfo {
                    bssid: config.bssid,
                    frequency_mhz: crate::hisi_rf_backend::frequency_of(config.channel),
                },
            ),
            config.operation_timeout_ms,
            StartPhase::ConnectConfigure(config),
            now_us,
        ),
        IncrementalRequest::Disconnect { timeout_ms } => accepted(
            id,
            OperationKind::Disconnect,
            timeout_ms,
            StartPhase::Disconnect,
            now_us,
        ),
    }
}

impl ActiveOperation {
    pub fn new(id: OperationId, kind: OperationKind, timeout_ms: u32, now_us: u64) -> (active: Self)
        ensures
            active == accepted(id, kind, timeout_ms, StartPhase::Ready, now_us),
    {
        let timeout_us: u64 = timeout_ms as u64 * 1_000;
        ActiveOperation {
            id,
            kind,
            start_phase: StartPhase::Ready,
            deadline_us: now_us.saturating_add(timeout_us),
            backend_deadline_us: None,
            cancellation_requested: false,
            cancellation_action_submitted: false,
            first_eapol_reconnect_deadline_us: None,
            first_eapol_reconnect_submitted: false,
            external_auth_reconnect_deadline_us: None,
            external_auth_reconnect_submitted: false,
            reconnect_after_disconnect: false,
            reconnect_submit_deadline_us: None,
            last_event_kind: 0,
            last_disconnect_status: None,
            scan_total: None,
            scan_seen: 0,
            scan_written: 0,
            scan_truncated: false,
        }
    }

    pub fn initialize(id: OperationId, now_us: u64) -> (active: Self)
        ensures
            active == accepted(id, OperationKind::Initialize, 0, StartPhase::Ready, now_us),
    {
        Self::new(id, OperationKind::Initialize, 0, now_us)
    }

    pub fn connect(id: OperationId, info: ConnectionInfo, timeout_ms: u32, now_us: u64) -> (active:
        Self)
        ensures
            active == accepted(
                id,
                OperationKind::Connect(info),
                timeout_ms,
                StartPhase::Ready,
                now_us,
            ),
    {
        Self::new(id, OperationKind::Connect(info), timeout_ms, now_us)
    }

    pub fn scan(id: OperationId, timeout_ms: u32, now_us: u64) -> (active: Self)
        ensures
            active == accepted(id, OperationKind::Scan, timeout_ms, StartPhase::Ready, now_us),
    {
        Self::new(id, OperationKind::Scan, timeout_ms, now_us)
    }

    pub fn disconnect(id: OperationId, timeout_ms: u32, now_us: u64) -> (active: Self)
        ensures
            active == accepted(id, OperationKind::Disconnect, timeout_ms, StartPhase::Ready, now_us),
    {
        Self::new(id, OperationKind::Disconnect, timeout_ms, now_us)
    }

    /// Accept a request without any vendor work.
    pub fn from_request(id: OperationId, request: IncrementalRequest, now_us: u64) -> (active: Self)
        ensures
            active == requested(id, request, now_us),
    {
        match request {
            IncrementalRequest::Initialize => Self::initialize(id, now_us),
            IncrementalRequest::Scan { timeout_ms } => {
                let mut active = Self::scan(id, timeout_ms, now_us);
                active.start_phase = StartPhase::Scan;
                active
            },
            IncrementalRequest::Connect(config) => {
                let info = ConnectionInfo {
                    bssid: config.bssid,
                    frequency_mhz: channel_to_frequency(config.channel),
                };
                let timeout_ms: u32 = config.operation_timeout_ms;
                let mut active = Self::connect(id, info, timeout_ms, now_us);
                active.start_phase = StartPhase::ConnectConfigure(config);
                active
            },
            IncrementalRequest::Disconnect { timeout_ms } => {
                let mut active = Self::disconnect(id, timeout_ms, now_us);
                active.start_phase = StartPhase::Disconnect;
                active
            },
        }
    }

    /// Only the identity that started the operation may advance it.
    pub fn ensure_id(&self, id: OperationId) -> (result: Result<(), BackendError>)
        ensures
            result == (if self.id == id {
                Ok::<(), BackendError>(())
            } else {
                Err(contract_failure(ERROR_STALE_OPERATION))
            }),
    {
        if same_operation(self.id, id) {
            Ok(())
        } else {
            Err(operation_error(ERROR_STALE_OPERATION))
        }
    }

    /// The earliest of the deadlines that the operation has.
    pub open spec fn due_us(self) -> u64 {
        earliest(
            earliest(
                earliest(
                    earliest(self.deadline_us, self.backend_deadline_us),
                    self.first_eapol_reconnect_deadline_us,
                ),
                self.external_auth_reconnect_deadline_us,
            ),
            self.reconnect_submit_deadline_us,
        )
    }

    pub fn next_deadline_us(&self) -> (deadline_us: u64)
        ensures
            deadline_us == self.due_us(),
            deadline_us <= self.deadline_us,
    {
        let deadline: u64 = earlier_of(self.deadline_us, self.backend_deadline_us);
        let deadline: u64 = earlier_of(deadline, self.first_eapol_reconnect_deadline_us);
        let deadline: u64 = earlier_of(deadline, self.external_auth_reconnect_deadline_us);
        earlier_of(deadline, self.reconnect_submit_deadline_us)
    }

    /// There is evidence of a first-EAPOL timeout whose cached-association retry
    /// has completed, and no reconnect was submitted for it yet.
    pub open spec fn first_eapol_stalled(self, recovery: u32) -> bool {
        &&& self.kind is Connect
        &&& !self.cancellation_requested
        &&& !self.first_eapol_reconnect_submitted
        &&& recovery & FIRST_EAPOL_TIMEOUT_MASK != 0
        &&& recovery & FIRST_EAPOL_RETRY_MASK != 0
        &&& recovery & FIRST_EAPOL_RETRY_PENDING == 0
    }

    /// The point in time at which a stall seen at `now_us` is acted on.
    pub open spec fn stall_deadline(armed: Option<u64>, now_us: u64) -> u64 {
        match armed {
            Some(due) => due,
            None => held(now_us + FIRST_EAPOL_RECONNECT_DELAY_US),
        }
    }

    /// The operation and whether a reconnect is due, after looking at the
    /// recovery word at `now_us`.
    pub open spec fn first_eapol_checked(self, recovery: u32, now_us: u64) -> (
        ActiveOperation,
        bool,
    ) {
        let due = Self::stall_deadline(self.first_eapol_reconnect_deadline_us, now_us);
        if !self.first_eapol_stalled(recovery) {
            (self, false)
        } else if now_us < due {
            (ActiveOperation { first_eapol_reconnect_deadline_us: Some(due), ..self }, false)
        } else {
            (
                ActiveOperation {
                    first_eapol_reconnect_submitted: true,
                    first_eapol_reconnect_deadline_us: None,
                    ..self
                },
                true,
            )
        }
    }

    pub fn should_submit_first_eapol_reconnect(&mut self, recovery: u32, now_us: u64) -> (submit:
        bool)
        ensures
            (*final(self), submit) == old(self).first_eapol_checked(recovery, now_us),
    {
        let connecting = match self.kind {
            OperationKind::Connect(_) => true,
            _ => false,
        };
        if !connecting || self.cancellation_requested || self.first_eapol_reconnect_submitted
            || recovery & FIRST_EAPOL_TIMEOUT_MASK == 0 || recovery & FIRST_EAPOL_RETRY_MASK == 0
            || recovery & FIRST_EAPOL_RETRY_PENDING != 0 {
            return false;
        }
        let deadline: u64 = match self.first_eapol_reconnect_deadline_us {
            Some(due) => due,
            None => now_us.saturating_add(FIRST_EAPOL_RECONNECT_DELAY_US),
        };
        if now_us < deadline {
            self.first_eapol_reconnect_deadline_us = Some(deadline);
            return false;
        }
        self.first_eapol_reconnect_submitted = true;
        self.first_eapol_reconnect_deadline_us = None;
        true
    }

    /// The operation and whether a reconnect is due, after looking at the
    /// external-authentication retry at `now_us`. The stall must persist: a
    /// retry that moves again disarms the delay.
    pub open spec fn external_auth_checked(self, stalled: bool, now_us: u64) -> (
        ActiveOperation,
        bool,
    ) {
        let due = Self::stall_deadline(self.external_auth_reconnect_deadline_us, now_us);
        if !(self.kind is Connect) || self.cancellation_requested
            || self.external_auth_reconnect_submitted {
            (self, false)
        } else if !stalled {
            (ActiveOperation { external_auth_reconnect_deadline_us: None, ..self }, false)
        } else if now_us < due {
            (ActiveOperation { external_auth_reconnect_deadline_us: Some(due), ..self }, false)
        } else {
            (
                ActiveOperation {
                    external_auth_reconnect_submitted: true,
                    external_auth_reconnect_deadline_us: None,
                    ..self
                },
                true,
            )
        }
    }

    pub fn should_submit_external_auth_reconnect(&mut self, stalled: bool, now_us: u64) -> (submit:
        bool)
        ensures
            (*final(self), submit) == old(self).external_auth_checked(stalled, now_us),
    {
        let connecting = match self.kind {
            OperationKind::Connect(_) => true,
            _ => false,
        };
        if !connecting || self.cancellation_requested || self.external_auth_reconnect_submitted {
            return false;
        }
        if !stalled {
            self.external_auth_reconnect_deadline_us = None;
            return false;
        }
        let deadline: u64 = match self.external_auth_reconnect_deadline_us {
            Some(due) => due,
            None => now_us.saturating_add(FIRST_EAPOL_RECONNECT_DELAY_US),
        };
        if now_us < deadline {
            self.external_auth_reconnect_deadline_us = Some(deadline);
            return false;
        }
        self.external_auth_reconnect_submitted = true;
        self.external_auth_reconnect_deadline_us = None;
        true
    }

    pub fn request_reconnect_after_disconnect(&mut self)
        ensures
            *final(self) == (ActiveOperation { reconnect_after_disconnect: true, ..*old(self) }),
    {
        self.reconnect_after_disconnect = true;
    }

    /// The operation after an event that may be the disconnect for which a
    /// reconnect waits.
    pub open spec fn reconnect_observed(self, kind: u8, now_us: u64) -> ActiveOperation {
        if self.reconnect_after_disconnect && !self.cancellation_requested
            && crate::hisi_rf_backend::native_event(kind) is Disconnected {
            ActiveOperation {
                reconnect_after_disconnect: false,
                reconnect_submit_deadline_us: Some(held(now_us + RECONNECT_SETTLE_US)),
                ..self
            }
        } else {
            self
        }
    }

    pub fn observe_reconnect_disconnect(&mut self, kind: u8, now_us: u64)
        ensures
            *final(self) == old(self).reconnect_observed(kind, now_us),
    {
        if self.reconnect_after_disconnect && !self.cancellation_requested {
            match classify_native_connect_event(kind) {
                NativeConnectEvent::Disconnected => {
                    self.reconnect_after_disconnect = false;
                    self.reconnect_submit_deadline_us = Some(
                        now_us.saturating_add(RECONNECT_SETTLE_US),
                    );
                },
                _ => {},
            }
        }
    }

    /// A reconnect has waited long enough at `now_us`.
    pub open spec fn reconnect_settled(self, now_us: u64) -> bool {
        self.reconnect_submit_deadline_us matches Some(due) && now_us >= due
    }

    pub fn take_reconnect_when_settled(&mut self, now_us: u64) -> (settled: bool)
        ensures
            settled == old(self).reconnect_settled(now_us),
            *final(self) == (if settled {
                ActiveOperation { reconnect_submit_deadline_us: None, ..*old(self) }
            } else {
                *old(self)
            }),
    {
        match self.reconnect_submit_deadline_us {
            Some(due) => {
                if now_us >= due {
                    self.reconnect_submit_deadline_us = None;
                    true
                } else {
                    false
                }
            },
            None => false,
        }
    }

    /// The operation and its outcome after one supplicant event.
    pub open spec fn observed(self, kind: u8, status: i32) -> (ActiveOperation, OperationOutcome) {
        let seen = ActiveOperation { last_event_kind: kind, ..self };
        match (self.kind, crate::hisi_rf_backend::native_event(kind)) {
            (OperationKind::Connect(info), NativeConnectEvent::Authorized) => (
                seen,
                if self.cancellation_requested {
                    OperationOutcome::Continue
                } else {
                    OperationOutcome::Complete(IncrementalCompletion::Connected(info))
                },
            ),
            (OperationKind::Connect(_), NativeConnectEvent::Disconnected) => if self.cancellation_requested {
                (seen, OperationOutcome::Cancelled)
            } else if status != 0 {
                (
                    ActiveOperation { last_disconnect_status: Some(status), ..seen },
                    OperationOutcome::Continue,
                )
            } else {
                (seen, OperationOutcome::Continue)
            },
            (OperationKind::Disconnect, NativeConnectEvent::Disconnected) => (
                seen,
                if self.cancellation_requested {
                    OperationOutcome::Cancelled
                } else {
                    OperationOutcome::Complete(IncrementalCompletion::Disconnected)
                },
            ),
            (OperationKind::Connect(_), NativeConnectEvent::Failed) => (
                seen,
                OperationOutcome::Failed(status),
            ),
            (OperationKind::Disconnect, NativeConnectEvent::Failed) => (
                seen,
                OperationOutcome::Failed(status),
            ),
            _ => (seen, OperationOutcome::Continue),
        }
    }

    pub fn observe(&mut self, kind: u8, status: i32) -> (outcome: OperationOutcome)
        ensures
            (*final(self), outcome) == old(self).observed(kind, status),
    {
        self.last_event_kind = kind;
        match self.kind {
            OperationKind::Initialize => OperationOutcome::Continue,
            OperationKind::Scan => OperationOutcome::Continue,
            OperationKind::Connect(info) => match classify_native_connect_event(kind) {
                NativeConnectEvent::Progress => OperationOutcome::Continue,
                NativeConnectEvent::Authorized => if self.cancellation_requested {
                    OperationOutcome::Continue
                } else {
                    OperationOutcome::Complete(IncrementalCompletion::Connected(info))
                },
                NativeConnectEvent::Disconnected => {
                    if self.cancellation_requested {
                        OperationOutcome::Cancelled
                    } else {
                        if status != 0 {
                            self.last_disconnect_status = Some(status);
                        }
                        OperationOutcome::Continue
                    }
                },
                NativeConnectEvent::Failed => OperationOutcome::Failed(status),
            },
            OperationKind::Disconnect => match classify_native_connect_event(kind) {
                NativeConnectEvent::Disconnected => if self.cancellation_requested {
                    OperationOutcome::Cancelled
                } else {
                    OperationOutcome::Complete(IncrementalCompletion::Disconnected)
                },
                NativeConnectEvent::Failed => OperationOutcome::Failed(status),
                NativeConnectEvent::Progress
                | NativeConnectEvent::Authorized => OperationOutcome::Continue,
            },
        }
    }
}

/// Once cancellation was requested, no event completes a connection: a late
/// authorization is passed over, and the disconnect that follows ends the
/// operation as cancelled.
pub proof fn law_cancellation_suppresses_completion(
    active: ActiveOperation,
    kind: u8,
    status: i32,
)
    requires
        active.cancellation_requested,
    ensures
        !(active.observed(kind, status).1 is Complete),
        active.kind is Connect && crate::hisi_rf_backend::native_event(kind) is Disconnected ==> active.observed(
            kind,
            status,
        ).1 is Cancelled,
{
}

/// A reconnect for a first-EAPOL stall is submitted at most once per operation,
/// and never before the stall was seen a full delay earlier.
pub proof fn law_first_eapol_reconnect_is_delayed_and_unique(
    active: ActiveOperation,
    recovery: u32,
    now_us: u64,
    later_word: u32,
    later_us: u64,
)
    ensures
        ({
            let (after, submit) = active.first_eapol_checked(recovery, now_us);
            &&& submit ==> active.first_eapol_stalled(recovery) && !after.first_eapol_checked(
                later_word,
                later_us,
            ).1
            &&& active.first_eapol_reconnect_deadline_us is None && submit ==> now_us == u64::MAX
            &&& !submit && after.first_eapol_reconnect_deadline_us is Some
                && active.first_eapol_reconnect_deadline_us is None
                ==> after.first_eapol_reconnect_deadline_us == Some(
                held(now_us + FIRST_EAPOL_RECONNECT_DELAY_US),
            )
        }),
{
}

/// A reconnect for an external-authentication stall is submitted at most once
/// per operation, only while the stall persists, and a retry that moves again
/// restarts the delay.
pub proof fn law_external_auth_reconnect_needs_a_persistent_stall(
    active: ActiveOperation,
    stalled: bool,
    now_us: u64,
    later_stalled: bool,
    later_us: u64,
)
    ensures
        ({
            let (after, submit) = active.external_auth_checked(stalled, now_us);
            &&& submit ==> stalled && !after.external_auth_checked(later_stalled, later_us).1
            &&& !stalled && active.kind is Connect && !active.cancellation_requested
                && !active.external_auth_reconnect_submitted
                ==> after.external_auth_reconnect_deadline_us is None
        }),
{
}

/// No deadline of an operation lies after the end of the operation.
pub proof fn law_wake_is_never_after_the_operation_deadline(active: ActiveOperation)
    ensures
        active.due_us() <= active.deadline_us,
{
}

/// What the native supplicant reports after one bounded poll.
#[derive(Clone, Copy, Debug, PartialEq, Eq, Structural)]
pub struct PollResult {
    pub work_completed: u32,
    pub output_pending: u32,
    /// Next supplicant timer in milliseconds; the largest value means none.
    pub next_deadline_ms: u64,
}

/// One vendor call that a poll asks for.
#[derive(Debug)]
pub enum PollAction {
    ReadClock,
    CancelScan,
    StartScan,
    Configure(StationConfig),
    Connect,
    Disconnect,
    /// Advance the supplicant by at most this many events.
    PollSupplicant(u32),
    NextEvent,
    PollScan,
    ReadScanCachePending,
    ReadScanResult(usize),
    ReadRecoveryWord,
    ReadExternalAuthStalled,
    ReadContextWord,
    ReadDriverWord,
    ReadMatchWord,
    ReadInputPending,
    /// The poll is over.
    Finish(Result<WorkReport, BackendError>),
}

/// The reply to a [`PollAction`].
#[derive(Clone, Copy, Debug)]
pub enum PortReply {
    Done,
    Submitted(Result<(), BackendError>),
    Clock(u64),
    Polled(Result<PollResult, BackendError>),
    Event(Result<Option<NativeEvent>, BackendError>),
    ScanTotal(Result<Option<usize>, BackendError>),
    ScanEntry(Option<ScanResult>),
    Flag(bool),
    Word(u32),
}

/// Which reply a poll waits for.
#[derive(Clone, Copy, Debug)]
pub enum PollPhase {
    /// Waiting for the time at which the poll starts.
    Starting,
    CancellingScan,
    CancellingConnect,
    Configuring,
    Submitting,
    /// Waiting for the time at which a single vendor step ended.
    Stepping(u16, PollDisposition),
    /// Waiting for a scan to be cancelled before this failure is reported.
    Clearing(BackendError),
    Polling,
    Draining,
    Observing(NativeEvent),
    ScanPolling,
    CacheChecking,
    Copying,
    Settling,
    Reconnecting,
    RecoveryReading,
    StallReading(u32),
    Deciding(u32, bool),
    Dropping(bool, bool),
    Finishing,
    LatePolling,
    LateTiming(usize),
    LateCacheChecking,
    FinalCacheChecking,
    ContextReading(BackendError),
    DriverReading(BackendError),
    MatchReading(BackendError),
    InputReading,
    Over,
}

/// One poll of the active operation.
#[derive(Clone, Copy, Debug)]
pub struct PollTurn {
    pub id: OperationId,
    pub budget: WorkBudget,
    pub started_us: u64,
    pub finished_us: u64,
    pub consumed: u16,
    pub made_progress: bool,
    pub outcome: OperationOutcome,
    pub output_pending: bool,
    pub next_deadline_ms: u64,
    pub completion_observed: bool,
    pub scan_work_pending: bool,
    pub phase: PollPhase,
}

/// A poll that has not asked for anything yet.
pub open spec fn fresh_turn(id: OperationId, budget: WorkBudget) -> PollTurn {
    PollTurn {
        id,
        budget,
        started_us: 0,
        finished_us: 0,
        consumed: 0,
        made_progress: false,
        outcome: OperationOutcome::Continue,
        output_pending: false,
        next_deadline_ms: u64::MAX,
        completion_observed: false,
        scan_work_pending: false,
        phase: PollPhase::Starting,
    }
}

/// The bounded operation state behind one initialized supplicant.
#[derive(Debug)]
pub struct IncrementalSupplicant {
    pub active: Option<ActiveOperation>,
    pub first_eapol_reconnects: u32,
    pub external_auth_reconnects: u32,
}

/// Time that passed between two readings of a wrapping clock.
pub open spec fn elapsed_us(from_us: u64, to_us: u64) -> int {
    (to_us - from_us) % 0x1_0000_0000_0000_0000
}

/// The supplicant's next timer in microseconds, if it has one.
pub open spec fn timer_due(next_deadline_ms: u64) -> Option<u64> {
    if next_deadline_ms == u64::MAX {
        None
    } else {
        Some(held(1000 * next_deadline_ms))
    }
}

/// A counter that wraps around.
pub open spec fn counted(counter: u32, event: bool) -> u32 {
    if event {
        if counter == u32::MAX {
            0
        } else {
            (counter + 1) as u32
        }
    } else {
        counter
    }
}

/// The state that a poll works on: the operation, the poll itself, and the scan
/// results in the caller's buffer.
pub struct PollState {
    pub core: IncrementalSupplicant,
    pub turn: PollTurn,
    pub output: Seq<ScanResult>,
}

impl PollState {
    pub open spec fn op(self) -> ActiveOperation {
        self.core.active.unwrap()
    }

    pub open spec fn with_op(self, op: ActiveOperation) -> PollState {
        PollState { core: IncrementalSupplicant { active: Some(op), ..self.core }, ..self }
    }

    pub open spec fn without_op(self) -> PollState {
        PollState { core: IncrementalSupplicant { active: None, ..self.core }, ..self }
    }

    pub open spec fn progressed(self) -> PollState {
        PollState { turn: PollTurn { made_progress: true, ..self.turn }, ..self }
    }

    pub open spec fn resulting(self, outcome: OperationOutcome) -> PollState {
        PollState { turn: PollTurn { outcome, ..self.turn }, ..self }
    }

    pub open spec fn is_scan(self) -> bool {
        self.op().kind is Scan
    }

    pub open spec fn continuing(self) -> bool {
        self.turn.outcome is Continue
    }

    /// The whole event grant is used.
    pub open spec fn spent(self) -> bool {
        self.turn.consumed == self.turn.budget.max_events
    }

    /// Ask for `action` and wait for its reply in `phase`.
    pub open spec fn ask(self, phase: PollPhase, action: PollAction) -> (PollState, PollAction) {
        (PollState { turn: PollTurn { phase, ..self.turn }, ..self }, action)
    }

    pub open spec fn finish(self, result: Result<WorkReport, BackendError>) -> (
        PollState,
        PollAction,
    ) {
        self.ask(PollPhase::Over, PollAction::Finish(result))
    }

    /// Give the operation up with `error`; a scan is cancelled first.
    #[verifier::opaque]
    pub open spec fn clear(self, error: BackendError) -> (PollState, PollAction) {
        if self.core.active matches Some(op) && op.kind is Scan {
            self.ask(PollPhase::Clearing(error), PollAction::CancelScan)
        } else {
            self.without_op().finish(Err(error))
        }
    }

    /// A single vendor step was taken; its time decides how it is reported.
    pub open spec fn stepped(self, consumed: u16, disposition: PollDisposition) -> (
        PollState,
        PollAction,
    ) {
        self.ask(PollPhase::Stepping(consumed, disposition), PollAction::ReadClock)
    }

    /// Report a single vendor step that ended at `now_us`.
    pub open spec fn step_timed(
        self,
        consumed: u16,
        disposition: PollDisposition,
        now_us: u64,
    ) -> (PollState, PollAction) {
        let elapsed = elapsed_us(self.turn.started_us, now_us);
        let shown = match disposition {
            PollDisposition::Pending(wait) => if elapsed >= self.turn.budget.max_time_us {
                PollDisposition::BudgetExhausted(wait)
            } else {
                disposition
            },
            _ => disposition,
        };
        if elapsed > u32::MAX {
            self.clear(contract_failure(ERROR_WORK_BUDGET))
        } else {
            self.finish(
                Ok(
                    WorkReport {
                        operation: self.turn.id,
                        consumed_events: consumed,
                        elapsed_us: elapsed as u32,
                        time_budget_exhausted: elapsed >= self.turn.budget.max_time_us,
                        made_progress: true,
                        disposition: shown,
                    },
                ),
            )
        }
    }

    /// Submit what the operation still owes, or advance the supplicant.
    pub open spec fn start_or_poll(self) -> (PollState, PollAction) {
        let ready = self.with_op(
            ActiveOperation { start_phase: StartPhase::Ready, ..self.op() },
        );
        match self.op().start_phase {
            StartPhase::Ready => self.ask(
                PollPhase::Polling,
                PollAction::PollSupplicant(self.turn.budget.max_events as u32),
            ),
            StartPhase::Scan => ready.ask(PollPhase::Submitting, PollAction::StartScan),
            StartPhase::ConnectConfigure(config) => ready.ask(
                PollPhase::Configuring,
                PollAction::Configure(config),
            ),
            StartPhase::ConnectSubmit => ready.ask(PollPhase::Submitting, PollAction::Connect),
            StartPhase::Disconnect => ready.ask(PollPhase::Submitting, PollAction::Disconnect),
        }
    }

    /// The poll started at `now_us`: decide between a stale identity, an
    /// acknowledgement, a cancellation and ordinary work.
    pub open spec fn started(self, now_us: u64) -> (PollState, PollAction) {
        let begun = PollState { turn: PollTurn { started_us: now_us, ..self.turn }, ..self };
        match self.core.active {
            None => begun.finish(Err(contract_failure(ERROR_STALE_OPERATION))),
            Some(op) => if op.id != self.turn.id {
                begun.finish(Err(contract_failure(ERROR_STALE_OPERATION)))
            } else if op.kind is Initialize {
                begun.without_op().finish(
                    Ok(
                        WorkReport {
                            operation: self.turn.id,
                            consumed_events: 0,
                            elapsed_us: 0,
                            time_budget_exhausted: self.turn.budget.max_time_us == 0,
                            made_progress: true,
                            disposition: if op.cancellation_requested {
                                PollDisposition::Cancelled
                            } else {
                                PollDisposition::Complete(IncrementalCompletion::Initialized)
                            },
                        },
                    ),
                )
            } else if op.cancellation_requested && !(op.start_phase is Ready) {
                begun.without_op().stepped(0, PollDisposition::Cancelled)
            } else if op.cancellation_requested && !op.cancellation_action_submitted {
                match op.kind {
                    OperationKind::Scan => begun.ask(
                        PollPhase::CancellingScan,
                        PollAction::CancelScan,
                    ),
                    OperationKind::Connect(_) => begun.ask(
                        PollPhase::CancellingConnect,
                        PollAction::Disconnect,
                    ),
                    _ => begun.without_op().stepped(1, PollDisposition::Cancelled),
                }
            } else {
                begun.start_or_poll()
            },
        }
    }

    /// Take the next supplicant event while there is one and the grant lasts.
    #[verifier::opaque]
    pub open spec fn drain(self) -> (PollState, PollAction) {
        if self.turn.output_pending && !self.spent() {
            self.ask(PollPhase::Draining, PollAction::NextEvent)
        } else {
            self.events_taken()
        }
    }

    pub open spec fn polled(self, result: PollResult) -> (PollState, PollAction) {
        if result.work_completed > self.turn.budget.max_events {
            self.clear(contract_failure(ERROR_WORK_BUDGET))
        } else {
            (PollState {
                turn: PollTurn {
                    consumed: result.work_completed as u16,
                    made_progress: result.work_completed != 0,
                    outcome: OperationOutcome::Continue,
                    output_pending: result.output_pending != 0,
                    next_deadline_ms: result.next_deadline_ms,
                    ..self.turn
                },
                ..self
            }).drain()
        }
    }

    /// One event is charged, and looked at together with the time.
    pub open spec fn event_taken(self, event: NativeEvent) -> (PollState, PollAction) {
        (PollState {
            turn: PollTurn {
                consumed: (self.turn.consumed + 1) as u16,
                made_progress: true,
                ..self.turn
            },
            ..self
        }).ask(PollPhase::Observing(event), PollAction::ReadClock)
    }

    pub open spec fn event_observed(self, event: NativeEvent, now_us: u64) -> (
        PollState,
        PollAction,
    ) {
        let (seen, outcome) = self.op().observed(event.kind, event.status);
        let after = self.with_op(seen.reconnect_observed(event.kind, now_us)).resulting(outcome);
        if outcome is Continue {
            after.drain()
        } else {
            after.events_taken()
        }
    }

    #[verifier::opaque]
    pub open spec fn events_taken(self) -> (PollState, PollAction) {
        if self.is_scan() && self.continuing() {
            self.ask(PollPhase::ScanPolling, PollAction::PollScan)
        } else {
            self.scan_advanced()
        }
    }

    pub open spec fn with_total(self, total: Option<usize>) -> PollState {
        if total is Some {
            self.with_op(ActiveOperation { scan_total: total, ..self.op() })
        } else {
            self
        }
    }

    /// Results can be copied once the native cache has drained.
    pub open spec fn cache_checked(self, pending: bool) -> (PollState, PollAction) {
        if pending {
            self.scan_advanced()
        } else if self.op().cancellation_requested {
            self.progressed().resulting(OperationOutcome::Cancelled).results_copied()
        } else {
            self.copy_next()
        }
    }

    /// Ask for the next result while there is one and the grant lasts.
    #[verifier::opaque]
    pub open spec fn copy_next(self) -> (PollState, PollAction) {
        match self.op().scan_total {
            Some(total) => if self.op().scan_seen < total && !self.spent() {
                self.ask(PollPhase::Copying, PollAction::ReadScanResult(self.op().scan_seen))
            } else {
                self.results_copied()
            },
            None => self.results_copied(),
        }
    }

    /// Charge one result; keep it when it is valid and the buffer has room.
    pub open spec fn result_copied(self, result: Option<ScanResult>) -> (PollState, PollAction) {
        let op = self.op();
        let charged = (PollState {
            turn: PollTurn {
                consumed: (self.turn.consumed + 1) as u16,
                made_progress: true,
                ..self.turn
            },
            ..self
        });
        let counted_op = ActiveOperation { scan_seen: (op.scan_seen + 1) as usize, ..op };
        if result is Some && op.scan_written < self.output.len() {
            (PollState {
                output: self.output.update(op.scan_written as int, result.unwrap()),
                ..charged
            }).with_op(
                ActiveOperation { scan_written: (op.scan_written + 1) as usize, ..counted_op },
            ).copy_next()
        } else {
            charged.with_op(ActiveOperation { scan_truncated: true, ..counted_op }).copy_next()
        }
    }

    /// A scan is complete when every result was looked at.
    #[verifier::opaque]
    pub open spec fn results_copied(self) -> (PollState, PollAction) {
        let op = self.op();
        if op.scan_total == Some(op.scan_seen) {
            self.progressed().resulting(
                OperationOutcome::Complete(
                    IncrementalCompletion::Scan(
                        ScanOutcome {
                            count: op.scan_written,
                            truncated: op.scan_truncated || op.scan_written < op.scan_seen,
                        },
                    ),
                ),
            ).scan_advanced()
        } else {
            self.scan_advanced()
        }
    }

    #[verifier::opaque]
    pub open spec fn scan_advanced(self) -> (PollState, PollAction) {
        if self.continuing() {
            self.ask(PollPhase::Settling, PollAction::ReadClock)
        } else {
            self.ask(PollPhase::Finishing, PollAction::ReadClock)
        }
    }

    /// Resubmit a connection whose settling time is over.
    pub open spec fn settled(self, now_us: u64) -> (PollState, PollAction) {
        if self.op().reconnect_settled(now_us) {
            self.with_op(
                ActiveOperation { reconnect_submit_deadline_us: None, ..self.op() },
            ).ask(PollPhase::Reconnecting, PollAction::Connect)
        } else {
            self.ask(PollPhase::RecoveryReading, PollAction::ReadRecoveryWord)
        }
    }

    /// Drop a stalled connection whose delay is over.
    pub open spec fn decided(self, recovery: u32, stalled: bool, now_us: u64) -> (
        PollState,
        PollAction,
    ) {
        let (first_op, first) = self.op().first_eapol_checked(recovery, now_us);
        let (both_op, external) = first_op.external_auth_checked(stalled, now_us);
        let after = self.with_op(both_op);
        if first || external {
            after.ask(PollPhase::Dropping(first, external), PollAction::Disconnect)
        } else {
            after.ask(PollPhase::Finishing, PollAction::ReadClock)
        }
    }

    pub open spec fn dropped(self, first: bool, external: bool) -> (PollState, PollAction) {
        let after = self.with_op(
            ActiveOperation { reconnect_after_disconnect: true, ..self.op() },
        ).progressed();
        (PollState {
            core: IncrementalSupplicant {
                first_eapol_reconnects: counted(self.core.first_eapol_reconnects, first),
                external_auth_reconnects: counted(self.core.external_auth_reconnects, external),
                ..after.core
            },
            ..after
        }).ask(PollPhase::Finishing, PollAction::ReadClock)
    }

    /// The work of the poll ended at `now_us`. A scan that has reached its
    /// deadline is asked once more whether it completed.
    pub open spec fn ended(self, now_us: u64) -> (PollState, PollAction) {
        let timed = PollState { turn: PollTurn { finished_us: now_us, ..self.turn }, ..self };
        if self.is_scan() && self.continuing() && now_us >= self.op().deadline_us
            && self.op().scan_total is None {
            timed.ask(PollPhase::LatePolling, PollAction::PollScan)
        } else {
            timed.measured()
        }
    }

    pub open spec fn late_polled(self, total: Option<usize>) -> (PollState, PollAction) {
        match total {
            Some(count) => self.with_total(total).progressed().ask(
                PollPhase::LateTiming(count),
                PollAction::ReadClock,
            ),
            None => self.measured(),
        }
    }

    pub open spec fn late_timed(self, total: usize, now_us: u64) -> (PollState, PollAction) {
        let timed = PollState { turn: PollTurn { finished_us: now_us, ..self.turn }, ..self };
        if total == 0 {
            timed.ask(PollPhase::LateCacheChecking, PollAction::ReadScanCachePending)
        } else {
            timed.measured()
        }
    }

    pub open spec fn late_cache_checked(self, pending: bool) -> (PollState, PollAction) {
        if pending {
            self.measured()
        } else {
            self.resulting(
                OperationOutcome::Complete(
                    IncrementalCompletion::Scan(ScanOutcome { count: 0, truncated: false }),
                ),
            ).measured()
        }
    }

    pub open spec fn elapsed(self) -> int {
        elapsed_us(self.turn.started_us, self.turn.finished_us)
    }

    #[verifier::opaque]
    pub open spec fn measured(self) -> (PollState, PollAction) {
        if self.elapsed() > u32::MAX {
            self.clear(contract_failure(ERROR_WORK_BUDGET))
        } else if self.is_scan() {
            self.ask(PollPhase::FinalCacheChecking, PollAction::ReadScanCachePending)
        } else {
            self.deadline_checked(false, false)
        }
    }

    pub open spec fn final_cache_checked(self, pending: bool) -> (PollState, PollAction) {
        let op = self.op();
        self.deadline_checked(
            op.scan_total is Some,
            pending || (op.scan_total matches Some(total) && op.scan_seen < total),
        )
    }

    /// An operation past its deadline times out, unless it is a scan whose
    /// completion was observed and whose results are still being collected.
    #[verifier::opaque]
    pub open spec fn deadline_checked(self, observed: bool, pending: bool) -> (
        PollState,
        PollAction,
    ) {
        let op = ActiveOperation {
            backend_deadline_us: timer_due(self.turn.next_deadline_ms),
            ..self.op()
        };
        let after = (PollState {
            turn: PollTurn {
                completion_observed: observed,
                scan_work_pending: pending,
                ..self.turn
            },
            ..self
        }).with_op(op);
        if self.turn.finished_us >= op.deadline_us && self.continuing() && !(observed && pending) {
            after.ask(
                PollPhase::ContextReading(operation_timeout(op)),
                PollAction::ReadContextWord,
            )
        } else {
            after.ask(PollPhase::InputReading, PollAction::ReadInputPending)
        }
    }

    /// The sources that end the wait after this poll. Work that is already owned
    /// is level-ready: no further edge announces it.
    pub open spec fn wait(self, input_pending: bool) -> WaitSet {
        if self.turn.made_progress && (self.turn.scan_work_pending || input_pending || (
        self.turn.output_pending && self.spent())) {
            crate::radio::no_sources()
        } else {
            crate::radio::backend_or_timer()
        }
    }

    pub open spec fn report(self, disposition: PollDisposition) -> WorkReport {
        WorkReport {
            operation: self.turn.id,
            consumed_events: self.turn.consumed,
            elapsed_us: self.elapsed() as u32,
            time_budget_exhausted: self.elapsed() >= self.turn.budget.max_time_us,
            made_progress: self.turn.made_progress,
            disposition,
        }
    }

    pub open spec fn conclude(self, input_pending: bool) -> (PollState, PollAction) {
        match self.turn.outcome {
            OperationOutcome::Complete(completion) => self.without_op().finish(
                Ok(self.report(PollDisposition::Complete(completion))),
            ),
            OperationOutcome::Cancelled => self.without_op().finish(
                Ok(self.report(PollDisposition::Cancelled)),
            ),
            OperationOutcome::Failed(status) => self.clear(
                crate::hisi_rf_backend::staged(
                    BackendErrorClass::Connect,
                    status as u32,
                    DiagnosticStage::Connect,
                ).traced(DiagnosticTraceKind::VendorStatus, status as u32),
            ),
            OperationOutcome::Continue => self.finish(
                Ok(
                    self.report(
                        if self.spent() || self.elapsed() >= self.turn.budget.max_time_us {
                            PollDisposition::BudgetExhausted(self.wait(input_pending))
                        } else {
                            PollDisposition::Pending(self.wait(input_pending))
                        },
                    ),
                ),
            ),
        }
    }

    /// The state and the request that follow `reply`.
    pub open spec fn next(self, reply: PortReply) -> (PollState, PollAction) {
        match (self.turn.phase, reply) {
            (PollPhase::Starting, PortReply::Clock(now_us)) => self.started(now_us),
            (PollPhase::CancellingScan, PortReply::Done) => self.without_op().stepped(
                1,
                PollDisposition::Cancelled,
            ),
            (PollPhase::CancellingConnect, PortReply::Submitted(Ok(_))) => self.with_op(
                ActiveOperation { cancellation_action_submitted: true, ..self.op() },
            ).stepped(1, PollDisposition::Pending(crate::radio::backend_or_timer())),
            (PollPhase::CancellingConnect, PortReply::Submitted(Err(error))) => self.finish(
                Err(error),
            ),
            (PollPhase::Configuring, PortReply::Submitted(Ok(_))) => self.with_op(
                ActiveOperation { start_phase: StartPhase::ConnectSubmit, ..self.op() },
            ).stepped(1, PollDisposition::Pending(crate::radio::no_sources())),
            (PollPhase::Configuring, PortReply::Submitted(Err(error))) => self.finish(Err(error)),
            (PollPhase::Submitting, PortReply::Submitted(Ok(_))) => self.stepped(
                1,
                PollDisposition::Pending(crate::radio::backend_or_timer()),
            ),
            (PollPhase::Submitting, PortReply::Submitted(Err(error))) => self.finish(Err(error)),
            (PollPhase::Stepping(consumed, disposition), PortReply::Clock(now_us)) =>
            self.step_timed(consumed, disposition, now_us),
            (PollPhase::Clearing(error), PortReply::Done) => self.without_op().finish(Err(error)),
            (PollPhase::Polling, PortReply::Polled(Ok(result))) => self.polled(result),
            (PollPhase::Polling, PortReply::Polled(Err(error))) => self.clear(error),
            (PollPhase::Draining, PortReply::Event(Ok(Some(event)))) => self.event_taken(event),
            (PollPhase::Draining, PortReply::Event(Ok(None))) => self.events_taken(),
            (PollPhase::Draining, PortReply::Event(Err(error))) => self.clear(error),
            (PollPhase::Observing(event), PortReply::Clock(now_us)) => self.event_observed(
                event,
                now_us,
            ),
            (PollPhase::ScanPolling, PortReply::ScanTotal(Ok(total))) => self.with_total(total).ask(
                PollPhase::CacheChecking,
                PollAction::ReadScanCachePending,
            ),
            (PollPhase::ScanPolling, PortReply::ScanTotal(Err(error))) => self.clear(error),
            (PollPhase::CacheChecking, PortReply::Flag(pending)) => self.cache_checked(pending),
            (PollPhase::Copying, PortReply::ScanEntry(result)) => self.result_copied(result),
            (PollPhase::Settling, PortReply::Clock(now_us)) => self.settled(now_us),
            (PollPhase::Reconnecting, PortReply::Submitted(Ok(_))) => self.progressed().ask(
                PollPhase::RecoveryReading,
                PollAction::ReadRecoveryWord,
            ),
            (PollPhase::Reconnecting, PortReply::Submitted(Err(error))) => self.clear(error),
            (PollPhase::RecoveryReading, PortReply::Word(word)) => self.ask(
                PollPhase::StallReading(word),
                PollAction::ReadExternalAuthStalled,
            ),
            (PollPhase::StallReading(word), PortReply::Flag(stalled)) => self.ask(
                PollPhase::Deciding(word, stalled),
                PollAction::ReadClock,
            ),
            (PollPhase::Deciding(word, stalled), PortReply::Clock(now_us)) => self.decided(
                word,
                stalled,
                now_us,
            ),
            (PollPhase::Dropping(first, external), PortReply::Submitted(Ok(_))) => self.dropped(
                first,
                external,
            ),
            (PollPhase::Dropping(_, _), PortReply::Submitted(Err(error))) => self.clear(error),
            (PollPhase::Finishing, PortReply::Clock(now_us)) => self.ended(now_us),
            (PollPhase::LatePolling, PortReply::ScanTotal(Ok(total))) => self.late_polled(total),
            (PollPhase::LatePolling, PortReply::ScanTotal(Err(error))) => self.clear(error),
            (PollPhase::LateTiming(total), PortReply::Clock(now_us)) => self.late_timed(
                total,
                now_us,
            ),
            (PollPhase::LateCacheChecking, PortReply::Flag(pending)) => self.late_cache_checked(
                pending,
            ),
            (PollPhase::FinalCacheChecking, PortReply::Flag(pending)) => self.final_cache_checked(
                pending,
            ),
            (PollPhase::ContextReading(error), PortReply::Word(word)) => self.ask(
                PollPhase::DriverReading(
                    error.traced(DiagnosticTraceKind::SupplicantContext, word),
                ),
                PollAction::ReadDriverWord,
            ),
            (PollPhase::DriverReading(error), PortReply::Word(word)) => self.ask(
                PollPhase::MatchReading(error.traced(DiagnosticTraceKind::DriverContext, word)),
                PollAction::ReadMatchWord,
            ),
            (PollPhase::MatchReading(error), PortReply::Word(word)) => self.clear(
                error.traced(DiagnosticTraceKind::BackendStatus, word),
            ),
            (PollPhase::InputReading, PortReply::Flag(pending)) => self.conclude(pending),
            _ => self.finish(Err(contract_failure(ERROR_STALE_OPERATION))),
        }
    }
}

impl PollTurn {
    /// `reply` answers what the poll last asked for.
    pub open spec fn awaits(self, reply: PortReply) -> bool {
        match self.phase {
            PollPhase::Starting => reply is Clock,
            PollPhase::CancellingScan => reply is Done,
            PollPhase::CancellingConnect => reply is Submitted,
            PollPhase::Configuring => reply is Submitted,
            PollPhase::Submitting => reply is Submitted,
            PollPhase::Stepping(_, _) => reply is Clock,
            PollPhase::Clearing(_) => reply is Done,
            PollPhase::Polling => reply is Polled,
            PollPhase::Draining => reply is Event,
            PollPhase::Observing(_) => reply is Clock,
            PollPhase::ScanPolling => reply is ScanTotal,
            PollPhase::CacheChecking => reply is Flag,
            PollPhase::Copying => reply is ScanEntry,
            PollPhase::Settling => reply is Clock,
            PollPhase::Reconnecting => reply is Submitted,
            PollPhase::RecoveryReading => reply is Word,
            PollPhase::StallReading(_) => reply is Flag,
            PollPhase::Deciding(_, _) => reply is Clock,
            PollPhase::Dropping(_, _) => reply is Submitted,
            PollPhase::Finishing => reply is Clock,
            PollPhase::LatePolling => reply is ScanTotal,
            PollPhase::LateTiming(_) => reply is Clock,
            PollPhase::LateCacheChecking => reply is Flag,
            PollPhase::FinalCacheChecking => reply is Flag,
            PollPhase::ContextReading(_) => reply is Word,
            PollPhase::DriverReading(_) => reply is Word,
            PollPhase::MatchReading(_) => reply is Word,
            PollPhase::InputReading => reply is Flag,
            PollPhase::Over => false,
        }
    }

    /// In this phase the poll works on an operation of its own.
    pub open spec fn working(self) -> bool {
        !(self.phase is Starting || self.phase is Stepping || self.phase is Clearing
            || self.phase is Over)
    }
}

impl PollState {
    /// What holds between two vendor calls: the grant is not empty and never
    /// overdrawn, and the poll works on the operation that it was asked for.
    pub open spec fn inv(self) -> bool {
        &&& self.turn.budget.wf()
        &&& self.turn.consumed <= self.turn.budget.max_events
        &&& self.turn.working() ==> self.core.active is Some && self.op().id == self.turn.id
            && !(self.op().kind is Initialize)
        &&& self.turn.phase is Clearing ==> self.core.active is Some && self.op().kind is Scan
        &&& self.core.active is Some ==> self.op().scan_written <= self.op().scan_seen
        &&& self.turn.phase is CancellingConnect ==> self.op().kind is Connect
        &&& self.turn.phase is Configuring ==> self.op().start_phase is Ready
        &&& self.turn.phase is Draining ==> !self.spent() && self.continuing()
        &&& self.turn.phase is Observing ==> self.continuing()
        &&& self.turn.phase is ScanPolling ==> self.is_scan() && self.continuing()
        &&& self.turn.phase is CacheChecking ==> self.is_scan() && self.continuing()
        &&& self.turn.phase is Copying ==> {
            &&& self.is_scan()
            &&& self.continuing()
            &&& !self.spent()
            &&& self.op().scan_total matches Some(total) && self.op().scan_seen < total
        }
        &&& self.turn.phase is FinalCacheChecking ==> self.elapsed() <= u32::MAX
        &&& self.turn.phase is InputReading ==> self.elapsed() <= u32::MAX
        &&& self.turn.phase matches PollPhase::Stepping(consumed, disposition) ==> {
            &&& consumed <= 1
            &&& disposition is Pending || disposition is Cancelled
            &&& disposition is Pending <==> self.core.active is Some
            &&& self.core.active is Some ==> self.op().id == self.turn.id
        }
    }
}

impl IncrementalSupplicant {
    /// The state before any operation was started.
    pub fn new() -> (core: Self)
        ensures
            core.active is None,
            core.first_eapol_reconnects == 0,
            core.external_auth_reconnects == 0,
    {
        IncrementalSupplicant {
            active: None,
            first_eapol_reconnects: 0,
            external_auth_reconnects: 0,
        }
    }

    /// Accept one operation; a second one is refused while the first is active.
    pub fn start(&mut self, id: OperationId, request: IncrementalRequest, now_us: u64) -> (result:
        Result<(), BackendError>)
        ensures
            old(self).active is Some ==> *final(self) == *old(self) && result == Err::<
                (),
                BackendError,
            >(crate::hisi_rf_backend::staged(BackendErrorClass::Busy, 1, DiagnosticStage::ControlPlane)),
            old(self).active is None ==> result is Ok && *final(self) == (IncrementalSupplicant {
                active: Some(requested(id, request, now_us)),
                ..*old(self)
            }),
    {
        if self.active.is_some() {
            return Err(
                staged_error(BackendErrorClass::Busy, 1, DiagnosticStage::ControlPlane),
            );
        }
        self.active = Some(ActiveOperation::from_request(id, request, now_us));
        Ok(())
    }

    /// `id` names the active operation.
    pub open spec fn owns(self, id: OperationId) -> bool {
        self.active matches Some(op) && op.id == id
    }

    /// Record a cancellation without any vendor work.
    pub fn cancel(&mut self, id: OperationId) -> (result: Result<(), BackendError>)
        ensures
            old(self).owns(id) ==> result == Ok::<(), BackendError>(()) && *final(self) == (
            IncrementalSupplicant {
                active: Some(
                    ActiveOperation { cancellation_requested: true, ..old(self).active.unwrap() },
                ),
                ..*old(self)
            }),
            !old(self).owns(id) ==> *final(self) == *old(self) && result == Err::<
                (),
                BackendError,
            >(contract_failure(ERROR_STALE_OPERATION)),
    {
        match self.active.as_mut() {
            None => Err(operation_error(ERROR_STALE_OPERATION)),
            Some(active) => {
                if same_operation(active.id, id) {
                    active.cancellation_requested = true;
                    Ok(())
                } else {
                    Err(operation_error(ERROR_STALE_OPERATION))
                }
            },
        }
    }

    /// The next deadline of the operation that `id` names.
    pub fn next_deadline_us(&self, id: OperationId) -> (deadline_us: Option<u64>)
        ensures
            deadline_us == (if self.owns(id) {
                Some(self.active.unwrap().due_us())
            } else {
                None
            }),
    {
        match self.active.as_ref() {
            None => None,
            Some(active) => if same_operation(active.id, id) {
                Some(active.next_deadline_us())
            } else {
                None
            },
        }
    }

    /// Counts of reconnects submitted for first-EAPOL and external-auth stalls.
    pub fn reconnect_diagnostic_snapshot(&self) -> (counts: [u32; 2])
        ensures
            counts@ =~= seq![self.first_eapol_reconnects, self.external_auth_reconnects],
    {
        [self.first_eapol_reconnects, self.external_auth_reconnects]
    }

    fn op(&self) -> (active: &ActiveOperation)
        requires
            self.active is Some,
        ensures
            *active == self.active.unwrap(),
    {
        self.active.as_ref().unwrap()
    }

    fn op_mut(&mut self) -> (active: &mut ActiveOperation)
        requires
            old(self).active is Some,
        ensures
            *active == old(self).active.unwrap(),
            *final(self) == (IncrementalSupplicant { active: Some(*final(active)), ..*old(self) }),
    {
        self.active.as_mut().unwrap()
    }
}

/// What a poll works on, seen as one value.
pub open spec fn poll_state(
    core: IncrementalSupplicant,
    turn: PollTurn,
    output: Seq<ScanResult>,
) -> PollState {
    PollState { core, turn, output }
}

fn is_continue(outcome: &OperationOutcome) -> (continuing: bool)
    ensures
        continuing == (*outcome is Continue),
{
    match outcome {
        OperationOutcome::Continue => true,
        _ => false,
    }
}

fn is_scan(kind: &OperationKind) -> (scan: bool)
    ensures
        scan == (*kind is Scan),
{
    match kind {
        OperationKind::Scan => true,
        _ => false,
    }
}

fn timer_due_us(next_deadline_ms: u64) -> (due: Option<u64>)
    ensures
        due == timer_due(next_deadline_ms),
{
    if next_deadline_ms == u64::MAX {
        None
    } else if next_deadline_ms > 18_446_744_073_709_551 {
        Some(u64::MAX)
    } else {
        Some(next_deadline_ms * 1_000)
    }
}

fn count(counter: u32, event: bool) -> (next: u32)
    ensures
        next == counted(counter, event),
{
    if event {
        counter.wrapping_add(1)
    } else {
        counter
    }
}

impl PollTurn {
    /// Start a poll of `id` with this grant; it asks for the time first.
    pub fn new(id: OperationId, budget: WorkBudget) -> (turn: Self)
        ensures
            turn == fresh_turn(id, budget),
    {
        PollTurn {
            id,
            budget,
            started_us: 0,
            finished_us: 0,
            consumed: 0,
            made_progress: false,
            outcome: OperationOutcome::Continue,
            output_pending: false,
            next_deadline_ms: u64::MAX,
            completion_observed: false,
            scan_work_pending: false,
            phase: PollPhase::Starting,
        }
    }

    fn ask(&mut self, phase: PollPhase, action: PollAction) -> (asked: PollAction)
        ensures
            asked == action,
            *final(self) == (PollTurn { phase, ..*old(self) }),
    {
        self.phase = phase;
        action
    }

    fn finish(&mut self, result: Result<WorkReport, BackendError>) -> (asked: PollAction)
        ensures
            asked == PollAction::Finish(result),
            *final(self) == (PollTurn { phase: PollPhase::Over, ..*old(self) }),
    {
        self.phase = PollPhase::Over;
        PollAction::Finish(result)
    }

    fn clear(&mut self, core: &mut IncrementalSupplicant, error: BackendError) -> (asked: PollAction)
        ensures
            forall|output: Seq<ScanResult>|
                (#[trigger] poll_state(*final(core), *final(self), output), asked) == poll_state(
                    *old(core),
                    *old(self),
                    output,
                ).clear(error),
    {
        proof {
            reveal(PollState::clear);
        }
        let scanning = match core.active.as_ref() {
            Some(active) => is_scan(&active.kind),
            None => false,
        };
        if scanning {
            self.ask(PollPhase::Clearing(error), PollAction::CancelScan)
        } else {
            core.active = None;
            self.finish(Err(error))
        }
    }

    fn step_timed(
        &mut self,
        core: &mut IncrementalSupplicant,
        consumed: u16,
        disposition: PollDisposition,
        now_us: u64,
    ) -> (asked: PollAction)
        requires
            old(self).budget.wf(),
            consumed <= 1,
            !(disposition is BudgetExhausted),
        ensures
            forall|output: Seq<ScanResult>|
                (#[trigger] poll_state(*final(core), *final(self), output), asked) == poll_state(
                    *old(core),
                    *old(self),
                    output,
                ).step_timed(consumed, disposition, now_us),
    {
        let elapsed: u64 = now_us.wrapping_sub(self.started_us);
        if elapsed > u32::MAX as u64 {
            return self.clear(core, operation_error(ERROR_WORK_BUDGET));
        }
        let shown = match disposition {
            PollDisposition::Pending(wait) => if elapsed >= self.budget.max_time_us as u64 {
                PollDisposition::BudgetExhausted(wait)
            } else {
                disposition
            },
            _ => disposition,
        };
        match WorkReport::try_new(self.id, self.budget, consumed, elapsed as u32, true, shown) {
            Some(report) => self.finish(Ok(report)),
            None => self.clear(core, operation_error(ERROR_WORK_BUDGET)),
        }
    }

    fn start_or_poll(&mut self, core: &mut IncrementalSupplicant) -> (asked: PollAction)
        requires
            old(core).active is Some,
        ensures
            forall|output: Seq<ScanResult>|
                (#[trigger] poll_state(*final(core), *final(self), output), asked) == poll_state(
                    *old(core),
                    *old(self),
                    output,
                ).start_or_poll(),
    {
        let mut start_phase = StartPhase::Ready;
        {
            let active = core.op_mut();
            std::mem::swap(&mut active.start_phase, &mut start_phase);
        }
        match start_phase {
            StartPhase::Ready => {
                let grant: u32 = self.budget.max_events as u32;
                self.ask(PollPhase::Polling, PollAction::PollSupplicant(grant))
            },
            StartPhase::Scan => self.ask(PollPhase::Submitting, PollAction::StartScan),
            StartPhase::ConnectConfigure(config) => self.ask(
                PollPhase::Configuring,
                PollAction::Configure(config),
            ),
            StartPhase::ConnectSubmit => self.ask(PollPhase::Submitting, PollAction::Connect),
            StartPhase::Disconnect => self.ask(PollPhase::Submitting, PollAction::Disconnect),
        }
    }

    fn started(&mut self, core: &mut IncrementalSupplicant, now_us: u64) -> (asked: PollAction)
        requires
            old(self).budget.wf(),
        ensures
            forall|output: Seq<ScanResult>|
                (#[trigger] poll_state(*final(core), *final(self), output), asked) == poll_state(
                    *old(core),
                    *old(self),
                    output,
                ).started(now_us),
    {
        self.started_us = now_us;
        let (kind, start_pending, cancelling, submitted) = match core.active.as_ref() {
            None => {
                return self.finish(Err(operation_error(ERROR_STALE_OPERATION)));
            },
            Some(active) => {
                if !same_operation(active.id, self.id) {
                    return self.finish(Err(operation_error(ERROR_STALE_OPERATION)));
                }
                let start_pending = match active.start_phase {
                    StartPhase::Ready => false,
                    _ => true,
                };
                (
                    active.kind,
                    start_pending,
                    active.cancellation_requested,
                    active.cancellation_action_submitted,
                )
            },
        };
        let initializing = match kind {
            OperationKind::Initialize => true,
            _ => false,
        };
        if initializing {
            core.active = None;
            let disposition = if cancelling {
                PollDisposition::Cancelled
            } else {
                PollDisposition::Complete(IncrementalCompletion::Initialized)
            };
            let result = match WorkReport::try_new(self.id, self.budget, 0, 0, true, disposition) {
                Some(report) => Ok(report),
                None => Err(operation_error(ERROR_WORK_BUDGET)),
            };
            return self.finish(result);
        }
        if cancelling && start_pending {
            core.active = None;
            return self.ask(
                PollPhase::Stepping(0, PollDisposition::Cancelled),
                PollAction::ReadClock,
            );
        }
        if cancelling && !submitted {
            return match kind {
                OperationKind::Scan => self.ask(
                    PollPhase::CancellingScan,
                    PollAction::CancelScan,
                ),
                OperationKind::Connect(_) => self.ask(
                    PollPhase::CancellingConnect,
                    PollAction::Disconnect,
                ),
                OperationKind::Initialize | OperationKind::Disconnect => {
                    core.active = None;
                    self.ask(
                        PollPhase::Stepping(1, PollDisposition::Cancelled),
                        PollAction::ReadClock,
                    )
                },
            };
        }
        self.start_or_poll(core)
    }

    fn drain(&mut self, core: &IncrementalSupplicant) -> (asked: PollAction)
        requires
            core.active is Some,
            old(self).consumed <= old(self).budget.max_events,
        ensures
            forall|output: Seq<ScanResult>|
                (#[trigger] poll_state(*core, *final(self), output), asked) == poll_state(
                    *core,
                    *old(self),
                    output,
                ).drain(),
    {
        proof {
            reveal(PollState::drain);
        }
        if self.output_pending && self.consumed < self.budget.max_events {
            self.ask(PollPhase::Draining, PollAction::NextEvent)
        } else {
            self.events_taken(core)
        }
    }

    fn events_taken(&mut self, core: &IncrementalSupplicant) -> (asked: PollAction)
        requires
            core.active is Some,
        ensures
            forall|output: Seq<ScanResult>|
                (#[trigger] poll_state(*core, *final(self), output), asked) == poll_state(
                    *core,
                    *old(self),
                    output,
                ).events_taken(),
    {
        proof {
            reveal(PollState::events_taken);
        }
        if is_scan(&core.op().kind) && is_continue(&self.outcome) {
            self.ask(PollPhase::ScanPolling, PollAction::PollScan)
        } else {
            self.scan_advanced()
        }
    }

    fn scan_advanced(&mut self) -> (asked: PollAction)
        ensures
            forall|core: IncrementalSupplicant, output: Seq<ScanResult>|
                (#[trigger] poll_state(core, *final(self), output), asked) == poll_state(
                    core,
                    *old(self),
                    output,
                ).scan_advanced(),
    {
        proof {
            reveal(PollState::scan_advanced);
        }
        if is_continue(&self.outcome) {
            self.ask(PollPhase::Settling, PollAction::ReadClock)
        } else {
            self.ask(PollPhase::Finishing, PollAction::ReadClock)
        }
    }

    fn polled(&mut self, core: &mut IncrementalSupplicant, result: PollResult) -> (asked: PollAction)
        requires
            old(core).active is Some,
        ensures
            forall|output: Seq<ScanResult>|
                (#[trigger] poll_state(*final(core), *final(self), output), asked) == poll_state(
                    *old(core),
                    *old(self),
                    output,
                ).polled(result),
    {
        if result.work_completed > self.budget.max_events as u32 {
            return self.clear(core, operation_error(ERROR_WORK_BUDGET));
        }
        self.consumed = result.work_completed as u16;
        self.made_progress = result.work_completed != 0;
        self.outcome = OperationOutcome::Continue;
        self.output_pending = result.output_pending != 0;
        self.next_deadline_ms = result.next_deadline_ms;
        self.drain(core)
    }

    fn event_observed(
        &mut self,
        core: &mut IncrementalSupplicant,
        event: NativeEvent,
        now_us: u64,
    ) -> (asked: PollAction)
        requires
            old(core).active is Some,
            old(self).consumed <= old(self).budget.max_events,
        ensures
            forall|output: Seq<ScanResult>|
                (#[trigger] poll_state(*final(core), *final(self), output), asked) == poll_state(
                    *old(core),
                    *old(self),
                    output,
                ).event_observed(event, now_us),
    {
        {
            let active = core.op_mut();
            self.outcome = active.observe(event.kind, event.status);
            active.observe_reconnect_disconnect(event.kind, now_us);
        }
        if is_continue(&self.outcome) {
            self.drain(core)
        } else {
            self.events_taken(core)
        }
    }

    fn results_copied(&mut self, core: &IncrementalSupplicant) -> (asked: PollAction)
        requires
            core.active is Some,
        ensures
            forall|output: Seq<ScanResult>|
                (#[trigger] poll_state(*core, *final(self), output), asked) == poll_state(
                    *core,
                    *old(self),
                    output,
                ).results_copied(),
    {
        proof {
            reveal(PollState::results_copied);
        }
        let active = core.op();
        if let Some(total) = active.scan_total {
            if active.scan_seen == total {
                self.made_progress = true;
                self.outcome =
                OperationOutcome::Complete(
                    IncrementalCompletion::Scan(
                        ScanOutcome {
                            count: active.scan_written,
                            truncated: active.scan_truncated || active.scan_written < total,
                        },
                    ),
                );
            }
        }
        self.scan_advanced()
    }

    fn copy_next(&mut self, core: &IncrementalSupplicant) -> (asked: PollAction)
        requires
            core.active is Some,
        ensures
            forall|output: Seq<ScanResult>|
                (#[trigger] poll_state(*core, *final(self), output), asked) == poll_state(
                    *core,
                    *old(self),
                    output,
                ).copy_next(),
    {
        proof {
            reveal(PollState::copy_next);
        }
        let active = core.op();
        match active.scan_total {
            Some(total) => {
                if active.scan_seen < total && self.consumed != self.budget.max_events {
                    let index: usize = active.scan_seen;
                    self.ask(PollPhase::Copying, PollAction::ReadScanResult(index))
                } else {
                    self.results_copied(core)
                }
            },
            None => self.results_copied(core),
        }
    }

    fn cache_checked(&mut self, core: &IncrementalSupplicant, pending: bool) -> (asked: PollAction)
        requires
            core.active is Some,
        ensures
            forall|output: Seq<ScanResult>|
                (#[trigger] poll_state(*core, *final(self), output), asked) == poll_state(
                    *core,
                    *old(self),
                    output,
                ).cache_checked(pending),
    {
        if pending {
            self.scan_advanced()
        } else if core.op().cancellation_requested {
            self.made_progress = true;
            self.outcome = OperationOutcome::Cancelled;
            self.results_copied(core)
        } else {
            self.copy_next(core)
        }
    }

    fn result_copied(
        &mut self,
        core: &mut IncrementalSupplicant,
        result: Option<ScanResult>,
        output: &mut [ScanResult],
    ) -> (asked: PollAction)
        requires
            old(core).active is Some,
            old(self).consumed < old(self).budget.max_events,
            old(core).active.unwrap().scan_seen < usize::MAX,
        ensures
            (poll_state(*final(core), *final(self), final(output)@), asked) == poll_state(
                *old(core),
                *old(self),
                old(output)@,
            ).result_copied(result),
    {
        self.consumed = self.consumed + 1;
        self.made_progress = true;
        {
            let active = core.op_mut();
            active.scan_seen = active.scan_seen + 1;
            match result {
                Some(entry) => {
                    if active.scan_written < output.len() {
                        output[active.scan_written] = entry;
                        active.scan_written = active.scan_written + 1;
                    } else {
                        active.scan_truncated = true;
                    }
                },
                None => {
                    active.scan_truncated = true;
                },
            }
        }
        self.copy_next(core)
    }

    fn settled(&mut self, core: &mut IncrementalSupplicant, now_us: u64) -> (asked: PollAction)
        requires
            old(core).active is Some,
        ensures
            forall|output: Seq<ScanResult>|
                (#[trigger] poll_state(*final(core), *final(self), output), asked) == poll_state(
                    *old(core),
                    *old(self),
                    output,
                ).settled(now_us),
    {
        let settled = core.op_mut().take_reconnect_when_settled(now_us);
        if settled {
            self.ask(PollPhase::Reconnecting, PollAction::Connect)
        } else {
            self.ask(PollPhase::RecoveryReading, PollAction::ReadRecoveryWord)
        }
    }

    fn decided(
        &mut self,
        core: &mut IncrementalSupplicant,
        recovery: u32,
        stalled: bool,
        now_us: u64,
    ) -> (asked: PollAction)
        requires
            old(core).active is Some,
        ensures
            forall|output: Seq<ScanResult>|
                (#[trigger] poll_state(*final(core), *final(self), output), asked) == poll_state(
                    *old(core),
                    *old(self),
                    output,
                ).decided(recovery, stalled, now_us),
    {
        let active = core.op_mut();
        let first = active.should_submit_first_eapol_reconnect(recovery, now_us);
        let external = active.should_submit_external_auth_reconnect(stalled, now_us);
        if first || external {
            self.ask(PollPhase::Dropping(first, external), PollAction::Disconnect)
        } else {
            self.ask(PollPhase::Finishing, PollAction::ReadClock)
        }
    }

    fn dropped(&mut self, core: &mut IncrementalSupplicant, first: bool, external: bool) -> (asked:
        PollAction)
        requires
            old(core).active is Some,
        ensures
            forall|output: Seq<ScanResult>|
                (#[trigger] poll_state(*final(core), *final(self), output), asked) == poll_state(
                    *old(core),
                    *old(self),
                    output,
                ).dropped(first, external),
    {
        core.op_mut().request_reconnect_after_disconnect();
        core.first_eapol_reconnects = count(core.first_eapol_reconnects, first);
        core.external_auth_reconnects = count(core.external_auth_reconnects, external);
        self.made_progress = true;
        self.ask(PollPhase::Finishing, PollAction::ReadClock)
    }

    fn measured(&mut self, core: &mut IncrementalSupplicant) -> (asked: PollAction)
        requires
            old(core).active is Some,
        ensures
            forall|output: Seq<ScanResult>|
                (#[trigger] poll_state(*final(core), *final(self), output), asked) == poll_state(
                    *old(core),
                    *old(self),
                    output,
                ).measured(),
    {
        proof {
            reveal(PollState::measured);
        }
        let elapsed: u64 = self.finished_us.wrapping_sub(self.started_us);
        if elapsed > u32::MAX as u64 {
            return self.clear(core, operation_error(ERROR_WORK_BUDGET));
        }
        if is_scan(&core.op().kind) {
            self.ask(PollPhase::FinalCacheChecking, PollAction::ReadScanCachePending)
        } else {
            self.deadline_checked(core, false, false)
        }
    }

    fn ended(&mut self, core: &mut IncrementalSupplicant, now_us: u64) -> (asked: PollAction)
        requires
            old(core).active is Some,
        ensures
            forall|output: Seq<ScanResult>|
                (#[trigger] poll_state(*final(core), *final(self), output), asked) == poll_state(
                    *old(core),
                    *old(self),
                    output,
                ).ended(now_us),
    {
        self.finished_us = now_us;
        let late = {
            let active = core.op();
            is_scan(&active.kind) && is_continue(&self.outcome) && now_us >= active.deadline_us
                && active.scan_total.is_none()
        };
        if late {
            self.ask(PollPhase::LatePolling, PollAction::PollScan)
        } else {
            self.measured(core)
        }
    }

    fn deadline_checked(&mut self, core: &mut IncrementalSupplicant, observed: bool, pending: bool) -> (asked:
        PollAction)
        requires
            old(core).active is Some,
        ensures
            forall|output: Seq<ScanResult>|
                (#[trigger] poll_state(*final(core), *final(self), output), asked) == poll_state(
                    *old(core),
                    *old(self),
                    output,
                ).deadline_checked(observed, pending),
    {
        proof {
            reveal(PollState::deadline_checked);
        }
        self.completion_observed = observed;
        self.scan_work_pending = pending;
        let due = timer_due_us(self.next_deadline_ms);
        core.op_mut().backend_deadline_us = due;
        if self.finished_us >= core.op().deadline_us && is_continue(&self.outcome) && !(observed
            && pending) {
            let error = timeout_error(core.op());
            self.ask(PollPhase::ContextReading(error), PollAction::ReadContextWord)
        } else {
            self.ask(PollPhase::InputReading, PollAction::ReadInputPending)
        }
    }

    fn conclude(&mut self, core: &mut IncrementalSupplicant, input_pending: bool) -> (asked:
        PollAction)
        requires
            old(core).active is Some,
            old(self).budget.wf(),
            old(self).consumed <= old(self).budget.max_events,
            elapsed_us(old(self).started_us, old(self).finished_us) <= u32::MAX,
        ensures
            forall|output: Seq<ScanResult>|
                (#[trigger] poll_state(*final(core), *final(self), output), asked) == poll_state(
                    *old(core),
                    *old(self),
                    output,
                ).conclude(input_pending),
    {
        let elapsed: u32 = self.finished_us.wrapping_sub(self.started_us) as u32;
        let spent = self.consumed == self.budget.max_events;
        let wait = if self.made_progress && (self.scan_work_pending || input_pending || (
        self.output_pending && spent)) {
            WaitSet::empty()
        } else {
            WaitSet::backend_and_timer()
        };
        let (disposition, terminal) = match self.outcome {
            OperationOutcome::Complete(completion) => (PollDisposition::Complete(completion), true),
            OperationOutcome::Cancelled => (PollDisposition::Cancelled, true),
            OperationOutcome::Failed(status) => {
                let error = staged_error(
                    BackendErrorClass::Connect,
                    status as u32,
                    DiagnosticStage::Connect,
                ).with_trace(DiagnosticTraceKind::VendorStatus, status as u32);
                return self.clear(core, error);
            },
            OperationOutcome::Continue => {
                if spent || elapsed >= self.budget.max_time_us {
                    (PollDisposition::BudgetExhausted(wait), false)
                } else {
                    (PollDisposition::Pending(wait), false)
                }
            },
        };
        match WorkReport::try_new(
            self.id,
            self.budget,
            self.consumed,
            elapsed,
            self.made_progress,
            disposition,
        ) {
            Some(report) => {
                if terminal {
                    core.active = None;
                }
                self.finish(Ok(report))
            },
            None => self.clear(core, operation_error(ERROR_WORK_BUDGET)),
        }
    }

    /// Take the reply to the last request and decide what comes next.
    #[verifier::rlimit(40)]
    pub fn resume(
        &mut self,
        core: &mut IncrementalSupplicant,
        reply: PortReply,
        output: &mut [ScanResult],
    ) -> (asked: PollAction)
        requires
            poll_state(*old(core), *old(self), old(output)@).inv(),
            old(self).awaits(reply),
        ensures
            (poll_state(*final(core), *final(self), final(output)@), asked) == poll_state(
                *old(core),
                *old(self),
                old(output)@,
            ).next(reply),
    {
        match (self.phase, reply) {
            (PollPhase::Starting, PortReply::Clock(now_us)) => self.started(core, now_us),
            (PollPhase::CancellingScan, PortReply::Done) => {
                core.active = None;
                self.ask(
                    PollPhase::Stepping(1, PollDisposition::Cancelled),
                    PollAction::ReadClock,
                )
            },
            (PollPhase::CancellingConnect, PortReply::Submitted(Ok(_))) => {
                core.op_mut().cancellation_action_submitted = true;
                self.ask(
                    PollPhase::Stepping(
                        1,
                        PollDisposition::Pending(WaitSet::backend_and_timer()),
                    ),
                    PollAction::ReadClock,
                )
            },
            (PollPhase::Configuring, PortReply::Submitted(Ok(_))) => {
                core.op_mut().start_phase = StartPhase::ConnectSubmit;
                self.ask(
                    PollPhase::Stepping(1, PollDisposition::Pending(WaitSet::empty())),
                    PollAction::ReadClock,
                )
            },
            (PollPhase::Submitting, PortReply::Submitted(Ok(_))) => self.ask(
                PollPhase::Stepping(1, PollDisposition::Pending(WaitSet::backend_and_timer())),
                PollAction::ReadClock,
            ),
            (PollPhase::CancellingConnect, PortReply::Submitted(Err(error)))
            | (PollPhase::Configuring, PortReply::Submitted(Err(error)))
            | (PollPhase::Submitting, PortReply::Submitted(Err(error))) => self.finish(Err(error)),
            (PollPhase::Stepping(consumed, disposition), PortReply::Clock(now_us)) =>
            self.step_timed(core, consumed, disposition, now_us),
            (PollPhase::Clearing(error), PortReply::Done) => {
                core.active = None;
                self.finish(Err(error))
            },
            (PollPhase::Polling, PortReply::Polled(Ok(result))) => self.polled(core, result),
            (PollPhase::Polling, PortReply::Polled(Err(error)))
            | (PollPhase::Draining, PortReply::Event(Err(error)))
            | (PollPhase::ScanPolling, PortReply::ScanTotal(Err(error)))
            | (PollPhase::Reconnecting, PortReply::Submitted(Err(error)))
            | (PollPhase::Dropping(_, _), PortReply::Submitted(Err(error)))
            | (PollPhase::LatePolling, PortReply::ScanTotal(Err(error))) => self.clear(core, error),
            (PollPhase::Draining, PortReply::Event(Ok(Some(event)))) => {
                self.consumed = self.consumed + 1;
                self.made_progress = true;
                self.ask(PollPhase::Observing(event), PollAction::ReadClock)
            },
            (PollPhase::Draining, PortReply::Event(Ok(None))) => self.events_taken(core),
            (PollPhase::Observing(event), PortReply::Clock(now_us)) => self.event_observed(
                core,
                event,
                now_us,
            ),
            (PollPhase::ScanPolling, PortReply::ScanTotal(Ok(total))) => {
                if total.is_some() {
                    core.op_mut().scan_total = total;
                }
                self.ask(PollPhase::CacheChecking, PollAction::ReadScanCachePending)
            },
            (PollPhase::CacheChecking, PortReply::Flag(pending)) => self.cache_checked(
                core,
                pending,
            ),
            (PollPhase::Copying, PortReply::ScanEntry(result)) => self.result_copied(
                core,
                result,
                output,
            ),
            (PollPhase::Settling, PortReply::Clock(now_us)) => self.settled(core, now_us),
            (PollPhase::Reconnecting, PortReply::Submitted(Ok(_))) => {
                self.made_progress = true;
                self.ask(PollPhase::RecoveryReading, PollAction::ReadRecoveryWord)
            },
            (PollPhase::RecoveryReading, PortReply::Word(word)) => self.ask(
                PollPhase::StallReading(word),
                PollAction::ReadExternalAuthStalled,
            ),
            (PollPhase::StallReading(word), PortReply::Flag(stalled)) => self.ask(
                PollPhase::Deciding(word, stalled),
                PollAction::ReadClock,
            ),
            (PollPhase::Deciding(word, stalled), PortReply::Clock(now_us)) => self.decided(
                core,
                word,
                stalled,
                now_us,
            ),
            (PollPhase::Dropping(first, external), PortReply::Submitted(Ok(_))) => self.dropped(
                core,
                first,
                external,
            ),
            (PollPhase::Finishing, PortReply::Clock(now_us)) => self.ended(core, now_us),
            (PollPhase::LatePolling, PortReply::ScanTotal(Ok(total))) => match total {
                Some(count) => {
                    core.op_mut().scan_total = Some(count);
                    self.made_progress = true;
                    self.ask(PollPhase::LateTiming(count), PollAction::ReadClock)
                },
                None => self.measured(core),
            },
            (PollPhase::LateTiming(total), PortReply::Clock(now_us)) => {
                self.finished_us = now_us;
                if total == 0 {
                    self.ask(PollPhase::LateCacheChecking, PollAction::ReadScanCachePending)
                } else {
                    self.measured(core)
                }
            },
            (PollPhase::LateCacheChecking, PortReply::Flag(pending)) => {
                if !pending {
                    self.outcome =
                    OperationOutcome::Complete(
                        IncrementalCompletion::Scan(ScanOutcome { count: 0, truncated: false }),
                    );
                }
                self.measured(core)
            },
            (PollPhase::FinalCacheChecking, PortReply::Flag(pending)) => {
                let (observed, owed) = {
                    let active = core.op();
                    match active.scan_total {
                        Some(total) => (true, pending || active.scan_seen < total),
                        None => (false, pending),
                    }
                };
                self.deadline_checked(core, observed, owed)
            },
            (PollPhase::ContextReading(error), PortReply::Word(word)) => self.ask(
                PollPhase::DriverReading(
                    error.with_trace(DiagnosticTraceKind::SupplicantContext, word),
                ),
                PollAction::ReadDriverWord,
            ),
            (PollPhase::DriverReading(error), PortReply::Word(word)) => self.ask(
                PollPhase::MatchReading(
                    error.with_trace(DiagnosticTraceKind::DriverContext, word),
                ),
                PollAction::ReadMatchWord,
            ),
            (PollPhase::MatchReading(error), PortReply::Word(word)) => self.clear(
                core,
                error.with_trace(DiagnosticTraceKind::BackendStatus, word),
            ),
            (PollPhase::InputReading, PortReply::Flag(pending)) => self.conclude(core, pending),
            _ => self.finish(Err(operation_error(ERROR_STALE_OPERATION))),
        }
    }
}

/// The kind of reply that a request is answered with.
pub open spec fn answers(action: PollAction, reply: PortReply) -> bool {
    match action {
        PollAction::ReadClock => reply is Clock,
        PollAction::CancelScan => reply is Done,
        PollAction::StartScan => reply is Submitted,
        PollAction::Configure(_) => reply is Submitted,
        PollAction::Connect => reply is Submitted,
        PollAction::Disconnect => reply is Submitted,
        PollAction::PollSupplicant(_) => reply is Polled,
        PollAction::NextEvent => reply is Event,
        PollAction::PollScan => reply is ScanTotal,
        PollAction::ReadScanCachePending => reply is Flag,
        PollAction::ReadScanResult(_) => reply is ScanEntry,
        PollAction::ReadRecoveryWord => reply is Word,
        PollAction::ReadExternalAuthStalled => reply is Flag,
        PollAction::ReadContextWord => reply is Word,
        PollAction::ReadDriverWord => reply is Word,
        PollAction::ReadMatchWord => reply is Word,
        PollAction::ReadInputPending => reply is Flag,
        PollAction::Finish(_) => false,
    }
}

/// While an operation stays active its identity, its purpose and its deadline
/// are those it was accepted with, and nothing that it counts goes back.
pub open spec fn same_request(before: Option<ActiveOperation>, after: Option<ActiveOperation>) -> bool {
    after matches Some(now) ==> {
        &&& before matches Some(then)
        &&& now.id == then.id
        &&& now.kind == then.kind
        &&& now.deadline_us == then.deadline_us
        &&& now.cancellation_requested == then.cancellation_requested
        &&& now.scan_seen >= then.scan_seen
        &&& now.scan_written >= then.scan_written
        &&& then.first_eapol_reconnect_submitted ==> now.first_eapol_reconnect_submitted
        &&& then.external_auth_reconnect_submitted ==> now.external_auth_reconnect_submitted
    }
}

/// The number of phases that can still follow, apart from repeated events.
pub open spec fn phases_left(phase: PollPhase) -> nat {
    match phase {
        PollPhase::Starting => 30,
        PollPhase::CancellingScan => 29,
        PollPhase::CancellingConnect => 29,
        PollPhase::Configuring => 29,
        PollPhase::Submitting => 29,
        PollPhase::Polling => 29,
        PollPhase::Draining => 28,
        PollPhase::Observing(_) => 28,
        PollPhase::ScanPolling => 27,
        PollPhase::CacheChecking => 26,
        PollPhase::Copying => 25,
        PollPhase::Settling => 24,
        PollPhase::Reconnecting => 23,
        PollPhase::RecoveryReading => 22,
        PollPhase::StallReading(_) => 21,
        PollPhase::Deciding(_, _) => 20,
        PollPhase::Dropping(_, _) => 19,
        PollPhase::Finishing => 18,
        PollPhase::LatePolling => 17,
        PollPhase::LateTiming(_) => 16,
        PollPhase::LateCacheChecking => 15,
        PollPhase::FinalCacheChecking => 14,
        PollPhase::ContextReading(_) => 13,
        PollPhase::DriverReading(_) => 12,
        PollPhase::MatchReading(_) => 11,
        PollPhase::InputReading => 10,
        PollPhase::Stepping(_, _) => 9,
        PollPhase::Clearing(_) => 8,
        PollPhase::Over => 0,
    }
}

/// How far a poll is from its end: phases first, then events of the grant.
pub open spec fn steps_left(turn: PollTurn) -> int {
    phases_left(turn.phase) * 0x2_0000 + 2 * (turn.budget.max_events - turn.consumed) + (
    if turn.phase is Observing {
        1int
    } else {
        0
    })
}

impl PollState {
    /// The poll has an operation of its own and has not overdrawn its grant.
    spec fn ready(self) -> bool {
        &&& self.turn.budget.wf()
        &&& self.turn.consumed <= self.turn.budget.max_events
        &&& self.core.active is Some
        &&& self.op().id == self.turn.id
        &&& !(self.op().kind is Initialize)
        &&& self.op().scan_written <= self.op().scan_seen
    }

    /// `step` is a sound continuation that leaves at most `left` phases.
    spec fn advances(self, step: (PollState, PollAction), left: nat) -> bool {
        &&& step.0.inv()
        &&& step.0.turn.id == self.turn.id
        &&& step.0.turn.budget == self.turn.budget
        &&& step.0.output.len() == self.output.len()
        &&& step.0.turn.phase is Over <==> step.1 is Finish
        &&& forall|reply: PortReply| answers(step.1, reply) ==> #[trigger] step.0.turn.awaits(reply)
        &&& same_request(self.core.active, step.0.core.active)
        &&& phases_left(step.0.turn.phase) <= left
    }

    /// `step` reports nothing but a failure, and then no operation is left; the
    /// operation was no scan, which is cancelled before its failure is reported.
    spec fn only_fails(self, step: (PollState, PollAction)) -> bool {
        step.1 matches PollAction::Finish(result) ==> {
            &&& result is Err
            &&& step.0.core.active is None
            &&& !(self.core.active matches Some(op) && op.kind is Scan)
        }
    }
}

proof fn lemma_clear(state: PollState, error: BackendError)
    requires
        state.turn.budget.wf(),
        state.turn.consumed <= state.turn.budget.max_events,
        state.core.active is Some ==> state.op().scan_written <= state.op().scan_seen,
    ensures
        state.advances(state.clear(error), 8),
        state.clear(error).0.turn.consumed == state.turn.consumed,
        state.only_fails(state.clear(error)),
{
    reveal(PollState::clear);
}

proof fn lemma_scan_advanced(state: PollState)
    requires
        state.ready(),
    ensures
        state.advances(state.scan_advanced(), 24),
        state.scan_advanced().0.turn.consumed == state.turn.consumed,
        state.only_fails(state.scan_advanced()),
{
    reveal(PollState::scan_advanced);
}

proof fn lemma_results_copied(state: PollState)
    requires
        state.ready(),
    ensures
        state.advances(state.results_copied(), 24),
        state.results_copied().0.turn.consumed == state.turn.consumed,
        state.only_fails(state.results_copied()),
{
    reveal(PollState::results_copied);
    let op = state.op();
    if op.scan_total == Some(op.scan_seen) {
        lemma_scan_advanced(
            state.progressed().resulting(
                OperationOutcome::Complete(
                    IncrementalCompletion::Scan(
                        ScanOutcome {
                            count: op.scan_written,
                            truncated: op.scan_truncated || op.scan_written < op.scan_seen,
                        },
                    ),
                ),
            ),
        );
    } else {
        lemma_scan_advanced(state);
    }
}

proof fn lemma_copy_next(state: PollState)
    requires
        state.ready(),
        state.is_scan(),
        state.continuing(),
    ensures
        state.advances(state.copy_next(), 25),
        state.copy_next().0.turn.consumed == state.turn.consumed,
        state.only_fails(state.copy_next()),
{
    reveal(PollState::copy_next);
    lemma_results_copied(state);
}

proof fn lemma_events_taken(state: PollState)
    requires
        state.ready(),
    ensures
        state.advances(state.events_taken(), 27),
        state.events_taken().0.turn.consumed == state.turn.consumed,
        state.only_fails(state.events_taken()),
{
    reveal(PollState::events_taken);
    lemma_scan_advanced(state);
}

proof fn lemma_drain(state: PollState)
    requires
        state.ready(),
        state.continuing(),
    ensures
        state.advances(state.drain(), 28),
        state.drain().0.turn.consumed == state.turn.consumed,
        state.only_fails(state.drain()),
        !(state.drain().0.turn.phase is Observing),
{
    reveal(PollState::drain);
    lemma_events_taken(state);
}

proof fn lemma_deadline_checked(state: PollState, observed: bool, pending: bool)
    requires
        state.ready(),
        state.elapsed() <= u32::MAX,
    ensures
        state.advances(state.deadline_checked(observed, pending), 13),
        state.deadline_checked(observed, pending).0.turn.consumed == state.turn.consumed,
        state.only_fails(state.deadline_checked(observed, pending)),
{
    reveal(PollState::deadline_checked);
}

proof fn lemma_measured(state: PollState)
    requires
        state.ready(),
    ensures
        state.advances(state.measured(), 14),
        state.measured().0.turn.consumed == state.turn.consumed,
        state.only_fails(state.measured()),
{
    reveal(PollState::measured);
    if state.elapsed() > u32::MAX {
        lemma_clear(state, contract_failure(ERROR_WORK_BUDGET));
    } else if !state.is_scan() {
        lemma_deadline_checked(state, false, false);
    }
}

/// The poll begins: the continuation after the first reading of the clock.
proof fn lemma_started(state: PollState, now_us: u64)
    requires
        state.inv(),
        state.turn.phase is Starting,
    ensures
        state.advances(state.started(now_us), 29),
        state.started(now_us).0.turn.consumed == state.turn.consumed,
{
}

/// The continuation after a single vendor step.
proof fn lemma_stepped(state: PollState, reply: PortReply)
    requires
        state.inv(),
        state.turn.awaits(reply),
        state.turn.phase is CancellingScan || state.turn.phase is CancellingConnect
            || state.turn.phase is Configuring || state.turn.phase is Submitting
            || state.turn.phase is Stepping || state.turn.phase is Clearing,
    ensures
        state.advances(state.next(reply), (phases_left(state.turn.phase) - 1) as nat),
        state.next(reply).0.turn.consumed == state.turn.consumed,
{
    lemma_clear(state, contract_failure(ERROR_WORK_BUDGET));
}

/// The continuation while supplicant events are taken.
proof fn lemma_event_phases(state: PollState, reply: PortReply)
    requires
        state.inv(),
        state.turn.awaits(reply),
        state.turn.phase is Polling || state.turn.phase is Draining || state.turn.phase is Observing,
    ensures
        state.advances(state.next(reply), 28),
        steps_left(state.next(reply).0.turn) < steps_left(state.turn),
        state.only_fails(state.next(reply)),
{
    match (state.turn.phase, reply) {
        (PollPhase::Polling, PortReply::Polled(Ok(result))) => {
            lemma_clear(state, contract_failure(ERROR_WORK_BUDGET));
            let taken = PollState {
                turn: PollTurn {
                    consumed: result.work_completed as u16,
                    made_progress: result.work_completed != 0,
                    outcome: OperationOutcome::Continue,
                    output_pending: result.output_pending != 0,
                    next_deadline_ms: result.next_deadline_ms,
                    ..state.turn
                },
                ..state
            };
            if result.work_completed <= state.turn.budget.max_events {
                lemma_drain(taken);
            }
        },
        (PollPhase::Polling, PortReply::Polled(Err(error))) => {
            lemma_clear(state, error);
        },
        (PollPhase::Draining, PortReply::Event(Err(error))) => {
            lemma_clear(state, error);
        },
        (PollPhase::Draining, PortReply::Event(Ok(None))) => {
            lemma_events_taken(state);
        },
        (PollPhase::Draining, PortReply::Event(Ok(Some(event)))) => {},
        (PollPhase::Observing(event), PortReply::Clock(now_us)) => {
            let (seen, outcome) = state.op().observed(event.kind, event.status);
            let after = state.with_op(seen.reconnect_observed(event.kind, now_us)).resulting(
                outcome,
            );
            assert(after.ready());
            if outcome is Continue {
                lemma_drain(after);
            } else {
                lemma_events_taken(after);
            }
        },
        _ => {},
    }
}

/// The continuation while scan results are collected.
proof fn lemma_scan_phases(state: PollState, reply: PortReply)
    requires
        state.inv(),
        state.turn.awaits(reply),
        state.turn.phase is ScanPolling || state.turn.phase is CacheChecking
            || state.turn.phase is Copying,
    ensures
        state.advances(state.next(reply), phases_left(state.turn.phase)),
        steps_left(state.next(reply).0.turn) < steps_left(state.turn),
        state.only_fails(state.next(reply)),
{
    match (state.turn.phase, reply) {
        (PollPhase::ScanPolling, PortReply::ScanTotal(Err(error))) => {
            lemma_clear(state, error);
        },
        (PollPhase::CacheChecking, PortReply::Flag(pending)) => {
            lemma_scan_advanced(state);
            lemma_results_copied(state.progressed().resulting(OperationOutcome::Cancelled));
            lemma_copy_next(state);
        },
        (PollPhase::Copying, PortReply::ScanEntry(result)) => {
            let op = state.op();
            let charged = PollState {
                turn: PollTurn {
                    consumed: (state.turn.consumed + 1) as u16,
                    made_progress: true,
                    ..state.turn
                },
                ..state
            };
            let counted_op = ActiveOperation { scan_seen: (op.scan_seen + 1) as usize, ..op };
            if result is Some && op.scan_written < state.output.len() {
                let kept = (PollState {
                    output: state.output.update(op.scan_written as int, result.unwrap()),
                    ..charged
                }).with_op(
                    ActiveOperation {
                        scan_written: (op.scan_written + 1) as usize,
                        ..counted_op
                    },
                );
                assert(kept.ready());
                lemma_copy_next(kept);
            } else {
                let lost = charged.with_op(ActiveOperation { scan_truncated: true, ..counted_op });
                assert(lost.ready());
                lemma_copy_next(lost);
            }
        },
        _ => {},
    }
}

/// The continuation while reconnects are decided.
proof fn lemma_reconnect_phases(state: PollState, reply: PortReply)
    requires
        state.inv(),
        state.turn.awaits(reply),
        state.turn.phase is Settling || state.turn.phase is Reconnecting
            || state.turn.phase is RecoveryReading || state.turn.phase is StallReading
            || state.turn.phase is Deciding || state.turn.phase is Dropping,
    ensures
        state.advances(state.next(reply), (phases_left(state.turn.phase) - 1) as nat),
        state.next(reply).0.turn.consumed == state.turn.consumed,
        state.only_fails(state.next(reply)),
{
    match (state.turn.phase, reply) {
        (_, PortReply::Submitted(Err(error))) => {
            lemma_clear(state, error);
        },
        _ => {},
    }
}

/// The continuation while a poll is brought to its end.
proof fn lemma_ending_phases(state: PollState, reply: PortReply)
    requires
        state.inv(),
        state.turn.awaits(reply),
        state.turn.phase is Finishing || state.turn.phase is LatePolling
            || state.turn.phase is LateTiming || state.turn.phase is LateCacheChecking
            || state.turn.phase is FinalCacheChecking,
    ensures
        state.advances(state.next(reply), (phases_left(state.turn.phase) - 1) as nat),
        state.next(reply).0.turn.consumed == state.turn.consumed,
        state.only_fails(state.next(reply)),
{
    match (state.turn.phase, reply) {
        (PollPhase::LatePolling, PortReply::ScanTotal(Err(error))) => {
            lemma_clear(state, error);
        },
        (PollPhase::LatePolling, _) => {
            lemma_measured(state);
        },
        (PollPhase::Finishing, PortReply::Clock(now_us)) => {
            lemma_measured(
                PollState { turn: PollTurn { finished_us: now_us, ..state.turn }, ..state },
            );
        },
        (PollPhase::LateTiming(_), PortReply::Clock(now_us)) => {
            lemma_measured(
                PollState { turn: PollTurn { finished_us: now_us, ..state.turn }, ..state },
            );
        },
        (PollPhase::LateCacheChecking, PortReply::Flag(pending)) => {
            lemma_measured(state);
            lemma_measured(
                state.resulting(
                    OperationOutcome::Complete(
                        IncrementalCompletion::Scan(ScanOutcome { count: 0, truncated: false }),
                    ),
                ),
            );
        },
        (PollPhase::FinalCacheChecking, PortReply::Flag(pending)) => {
            let op = state.op();
            lemma_deadline_checked(
                state,
                op.scan_total is Some,
                pending || (op.scan_total matches Some(total) && op.scan_seen < total),
            );
        },
        _ => {},
    }
}

/// The continuation while a timeout is explained or a report is made.
proof fn lemma_report_phases(state: PollState, reply: PortReply)
    requires
        state.inv(),
        state.turn.awaits(reply),
        state.turn.phase is ContextReading || state.turn.phase is DriverReading
            || state.turn.phase is MatchReading || state.turn.phase is InputReading,
    ensures
        state.advances(state.next(reply), (phases_left(state.turn.phase) - 1) as nat),
        state.next(reply).0.turn.consumed == state.turn.consumed,
{
    match (state.turn.phase, reply) {
        (PollPhase::MatchReading(error), PortReply::Word(word)) => {
            lemma_clear(state, error.traced(DiagnosticTraceKind::BackendStatus, word));
        },
        (PollPhase::InputReading, PortReply::Flag(pending)) => {
            if let OperationOutcome::Failed(status) = state.turn.outcome {
                lemma_clear(
                    state,
                    crate::hisi_rf_backend::staged(
                        BackendErrorClass::Connect,
                        status as u32,
                        DiagnosticStage::Connect,
                    ).traced(DiagnosticTraceKind::VendorStatus, status as u32),
                );
            }
        },
        _ => {},
    }
}

proof fn lemma_advances(state: PollState, reply: PortReply)
    requires
        state.inv(),
        state.turn.awaits(reply),
    ensures
        state.advances(state.next(reply), phases_left(state.turn.phase)),
        0 <= steps_left(state.next(reply).0.turn) < steps_left(state.turn),
{
    match state.turn.phase {
        PollPhase::Starting => {
            if let PortReply::Clock(now_us) = reply {
                lemma_started(state, now_us);
            }
        },
        PollPhase::CancellingScan
        | PollPhase::CancellingConnect
        | PollPhase::Configuring
        | PollPhase::Submitting
        | PollPhase::Stepping(_, _)
        | PollPhase::Clearing(_) => {
            lemma_stepped(state, reply);
        },
        PollPhase::Polling | PollPhase::Draining | PollPhase::Observing(_) => {
            lemma_event_phases(state, reply);
        },
        PollPhase::ScanPolling | PollPhase::CacheChecking | PollPhase::Copying => {
            lemma_scan_phases(state, reply);
        },
        PollPhase::Settling
        | PollPhase::Reconnecting
        | PollPhase::RecoveryReading
        | PollPhase::StallReading(_)
        | PollPhase::Deciding(_, _)
        | PollPhase::Dropping(_, _) => {
            lemma_reconnect_phases(state, reply);
        },
        PollPhase::Finishing
        | PollPhase::LatePolling
        | PollPhase::LateTiming(_)
        | PollPhase::LateCacheChecking
        | PollPhase::FinalCacheChecking => {
            lemma_ending_phases(state, reply);
        },
        PollPhase::ContextReading(_)
        | PollPhase::DriverReading(_)
        | PollPhase::MatchReading(_)
        | PollPhase::InputReading => {
            lemma_report_phases(state, reply);
        },
        PollPhase::Over => {},
    }
}

/// Between two vendor calls a poll keeps its accounting: the event grant is
/// never overdrawn, and the poll works on the operation it was asked for.
pub proof fn law_poll_keeps_its_accounting(state: PollState, reply: PortReply)
    requires
        state.inv(),
        state.turn.awaits(reply),
    ensures
        state.next(reply).0.inv(),
        state.next(reply).0.turn.id == state.turn.id,
        state.next(reply).0.turn.budget == state.turn.budget,
        state.next(reply).0.turn.phase is Over <==> state.next(reply).1 is Finish,
        forall|answer: PortReply|
            answers(state.next(reply).1, answer) ==> #[trigger] state.next(reply).0.turn.awaits(
                answer,
            ),
{
    lemma_advances(state, reply);
}

/// A poll never turns an operation into another one, and its counts and its
/// one-shot reconnects never go back.
pub proof fn law_poll_keeps_the_operation(state: PollState, reply: PortReply)
    requires
        state.inv(),
        state.turn.awaits(reply),
    ensures
        same_request(state.core.active, state.next(reply).0.core.active),
        state.next(reply).0.output.len() == state.output.len(),
{
    lemma_advances(state, reply);
}

/// Every reply brings a poll closer to its end, so a poll makes a bounded number
/// of vendor calls whatever they answer.
pub proof fn law_poll_terminates(state: PollState, reply: PortReply)
    requires
        state.inv(),
        state.turn.awaits(reply),
    ensures
        0 <= steps_left(state.next(reply).0.turn) < steps_left(state.turn),
{
    lemma_advances(state, reply);
}

/// A report of a poll is always one that the contract admits. A terminal report
/// leaves no operation behind; any other leaves exactly the reported one.
pub proof fn law_poll_reports_are_admissible(state: PollState, reply: PortReply)
    requires
        state.inv(),
        state.turn.awaits(reply),
    ensures
        state.next(reply).1 matches PollAction::Finish(Ok(report)) ==> {
            &&& report.operation == state.turn.id
            &&& crate::radio::reportable(
                state.turn.budget,
                report.consumed_events,
                report.elapsed_us,
                report.made_progress,
                report.disposition,
            )
            &&& report.disposition.terminal() ==> state.next(reply).0.core.active is None
            &&& !report.disposition.terminal() ==> state.next(reply).0.core.owns(state.turn.id)
        },
{
    match state.turn.phase {
        PollPhase::Polling | PollPhase::Draining | PollPhase::Observing(_) => {
            lemma_event_phases(state, reply);
        },
        PollPhase::ScanPolling | PollPhase::CacheChecking | PollPhase::Copying => {
            lemma_scan_phases(state, reply);
        },
        PollPhase::Settling
        | PollPhase::Reconnecting
        | PollPhase::RecoveryReading
        | PollPhase::StallReading(_)
        | PollPhase::Deciding(_, _)
        | PollPhase::Dropping(_, _) => {
            lemma_reconnect_phases(state, reply);
        },
        PollPhase::Finishing
        | PollPhase::LatePolling
        | PollPhase::LateTiming(_)
        | PollPhase::LateCacheChecking
        | PollPhase::FinalCacheChecking => {
            lemma_ending_phases(state, reply);
        },
        _ => {
            reveal(PollState::clear);
        },
    }
}

/// A failed poll gives the operation up, after its scan was cancelled, unless
/// the identity was stale or the vendor refused a submission: then the operation
/// is left as it is.
pub proof fn law_poll_failure_releases_the_operation(state: PollState, reply: PortReply)
    requires
        state.inv(),
        state.turn.awaits(reply),
    ensures
        state.next(reply).1 matches PollAction::Finish(Err(_)) ==> {
            ||| state.next(reply).0.core.active is None
            ||| state.turn.phase is Starting && !state.core.owns(state.turn.id)
            ||| reply is Submitted && (state.turn.phase is CancellingConnect
                || state.turn.phase is Configuring || state.turn.phase is Submitting)
        },
        state.next(reply).1 matches PollAction::Finish(Err(_)) && state.turn.working()
            && state.is_scan() ==> reply is Submitted,
{
    match state.turn.phase {
        PollPhase::Polling | PollPhase::Draining | PollPhase::Observing(_) => {
            lemma_event_phases(state, reply);
        },
        PollPhase::ScanPolling | PollPhase::CacheChecking | PollPhase::Copying => {
            lemma_scan_phases(state, reply);
        },
        PollPhase::Settling
        | PollPhase::Reconnecting
        | PollPhase::RecoveryReading
        | PollPhase::StallReading(_)
        | PollPhase::Deciding(_, _)
        | PollPhase::Dropping(_, _) => {
            lemma_reconnect_phases(state, reply);
        },
        PollPhase::Finishing
        | PollPhase::LatePolling
        | PollPhase::LateTiming(_)
        | PollPhase::LateCacheChecking
        | PollPhase::FinalCacheChecking => {
            lemma_ending_phases(state, reply);
        },
        _ => {
            reveal(PollState::clear);
        },
    }
}

/// Acknowledging the bootstrap asks nothing of the vendor side.
pub proof fn law_initialize_touches_no_vendor_state(state: PollState, now_us: u64)
    requires
        state.inv(),
        state.turn.phase is Starting,
        state.core.owns(state.turn.id),
        state.op().kind is Initialize,
    ensures
        state.next(PortReply::Clock(now_us)).1 matches PollAction::Finish(Ok(report))
            && report.consumed_events == 0 && report.elapsed_us == 0 && report.made_progress
            && report.disposition == (if state.op().cancellation_requested {
            PollDisposition::Cancelled
        } else {
            PollDisposition::Complete(IncrementalCompletion::Initialized)
        }),
{
}

/// An operation that is cancelled before it was submitted ends without any
/// vendor submission.
pub proof fn law_cancel_before_start_submits_nothing(state: PollState, now_us: u64)
    requires
        state.inv(),
        state.turn.phase is Starting,
        state.core.owns(state.turn.id),
        state.op().cancellation_requested,
        !(state.op().start_phase is Ready),
        !(state.op().kind is Initialize),
    ensures
        state.next(PortReply::Clock(now_us)).1 is ReadClock,
        state.next(PortReply::Clock(now_us)).0.core.active is None,
        state.next(PortReply::Clock(now_us)).0.turn.phase == PollPhase::Stepping(
            0,
            PollDisposition::Cancelled,
        ),
{
}

/// A scan whose completion was observed is not timed out while its results are
/// still being collected.
pub proof fn law_observed_scan_outlives_its_deadline(state: PollState, cache_pending: bool)
    requires
        state.inv(),
        state.turn.phase is FinalCacheChecking,
        state.is_scan(),
        state.op().scan_total is Some,
        cache_pending || state.op().scan_seen < state.op().scan_total.unwrap(),
    ensures
        state.next(PortReply::Flag(cache_pending)).1 is ReadInputPending,
{
    reveal(PollState::deadline_checked);
}

/// The vendor side of the backend. Nothing is known of what it answers.
pub trait SupplicantPort {
    fn start_scan(&mut self) -> Result<(), BackendError>;

    fn poll_scan(&mut self) -> Result<Option<usize>, BackendError>;

    fn scan_result(&self, index: usize) -> Option<ScanResult>;

    fn scan_cache_pending(&self) -> bool;

    fn cancel_scan(&mut self);

    fn configure(&mut self, config: &StationConfig) -> Result<(), BackendError>;

    fn connect(&mut self) -> Result<(), BackendError>;

    fn disconnect(&mut self) -> Result<(), BackendError>;

    fn poll(&mut self, budget: u32) -> Result<PollResult, BackendError>;

    /// Unless a port says otherwise, it holds no input back.
    fn input_pending(&self) -> (pending: bool)
        default_ensures
            !pending,
    {
        false
    }

    fn next_event(&mut self) -> Result<Option<NativeEvent>, BackendError>;

    fn recovery_diagnostic_word(&self) -> u32;

    fn context_diagnostic_word(&self) -> (word: u32)
        default_ensures
            word == 0,
    {
        0
    }

    fn driver_diagnostic_word(&self) -> (word: u32)
        default_ensures
            word == 0,
    {
        0
    }

    fn match_diagnostic_word(&self) -> (word: u32)
        default_ensures
            word == 0,
    {
        0
    }

    fn external_auth_retry_stalled(&self) -> bool;
}

/// A borrowed port is a port.
impl<T: SupplicantPort> SupplicantPort for &mut T {
    fn start_scan(&mut self) -> (answer: Result<(), BackendError>)
        ensures
            exists|at: &mut T|
                #[trigger] call_ensures(T::start_scan, (at,), answer) && *at == **old(self)
                    && *final(at) == **final(self),
    {
        (**self).start_scan()
    }

    fn poll_scan(&mut self) -> (answer: Result<Option<usize>, BackendError>)
        ensures
            exists|at: &mut T|
                #[trigger] call_ensures(T::poll_scan, (at,), answer) && *at == **old(self)
                    && *final(at) == **final(self),
    {
        (**self).poll_scan()
    }

    fn scan_result(&self, index: usize) -> (answer: Option<ScanResult>)
        ensures
            call_ensures(T::scan_result, (old(*self), index), answer),
    {
        (**self).scan_result(index)
    }

    fn scan_cache_pending(&self) -> (answer: bool)
        ensures
            call_ensures(T::scan_cache_pending, (old(*self),), answer),
    {
        (**self).scan_cache_pending()
    }

    fn cancel_scan(&mut self)
        ensures
            exists|at: &mut T|
                #[trigger] call_ensures(T::cancel_scan, (at,), ()) && *at == **old(self) && *final(at)
                    == **final(self),
    {
        (**self).cancel_scan();
    }

    fn configure(&mut self, config: &StationConfig) -> (answer: Result<(), BackendError>)
        ensures
            exists|at: &mut T|
                #[trigger] call_ensures(T::configure, (at, config), answer) && *at == **old(self)
                    && *final(at) == **final(self),
    {
        (**self).configure(config)
    }

    fn connect(&mut self) -> (answer: Result<(), BackendError>)
        ensures
            exists|at: &mut T|
                #[trigger] call_ensures(T::connect, (at,), answer) && *at == **old(self)
                    && *final(at) == **final(self),
    {
        (**self).connect()
    }

    fn disconnect(&mut self) -> (answer: Result<(), BackendError>)
        ensures
            exists|at: &mut T|
                #[trigger] call_ensures(T::disconnect, (at,), answer) && *at == **old(self)
                    && *final(at) == **final(self),
    {
        (**self).disconnect()
    }

    fn poll(&mut self, budget: u32) -> (answer: Result<PollResult, BackendError>)
        ensures
            exists|at: &mut T|
                #[trigger] call_ensures(T::poll, (at, budget), answer) && *at == **old(self)
                    && *final(at) == **final(self),
    {
        (**self).poll(budget)
    }

    fn input_pending(&self) -> (answer: bool)
        ensures
            call_ensures(T::input_pending, (old(*self),), answer),
    {
        (**self).input_pending()
    }

    fn next_event(&mut self) -> (answer: Result<Option<NativeEvent>, BackendError>)
        ensures
            exists|at: &mut T|
                #[trigger] call_ensures(T::next_event, (at,), answer) && *at == **old(self)
                    && *final(at) == **final(self),
    {
        (**self).next_event()
    }

    fn recovery_diagnostic_word(&self) -> (answer: u32)
        ensures
            call_ensures(T::recovery_diagnostic_word, (old(*self),), answer),
    {
        (**self).recovery_diagnostic_word()
    }

    fn context_diagnostic_word(&self) -> (answer: u32)
        ensures
            call_ensures(T::context_diagnostic_word, (old(*self),), answer),
    {
        (**self).context_diagnostic_word()
    }

    fn driver_diagnostic_word(&self) -> (answer: u32)
        ensures
            call_ensures(T::driver_diagnostic_word, (old(*self),), answer),
    {
        (**self).driver_diagnostic_word()
    }

    fn match_diagnostic_word(&self) -> (answer: u32)
        ensures
            call_ensures(T::match_diagnostic_word, (old(*self),), answer),
    {
        (**self).match_diagnostic_word()
    }

    fn external_auth_retry_stalled(&self) -> (answer: bool)
        ensures
            call_ensures(T::external_auth_retry_stalled, (old(*self),), answer),
    {
        (**self).external_auth_retry_stalled()
    }
}

/// A monotonic microsecond clock.
pub trait MonotonicClock {
    fn now_us(&self) -> u64;
}

/// The state after a sequence of replies.
pub open spec fn replayed(state: PollState, replies: Seq<PortReply>) -> PollState
    decreases replies.len(),
{
    if replies.len() == 0 {
        state
    } else {
        replayed(state, replies.drop_last()).next(replies.last()).0
    }
}

/// The state in which the poll of an operation begins.
pub open spec fn poll_begun(
    core: IncrementalSupplicant,
    id: OperationId,
    budget: WorkBudget,
    output: Seq<ScanResult>,
) -> PollState {
    poll_state(core, fresh_turn(id, budget), output)
}

/// What a poll of `before` asks after these replies.
#[verifier::opaque]
pub open spec fn asked(before: PollState, replies: Seq<PortReply>) -> PollAction {
    if replies.len() == 0 {
        PollAction::ReadClock
    } else {
        replayed(before, replies.drop_last()).next(replies.last()).1
    }
}

/// `result` and `after` are what a poll of `before` ends with when each request
/// is answered by the next of `replies`.
pub open spec fn polls_to(
    before: PollState,
    replies: Seq<PortReply>,
    after: PollState,
    result: Result<WorkReport, BackendError>,
) -> bool {
    &&& replayed(before, replies) == after
    &&& asked(before, replies) == PollAction::Finish(result)
    &&& forall|i: int|
        0 <= i < replies.len() ==> answers(asked(before, replies.take(i)), #[trigger] replies[i])
}

/// The request only reads the clock or the port.
pub open spec fn reads(action: PollAction) -> bool {
    match action {
        PollAction::ReadClock => true,
        PollAction::ReadScanCachePending => true,
        PollAction::ReadScanResult(_) => true,
        PollAction::ReadRecoveryWord => true,
        PollAction::ReadExternalAuthStalled => true,
        PollAction::ReadContextWord => true,
        PollAction::ReadDriverWord => true,
        PollAction::ReadMatchWord => true,
        PollAction::ReadInputPending => true,
        _ => false,
    }
}

/// `reply` is what the clock or the port answers to a request that only reads.
pub open spec fn read_answer<P: SupplicantPort, C: MonotonicClock>(
    action: PollAction,
    port: P,
    clock: C,
    reply: PortReply,
) -> bool {
    match (action, reply) {
        (PollAction::ReadClock, PortReply::Clock(now_us)) => call_ensures(
            C::now_us,
            (&clock,),
            now_us,
        ),
        (PollAction::ReadScanCachePending, PortReply::Flag(pending)) => call_ensures(
            P::scan_cache_pending,
            (&port,),
            pending,
        ),
        (PollAction::ReadScanResult(index), PortReply::ScanEntry(entry)) => call_ensures(
            P::scan_result,
            (&port, index),
            entry,
        ),
        (PollAction::ReadRecoveryWord, PortReply::Word(word)) => call_ensures(
            P::recovery_diagnostic_word,
            (&port,),
            word,
        ),
        (PollAction::ReadExternalAuthStalled, PortReply::Flag(stalled)) => call_ensures(
            P::external_auth_retry_stalled,
            (&port,),
            stalled,
        ),
        (PollAction::ReadContextWord, PortReply::Word(word)) => call_ensures(
            P::context_diagnostic_word,
            (&port,),
            word,
        ),
        (PollAction::ReadDriverWord, PortReply::Word(word)) => call_ensures(
            P::driver_diagnostic_word,
            (&port,),
            word,
        ),
        (PollAction::ReadMatchWord, PortReply::Word(word)) => call_ensures(
            P::match_diagnostic_word,
            (&port,),
            word,
        ),
        (PollAction::ReadInputPending, PortReply::Flag(pending)) => call_ensures(
            P::input_pending,
            (&port,),
            pending,
        ),
        _ => false,
    }
}

/// `reply` is what the port that `at` borrows answers to a request that may change
/// it.
pub open spec fn call_answer<P: SupplicantPort>(
    action: PollAction,
    at: &mut P,
    reply: PortReply,
) -> bool {
    match (action, reply) {
        (PollAction::CancelScan, PortReply::Done) => call_ensures(P::cancel_scan, (at,), ()),
        (PollAction::StartScan, PortReply::Submitted(answer)) => call_ensures(
            P::start_scan,
            (at,),
            answer,
        ),
        (PollAction::Configure(config), PortReply::Submitted(answer)) => call_ensures(
            P::configure,
            (at, &config),
            answer,
        ),
        (PollAction::Connect, PortReply::Submitted(answer)) => call_ensures(
            P::connect,
            (at,),
            answer,
        ),
        (PollAction::Disconnect, PortReply::Submitted(answer)) => call_ensures(
            P::disconnect,
            (at,),
            answer,
        ),
        (PollAction::PollSupplicant(grant), PortReply::Polled(answer)) => call_ensures(
            P::poll,
            (at, grant),
            answer,
        ),
        (PollAction::NextEvent, PortReply::Event(answer)) => call_ensures(
            P::next_event,
            (at,),
            answer,
        ),
        (PollAction::PollScan, PortReply::ScanTotal(answer)) => call_ensures(
            P::poll_scan,
            (at,),
            answer,
        ),
        _ => false,
    }
}

/// The clock and the port answer every request of a poll that only reads; the
/// port is in state `ports[i]` when request `i` is made.
pub open spec fn reads_answered<P: SupplicantPort, C: MonotonicClock>(
    before: PollState,
    replies: Seq<PortReply>,
    ports: Seq<P>,
    clock: C,
) -> bool {
    &&& ports.len() == replies.len() + 1
    &&& forall|i: int|
        #![trigger replies.take(i)]
        0 <= i < replies.len() && reads(asked(before, replies.take(i))) ==> ports[i + 1] == ports[i]
            && read_answer(asked(before, replies.take(i)), ports[i], clock, replies[i])
}

/// One more answered request extends what was answered before.
proof fn lemma_one_more_answer<P: SupplicantPort, C: MonotonicClock>(
    before: PollState,
    replies: Seq<PortReply>,
    ports: Seq<P>,
    clock: C,
    reply: PortReply,
    port: P,
)
    requires
        reads_answered(before, replies, ports, clock),
        answers(asked(before, replies), reply),
        forall|i: int|
            0 <= i < replies.len() ==> answers(
                asked(before, replies.take(i)),
                #[trigger] replies[i],
            ),
        reads(asked(before, replies)) ==> port == ports.last() && read_answer(
            asked(before, replies),
            port,
            clock,
            reply,
        ),
    ensures
        reads_answered(before, replies.push(reply), ports.push(port), clock),
        forall|i: int|
            0 <= i < replies.len() + 1 ==> answers(
                asked(before, replies.push(reply).take(i)),
                #[trigger] replies.push(reply)[i],
            ),
        forall|i: int|
            0 <= i <= replies.len() ==> #[trigger] replies.push(reply).take(i) == replies.take(i),
        replies.push(reply).drop_last() == replies,
        replies.take(replies.len() as int) == replies,
{
    let more = replies.push(reply);
    let states = ports.push(port);
    assert forall|i: int| 0 <= i <= replies.len() implies #[trigger] more.take(i) == replies.take(
        i,
    ) by {
        assert(more.take(i) =~= replies.take(i));
    }
    assert(replies.take(replies.len() as int) =~= replies);
    assert(more.drop_last() =~= replies);
    assert forall|i: int| 0 <= i < more.len() implies answers(
        asked(before, more.take(i)),
        #[trigger] more[i],
    ) by {
        assert(more.take(i) == replies.take(i));
        if i < replies.len() {
            assert(more[i] == replies[i]);
        }
    }
    assert forall|i: int|
        #![trigger more.take(i)]
        0 <= i < more.len() && reads(asked(before, more.take(i))) implies states[i + 1] == states[i]
        && read_answer(asked(before, more.take(i)), states[i], clock, more[i]) by {
        assert(more.take(i) == replies.take(i));
        if i < replies.len() {
            assert(more[i] == replies[i]);
        }
    }
}

/// The bounded backend over one vendor port and one clock.
pub struct IncrementalSupplicantBackend<P, C> {
    pub port: P,
    pub clock: C,
    pub core: IncrementalSupplicant,
}

impl<P, C> IncrementalSupplicantBackend<P, C> {
    /// No more scan results were written than were seen.
    pub open spec fn accounted(self) -> bool {
        self.core.active matches Some(op) ==> op.scan_written <= op.scan_seen
    }

    /// The backend after a cancellation, if one was asked for: one of another
    /// operation changes nothing.
    pub open spec fn after_cancel(self, id: Option<OperationId>) -> Self {
        if id is Some && self.core.owns(id->0) {
            IncrementalSupplicantBackend {
                core: IncrementalSupplicant {
                    active: Some(
                        ActiveOperation {
                            cancellation_requested: true,
                            ..self.core.active.unwrap()
                        },
                    ),
                    ..self.core
                },
                ..self
            }
        } else {
            self
        }
    }
}

impl<P: SupplicantPort, C: MonotonicClock> IncrementalSupplicantBackend<P, C> {
    pub fn new(port: P, clock: C) -> (backend: Self)
        ensures
            backend.port == port,
            backend.clock == clock,
            backend.core.active is None,
            backend.core.first_eapol_reconnects == 0,
            backend.core.external_auth_reconnects == 0,
    {
        IncrementalSupplicantBackend { port, clock, core: IncrementalSupplicant::new() }
    }

    /// Accept an operation without any vendor work.
    pub fn start(&mut self, id: OperationId, request: IncrementalRequest) -> (result: Result<
        (),
        BackendError,
    >)
        ensures
            final(self).port == old(self).port,
            final(self).clock == old(self).clock,
            old(self).core.active is Some ==> final(self).core == old(self).core && result == Err::<
                (),
                BackendError,
            >(crate::hisi_rf_backend::staged(BackendErrorClass::Busy, 1, DiagnosticStage::ControlPlane)),
            old(self).core.active is None ==> result is Ok && exists|now_us: u64|
                {
                    &&& #[trigger] call_ensures(C::now_us, (&old(self).clock,), now_us)
                    &&& final(self).core == (IncrementalSupplicant {
                        active: Some(requested(id, request, now_us)),
                        ..old(self).core
                    })
                },
    {
        if self.core.active.is_some() {
            return Err(
                staged_error(BackendErrorClass::Busy, 1, DiagnosticStage::ControlPlane),
            );
        }
        let now_us: u64 = self.clock.now_us();
        self.core.start(id, request, now_us)
    }

    /// Record a cancellation without any vendor work.
    pub fn cancel(&mut self, id: OperationId) -> (result: Result<(), BackendError>)
        ensures
            *final(self) == old(self).after_cancel(Some(id)),
            result == (if old(self).core.owns(id) {
                Ok::<(), BackendError>(())
            } else {
                Err(contract_failure(ERROR_STALE_OPERATION))
            }),
    {
        self.core.cancel(id)
    }

    pub fn next_deadline_us(&self, id: OperationId) -> (deadline_us: Option<u64>)
        ensures
            deadline_us == (if self.core.owns(id) {
                Some(self.core.active.unwrap().due_us())
            } else {
                None
            }),
    {
        self.core.next_deadline_us(id)
    }

    /// Make a vendor call that may change the port.
    fn call(&mut self, action: PollAction) -> (reply: PortReply)
        requires
            !reads(action),
            !(action is Finish),
        ensures
            final(self).core == old(self).core,
            final(self).clock == old(self).clock,
            answers(action, reply),
            exists|at: &mut P|
                #[trigger] call_answer(action, at, reply) && *at == old(self).port && *final(at)
                    == final(self).port,
    {
        match action {
            PollAction::StartScan => {
                let answer = self.port.start_scan();
                proof {
                    let at = choose|at: &mut P|
                        #[trigger] call_ensures(P::start_scan, (at,), answer) && *at == old(
                            self,
                        ).port && *final(at) == self.port;
                    assert(call_answer(action, at, PortReply::Submitted(answer)));
                }
                PortReply::Submitted(answer)
            },
            PollAction::Configure(config) => {
                let answer = self.port.configure(&config);
                proof {
                    let at = choose|at: &mut P|
                        #[trigger] call_ensures(P::configure, (at, &config), answer) && *at == old(
                            self,
                        ).port && *final(at) == self.port;
                    assert(call_answer(action, at, PortReply::Submitted(answer)));
                }
                PortReply::Submitted(answer)
            },
            PollAction::Connect => {
                let answer = self.port.connect();
                proof {
                    let at = choose|at: &mut P|
                        #[trigger] call_ensures(P::connect, (at,), answer) && *at == old(
                            self,
                        ).port && *final(at) == self.port;
                    assert(call_answer(action, at, PortReply::Submitted(answer)));
                }
                PortReply::Submitted(answer)
            },
            PollAction::Disconnect => {
                let answer = self.port.disconnect();
                proof {
                    let at = choose|at: &mut P|
                        #[trigger] call_ensures(P::disconnect, (at,), answer) && *at == old(
                            self,
                        ).port && *final(at) == self.port;
                    assert(call_answer(action, at, PortReply::Submitted(answer)));
                }
                PortReply::Submitted(answer)
            },
            PollAction::PollSupplicant(grant) => {
                let answer = self.port.poll(grant);
                proof {
                    let at = choose|at: &mut P|
                        #[trigger] call_ensures(P::poll, (at, grant), answer) && *at == old(
                            self,
                        ).port && *final(at) == self.port;
                    assert(call_answer(action, at, PortReply::Polled(answer)));
                }
                PortReply::Polled(answer)
            },
            PollAction::NextEvent => {
                let answer = self.port.next_event();
                proof {
                    let at = choose|at: &mut P|
                        #[trigger] call_ensures(P::next_event, (at,), answer) && *at == old(
                            self,
                        ).port && *final(at) == self.port;
                    assert(call_answer(action, at, PortReply::Event(answer)));
                }
                PortReply::Event(answer)
            },
            PollAction::PollScan => {
                let answer = self.port.poll_scan();
                proof {
                    let at = choose|at: &mut P|
                        #[trigger] call_ensures(P::poll_scan, (at,), answer) && *at == old(
                            self,
                        ).port && *final(at) == self.port;
                    assert(call_answer(action, at, PortReply::ScanTotal(answer)));
                }
                PortReply::ScanTotal(answer)
            },
            _ => {
                self.port.cancel_scan();
                proof {
                    let at = choose|at: &mut P|
                        #[trigger] call_ensures(P::cancel_scan, (at,), ()) && *at == old(self).port
                            && *final(at) == self.port;
                    assert(call_answer(action, at, PortReply::Done));
                }
                PortReply::Done
            },
        }
    }

    /// Make the vendor call that a poll asked for.
    fn perform(&mut self, action: PollAction) -> (reply: PortReply)
        requires
            !(action is Finish),
        ensures
            final(self).core == old(self).core,
            final(self).clock == old(self).clock,
            answers(action, reply),
            reads(action) ==> final(self).port == old(self).port && read_answer(
                action,
                old(self).port,
                old(self).clock,
                reply,
            ),
            !reads(action) ==> exists|at: &mut P|
                #[trigger] call_answer(action, at, reply) && *at == old(self).port && *final(at)
                    == final(self).port,
    {
        match action {
            PollAction::ReadClock => PortReply::Clock(self.clock.now_us()),
            PollAction::ReadScanCachePending => PortReply::Flag(self.port.scan_cache_pending()),
            PollAction::ReadScanResult(index) => PortReply::ScanEntry(self.port.scan_result(index)),
            PollAction::ReadRecoveryWord => PortReply::Word(self.port.recovery_diagnostic_word()),
            PollAction::ReadExternalAuthStalled => PortReply::Flag(
                self.port.external_auth_retry_stalled(),
            ),
            PollAction::ReadContextWord => PortReply::Word(self.port.context_diagnostic_word()),
            PollAction::ReadDriverWord => PortReply::Word(self.port.driver_diagnostic_word()),
            PollAction::ReadMatchWord => PortReply::Word(self.port.match_diagnostic_word()),
            PollAction::ReadInputPending => PortReply::Flag(self.port.input_pending()),
            other => self.call(other),
        }
    }

    /// Advance one operation without exceeding `budget`.
    ///
    /// Whatever the vendor side answers, the result and the operation that is
    /// left behind are those that the poll decides on those answers.
    pub fn poll(&mut self, id: OperationId, budget: WorkBudget, scan_output: &mut [ScanResult]) -> (result:
        Result<WorkReport, BackendError>)
        requires
            budget.wf(),
            old(self).accounted(),
        ensures
            final(self).accounted(),
            final(scan_output)@.len() == old(scan_output)@.len(),
            final(self).clock == old(self).clock,
            exists|turn: PollTurn, replies: Seq<PortReply>, ports: Seq<P>|
                {
                    &&& #[trigger] polls_to(
                        poll_begun(old(self).core, id, budget, old(scan_output)@),
                        replies,
                        poll_state(final(self).core, turn, final(scan_output)@),
                        result,
                    )
                    &&& #[trigger] reads_answered(
                        poll_begun(old(self).core, id, budget, old(scan_output)@),
                        replies,
                        ports,
                        old(self).clock,
                    )
                    &&& ports.first() == old(self).port && ports.last() == final(self).port
                    &&& forall|i: int|
                        #![trigger replies.take(i)]
                        0 <= i < replies.len() && !reads(
                            asked(
                                poll_begun(old(self).core, id, budget, old(scan_output)@),
                                replies.take(i),
                            ),
                        ) ==> exists|at: &mut P|
                            #[trigger] call_answer(
                                asked(
                                    poll_begun(old(self).core, id, budget, old(scan_output)@),
                                    replies.take(i),
                                ),
                                at,
                                replies[i],
                            ) && *at == ports[i] && *final(at) == ports[i + 1]
                },
            !old(self).core.owns(id) ==> final(self).core == old(self).core && final(self).port
                == old(self).port && result == Err::<WorkReport, BackendError>(
                contract_failure(ERROR_STALE_OPERATION),
            ),
    {
        let mut turn = PollTurn::new(id, budget);
        let ghost before = poll_state(self.core, turn, scan_output@);
        let ghost mut replies: Seq<PortReply> = seq![];
        let ghost mut ports: Seq<P> = seq![self.port];
        let mut action = PollAction::ReadClock;
        assert(action == asked(before, replies)) by {
            reveal(asked);
        }
        loop
            invariant
                before == poll_begun(old(self).core, id, budget, old(scan_output)@),
                scan_output@.len() == old(scan_output)@.len(),
                self.clock == old(self).clock,
                poll_state(self.core, turn, scan_output@).inv(),
                replayed(before, replies) == poll_state(self.core, turn, scan_output@),
                action == asked(before, replies),
                action is Finish <==> turn.phase is Over,
                forall|reply: PortReply| answers(action, reply) ==> #[trigger] turn.awaits(reply),
                forall|i: int|
                    0 <= i < replies.len() ==> answers(
                        asked(before, replies.take(i)),
                        #[trigger] replies[i],
                    ),
                reads_answered(before, replies, ports, old(self).clock),
                ports.first() == old(self).port && ports.last() == self.port,
                forall|i: int|
                    #![trigger replies.take(i)]
                    0 <= i < replies.len() && !reads(asked(before, replies.take(i))) ==> exists|
                        at: &mut P,
                    |
                        #[trigger] call_answer(asked(before, replies.take(i)), at, replies[i])
                            && *at == ports[i] && *final(at) == ports[i + 1],
                !old(self).core.owns(id) ==> self.core == old(self).core && self.port == old(
                    self,
                ).port && (turn.phase is Starting && turn.id == id && action is ReadClock
                    || action == PollAction::Finish(
                    Err::<WorkReport, BackendError>(contract_failure(ERROR_STALE_OPERATION)),
                )),
            decreases steps_left(turn),
        {
            let ghost held = self.port;
            let reply = match action {
                PollAction::Finish(result) => {
                    proof {
                        assert(polls_to(
                            before,
                            replies,
                            poll_state(self.core, turn, scan_output@),
                            result,
                        ));
                    }
                    return result;
                },
                request => self.perform(request),
            };
            let ghost state = poll_state(self.core, turn, scan_output@);
            proof {
                law_poll_keeps_its_accounting(state, reply);
                law_poll_keeps_the_operation(state, reply);
                law_poll_terminates(state, reply);
                lemma_one_more_answer(before, replies, ports, self.clock, reply, self.port);
                let seen = replies;
                let states = ports;
                replies = replies.push(reply);
                ports = ports.push(self.port);
                assert forall|i: int|
                    #![trigger replies.take(i)]
                    0 <= i < replies.len() && !reads(
                        asked(before, replies.take(i)),
                    ) implies exists|at: &mut P|
                    #[trigger] call_answer(asked(before, replies.take(i)), at, replies[i]) && *at
                        == ports[i] && *final(at) == ports[i + 1] by {
                    assert(replies.take(i) == seen.take(i));
                    if i < seen.len() {
                        assert(replies[i] == seen[i]);
                        assert(ports[i] == states[i] && ports[i + 1] == states[i + 1]);
                    } else {
                        assert(ports[i] == held);
                    }
                }
            }
            action = turn.resume(&mut self.core, reply, scan_output);
            assert(action == asked(before, replies)) by {
                reveal(asked);
            }
        }
    }
}

} // verus!
