//! Values of the chip-neutral radio control contract.
//!
//! The control contract itself belongs to `hisi_rf_core`. The types below hold,
//! as plain values, what the WS63 logic reads and decides on. Identities,
//! service-set names and credentials are carried as the values that
//! `hisi_rf_core` issued.

use hisi_rf_core::BackendError as CoreError;
use hisi_rf_core::BackendErrorClass as CoreClass;
use hisi_rf_core::{OperationId, Passphrase, Ssid};
use vstd::prelude::*;

verus! {

/// Identity of one backend operation slot and its generation.
#[verifier::external_type_specification]
#[verifier::external_body]
pub struct ExOperationId(hisi_rf_core::OperationId);

/// Validated IEEE 802.11 service-set name.
#[verifier::external_type_specification]
#[verifier::external_body]
pub struct ExSsid(hisi_rf_core::Ssid);

/// Owned credential that is erased on drop.
#[verifier::external_type_specification]
#[verifier::external_body]
pub struct ExPassphrase(hisi_rf_core::Passphrase);

/// The bytes of a service-set name.
pub uninterp spec fn ssid_bytes(ssid: Ssid) -> Seq<u8>;

/// `hisi_rf_core::Ssid::try_from_bytes`: a name has one to 32 bytes, and holds
/// exactly the bytes it was made from.
#[verifier::external_body]
pub(crate) fn ssid_from_bytes(value: &[u8]) -> (ssid: Option<Ssid>)
    ensures
        ssid is Some <==> 1 <= value@.len() <= 32,
        ssid matches Some(name) ==> ssid_bytes(name) == value@,
{
    Ssid::try_from_bytes(value)
}

/// `PartialEq` of `hisi_rf_core::OperationId`, which compares the slot and the
/// generation, the only two parts of an identity.
#[verifier::external_body]
pub(crate) fn same_operation(left: OperationId, right: OperationId) -> (same: bool)
    ensures
        same == (left == right),
{
    left == right
}

/// Stable class of a backend failure.
#[derive(Clone, Copy, Debug, PartialEq, Eq, Structural)]
pub enum BackendErrorClass {
    /// Radio initialization failed.
    Initialize,
    /// The requested operation is already active.
    Busy,
    /// The end-to-end protocol operation timeout elapsed.
    OperationTimeout,
    /// A bounded backend or vendor lifecycle call timed out.
    BackendTimeout,
    /// The operation was cancelled before completion.
    Cancelled,
    /// A required bounded resource could not be acquired.
    ResourceUnavailable,
    /// The requested security mode is unsupported.
    UnsupportedSecurity,
    /// Association or authorization failed.
    Connect,
    /// A chip-specific failure outside the stable classes.
    Other,
}

/// Stage at which a failure was reported.
#[derive(Clone, Copy, Debug, PartialEq, Eq, Structural)]
pub enum DiagnosticStage {
    Initialize,
    ControlPlane,
    Connect,
    Scan,
    Authenticate,
    Associate,
    Sae,
    Eapol,
    Pmf,
    Disconnect,
    Runtime,
    Operation,
    Backend,
}

/// Identity of one numeric trace value.
#[derive(Clone, Copy, Debug, PartialEq, Eq, Structural)]
pub enum DiagnosticTraceKind {
    BackendStatus,
    VendorStatus,
    IeeeStatus,
    HostapStatus,
    DisconnectReason,
    SupplicantContext,
    DriverContext,
    RuntimeCode,
    ResourceRequired,
    ResourceAvailable,
    ResourceOwner,
    LargestContiguous,
}

/// One numeric, secret-free trace entry.
#[derive(Clone, Copy, Debug, PartialEq, Eq, Structural)]
pub struct DiagnosticTraceEntry {
    pub kind: DiagnosticTraceKind,
    pub value: u32,
}

/// At most four trace entries, in the order in which they were attached.
#[derive(Clone, Copy, Debug, PartialEq, Eq, Structural)]
pub struct DiagnosticTrace {
    pub first: Option<DiagnosticTraceEntry>,
    pub second: Option<DiagnosticTraceEntry>,
    pub third: Option<DiagnosticTraceEntry>,
    pub fourth: Option<DiagnosticTraceEntry>,
    pub truncated: bool,
}

impl View for DiagnosticTrace {
    type V = Seq<DiagnosticTraceEntry>;

    open spec fn view(&self) -> Seq<DiagnosticTraceEntry> {
        match (self.first, self.second, self.third, self.fourth) {
            (None, _, _, _) => seq![],
            (Some(a), None, _, _) => seq![a],
            (Some(a), Some(b), None, _) => seq![a, b],
            (Some(a), Some(b), Some(c), None) => seq![a, b, c],
            (Some(a), Some(b), Some(c), Some(d)) => seq![a, b, c, d],
        }
    }
}

impl DiagnosticTrace {
    /// The trace after one more entry: kept while there is room for it,
    /// otherwise only its loss is recorded.
    pub open spec fn pushed(self, entry: DiagnosticTraceEntry) -> DiagnosticTrace {
        if self.first is None {
            DiagnosticTrace { first: Some(entry), ..self }
        } else if self.second is None {
            DiagnosticTrace { second: Some(entry), ..self }
        } else if self.third is None {
            DiagnosticTrace { third: Some(entry), ..self }
        } else if self.fourth is None {
            DiagnosticTrace { fourth: Some(entry), ..self }
        } else {
            DiagnosticTrace { truncated: true, ..self }
        }
    }

    /// Entries are filled from the front.
    pub open spec fn packed(self) -> bool {
        &&& self.first is None ==> self.second is None
        &&& self.second is None ==> self.third is None
        &&& self.third is None ==> self.fourth is None
    }

    /// An empty trace.
    pub fn new() -> (trace: Self)
        ensures
            trace@.len() == 0,
            trace.packed(),
            !trace.truncated,
            trace == no_trace(),
    {
        DiagnosticTrace { first: None, second: None, third: None, fourth: None, truncated: false }
    }

    /// Number of retained entries.
    pub fn len(&self) -> (len: usize)
        ensures
            len == self@.len(),
    {
        if self.first.is_none() {
            0
        } else if self.second.is_none() {
            1
        } else if self.third.is_none() {
            2
        } else if self.fourth.is_none() {
            3
        } else {
            4
        }
    }

    /// The entry at `index`, in the order in which entries were attached.
    pub fn get(&self, index: usize) -> (entry: Option<DiagnosticTraceEntry>)
        ensures
            entry == (if index < self@.len() { Some(self@[index as int]) } else { None }),
    {
        if index >= self.len() {
            None
        } else if index == 0 {
            self.first
        } else if index == 1 {
            self.second
        } else if index == 2 {
            self.third
        } else {
            self.fourth
        }
    }

    /// Attach one entry.
    pub fn push(&mut self, kind: DiagnosticTraceKind, value: u32)
        ensures
            *final(self) == old(self).pushed(DiagnosticTraceEntry { kind, value }),
    {
        let entry = DiagnosticTraceEntry { kind, value };
        if self.first.is_none() {
            self.first = Some(entry);
        } else if self.second.is_none() {
            self.second = Some(entry);
        } else if self.third.is_none() {
            self.third = Some(entry);
        } else if self.fourth.is_none() {
            self.fourth = Some(entry);
        } else {
            self.truncated = true;
        }
    }
}

/// The trace of a failure that carries no numeric evidence.
pub open spec fn no_trace() -> DiagnosticTrace {
    DiagnosticTrace { first: None, second: None, third: None, fourth: None, truncated: false }
}

/// A trace keeps every entry while it has room, in order, and never reorders or
/// replaces one: beyond four entries only the loss is recorded.
pub proof fn law_trace_is_append_only(trace: DiagnosticTrace, entry: DiagnosticTraceEntry)
    requires
        trace.packed(),
    ensures
        trace.pushed(entry).packed(),
        trace@.len() < 4 ==> trace.pushed(entry)@ =~= trace@.push(entry) && trace.pushed(
            entry,
        ).truncated == trace.truncated,
        trace@.len() >= 4 ==> trace.pushed(entry)@ =~= trace@ && trace.pushed(entry).truncated,
{
}

/// The named radio profile whose revision a failure carries.
#[derive(Clone, Copy, Debug, PartialEq, Eq, Structural)]
pub enum ProfileRevision {
    /// The profile that this firmware was composed with.
    Selected,
}

/// Backend failure with a stable class and lossless chip-specific context.
#[derive(Clone, Copy, Debug, PartialEq, Eq, Structural)]
pub struct BackendError {
    pub class: BackendErrorClass,
    pub code: u32,
    pub stage: DiagnosticStage,
    pub profile_revision: Option<ProfileRevision>,
    pub trace: DiagnosticTrace,
}

/// The stage that a class implies until a more exact one is attached.
pub open spec fn default_stage(class: BackendErrorClass) -> DiagnosticStage {
    match class {
        BackendErrorClass::Initialize => DiagnosticStage::Initialize,
        BackendErrorClass::UnsupportedSecurity => DiagnosticStage::Connect,
        BackendErrorClass::Connect => DiagnosticStage::Connect,
        BackendErrorClass::Busy => DiagnosticStage::Operation,
        BackendErrorClass::OperationTimeout => DiagnosticStage::Operation,
        BackendErrorClass::Cancelled => DiagnosticStage::Operation,
        BackendErrorClass::BackendTimeout => DiagnosticStage::Backend,
        BackendErrorClass::ResourceUnavailable => DiagnosticStage::Runtime,
        BackendErrorClass::Other => DiagnosticStage::Backend,
    }
}

impl BackendError {
    /// The failure after one more trace value.
    pub open spec fn traced(self, kind: DiagnosticTraceKind, value: u32) -> BackendError {
        BackendError { trace: self.trace.pushed(DiagnosticTraceEntry { kind, value }), ..self }
    }

    /// A failure with the stage that its class implies and no trace.
    pub fn new(class: BackendErrorClass, code: u32) -> (error: Self)
        ensures
            error == (BackendError {
                class,
                code,
                stage: default_stage(class),
                profile_revision: None,
                trace: no_trace(),
            }),
    {
        let stage = match class {
            BackendErrorClass::Initialize => DiagnosticStage::Initialize,
            BackendErrorClass::UnsupportedSecurity
            | BackendErrorClass::Connect => DiagnosticStage::Connect,
            BackendErrorClass::Busy
            | BackendErrorClass::OperationTimeout
            | BackendErrorClass::Cancelled => DiagnosticStage::Operation,
            BackendErrorClass::BackendTimeout | BackendErrorClass::Other => DiagnosticStage::Backend,
            BackendErrorClass::ResourceUnavailable => DiagnosticStage::Runtime,
        };
        BackendError { class, code, stage, profile_revision: None, trace: DiagnosticTrace::new() }
    }

    pub fn class(self) -> (class: BackendErrorClass)
        ensures
            class == self.class,
    {
        self.class
    }

    pub fn code(self) -> (code: u32)
        ensures
            code == self.code,
    {
        self.code
    }

    /// Replace the stage.
    pub fn with_stage(self, stage: DiagnosticStage) -> (error: Self)
        ensures
            error == (BackendError { stage, ..self }),
    {
        BackendError { stage, ..self }
    }

    /// Attach the revision of the selected profile.
    pub fn with_profile_revision(self, revision: ProfileRevision) -> (error: Self)
        ensures
            error == (BackendError { profile_revision: Some(revision), ..self }),
    {
        BackendError { profile_revision: Some(revision), ..self }
    }

    /// Attach one trace value.
    pub fn with_trace(self, kind: DiagnosticTraceKind, value: u32) -> (error: Self)
        ensures
            error == self.traced(kind, value),
    {
        let mut error = self;
        error.trace.push(kind, value);
        error
    }
}

/// Stable identity of a public failure.
#[derive(Clone, Copy, Debug, PartialEq, Eq, Structural)]
pub enum DiagnosticCode {
    AlreadyInitialized,
    BackendInitialize,
    BackendBusy,
    OperationTimeout,
    BackendTimeout,
    OperationCancelled,
    ResourceUnavailable,
    UnsupportedSecurity,
    ConnectionFailed,
    BackendOther,
    Protocol,
}

/// What a caller can do after a failure.
#[derive(Clone, Copy, Debug, PartialEq, Eq, Structural)]
pub enum RecoveryAction {
    UseExistingController,
    Reinitialize,
    WaitAndRetry,
    RetryOperation,
    ProvideResources,
    SelectSupportedSecurity,
    InspectNetworkAndRetry,
    InspectBackendCode,
    RecreateController,
}

/// Secret-free diagnostic view of a failure.
#[derive(Clone, Copy, Debug, PartialEq, Eq, Structural)]
pub struct Diagnostic {
    pub code: DiagnosticCode,
    pub stage: DiagnosticStage,
    pub action: RecoveryAction,
    pub backend_code: Option<u32>,
    pub profile_revision: Option<ProfileRevision>,
    pub trace: DiagnosticTrace,
}

/// The public identity of a backend failure class.
pub open spec fn class_code(class: BackendErrorClass) -> DiagnosticCode {
    match class {
        BackendErrorClass::Initialize => DiagnosticCode::BackendInitialize,
        BackendErrorClass::Busy => DiagnosticCode::BackendBusy,
        BackendErrorClass::OperationTimeout => DiagnosticCode::OperationTimeout,
        BackendErrorClass::BackendTimeout => DiagnosticCode::BackendTimeout,
        BackendErrorClass::Cancelled => DiagnosticCode::OperationCancelled,
        BackendErrorClass::ResourceUnavailable => DiagnosticCode::ResourceUnavailable,
        BackendErrorClass::UnsupportedSecurity => DiagnosticCode::UnsupportedSecurity,
        BackendErrorClass::Connect => DiagnosticCode::ConnectionFailed,
        BackendErrorClass::Other => DiagnosticCode::BackendOther,
    }
}

/// The recovery that a backend failure class asks for.
pub open spec fn class_action(class: BackendErrorClass) -> RecoveryAction {
    match class {
        BackendErrorClass::Initialize => RecoveryAction::Reinitialize,
        BackendErrorClass::Busy => RecoveryAction::WaitAndRetry,
        BackendErrorClass::OperationTimeout => RecoveryAction::RetryOperation,
        BackendErrorClass::BackendTimeout => RecoveryAction::RetryOperation,
        BackendErrorClass::Cancelled => RecoveryAction::RetryOperation,
        BackendErrorClass::ResourceUnavailable => RecoveryAction::ProvideResources,
        BackendErrorClass::UnsupportedSecurity => RecoveryAction::SelectSupportedSecurity,
        BackendErrorClass::Connect => RecoveryAction::InspectNetworkAndRetry,
        BackendErrorClass::Other => RecoveryAction::InspectBackendCode,
    }
}

/// The place of a code in the order of declaration.
pub open spec fn code_position(code: DiagnosticCode) -> int {
    match code {
        DiagnosticCode::AlreadyInitialized => 0,
        DiagnosticCode::BackendInitialize => 1,
        DiagnosticCode::BackendBusy => 2,
        DiagnosticCode::OperationTimeout => 3,
        DiagnosticCode::BackendTimeout => 4,
        DiagnosticCode::OperationCancelled => 5,
        DiagnosticCode::ResourceUnavailable => 6,
        DiagnosticCode::UnsupportedSecurity => 7,
        DiagnosticCode::ConnectionFailed => 8,
        DiagnosticCode::BackendOther => 9,
        DiagnosticCode::Protocol => 10,
    }
}

/// The place of a recovery action in the order of declaration.
pub open spec fn action_position(action: RecoveryAction) -> int {
    match action {
        RecoveryAction::UseExistingController => 0,
        RecoveryAction::Reinitialize => 1,
        RecoveryAction::WaitAndRetry => 2,
        RecoveryAction::RetryOperation => 3,
        RecoveryAction::ProvideResources => 4,
        RecoveryAction::SelectSupportedSecurity => 5,
        RecoveryAction::InspectNetworkAndRetry => 6,
        RecoveryAction::InspectBackendCode => 7,
        RecoveryAction::RecreateController => 8,
    }
}

/// `hisi_rf_core::BackendError::diagnostic`: the code and the recovery action
/// depend on the class of the failure alone, as tabulated above. They come back
/// as their places in the order of declaration, which both crates share.
#[verifier::external_body]
fn core_diagnostic(class: BackendErrorClass) -> (places: (usize, usize))
    ensures
        places.0 == code_position(class_code(class)),
        places.1 == action_position(class_action(class)),
{
    let classes = [
        CoreClass::Initialize,
        CoreClass::Busy,
        CoreClass::OperationTimeout,
        CoreClass::BackendTimeout,
        CoreClass::Cancelled,
        CoreClass::ResourceUnavailable,
        CoreClass::UnsupportedSecurity,
        CoreClass::Connect,
        CoreClass::Other,
    ];
    let diagnostic = CoreError::new(classes[class as usize], 0).diagnostic();
    (diagnostic.code() as usize, diagnostic.action() as usize)
}

fn diagnostic_code_at(place: usize) -> (code: DiagnosticCode)
    requires
        place <= 10,
    ensures
        code_position(code) == place,
{
    match place {
        0 => DiagnosticCode::AlreadyInitialized,
        1 => DiagnosticCode::BackendInitialize,
        2 => DiagnosticCode::BackendBusy,
        3 => DiagnosticCode::OperationTimeout,
        4 => DiagnosticCode::BackendTimeout,
        5 => DiagnosticCode::OperationCancelled,
        6 => DiagnosticCode::ResourceUnavailable,
        7 => DiagnosticCode::UnsupportedSecurity,
        8 => DiagnosticCode::ConnectionFailed,
        9 => DiagnosticCode::BackendOther,
        _ => DiagnosticCode::Protocol,
    }
}

fn recovery_action_at(place: usize) -> (action: RecoveryAction)
    requires
        place <= 8,
    ensures
        action_position(action) == place,
{
    match place {
        0 => RecoveryAction::UseExistingController,
        1 => RecoveryAction::Reinitialize,
        2 => RecoveryAction::WaitAndRetry,
        3 => RecoveryAction::RetryOperation,
        4 => RecoveryAction::ProvideResources,
        5 => RecoveryAction::SelectSupportedSecurity,
        6 => RecoveryAction::InspectNetworkAndRetry,
        7 => RecoveryAction::InspectBackendCode,
        _ => RecoveryAction::RecreateController,
    }
}

/// The diagnostic of a backend failure.
pub open spec fn backend_diagnostic(error: BackendError) -> Diagnostic {
    Diagnostic {
        code: class_code(error.class),
        stage: error.stage,
        action: class_action(error.class),
        backend_code: Some(error.code),
        profile_revision: error.profile_revision,
        trace: error.trace,
    }
}

impl BackendError {
    /// Convert this failure into the public diagnostic schema.
    pub fn diagnostic(self) -> (diagnostic: Diagnostic)
        ensures
            diagnostic == backend_diagnostic(self),
    {
        let places = core_diagnostic(self.class);
        Diagnostic {
            code: diagnostic_code_at(places.0),
            stage: self.stage,
            action: recovery_action_at(places.1),
            backend_code: Some(self.code),
            profile_revision: self.profile_revision,
            trace: self.trace,
        }
    }
}

/// Failure to establish or use the radio control plane.
#[derive(Clone, Copy, Debug, PartialEq, Eq, Structural)]
pub enum RadioError {
    /// The supplied state has already been claimed.
    AlreadyInitialized,
    /// The backend rejected an operation.
    Backend(BackendError),
    /// A completion did not match the outstanding command.
    Protocol,
}

/// The diagnostic of a control-plane failure.
pub open spec fn radio_diagnostic(error: RadioError) -> Diagnostic {
    match error {
        RadioError::Backend(backend) => backend_diagnostic(backend),
        RadioError::AlreadyInitialized => Diagnostic {
            code: DiagnosticCode::AlreadyInitialized,
            stage: DiagnosticStage::ControlPlane,
            action: RecoveryAction::UseExistingController,
            backend_code: None,
            profile_revision: None,
            trace: no_trace(),
        },
        RadioError::Protocol => Diagnostic {
            code: DiagnosticCode::Protocol,
            stage: DiagnosticStage::ControlPlane,
            action: RecoveryAction::RecreateController,
            backend_code: None,
            profile_revision: None,
            trace: no_trace(),
        },
    }
}

impl RadioError {
    /// Convert this failure into the public diagnostic schema.
    pub fn diagnostic(self) -> (diagnostic: Diagnostic)
        ensures
            diagnostic == radio_diagnostic(self),
    {
        match self {
            RadioError::Backend(backend) => backend.diagnostic(),
            RadioError::AlreadyInitialized => Diagnostic {
                code: DiagnosticCode::AlreadyInitialized,
                stage: DiagnosticStage::ControlPlane,
                action: RecoveryAction::UseExistingController,
                backend_code: None,
                profile_revision: None,
                trace: DiagnosticTrace::new(),
            },
            RadioError::Protocol => Diagnostic {
                code: DiagnosticCode::Protocol,
                stage: DiagnosticStage::ControlPlane,
                action: RecoveryAction::RecreateController,
                backend_code: None,
                profile_revision: None,
                trace: DiagnosticTrace::new(),
            },
        }
    }
}

/// Wake sources that an idle radio runner waits on together.
#[derive(Clone, Copy, Debug, PartialEq, Eq, Structural)]
pub struct WaitSet {
    pub command: bool,
    pub backend: bool,
    pub l2_rx: bool,
    pub timer: bool,
    pub cancel: bool,
}

/// No wake source: poll again at once.
pub open spec fn no_sources() -> WaitSet {
    WaitSet { command: false, backend: false, l2_rx: false, timer: false, cancel: false }
}

/// The sources that end an ordinary idle wait of an operation.
pub open spec fn backend_or_timer() -> WaitSet {
    WaitSet { command: false, backend: true, l2_rx: false, timer: true, cancel: false }
}

impl WaitSet {
    /// The stable bit representation.
    pub open spec fn spec_bits(self) -> int {
        (if self.command { 1int } else { 0 }) + (if self.backend { 2int } else { 0 }) + (
        if self.l2_rx { 4int } else { 0 }) + (if self.timer { 8int } else { 0 }) + (
        if self.cancel { 16int } else { 0 })
    }

    pub open spec fn spec_is_empty(self) -> bool {
        self == no_sources()
    }

    pub fn empty() -> (set: Self)
        ensures
            set == no_sources(),
    {
        WaitSet { command: false, backend: false, l2_rx: false, timer: false, cancel: false }
    }

    /// The backend and timer sources together.
    pub fn backend_and_timer() -> (set: Self)
        ensures
            set == backend_or_timer(),
    {
        WaitSet { command: false, backend: true, l2_rx: false, timer: true, cancel: false }
    }

    /// Combine the sources of two sets.
    pub fn union(self, other: Self) -> (set: Self)
        ensures
            set == (WaitSet {
                command: self.command || other.command,
                backend: self.backend || other.backend,
                l2_rx: self.l2_rx || other.l2_rx,
                timer: self.timer || other.timer,
                cancel: self.cancel || other.cancel,
            }),
    {
        WaitSet {
            command: self.command || other.command,
            backend: self.backend || other.backend,
            l2_rx: self.l2_rx || other.l2_rx,
            timer: self.timer || other.timer,
            cancel: self.cancel || other.cancel,
        }
    }

    pub fn is_empty(self) -> (empty: bool)
        ensures
            empty == self.spec_is_empty(),
    {
        !self.command && !self.backend && !self.l2_rx && !self.timer && !self.cancel
    }

    /// Stable machine-readable bit representation.
    pub fn bits(self) -> (bits: u8)
        ensures
            bits == self.spec_bits(),
    {
        let command: u8 = if self.command { 1 } else { 0 };
        let backend: u8 = if self.backend { 2 } else { 0 };
        let l2_rx: u8 = if self.l2_rx { 4 } else { 0 };
        let timer: u8 = if self.timer { 8 } else { 0 };
        let cancel: u8 = if self.cancel { 16 } else { 0 };
        command + backend + l2_rx + timer + cancel
    }
}

/// Upper bound granted to one incremental poll.
#[derive(Clone, Copy, Debug, PartialEq, Eq, Structural)]
pub struct WorkBudget {
    pub max_events: u16,
    pub max_time_us: u32,
}

impl WorkBudget {
    /// A grant is never empty.
    pub open spec fn wf(self) -> bool {
        self.max_events > 0 && self.max_time_us > 0
    }

    /// A non-empty event and elapsed-time grant.
    pub fn try_new(max_events: u16, max_time_us: u32) -> (budget: Option<Self>)
        ensures
            budget is Some <==> max_events > 0 && max_time_us > 0,
            budget matches Some(granted) ==> granted == (WorkBudget { max_events, max_time_us }),
            budget matches Some(granted) ==> granted.wf(),
    {
        if max_events == 0 || max_time_us == 0 {
            None
        } else {
            Some(WorkBudget { max_events, max_time_us })
        }
    }
}

/// Successful station association.
#[derive(Clone, Copy, Debug, PartialEq, Eq)]
pub struct ConnectionInfo {
    pub bssid: [u8; 6],
    pub frequency_mhz: u16,
}

/// Number of entries copied into the caller's scan buffer.
#[derive(Clone, Copy, Debug, PartialEq, Eq, Structural)]
pub struct ScanOutcome {
    pub count: usize,
    pub truncated: bool,
}

/// Link-layer security discovered during a scan.
#[derive(Clone, Copy, Debug, PartialEq, Eq, Structural)]
pub enum Security {
    Open,
    Wpa2Personal,
    Wpa3Personal,
    Wpa2Wpa3PersonalTransition,
    OtherProtected,
}

/// One bounded scan result.
#[derive(Clone, Copy, Debug, PartialEq, Eq)]
pub struct ScanResult {
    pub ssid: Ssid,
    pub bssid: [u8; 6],
    pub frequency_mhz: u16,
    pub rssi_dbm: i16,
    pub security: Security,
    pub channel: u8,
}

/// `hisi_rf_core::ScanResult::empty`: its name has no bytes.
#[verifier::external_body]
fn unwritten_ssid() -> (ssid: Ssid)
    ensures
        ssid_bytes(ssid) == Seq::<u8>::empty(),
{
    hisi_rf_core::ScanResult::empty().ssid
}

impl ScanResult {
    /// A buffer entry that no scan has written.
    pub open spec fn spec_unwritten(self) -> bool {
        &&& ssid_bytes(self.ssid) == Seq::<u8>::empty()
        &&& self.bssid@ == seq![0u8, 0, 0, 0, 0, 0]
        &&& self.frequency_mhz == 0
        &&& self.rssi_dbm == 0
        &&& self.security is Open
        &&& self.channel == 0
    }

    /// Empty value for fixed scan buffers.
    pub fn empty() -> (result: Self)
        ensures
            result.spec_unwritten(),
    {
        ScanResult {
            ssid: unwritten_ssid(),
            bssid: [0, 0, 0, 0, 0, 0],
            frequency_mhz: 0,
            rssi_dbm: 0,
            security: Security::Open,
            channel: 0,
        }
    }
}

/// SAE password-element derivation policy.
#[derive(Clone, Copy, Debug, PartialEq, Eq, Structural)]
pub enum SaePwe {
    HuntAndPeck,
    HashToElement,
    Both,
}

/// Personal-mode security selected for one connection.
#[derive(Clone, Copy, Debug, PartialEq, Eq, Structural)]
pub enum PersonalSecurity {
    Wpa2,
    Wpa3 { sae_pwe: SaePwe },
}

/// Station connection request. It owns its credential.
#[derive(Debug)]
pub struct StationConfig {
    pub ssid: Ssid,
    pub bssid: [u8; 6],
    pub channel: u8,
    pub passphrase: Passphrase,
    pub security: PersonalSecurity,
    pub operation_timeout_ms: u32,
}

/// Successful terminal result of one incremental operation.
#[derive(Clone, Copy, Debug, PartialEq, Eq)]
pub enum IncrementalCompletion {
    Initialized,
    Scan(ScanOutcome),
    Connected(ConnectionInfo),
    Disconnected,
}

/// State returned by one bounded poll.
#[derive(Clone, Copy, Debug, PartialEq, Eq)]
pub enum PollDisposition {
    /// No terminal result; wait for these sources before polling again.
    Pending(WaitSet),
    /// One successful terminal result.
    Complete(IncrementalCompletion),
    /// Cancellation reached a terminal state.
    Cancelled,
    /// The grant was reached or overrun; another turn is required.
    BudgetExhausted(WaitSet),
}

impl PollDisposition {
    /// No further poll of the same operation follows.
    pub open spec fn terminal(self) -> bool {
        self is Complete || self is Cancelled
    }
}

/// Verified accounting for one poll.
#[derive(Clone, Copy, Debug, PartialEq, Eq)]
pub struct WorkReport {
    pub operation: OperationId,
    pub consumed_events: u16,
    pub elapsed_us: u32,
    pub time_budget_exhausted: bool,
    pub made_progress: bool,
    pub disposition: PollDisposition,
}

/// What a poll may report. Events never exceed the grant; an exhausted grant is
/// visible in the counts; an overrun in time is not passed off as an ordinary
/// wait; and asking for an immediate poll needs progress.
pub open spec fn reportable(
    budget: WorkBudget,
    consumed: u16,
    elapsed_us: u32,
    made_progress: bool,
    disposition: PollDisposition,
) -> bool {
    &&& consumed <= budget.max_events
    &&& disposition is BudgetExhausted ==> consumed == budget.max_events || elapsed_us
        >= budget.max_time_us
    &&& disposition is Pending ==> elapsed_us <= budget.max_time_us
    &&& disposition matches PollDisposition::Pending(wait) ==> made_progress
        || !wait.spec_is_empty()
}

impl WorkReport {
    /// Construct a report with strict event accounting and observable time
    /// overruns.
    pub fn try_new(
        operation: OperationId,
        budget: WorkBudget,
        consumed_events: u16,
        elapsed_us: u32,
        made_progress: bool,
        disposition: PollDisposition,
    ) -> (report: Option<Self>)
        ensures
            report is Some <==> reportable(
                budget,
                consumed_events,
                elapsed_us,
                made_progress,
                disposition,
            ),
            report matches Some(verified) ==> verified == (WorkReport {
                operation,
                consumed_events,
                elapsed_us,
                time_budget_exhausted: elapsed_us >= budget.max_time_us,
                made_progress,
                disposition,
            }),
    {
        if consumed_events > budget.max_events {
            return None;
        }
        let time_budget_exhausted = elapsed_us >= budget.max_time_us;
        let admitted = match disposition {
            PollDisposition::BudgetExhausted(_) => consumed_events == budget.max_events
                || time_budget_exhausted,
            PollDisposition::Pending(wait) => elapsed_us <= budget.max_time_us && (made_progress
                || !wait.is_empty()),
            PollDisposition::Complete(_) | PollDisposition::Cancelled => true,
        };
        if !admitted {
            return None;
        }
        Some(
            WorkReport {
                operation,
                consumed_events,
                elapsed_us,
                time_budget_exhausted,
                made_progress,
                disposition,
            },
        )
    }
}

/// The diagnostic of a failure names its class and the recovery from it, and loses
/// nothing of the failure.
pub proof fn law_diagnostic_names_the_failure(error: BackendError, diagnostic: Diagnostic)
    requires
        call_ensures(BackendError::diagnostic, (error,), diagnostic),
    ensures
        diagnostic.stage == error.stage,
        diagnostic.backend_code == Some(error.code),
        diagnostic.profile_revision == error.profile_revision,
        diagnostic.trace == error.trace,
        error.class is Initialize <==> diagnostic.code is BackendInitialize,
        error.class is Busy <==> diagnostic.code is BackendBusy,
        error.class is OperationTimeout <==> diagnostic.code is OperationTimeout,
        error.class is BackendTimeout <==> diagnostic.code is BackendTimeout,
        error.class is Cancelled <==> diagnostic.code is OperationCancelled,
        error.class is ResourceUnavailable <==> diagnostic.code is ResourceUnavailable,
        error.class is UnsupportedSecurity <==> diagnostic.code is UnsupportedSecurity,
        error.class is Connect <==> diagnostic.code is ConnectionFailed,
        error.class is Other <==> diagnostic.code is BackendOther,
        error.class is Initialize <==> diagnostic.action is Reinitialize,
        error.class is Busy <==> diagnostic.action is WaitAndRetry,
        error.class is OperationTimeout || error.class is BackendTimeout || error.class is Cancelled
            <==> diagnostic.action is RetryOperation,
        error.class is ResourceUnavailable <==> diagnostic.action is ProvideResources,
        error.class is UnsupportedSecurity <==> diagnostic.action is SelectSupportedSecurity,
        error.class is Connect <==> diagnostic.action is InspectNetworkAndRetry,
        error.class is Other <==> diagnostic.action is InspectBackendCode,
{
}

/// A control-plane failure is told as that of its backend, where it has one, and
/// else carries no code; a claimed state is told to be used, and a broken protocol
/// to be set up anew.
pub proof fn law_control_plane_failure_is_told(
    error: RadioError,
    backend: BackendError,
    diagnostic: Diagnostic,
    cause: Diagnostic,
)
    requires
        call_ensures(RadioError::diagnostic, (error,), diagnostic),
        call_ensures(BackendError::diagnostic, (backend,), cause),
    ensures
        error == RadioError::Backend(backend) ==> diagnostic == cause,
        error is Backend <==> diagnostic.backend_code is Some,
        error is AlreadyInitialized <==> diagnostic.code is AlreadyInitialized,
        error is AlreadyInitialized <==> diagnostic.action is UseExistingController,
        error is Protocol <==> diagnostic.code is Protocol,
        error is Protocol <==> diagnostic.action is RecreateController,
        !(error is Backend) ==> diagnostic.stage is ControlPlane && diagnostic.trace@.len() == 0
            && !diagnostic.trace.truncated && diagnostic.profile_revision is None,
{
}

/// A failure starts in the stage of its class, with its code and nothing attached.
pub proof fn law_class_implies_a_stage(class: BackendErrorClass, code: u32, error: BackendError)
    requires
        call_ensures(BackendError::new, (class, code), error),
    ensures
        error.class == class && error.code == code,
        error.profile_revision is None && error.trace@.len() == 0 && !error.trace.truncated,
        class is Initialize <==> error.stage is Initialize,
        class is UnsupportedSecurity || class is Connect <==> error.stage is Connect,
        class is Busy || class is OperationTimeout || class is Cancelled
            <==> error.stage is Operation,
        class is BackendTimeout || class is Other <==> error.stage is Backend,
        class is ResourceUnavailable <==> error.stage is Runtime,
{
}

/// What is attached to a failure is the last entry of its trace, as long as there is
/// room; the rest of the failure stays.
pub proof fn law_trace_value_is_attached(
    error: BackendError,
    kind: DiagnosticTraceKind,
    value: u32,
    attached: BackendError,
)
    requires
        error.trace.packed(),
        call_ensures(BackendError::with_trace, (error, kind, value), attached),
    ensures
        error.trace@.len() < 4 ==> attached.trace@.len() == error.trace@.len() + 1
            && attached.trace@.last().kind == kind && attached.trace@.last().value == value,
        error.trace@.len() == 4 ==> attached.trace@ == error.trace@ && attached.trace.truncated,
        attached.class == error.class && attached.code == error.code && attached.stage
            == error.stage && attached.profile_revision == error.profile_revision,
{
    law_trace_is_append_only(error.trace, DiagnosticTraceEntry { kind, value });
    assert(error.trace@.len() == 4 ==> attached.trace@ =~= error.trace@);
}

/// Each wake source has a bit of its own, from the lowest: command, backend,
/// receive, timer, cancel.
pub proof fn law_wake_sources_have_their_bits(set: WaitSet, bits: u8, empty: bool)
    requires
        call_ensures(WaitSet::bits, (set,), bits),
        call_ensures(WaitSet::is_empty, (set,), empty),
    ensures
        bits < 32,
        bits as int % 2 == 1 <==> set.command,
        bits as int / 2 % 2 == 1 <==> set.backend,
        bits as int / 4 % 2 == 1 <==> set.l2_rx,
        bits as int / 8 % 2 == 1 <==> set.timer,
        bits as int / 16 % 2 == 1 <==> set.cancel,
        empty <==> bits == 0,
{
}

/// The union of two sets has the bits of both, and the ordinary idle wait those of
/// the backend and the timer.
pub proof fn law_union_has_the_bits_of_both(
    left: WaitSet,
    right: WaitSet,
    both: WaitSet,
    idle: WaitSet,
    none: WaitSet,
    left_bits: u8,
    right_bits: u8,
    bits: u8,
)
    requires
        call_ensures(WaitSet::union, (left, right), both),
        call_ensures(WaitSet::bits, (left,), left_bits),
        call_ensures(WaitSet::bits, (right,), right_bits),
        call_ensures(WaitSet::bits, (both,), bits),
        call_ensures(WaitSet::backend_and_timer, (), idle),
        call_ensures(WaitSet::empty, (), none),
    ensures
        both.command <==> left.command || right.command,
        both.backend <==> left.backend || right.backend,
        both.l2_rx <==> left.l2_rx || right.l2_rx,
        both.timer <==> left.timer || right.timer,
        both.cancel <==> left.cancel || right.cancel,
        right == none ==> both == left && bits == left_bits,
        left == none ==> both == right && bits == right_bits,
        left == right ==> both == left,
        idle.backend && idle.timer && !idle.command && !idle.l2_rx && !idle.cancel,
        none.spec_bits() == 0 && idle.spec_bits() == 10,
{
}

/// A report is made exactly of an accounting that adds up: never more events than
/// were granted; an exhausted grant only with all events or all time used; an
/// ordinary wait only within the time, and without a source only after progress. A
/// terminal result needs nothing more.
pub proof fn law_report_adds_up(
    operation: OperationId,
    budget: WorkBudget,
    consumed: u16,
    elapsed_us: u32,
    made_progress: bool,
    disposition: PollDisposition,
    report: Option<WorkReport>,
)
    requires
        call_ensures(
            WorkReport::try_new,
            (operation, budget, consumed, elapsed_us, made_progress, disposition),
            report,
        ),
    ensures
        consumed > budget.max_events ==> report is None,
        consumed <= budget.max_events && (disposition is Complete || disposition is Cancelled)
            ==> report is Some,
        consumed <= budget.max_events && disposition is BudgetExhausted ==> (report is None
            <==> consumed < budget.max_events && elapsed_us < budget.max_time_us),
        consumed <= budget.max_events && disposition is Pending ==> (report is None <==> elapsed_us
            > budget.max_time_us || !made_progress && disposition->Pending_0.spec_bits() == 0),
        report matches Some(made) ==> made.operation == operation && made.consumed_events
            == consumed && made.elapsed_us == elapsed_us && made.made_progress == made_progress
            && made.disposition == disposition && (made.time_budget_exhausted <==> elapsed_us
            >= budget.max_time_us),
{
}

/// A grant is made exactly of at least one event and at least one microsecond.
pub proof fn law_grant_is_never_empty(max_events: u16, max_time_us: u32, budget: Option<WorkBudget>)
    requires
        call_ensures(WorkBudget::try_new, (max_events, max_time_us), budget),
    ensures
        budget is None <==> max_events == 0 || max_time_us == 0,
        budget matches Some(granted) ==> granted.max_events == max_events && granted.max_time_us
            == max_time_us,
{
}

/// A trace reads back what was attached to it, in order: as many entries as its length, and
/// none behind them.
pub proof fn law_trace_reads_back(
    trace: DiagnosticTrace,
    index: usize,
    len: usize,
    entry: Option<DiagnosticTraceEntry>,
    kind: DiagnosticTraceKind,
    value: u32,
)
    requires
        trace.packed(),
        call_ensures(DiagnosticTrace::len, (&trace,), len),
        call_ensures(DiagnosticTrace::get, (&trace, index), entry),
    ensures
        len <= 4,
        entry is Some <==> index < len,
        index == 0 ==> entry == trace.first,
        index == 1 ==> entry == trace.second,
        index == 2 ==> entry == trace.third,
        index == 3 ==> entry == trace.fourth,
        forall|grown: &mut DiagnosticTrace, unit: ()|
            *grown == trace && #[trigger] call_ensures(
                DiagnosticTrace::push,
                (grown, kind, value),
                unit,
            ) ==> {
                &&& len < 4 ==> (*final(grown))@.len() == len + 1 && (*final(grown))@[len as int].kind
                    == kind && (*final(grown))@[len as int].value == value
                &&& len < 4 ==> (*final(grown)).truncated == trace.truncated
                &&& len == 4 ==> (*final(grown)).truncated && (*final(grown))@ == trace@
            },
{
    law_trace_is_append_only(trace, DiagnosticTraceEntry { kind, value });
    assert(trace@.len() == 4 ==> trace.pushed(DiagnosticTraceEntry { kind, value })@ =~= trace@);
}

} // verus!
