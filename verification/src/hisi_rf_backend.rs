//! WS63 decisions behind the chip-neutral control contract: how native events
//! and failures are classified, and how the blocking station operations proceed
//! from one vendor reply to the next.

pub mod attempts;
pub mod failures;
pub mod fixture;
pub mod incremental;
pub mod port;

use crate::error::{runtime_code, task_admission_code, RuntimeError, TaskAdmissionError};
use crate::radio::{
    ssid_from_bytes, BackendError, BackendErrorClass, ConnectionInfo, DiagnosticStage,
    DiagnosticTraceKind, ProfileRevision, ScanOutcome, ScanResult, Security,
};
use vstd::prelude::*;

verus! {

pub const NATIVE_EVENT_AUTHORIZED: u8 = 3;

pub const NATIVE_EVENT_DISCONNECTED: u8 = 4;

pub const NATIVE_EVENT_FAILED: u8 = 5;

/// What a native supplicant event means for a connection attempt.
#[derive(Clone, Copy, Debug, PartialEq, Eq, Structural)]
pub enum NativeConnectEvent {
    Progress,
    Authorized,
    Disconnected,
    Failed,
}

/// The meaning of a native event kind.
pub open spec fn native_event(kind: u8) -> NativeConnectEvent {
    if kind == 3 {
        NativeConnectEvent::Authorized
    } else if kind == 4 {
        NativeConnectEvent::Disconnected
    } else if kind == 5 {
        NativeConnectEvent::Failed
    } else {
        NativeConnectEvent::Progress
    }
}

pub fn classify_native_connect_event(kind: u8) -> (event: NativeConnectEvent)
    ensures
        event == native_event(kind),
{
    if kind == NATIVE_EVENT_AUTHORIZED {
        NativeConnectEvent::Authorized
    } else if kind == NATIVE_EVENT_DISCONNECTED {
        NativeConnectEvent::Disconnected
    } else if kind == NATIVE_EVENT_FAILED {
        NativeConnectEvent::Failed
    } else {
        NativeConnectEvent::Progress
    }
}

/// Center frequency, in MHz, of a 2.4 GHz channel; zero for any other number.
pub open spec fn frequency_of(channel: u8) -> u16 {
    if channel == 14 {
        2484
    } else if 1 <= channel <= 13 {
        (2407 + 5 * channel) as u16
    } else {
        0
    }
}

pub fn channel_to_frequency(channel: u8) -> (frequency_mhz: u16)
    ensures
        frequency_mhz == frequency_of(channel),
{
    if channel == 14 {
        2484
    } else if channel >= 1 && channel <= 13 {
        2407 + channel as u16 * 5
    } else {
        0
    }
}

/// Distinct channels of the 2.4 GHz band have distinct frequencies.
pub proof fn law_frequency_identifies_channel(left: u8, right: u8)
    requires
        1 <= left <= 14,
        1 <= right <= 14,
        frequency_of(left) == frequency_of(right),
    ensures
        left == right,
{
}

/// The channels of the 2.4 GHz band start at 2412 MHz and lie five megahertz
/// apart, but for the last, which lies twelve above its neighbour. No other number
/// has a frequency.
pub proof fn law_channels_lie_five_megahertz_apart(channel: u8)
    ensures
        frequency_of(1) == 2412,
        1 <= channel <= 12 ==> frequency_of((channel + 1) as u8) == frequency_of(channel) + 5,
        frequency_of(14) == frequency_of(13) + 12,
        frequency_of(channel) == 0 <==> channel == 0 || channel > 14,
{
}

/// Three event kinds end something, each its own; every other kind is progress.
pub proof fn law_native_event_kinds_are_fixed(kind: u8)
    ensures
        native_event(kind) is Authorized <==> kind == 3,
        native_event(kind) is Disconnected <==> kind == 4,
        native_event(kind) is Failed <==> kind == 5,
        native_event(kind) is Progress <==> kind < 3 || kind > 5,
{
}

/// A failure of the selected profile at a known stage.
pub open spec fn staged(
    class: BackendErrorClass,
    code: u32,
    stage: DiagnosticStage,
) -> BackendError {
    BackendError {
        class,
        code,
        stage,
        profile_revision: Some(ProfileRevision::Selected),
        trace: crate::radio::no_trace(),
    }
}

pub fn backend_error(class: BackendErrorClass, code: u32) -> (error: BackendError)
    ensures
        error == staged(class, code, crate::radio::default_stage(class)),
{
    BackendError::new(class, code).with_profile_revision(ProfileRevision::Selected)
}

pub fn staged_error(class: BackendErrorClass, code: u32, stage: DiagnosticStage) -> (error:
    BackendError)
    ensures
        error == staged(class, code, stage),
{
    backend_error(class, code).with_stage(stage)
}

/// The answer to an operation that precedes initialization.
pub open spec fn uninitialized() -> BackendError {
    staged(BackendErrorClass::Initialize, 0x1000_0003, DiagnosticStage::Initialize)
}

pub fn not_initialized() -> (error: BackendError)
    ensures
        error == uninitialized(),
{
    backend_error(BackendErrorClass::Initialize, 0x1000_0003)
}

/// How a vendor scan ended.
#[derive(Clone, Copy, Debug, PartialEq, Eq, Structural)]
pub enum ScanStatus {
    Success,
    Failed,
    Refused,
    Timeout,
    Unknown(u32),
}

/// The number of a scan status; unknown numbers are kept.
pub open spec fn scan_status_number(status: ScanStatus) -> u32 {
    match status {
        ScanStatus::Success => 0,
        ScanStatus::Failed => 1,
        ScanStatus::Refused => 2,
        ScanStatus::Timeout => 3,
        ScanStatus::Unknown(code) => code,
    }
}

pub fn scan_status_code(status: ScanStatus) -> (code: u32)
    ensures
        code == scan_status_number(status),
{
    match status {
        ScanStatus::Success => 0,
        ScanStatus::Failed => 1,
        ScanStatus::Refused => 2,
        ScanStatus::Timeout => 3,
        ScanStatus::Unknown(code) => code,
    }
}

/// Failure of the vendor station driver.
#[derive(Clone, Copy, Debug, PartialEq, Eq, Structural)]
pub enum Ws63Error {
    Initialize(u32),
    Busy,
    Timeout,
    UnsupportedSecurity(i32),
    ConnectFailed(u16),
    Disconnected(u16),
    ConfigureSecurity(i32),
    StartConnect(i32),
    StartDisconnect(i32),
    Runtime(RuntimeError),
    TaskAdmission(TaskAdmissionError),
    AlreadyInitialized,
    SupplicantPort,
    CreateStation(i32),
    RegisterEvents(i32),
    OpenStation(i32),
    StartScan(i32),
    CryptoInitialize(i32),
    Timebase(u32),
    Crypto(u32),
    ScanFailed(ScanStatus),
    InvalidSsid,
    ProtectedNetwork,
    OpenNetwork,
    InvalidPassphrase,
    UnsupportedTarget,
}

/// The raw status that a driver failure carries, and whose status it is.
pub open spec fn driver_status(error: Ws63Error) -> Option<(DiagnosticTraceKind, u32)> {
    match error {
        Ws63Error::Initialize(code) => Some((DiagnosticTraceKind::VendorStatus, code)),
        Ws63Error::Timebase(code) => Some((DiagnosticTraceKind::VendorStatus, code)),
        Ws63Error::Crypto(code) => Some((DiagnosticTraceKind::VendorStatus, code)),
        Ws63Error::CreateStation(code) => Some((DiagnosticTraceKind::VendorStatus, code as u32)),
        Ws63Error::RegisterEvents(code) => Some((DiagnosticTraceKind::VendorStatus, code as u32)),
        Ws63Error::OpenStation(code) => Some((DiagnosticTraceKind::VendorStatus, code as u32)),
        Ws63Error::UnsupportedSecurity(code) => Some(
            (DiagnosticTraceKind::VendorStatus, code as u32),
        ),
        Ws63Error::CryptoInitialize(code) => Some((DiagnosticTraceKind::VendorStatus, code as u32)),
        Ws63Error::StartScan(code) => Some((DiagnosticTraceKind::VendorStatus, code as u32)),
        Ws63Error::ConfigureSecurity(code) => Some(
            (DiagnosticTraceKind::VendorStatus, code as u32),
        ),
        Ws63Error::StartConnect(code) => Some((DiagnosticTraceKind::VendorStatus, code as u32)),
        Ws63Error::StartDisconnect(code) => Some((DiagnosticTraceKind::VendorStatus, code as u32)),
        Ws63Error::ScanFailed(status) => Some(
            (DiagnosticTraceKind::VendorStatus, scan_status_number(status)),
        ),
        Ws63Error::ConnectFailed(status) => Some((DiagnosticTraceKind::IeeeStatus, status as u32)),
        Ws63Error::Disconnected(reason) => Some(
            (DiagnosticTraceKind::DisconnectReason, reason as u32),
        ),
        _ => None,
    }
}

pub fn ws63_error_trace(error: Ws63Error) -> (trace: Option<(DiagnosticTraceKind, u32)>)
    ensures
        trace == driver_status(error),
{
    match error {
        Ws63Error::Initialize(code) | Ws63Error::Timebase(code) | Ws63Error::Crypto(code) => Some(
            (DiagnosticTraceKind::VendorStatus, code),
        ),
        Ws63Error::CreateStation(code)
        | Ws63Error::RegisterEvents(code)
        | Ws63Error::OpenStation(code)
        | Ws63Error::UnsupportedSecurity(code)
        | Ws63Error::CryptoInitialize(code)
        | Ws63Error::StartScan(code)
        | Ws63Error::ConfigureSecurity(code)
        | Ws63Error::StartConnect(code)
        | Ws63Error::StartDisconnect(code) => Some(
            (DiagnosticTraceKind::VendorStatus, code as u32),
        ),
        Ws63Error::ScanFailed(status) => Some(
            (DiagnosticTraceKind::VendorStatus, scan_status_code(status)),
        ),
        Ws63Error::ConnectFailed(status) => Some((DiagnosticTraceKind::IeeeStatus, status as u32)),
        Ws63Error::Disconnected(reason) => Some(
            (DiagnosticTraceKind::DisconnectReason, reason as u32),
        ),
        Ws63Error::Busy
        | Ws63Error::Timeout
        | Ws63Error::Runtime(_)
        | Ws63Error::TaskAdmission(_)
        | Ws63Error::AlreadyInitialized
        | Ws63Error::SupplicantPort
        | Ws63Error::InvalidSsid
        | Ws63Error::ProtectedNetwork
        | Ws63Error::OpenNetwork
        | Ws63Error::InvalidPassphrase
        | Ws63Error::UnsupportedTarget => None,
    }
}

/// The class of a driver failure.
pub open spec fn driver_class(error: Ws63Error) -> BackendErrorClass {
    match error {
        Ws63Error::Initialize(_) => BackendErrorClass::Initialize,
        Ws63Error::TaskAdmission(_) => BackendErrorClass::Initialize,
        Ws63Error::AlreadyInitialized => BackendErrorClass::Initialize,
        Ws63Error::SupplicantPort => BackendErrorClass::Initialize,
        Ws63Error::CryptoInitialize(_) => BackendErrorClass::Initialize,
        Ws63Error::Busy => BackendErrorClass::Busy,
        Ws63Error::Timeout => BackendErrorClass::BackendTimeout,
        Ws63Error::UnsupportedSecurity(_) => BackendErrorClass::UnsupportedSecurity,
        Ws63Error::ProtectedNetwork => BackendErrorClass::UnsupportedSecurity,
        Ws63Error::OpenNetwork => BackendErrorClass::UnsupportedSecurity,
        Ws63Error::InvalidPassphrase => BackendErrorClass::UnsupportedSecurity,
        Ws63Error::ConnectFailed(_) => BackendErrorClass::Connect,
        Ws63Error::Disconnected(_) => BackendErrorClass::Connect,
        Ws63Error::ConfigureSecurity(_) => BackendErrorClass::Connect,
        Ws63Error::StartConnect(_) => BackendErrorClass::Connect,
        Ws63Error::StartDisconnect(_) => BackendErrorClass::Connect,
        _ => BackendErrorClass::Other,
    }
}

/// The stage at which a driver failure belongs.
pub open spec fn driver_stage(error: Ws63Error) -> DiagnosticStage {
    match error {
        Ws63Error::Busy => DiagnosticStage::Operation,
        Ws63Error::Timeout => DiagnosticStage::Operation,
        Ws63Error::UnsupportedSecurity(_) => DiagnosticStage::Connect,
        Ws63Error::ConfigureSecurity(_) => DiagnosticStage::Connect,
        Ws63Error::StartConnect(_) => DiagnosticStage::Connect,
        Ws63Error::Crypto(_) => DiagnosticStage::Connect,
        Ws63Error::ProtectedNetwork => DiagnosticStage::Connect,
        Ws63Error::OpenNetwork => DiagnosticStage::Connect,
        Ws63Error::InvalidPassphrase => DiagnosticStage::Connect,
        Ws63Error::ConnectFailed(_) => DiagnosticStage::Associate,
        Ws63Error::Disconnected(_) => DiagnosticStage::Disconnect,
        Ws63Error::StartDisconnect(_) => DiagnosticStage::Disconnect,
        Ws63Error::Runtime(_) => DiagnosticStage::Runtime,
        Ws63Error::TaskAdmission(_) => DiagnosticStage::Runtime,
        Ws63Error::Timebase(_) => DiagnosticStage::Runtime,
        Ws63Error::StartScan(_) => DiagnosticStage::Scan,
        Ws63Error::ScanFailed(_) => DiagnosticStage::Scan,
        Ws63Error::InvalidSsid => DiagnosticStage::Scan,
        _ => DiagnosticStage::Initialize,
    }
}

/// The code of a driver failure: its raw status where it carries one, otherwise
/// a number that names the failure.
pub open spec fn driver_code(error: Ws63Error) -> u32 {
    match error {
        Ws63Error::Busy => 1,
        Ws63Error::Timeout => 1,
        Ws63Error::AlreadyInitialized => 2,
        Ws63Error::SupplicantPort => 3,
        Ws63Error::InvalidSsid => 0x100,
        Ws63Error::ProtectedNetwork => 0x101,
        Ws63Error::OpenNetwork => 0x101,
        Ws63Error::InvalidPassphrase => 0x101,
        Ws63Error::UnsupportedTarget => u32::MAX,
        Ws63Error::Runtime(runtime) => 0x2000_0000u32 | crate::error::runtime_number(runtime),
        Ws63Error::TaskAdmission(admission) => 0x2100_0000u32 | crate::error::admission_number(admission) as u32,
        _ => driver_status(error).unwrap().1,
    }
}

/// The backend failure that stands for a driver failure.
pub open spec fn driver_failure(error: Ws63Error) -> BackendError {
    let mapped = staged(driver_class(error), driver_code(error), driver_stage(error));
    match driver_status(error) {
        Some((kind, value)) => mapped.traced(kind, value),
        None => mapped,
    }
}

/// Map a driver failure into the public schema. A raw status is never lost: it
/// is traced under the kind of its source.
pub fn map_error(error: Ws63Error) -> (mapped: BackendError)
    ensures
        mapped == driver_failure(error),
{
    let raw = ws63_error_trace(error);
    let (class, code, stage): (BackendErrorClass, u32, DiagnosticStage) = match error {
        Ws63Error::Initialize(code) => (
            BackendErrorClass::Initialize,
            code,
            DiagnosticStage::Initialize,
        ),
        Ws63Error::Busy => (BackendErrorClass::Busy, 1, DiagnosticStage::Operation),
        Ws63Error::Timeout => (BackendErrorClass::BackendTimeout, 1, DiagnosticStage::Operation),
        Ws63Error::UnsupportedSecurity(mode) => (
            BackendErrorClass::UnsupportedSecurity,
            mode as u32,
            DiagnosticStage::Connect,
        ),
        Ws63Error::ConnectFailed(status) => (
            BackendErrorClass::Connect,
            status as u32,
            DiagnosticStage::Associate,
        ),
        Ws63Error::Disconnected(reason) => (
            BackendErrorClass::Connect,
            reason as u32,
            DiagnosticStage::Disconnect,
        ),
        Ws63Error::ConfigureSecurity(code) | Ws63Error::StartConnect(code) => (
            BackendErrorClass::Connect,
            code as u32,
            DiagnosticStage::Connect,
        ),
        Ws63Error::StartDisconnect(code) => (
            BackendErrorClass::Connect,
            code as u32,
            DiagnosticStage::Disconnect,
        ),
        Ws63Error::Runtime(runtime) => (
            BackendErrorClass::Other,
            0x2000_0000 | runtime_code(runtime),
            DiagnosticStage::Runtime,
        ),
        Ws63Error::TaskAdmission(admission) => (
            BackendErrorClass::Initialize,
            0x2100_0000 | task_admission_code(admission),
            DiagnosticStage::Runtime,
        ),
        Ws63Error::AlreadyInitialized => (
            BackendErrorClass::Initialize,
            2,
            DiagnosticStage::Initialize,
        ),
        Ws63Error::SupplicantPort => (
            BackendErrorClass::Initialize,
            3,
            DiagnosticStage::Initialize,
        ),
        Ws63Error::CreateStation(code)
        | Ws63Error::RegisterEvents(code)
        | Ws63Error::OpenStation(code) => (
            BackendErrorClass::Other,
            code as u32,
            DiagnosticStage::Initialize,
        ),
        Ws63Error::StartScan(code) => (
            BackendErrorClass::Other,
            code as u32,
            DiagnosticStage::Scan,
        ),
        Ws63Error::CryptoInitialize(code) => (
            BackendErrorClass::Initialize,
            code as u32,
            DiagnosticStage::Initialize,
        ),
        Ws63Error::Timebase(code) => (BackendErrorClass::Other, code, DiagnosticStage::Runtime),
        Ws63Error::Crypto(code) => (BackendErrorClass::Other, code, DiagnosticStage::Connect),
        Ws63Error::ScanFailed(status) => (
            BackendErrorClass::Other,
            scan_status_code(status),
            DiagnosticStage::Scan,
        ),
        Ws63Error::InvalidSsid => (BackendErrorClass::Other, 0x100, DiagnosticStage::Scan),
        Ws63Error::ProtectedNetwork | Ws63Error::OpenNetwork | Ws63Error::InvalidPassphrase => (
            BackendErrorClass::UnsupportedSecurity,
            0x101,
            DiagnosticStage::Connect,
        ),
        Ws63Error::UnsupportedTarget => (
            BackendErrorClass::Other,
            u32::MAX,
            DiagnosticStage::Initialize,
        ),
    };
    let mapped = staged_error(class, code, stage);
    match raw {
        Some((kind, value)) => mapped.with_trace(kind, value),
        None => mapped,
    }
}

/// Failure of the native supplicant port.
#[derive(Clone, Copy, Debug, PartialEq, Eq, Structural)]
pub enum NativeSupplicantError {
    Port,
    InvalidContextLayout,
    AllocationFailed,
    CreateFailed,
    InitializeFailed(i32),
    EnableEapolFailed(i32),
    FeedMgmtFailed(i32),
    FeedScanFailed(i32),
    FeedLinkFailed(i32),
    FeedExternalAuthFailed(i32),
    FeedEapolFailed(i32),
    ConfigureFailed(i32),
    ConnectFailed(i32),
    DisconnectFailed(i32),
    PollFailed(i32),
    MgmtQueueOverflow(u32),
    ScanQueueOverflow(u32),
    LinkQueueOverflow(u32),
    ExternalAuthQueueOverflow(u32),
    InvalidResult,
}

/// The status or count that a supplicant failure carries.
pub enum NativeEvidence {
    /// A named failure without a number; its short name.
    Named(u32),
    /// The signed status of a hostap call, in its block of codes.
    Status(u32, i32),
    /// The number of dropped queue entries, in its block of codes.
    Dropped(u32, u32),
}

/// Where a supplicant failure stands among the codes, and what it carries.
pub open spec fn native_evidence(error: NativeSupplicantError) -> NativeEvidence {
    match error {
        NativeSupplicantError::Port => NativeEvidence::Named(1),
        NativeSupplicantError::InvalidContextLayout => NativeEvidence::Named(2),
        NativeSupplicantError::AllocationFailed => NativeEvidence::Named(3),
        NativeSupplicantError::CreateFailed => NativeEvidence::Named(4),
        NativeSupplicantError::InvalidResult => NativeEvidence::Named(5),
        NativeSupplicantError::InitializeFailed(status) => NativeEvidence::Status(0x1000, status),
        NativeSupplicantError::EnableEapolFailed(status) => NativeEvidence::Status(0x2000, status),
        NativeSupplicantError::FeedMgmtFailed(status) => NativeEvidence::Status(0x3000, status),
        NativeSupplicantError::FeedEapolFailed(status) => NativeEvidence::Status(0x4000, status),
        NativeSupplicantError::PollFailed(status) => NativeEvidence::Status(0x5000, status),
        NativeSupplicantError::MgmtQueueOverflow(count) => NativeEvidence::Dropped(0x6000, count),
        NativeSupplicantError::FeedScanFailed(status) => NativeEvidence::Status(0x7000, status),
        NativeSupplicantError::ScanQueueOverflow(count) => NativeEvidence::Dropped(0x8000, count),
        NativeSupplicantError::FeedLinkFailed(status) => NativeEvidence::Status(0x9000, status),
        NativeSupplicantError::LinkQueueOverflow(count) => NativeEvidence::Dropped(0xa000, count),
        NativeSupplicantError::ConfigureFailed(status) => NativeEvidence::Status(0xb000, status),
        NativeSupplicantError::ConnectFailed(status) => NativeEvidence::Status(0xc000, status),
        NativeSupplicantError::DisconnectFailed(status) => NativeEvidence::Status(0xd000, status),
        NativeSupplicantError::FeedExternalAuthFailed(status) => NativeEvidence::Status(
            0xe000,
            status,
        ),
        NativeSupplicantError::ExternalAuthQueueOverflow(count) => NativeEvidence::Dropped(
            0xf000,
            count,
        ),
    }
}

/// The class of a supplicant failure.
pub open spec fn native_class(error: NativeSupplicantError) -> BackendErrorClass {
    match error {
        NativeSupplicantError::Port => BackendErrorClass::Initialize,
        NativeSupplicantError::InvalidContextLayout => BackendErrorClass::Initialize,
        NativeSupplicantError::AllocationFailed => BackendErrorClass::Initialize,
        NativeSupplicantError::CreateFailed => BackendErrorClass::Initialize,
        NativeSupplicantError::InitializeFailed(_) => BackendErrorClass::Initialize,
        NativeSupplicantError::EnableEapolFailed(_) => BackendErrorClass::Initialize,
        NativeSupplicantError::FeedLinkFailed(_) => BackendErrorClass::Connect,
        NativeSupplicantError::LinkQueueOverflow(_) => BackendErrorClass::Connect,
        NativeSupplicantError::FeedExternalAuthFailed(_) => BackendErrorClass::Connect,
        NativeSupplicantError::ExternalAuthQueueOverflow(_) => BackendErrorClass::Connect,
        NativeSupplicantError::ConfigureFailed(_) => BackendErrorClass::Connect,
        NativeSupplicantError::ConnectFailed(_) => BackendErrorClass::Connect,
        NativeSupplicantError::DisconnectFailed(_) => BackendErrorClass::Connect,
        _ => BackendErrorClass::Other,
    }
}

/// The stage at which a supplicant failure belongs.
pub open spec fn native_stage(error: NativeSupplicantError) -> DiagnosticStage {
    match error {
        NativeSupplicantError::EnableEapolFailed(_) => DiagnosticStage::Eapol,
        NativeSupplicantError::FeedEapolFailed(_) => DiagnosticStage::Eapol,
        NativeSupplicantError::FeedMgmtFailed(_) => DiagnosticStage::Authenticate,
        NativeSupplicantError::MgmtQueueOverflow(_) => DiagnosticStage::Authenticate,
        NativeSupplicantError::FeedScanFailed(_) => DiagnosticStage::Scan,
        NativeSupplicantError::ScanQueueOverflow(_) => DiagnosticStage::Scan,
        NativeSupplicantError::FeedLinkFailed(_) => DiagnosticStage::Associate,
        NativeSupplicantError::LinkQueueOverflow(_) => DiagnosticStage::Associate,
        NativeSupplicantError::ConnectFailed(_) => DiagnosticStage::Associate,
        NativeSupplicantError::FeedExternalAuthFailed(_) => DiagnosticStage::Sae,
        NativeSupplicantError::ExternalAuthQueueOverflow(_) => DiagnosticStage::Sae,
        NativeSupplicantError::ConfigureFailed(_) => DiagnosticStage::Connect,
        NativeSupplicantError::DisconnectFailed(_) => DiagnosticStage::Disconnect,
        NativeSupplicantError::InvalidResult => DiagnosticStage::Backend,
        NativeSupplicantError::PollFailed(_) => DiagnosticStage::Runtime,
        _ => DiagnosticStage::Initialize,
    }
}

/// The code of a supplicant failure within `0x5732_0000..=0x5732_ffff`: its
/// block and the low twelve bits of its status, or its count up to 0xfff.
pub open spec fn native_code(error: NativeSupplicantError) -> u32 {
    match native_evidence(error) {
        NativeEvidence::Named(name) => 0x5732_0000u32 | name,
        NativeEvidence::Status(block, status) => 0x5732_0000u32 | (block | status as u32 & 0xfff),
        NativeEvidence::Dropped(block, count) => 0x5732_0000u32 | (block | (if count <= 0xfff {
            count
        } else {
            0xfff
        })),
    }
}

/// The backend failure that stands for a supplicant failure.
pub open spec fn native_failure(error: NativeSupplicantError) -> BackendError {
    let mapped = staged(native_class(error), native_code(error), native_stage(error));
    match native_evidence(error) {
        NativeEvidence::Named(_) => mapped,
        NativeEvidence::Status(_, status) => mapped.traced(
            DiagnosticTraceKind::HostapStatus,
            status as u32,
        ),
        NativeEvidence::Dropped(_, count) => mapped.traced(
            DiagnosticTraceKind::BackendStatus,
            count,
        ),
    }
}

/// Map a supplicant failure into the public schema. The raw status or count is
/// traced in full, whatever part of it the code has room for.
pub fn map_native_error(error: NativeSupplicantError) -> (mapped: BackendError)
    ensures
        mapped == native_failure(error),
{
    let raw_status: Option<u32> = match error {
        NativeSupplicantError::InitializeFailed(status)
        | NativeSupplicantError::EnableEapolFailed(status)
        | NativeSupplicantError::FeedMgmtFailed(status)
        | NativeSupplicantError::FeedScanFailed(status)
        | NativeSupplicantError::FeedLinkFailed(status)
        | NativeSupplicantError::FeedExternalAuthFailed(status)
        | NativeSupplicantError::FeedEapolFailed(status)
        | NativeSupplicantError::ConfigureFailed(status)
        | NativeSupplicantError::ConnectFailed(status)
        | NativeSupplicantError::DisconnectFailed(status)
        | NativeSupplicantError::PollFailed(status) => Some(status as u32),
        NativeSupplicantError::MgmtQueueOverflow(count)
        | NativeSupplicantError::ScanQueueOverflow(count)
        | NativeSupplicantError::LinkQueueOverflow(count)
        | NativeSupplicantError::ExternalAuthQueueOverflow(count) => Some(count),
        NativeSupplicantError::Port
        | NativeSupplicantError::InvalidContextLayout
        | NativeSupplicantError::AllocationFailed
        | NativeSupplicantError::CreateFailed
        | NativeSupplicantError::InvalidResult => None,
    };
    let (class, code, stage): (BackendErrorClass, u32, DiagnosticStage) = match error {
        NativeSupplicantError::Port => (
            BackendErrorClass::Initialize,
            1,
            DiagnosticStage::Initialize,
        ),
        NativeSupplicantError::InvalidContextLayout => (
            BackendErrorClass::Initialize,
            2,
            DiagnosticStage::Initialize,
        ),
        NativeSupplicantError::AllocationFailed => (
            BackendErrorClass::Initialize,
            3,
            DiagnosticStage::Initialize,
        ),
        NativeSupplicantError::CreateFailed => (
            BackendErrorClass::Initialize,
            4,
            DiagnosticStage::Initialize,
        ),
        NativeSupplicantError::InitializeFailed(status) => (
            BackendErrorClass::Initialize,
            0x1000 | status as u32 & 0xfff,
            DiagnosticStage::Initialize,
        ),
        NativeSupplicantError::EnableEapolFailed(status) => (
            BackendErrorClass::Initialize,
            0x2000 | status as u32 & 0xfff,
            DiagnosticStage::Eapol,
        ),
        NativeSupplicantError::FeedMgmtFailed(status) => (
            BackendErrorClass::Other,
            0x3000 | status as u32 & 0xfff,
            DiagnosticStage::Authenticate,
        ),
        NativeSupplicantError::FeedEapolFailed(status) => (
            BackendErrorClass::Other,
            0x4000 | status as u32 & 0xfff,
            DiagnosticStage::Eapol,
        ),
        NativeSupplicantError::MgmtQueueOverflow(count) => (
            BackendErrorClass::Other,
            0x6000 | count.min(0xfff),
            DiagnosticStage::Authenticate,
        ),
        NativeSupplicantError::FeedScanFailed(status) => (
            BackendErrorClass::Other,
            0x7000 | status as u32 & 0xfff,
            DiagnosticStage::Scan,
        ),
        NativeSupplicantError::ScanQueueOverflow(count) => (
            BackendErrorClass::Other,
            0x8000 | count.min(0xfff),
            DiagnosticStage::Scan,
        ),
        NativeSupplicantError::FeedLinkFailed(status) => (
            BackendErrorClass::Connect,
            0x9000 | status as u32 & 0xfff,
            DiagnosticStage::Associate,
        ),
        NativeSupplicantError::LinkQueueOverflow(count) => (
            BackendErrorClass::Connect,
            0xa000 | count.min(0xfff),
            DiagnosticStage::Associate,
        ),
        NativeSupplicantError::FeedExternalAuthFailed(status) => (
            BackendErrorClass::Connect,
            0xe000 | status as u32 & 0xfff,
            DiagnosticStage::Sae,
        ),
        NativeSupplicantError::ExternalAuthQueueOverflow(count) => (
            BackendErrorClass::Connect,
            0xf000 | count.min(0xfff),
            DiagnosticStage::Sae,
        ),
        NativeSupplicantError::ConfigureFailed(status) => (
            BackendErrorClass::Connect,
            0xb000 | status as u32 & 0xfff,
            DiagnosticStage::Connect,
        ),
        NativeSupplicantError::ConnectFailed(status) => (
            BackendErrorClass::Connect,
            0xc000 | status as u32 & 0xfff,
            DiagnosticStage::Associate,
        ),
        NativeSupplicantError::DisconnectFailed(status) => (
            BackendErrorClass::Connect,
            0xd000 | status as u32 & 0xfff,
            DiagnosticStage::Disconnect,
        ),
        NativeSupplicantError::InvalidResult => (
            BackendErrorClass::Other,
            5,
            DiagnosticStage::Backend,
        ),
        NativeSupplicantError::PollFailed(status) => (
            BackendErrorClass::Other,
            0x5000 | status as u32 & 0xfff,
            DiagnosticStage::Runtime,
        ),
    };
    let mapped = staged_error(class, 0x5732_0000 | code, stage);
    let status_kind = match error {
        NativeSupplicantError::MgmtQueueOverflow(_)
        | NativeSupplicantError::ScanQueueOverflow(_)
        | NativeSupplicantError::LinkQueueOverflow(_)
        | NativeSupplicantError::ExternalAuthQueueOverflow(_) => DiagnosticTraceKind::BackendStatus,
        _ => DiagnosticTraceKind::HostapStatus,
    };
    match raw_status {
        Some(status) => mapped.with_trace(status_kind, status),
        None => mapped,
    }
}

/// The block of a supplicant failure can be read back from its code: named
/// failures are in block zero, and every failure with a number has its own.
pub proof fn law_native_code_names_its_block(error: NativeSupplicantError)
    ensures
        native_code(error) >> 12 == 0x5_7320u32 + (match native_evidence(error) {
            NativeEvidence::Named(_) => 0u32,
            NativeEvidence::Status(block, _) => block >> 12,
            NativeEvidence::Dropped(block, _) => block >> 12,
        }),
{
    match native_evidence(error) {
        NativeEvidence::Named(name) => {
            assert(name <= 5 ==> (0x5732_0000u32 | name) >> 12 == 0x5_7320u32 + 0u32)
                by (bit_vector);
        },
        NativeEvidence::Status(block, status) => {
            let low = status as u32;
            assert(block & 0xfff == 0 && block <= 0xf000 ==> (0x5732_0000u32 | (block | low
                & 0xfff)) >> 12 == 0x5_7320u32 + (block >> 12)) by (bit_vector);
            assert(0x1000u32 & 0xfff == 0 && 0x2000u32 & 0xfff == 0 && 0x3000u32 & 0xfff == 0
                && 0x4000u32 & 0xfff == 0 && 0x5000u32 & 0xfff == 0 && 0x7000u32 & 0xfff == 0
                && 0x9000u32 & 0xfff == 0 && 0xb000u32 & 0xfff == 0 && 0xc000u32 & 0xfff == 0
                && 0xd000u32 & 0xfff == 0 && 0xe000u32 & 0xfff == 0) by (bit_vector);
        },
        NativeEvidence::Dropped(block, count) => {
            let low = if count <= 0xfff { count } else { 0xfff };
            assert(block & 0xfff == 0 && block <= 0xf000 && low <= 0xfff ==> (0x5732_0000u32 | (
            block | low)) >> 12 == 0x5_7320u32 + (block >> 12)) by (bit_vector);
            assert(0x6000u32 & 0xfff == 0 && 0x8000u32 & 0xfff == 0 && 0xa000u32 & 0xfff == 0
                && 0xf000u32 & 0xfff == 0) by (bit_vector);
        },
    }
}

/// The stage of a terminal connection failure. IEEE 802.11 status 30 is a
/// temporary rejection that belongs to protected-management-frame recovery.
pub open spec fn terminal_stage(status: i32) -> DiagnosticStage {
    if status == 30 {
        DiagnosticStage::Pmf
    } else {
        DiagnosticStage::Associate
    }
}

pub fn terminal_connect_stage(status: i32) -> (stage: DiagnosticStage)
    ensures
        stage == terminal_stage(status),
{
    if status == 30 {
        DiagnosticStage::Pmf
    } else {
        DiagnosticStage::Associate
    }
}

/// The failure of a connection attempt that ended with `status`.
pub open spec fn connect_failure(status: i32, context: u32, port: u32) -> BackendError {
    staged(BackendErrorClass::Connect, status as u32, terminal_stage(status)).traced(
        DiagnosticTraceKind::IeeeStatus,
        status as u32,
    ).traced(DiagnosticTraceKind::SupplicantContext, context).traced(
        DiagnosticTraceKind::DriverContext,
        port,
    )
}

pub fn backend_failure_error(status: i32, context_diagnostic: u32, port_diagnostic: u32) -> (error:
    BackendError)
    ensures
        error == connect_failure(status, context_diagnostic, port_diagnostic),
{
    staged_error(
        BackendErrorClass::Connect,
        status as u32,
        terminal_connect_stage(status),
    ).with_trace(DiagnosticTraceKind::IeeeStatus, status as u32).with_trace(
        DiagnosticTraceKind::SupplicantContext,
        context_diagnostic,
    ).with_trace(DiagnosticTraceKind::DriverContext, port_diagnostic)
}

/// The latest association result that the driver retained.
#[derive(Clone, Copy, Debug, PartialEq, Eq, Structural)]
pub struct AssociationAttempt {
    pub raw_status: u32,
    pub status: u32,
}

/// How far an attempt that ran out of time had come: an accepted association
/// without any EAPOL frame stalled in the key exchange, a temporary rejection in
/// protected-management-frame recovery.
pub open spec fn timeout_stage(
    latest: Option<AssociationAttempt>,
    eapol_received: u32,
) -> DiagnosticStage {
    match latest {
        Some(attempt) => if attempt.status == 0 && eapol_received == 0 {
            DiagnosticStage::Eapol
        } else if attempt.status == 30 {
            DiagnosticStage::Pmf
        } else {
            DiagnosticStage::Connect
        },
        None => DiagnosticStage::Connect,
    }
}

pub fn classify_connect_timeout_stage(
    latest: Option<AssociationAttempt>,
    eapol_received: u32,
) -> (stage: DiagnosticStage)
    ensures
        stage == timeout_stage(latest, eapol_received),
{
    match latest {
        Some(attempt) => if attempt.status == 0 && eapol_received == 0 {
            DiagnosticStage::Eapol
        } else if attempt.status == 30 {
            DiagnosticStage::Pmf
        } else {
            DiagnosticStage::Connect
        },
        None => DiagnosticStage::Connect,
    }
}

/// The failure of a connection attempt that ran out of time.
pub open spec fn connect_timeout(
    last_event_kind: u8,
    context: u32,
    port: u32,
    latest: Option<AssociationAttempt>,
    eapol_received: u32,
) -> BackendError {
    let timed_out = staged(
        BackendErrorClass::BackendTimeout,
        0x8000_0000u32 | ((last_event_kind as u32 & 0x7) << 28) | ((context & 0x0fff) << 16) | port,
        timeout_stage(latest, eapol_received),
    ).traced(DiagnosticTraceKind::SupplicantContext, context).traced(
        DiagnosticTraceKind::DriverContext,
        port,
    );
    match latest {
        Some(attempt) => timed_out.traced(
            DiagnosticTraceKind::VendorStatus,
            attempt.raw_status,
        ).traced(DiagnosticTraceKind::IeeeStatus, attempt.status),
        None => timed_out,
    }
}

pub fn connect_timeout_error(
    last_event_kind: u8,
    context_diagnostic: u32,
    port_diagnostic: u32,
    latest_attempt: Option<AssociationAttempt>,
    eapol_received: u32,
) -> (error: BackendError)
    ensures
        error == connect_timeout(
            last_event_kind,
            context_diagnostic,
            port_diagnostic,
            latest_attempt,
            eapol_received,
        ),
{
    let error = staged_error(
        BackendErrorClass::BackendTimeout,
        0x8000_0000 | ((last_event_kind as u32 & 0x7) << 28) | ((context_diagnostic & 0x0fff) << 16)
            | port_diagnostic,
        classify_connect_timeout_stage(latest_attempt, eapol_received),
    ).with_trace(DiagnosticTraceKind::SupplicantContext, context_diagnostic).with_trace(
        DiagnosticTraceKind::DriverContext,
        port_diagnostic,
    );
    match latest_attempt {
        Some(attempt) => error.with_trace(
            DiagnosticTraceKind::VendorStatus,
            attempt.raw_status,
        ).with_trace(DiagnosticTraceKind::IeeeStatus, attempt.status),
        None => error,
    }
}

/// A failed wait of the radio runtime.
pub open spec fn wait_failure(error: RuntimeError) -> BackendError {
    staged(
        BackendErrorClass::Other,
        0x5732_e000u32 | crate::error::runtime_number(error),
        DiagnosticStage::Runtime,
    ).traced(DiagnosticTraceKind::RuntimeCode, crate::error::runtime_number(error))
}

pub fn runtime_wait_error(error: RuntimeError) -> (mapped: BackendError)
    ensures
        mapped == wait_failure(error),
{
    let code: u32 = runtime_code(error);
    staged_error(
        BackendErrorClass::Other,
        0x5732_e000 | code,
        DiagnosticStage::Runtime,
    ).with_trace(DiagnosticTraceKind::RuntimeCode, code)
}

/// One native supplicant event.
#[derive(Clone, Copy, Debug, PartialEq, Eq, Structural)]
pub struct NativeEvent {
    pub kind: u8,
    pub status: i32,
}

/// What the vendor side answered to a [`StationAction`].
#[derive(Clone, Copy, Debug)]
pub enum StationReply {
    /// The outcome of a configuration, a submission or a supplicant poll.
    Submitted(Result<(), NativeSupplicantError>),
    /// Monotonic milliseconds.
    Clock(u64),
    /// The next supplicant event, if one is queued.
    Event(Result<Option<NativeEvent>, NativeSupplicantError>),
    /// Supplicant context and driver words.
    FailureWords { context: u32, port: u32 },
    /// Everything that explains a timeout.
    TimeoutEvidence {
        context: u32,
        port: u32,
        latest: Option<AssociationAttempt>,
        eapol_received: u32,
    },
    /// A best-effort disconnect returned; its outcome is not looked at.
    Abandoned,
    /// A sleep ended.
    Slept(Result<(), RuntimeError>),
}

/// What a blocking station operation asks of the vendor side next.
#[derive(Clone, Copy, Debug)]
pub enum StationAction {
    Configure,
    Connect,
    Disconnect,
    ReadClock,
    /// Advance the supplicant by at most this many events.
    Poll(u32),
    NextEvent,
    ReadFailureWords,
    ReadTimeoutEvidence,
    /// Disconnect without looking at the outcome.
    Abandon,
    /// Sleep for this many milliseconds.
    Sleep(u32),
    /// The connection attempt is over.
    Connected(Result<ConnectionInfo, BackendError>),
    /// The disconnection is over.
    Disconnected(Result<(), BackendError>),
}

/// Where a connection attempt stands: which reply it waits for.
#[derive(Clone, Copy, Debug)]
pub enum ConnectPhase {
    Configuring,
    Submitting,
    Starting,
    Polling,
    Draining,
    CheckingDeadline,
    /// A terminal event with this status arrived.
    Failing(i32),
    /// The deadline passed after a disconnect with this status.
    Expiring(i32),
    ReadingEvidence,
    Abandoning(BackendError),
    Sleeping,
    Over,
}

/// One blocking connection attempt.
#[derive(Clone, Copy, Debug)]
pub struct ConnectAttempt {
    pub bssid: [u8; 6],
    pub channel: u8,
    pub timeout_ms: u32,
    pub started_at: u64,
    pub last_event_kind: u8,
    pub last_disconnect_status: Option<i32>,
    pub phase: ConnectPhase,
}

impl ConnectAttempt {
    /// `reply` answers what the attempt last asked for.
    pub open spec fn awaits(self, reply: StationReply) -> bool {
        match self.phase {
            ConnectPhase::Configuring => reply is Submitted,
            ConnectPhase::Submitting => reply is Submitted,
            ConnectPhase::Starting => reply is Clock,
            ConnectPhase::Polling => reply is Submitted,
            ConnectPhase::Draining => reply is Event,
            ConnectPhase::CheckingDeadline => reply is Clock,
            ConnectPhase::Failing(_) => reply is FailureWords,
            ConnectPhase::Expiring(_) => reply is FailureWords,
            ConnectPhase::ReadingEvidence => reply is TimeoutEvidence,
            ConnectPhase::Abandoning(_) => reply is Abandoned,
            ConnectPhase::Sleeping => reply is Slept,
            ConnectPhase::Over => false,
        }
    }

    /// The attempt is over with `result`.
    pub open spec fn ended(self, result: Result<ConnectionInfo, BackendError>) -> (
        ConnectAttempt,
        StationAction,
    ) {
        (
            ConnectAttempt { phase: ConnectPhase::Over, ..self },
            StationAction::Connected(result),
        )
    }

    /// The attempt goes on in `phase` after asking for `action`.
    pub open spec fn going(self, phase: ConnectPhase, action: StationAction) -> (
        ConnectAttempt,
        StationAction,
    ) {
        (ConnectAttempt { phase, ..self }, action)
    }

    /// One supplicant event during the attempt. A disconnect is an intermediate
    /// state; only authorization, a terminal failure or the deadline ends it.
    pub open spec fn after_event(self, event: NativeEvent) -> (ConnectAttempt, StationAction) {
        let seen = ConnectAttempt { last_event_kind: event.kind, ..self };
        match native_event(event.kind) {
            NativeConnectEvent::Progress => seen.going(
                ConnectPhase::Draining,
                StationAction::NextEvent,
            ),
            NativeConnectEvent::Authorized => seen.ended(
                Ok(
                    ConnectionInfo {
                        bssid: self.bssid,
                        frequency_mhz: frequency_of(self.channel),
                    },
                ),
            ),
            NativeConnectEvent::Disconnected => (ConnectAttempt {
                last_disconnect_status: if event.status != 0 {
                    Some(event.status)
                } else {
                    self.last_disconnect_status
                },
                ..seen
            }).going(ConnectPhase::Draining, StationAction::NextEvent),
            NativeConnectEvent::Failed => seen.going(
                ConnectPhase::Failing(event.status),
                StationAction::ReadFailureWords,
            ),
        }
    }

    /// The attempt has run for at least its timeout at `now`, on a wrapping
    /// clock.
    pub open spec fn expired(self, now: u64) -> bool {
        (now - self.started_at) % 0x1_0000_0000_0000_0000 >= self.timeout_ms
    }

    /// The next state and request after `reply`.
    pub open spec fn next(self, reply: StationReply) -> (ConnectAttempt, StationAction) {
        match (self.phase, reply) {
            (ConnectPhase::Configuring, StationReply::Submitted(Ok(_))) => self.going(
                ConnectPhase::Submitting,
                StationAction::Connect,
            ),
            (ConnectPhase::Submitting, StationReply::Submitted(Ok(_))) => self.going(
                ConnectPhase::Starting,
                StationAction::ReadClock,
            ),
            (ConnectPhase::Starting, StationReply::Clock(now)) => (ConnectAttempt {
                started_at: now,
                ..self
            }).going(ConnectPhase::Polling, StationAction::Poll(32)),
            (ConnectPhase::Polling, StationReply::Submitted(Ok(_))) => self.going(
                ConnectPhase::Draining,
                StationAction::NextEvent,
            ),
            (_, StationReply::Submitted(Err(error))) => self.ended(Err(native_failure(error))),
            (_, StationReply::Event(Err(error))) => self.ended(Err(native_failure(error))),
            (_, StationReply::Event(Ok(Some(event)))) => self.after_event(event),
            (_, StationReply::Event(Ok(None))) => self.going(
                ConnectPhase::CheckingDeadline,
                StationAction::ReadClock,
            ),
            (ConnectPhase::CheckingDeadline, StationReply::Clock(now)) => if !self.expired(now) {
                self.going(ConnectPhase::Sleeping, StationAction::Sleep(1))
            } else {
                match self.last_disconnect_status {
                    Some(status) => self.going(
                        ConnectPhase::Expiring(status),
                        StationAction::ReadFailureWords,
                    ),
                    None => self.going(
                        ConnectPhase::ReadingEvidence,
                        StationAction::ReadTimeoutEvidence,
                    ),
                }
            },
            (ConnectPhase::Failing(status), StationReply::FailureWords { context, port }) =>
            self.ended(Err(connect_failure(status, context, port))),
            (ConnectPhase::Expiring(status), StationReply::FailureWords { context, port }) =>
            self.going(
                ConnectPhase::Abandoning(connect_failure(status, context, port)),
                StationAction::Abandon,
            ),
            (
                _,
                StationReply::TimeoutEvidence { context, port, latest, eapol_received },
            ) => self.going(
                ConnectPhase::Abandoning(
                    connect_timeout(self.last_event_kind, context, port, latest, eapol_received),
                ),
                StationAction::Abandon,
            ),
            (ConnectPhase::Abandoning(error), StationReply::Abandoned) => self.ended(Err(error)),
            (_, StationReply::Slept(Ok(_))) => self.going(
                ConnectPhase::Polling,
                StationAction::Poll(32),
            ),
            (_, StationReply::Slept(Err(error))) => self.ended(Err(wait_failure(error))),
            _ => self.ended(Err(uninitialized())),
        }
    }

    /// Start an attempt; without a supplicant it is over at once.
    pub fn begin(supplicant_ready: bool, bssid: [u8; 6], channel: u8, timeout_ms: u32) -> (step: (
        Self,
        StationAction,
    ))
        ensures
            step.0.bssid == bssid && step.0.channel == channel && step.0.timeout_ms == timeout_ms,
            step.0.started_at == 0 && step.0.last_event_kind == 0,
            step.0.last_disconnect_status is None,
            supplicant_ready ==> step.0.phase is Configuring && step.1 is Configure,
            !supplicant_ready ==> step.0.phase is Over && step.1 == StationAction::Connected(
                Err(uninitialized()),
            ),
    {
        let attempt = ConnectAttempt {
            bssid,
            channel,
            timeout_ms,
            started_at: 0,
            last_event_kind: 0,
            last_disconnect_status: None,
            phase: if supplicant_ready {
                ConnectPhase::Configuring
            } else {
                ConnectPhase::Over
            },
        };
        if supplicant_ready {
            (attempt, StationAction::Configure)
        } else {
            (attempt, StationAction::Connected(Err(not_initialized())))
        }
    }

    fn observe(&mut self, event: NativeEvent) -> (action: StationAction)
        ensures
            (*final(self), action) == old(self).after_event(event),
    {
        self.last_event_kind = event.kind;
        match classify_native_connect_event(event.kind) {
            NativeConnectEvent::Progress => {
                self.phase = ConnectPhase::Draining;
                StationAction::NextEvent
            },
            NativeConnectEvent::Authorized => {
                self.phase = ConnectPhase::Over;
                StationAction::Connected(
                    Ok(
                        ConnectionInfo {
                            bssid: self.bssid,
                            frequency_mhz: channel_to_frequency(self.channel),
                        },
                    ),
                )
            },
            NativeConnectEvent::Disconnected => {
                if event.status != 0 {
                    self.last_disconnect_status = Some(event.status);
                }
                self.phase = ConnectPhase::Draining;
                StationAction::NextEvent
            },
            NativeConnectEvent::Failed => {
                self.phase = ConnectPhase::Failing(event.status);
                StationAction::ReadFailureWords
            },
        }
    }

    /// Take the reply to the last request and decide what comes next.
    pub fn resume(&mut self, reply: StationReply) -> (action: StationAction)
        requires
            old(self).awaits(reply),
        ensures
            (*final(self), action) == old(self).next(reply),
    {
        match (self.phase, reply) {
            (ConnectPhase::Configuring, StationReply::Submitted(Ok(_))) => {
                self.phase = ConnectPhase::Submitting;
                StationAction::Connect
            },
            (ConnectPhase::Submitting, StationReply::Submitted(Ok(_))) => {
                self.phase = ConnectPhase::Starting;
                StationAction::ReadClock
            },
            (ConnectPhase::Starting, StationReply::Clock(now)) => {
                self.started_at = now;
                self.phase = ConnectPhase::Polling;
                StationAction::Poll(32)
            },
            (ConnectPhase::Polling, StationReply::Submitted(Ok(_))) => {
                self.phase = ConnectPhase::Draining;
                StationAction::NextEvent
            },
            (_, StationReply::Submitted(Err(error))) | (_, StationReply::Event(Err(error))) => {
                self.phase = ConnectPhase::Over;
                StationAction::Connected(Err(map_native_error(error)))
            },
            (_, StationReply::Event(Ok(Some(event)))) => self.observe(event),
            (_, StationReply::Event(Ok(None))) => {
                self.phase = ConnectPhase::CheckingDeadline;
                StationAction::ReadClock
            },
            (ConnectPhase::CheckingDeadline, StationReply::Clock(now)) => {
                let elapsed: u64 = now.wrapping_sub(self.started_at);
                if elapsed < self.timeout_ms as u64 {
                    self.phase = ConnectPhase::Sleeping;
                    StationAction::Sleep(1)
                } else {
                    match self.last_disconnect_status {
                        Some(status) => {
                            self.phase = ConnectPhase::Expiring(status);
                            StationAction::ReadFailureWords
                        },
                        None => {
                            self.phase = ConnectPhase::ReadingEvidence;
                            StationAction::ReadTimeoutEvidence
                        },
                    }
                }
            },
            (ConnectPhase::Failing(status), StationReply::FailureWords { context, port }) => {
                self.phase = ConnectPhase::Over;
                StationAction::Connected(Err(backend_failure_error(status, context, port)))
            },
            (ConnectPhase::Expiring(status), StationReply::FailureWords { context, port }) => {
                self.phase = ConnectPhase::Abandoning(backend_failure_error(status, context, port));
                StationAction::Abandon
            },
            (_, StationReply::TimeoutEvidence { context, port, latest, eapol_received }) => {
                self.phase = ConnectPhase::Abandoning(
                    connect_timeout_error(
                        self.last_event_kind,
                        context,
                        port,
                        latest,
                        eapol_received,
                    ),
                );
                StationAction::Abandon
            },
            (ConnectPhase::Abandoning(error), StationReply::Abandoned) => {
                self.phase = ConnectPhase::Over;
                StationAction::Connected(Err(error))
            },
            (_, StationReply::Slept(Ok(_))) => {
                self.phase = ConnectPhase::Polling;
                StationAction::Poll(32)
            },
            (_, StationReply::Slept(Err(error))) => {
                self.phase = ConnectPhase::Over;
                StationAction::Connected(Err(runtime_wait_error(error)))
            },
            _ => {
                self.phase = ConnectPhase::Over;
                StationAction::Connected(Err(not_initialized()))
            },
        }
    }
}

/// A disconnect event never ends a connection attempt by itself.
pub proof fn law_disconnect_is_recoverable(attempt: ConnectAttempt, event: NativeEvent)
    requires
        native_event(event.kind) is Disconnected,
    ensures
        attempt.after_event(event).0.phase is Draining,
        attempt.after_event(event).1 is NextEvent,
        event.status != 0 ==> attempt.after_event(event).0.last_disconnect_status == Some(
            event.status,
        ),
{
}

/// An attempt succeeds only on an authorization event, and then with the BSSID
/// and the channel that were asked for.
pub proof fn law_connect_succeeds_only_when_authorized(
    attempt: ConnectAttempt,
    reply: StationReply,
)
    requires
        attempt.awaits(reply),
    ensures
        attempt.next(reply).1 matches StationAction::Connected(Ok(info)) ==> {
            &&& reply matches StationReply::Event(Ok(Some(event)))
            &&& native_event(event.kind) is Authorized
            &&& info.bssid == attempt.bssid
            &&& info.frequency_mhz == frequency_of(attempt.channel)
        },
{
}

/// Where a disconnection stands: which reply it waits for.
#[derive(Clone, Copy, Debug)]
pub enum DisconnectPhase {
    Submitting,
    Starting,
    Polling,
    Draining,
    CheckingDeadline,
    Sleeping,
    Over,
}

/// One blocking disconnection.
#[derive(Clone, Copy, Debug)]
pub struct DisconnectAttempt {
    pub timeout_ms: u32,
    pub started_at: u64,
    pub phase: DisconnectPhase,
}

impl DisconnectAttempt {
    /// `reply` answers what the disconnection last asked for.
    pub open spec fn awaits(self, reply: StationReply) -> bool {
        match self.phase {
            DisconnectPhase::Submitting => reply is Submitted,
            DisconnectPhase::Starting => reply is Clock,
            DisconnectPhase::Polling => reply is Submitted,
            DisconnectPhase::Draining => reply is Event,
            DisconnectPhase::CheckingDeadline => reply is Clock,
            DisconnectPhase::Sleeping => reply is Slept,
            DisconnectPhase::Over => false,
        }
    }

    pub open spec fn ended(self, result: Result<(), BackendError>) -> (
        DisconnectAttempt,
        StationAction,
    ) {
        (
            DisconnectAttempt { phase: DisconnectPhase::Over, ..self },
            StationAction::Disconnected(result),
        )
    }

    pub open spec fn going(self, phase: DisconnectPhase, action: StationAction) -> (
        DisconnectAttempt,
        StationAction,
    ) {
        (DisconnectAttempt { phase, ..self }, action)
    }

    pub open spec fn expired(self, now: u64) -> bool {
        (now - self.started_at) % 0x1_0000_0000_0000_0000 >= self.timeout_ms
    }

    /// The next state and request after `reply`: the first disconnect event
    /// completes the operation, a terminal failure or the deadline fails it.
    pub open spec fn next(self, reply: StationReply) -> (DisconnectAttempt, StationAction) {
        match (self.phase, reply) {
            (DisconnectPhase::Submitting, StationReply::Submitted(Ok(_))) => self.going(
                DisconnectPhase::Starting,
                StationAction::ReadClock,
            ),
            (DisconnectPhase::Starting, StationReply::Clock(now)) => (DisconnectAttempt {
                started_at: now,
                ..self
            }).going(DisconnectPhase::Polling, StationAction::Poll(32)),
            (DisconnectPhase::Polling, StationReply::Submitted(Ok(_))) => self.going(
                DisconnectPhase::Draining,
                StationAction::NextEvent,
            ),
            (_, StationReply::Submitted(Err(error))) => self.ended(Err(native_failure(error))),
            (_, StationReply::Event(Err(error))) => self.ended(Err(native_failure(error))),
            (_, StationReply::Event(Ok(Some(event)))) => match native_event(event.kind) {
                NativeConnectEvent::Disconnected => self.ended(Ok(())),
                NativeConnectEvent::Failed => self.ended(
                    Err(
                        staged(
                            BackendErrorClass::Connect,
                            event.status as u32,
                            DiagnosticStage::Disconnect,
                        ).traced(DiagnosticTraceKind::DisconnectReason, event.status as u32),
                    ),
                ),
                _ => self.going(DisconnectPhase::Draining, StationAction::NextEvent),
            },
            (_, StationReply::Event(Ok(None))) => self.going(
                DisconnectPhase::CheckingDeadline,
                StationAction::ReadClock,
            ),
            (DisconnectPhase::CheckingDeadline, StationReply::Clock(now)) => if self.expired(
                now,
            ) {
                self.ended(
                    Err(
                        staged(
                            BackendErrorClass::BackendTimeout,
                            2,
                            DiagnosticStage::Disconnect,
                        ),
                    ),
                )
            } else {
                self.going(DisconnectPhase::Sleeping, StationAction::Sleep(1))
            },
            (_, StationReply::Slept(Ok(_))) => self.going(
                DisconnectPhase::Polling,
                StationAction::Poll(32),
            ),
            (_, StationReply::Slept(Err(error))) => self.ended(Err(wait_failure(error))),
            _ => self.ended(Err(uninitialized())),
        }
    }

    /// Start a disconnection; without a supplicant it is over at once.
    pub fn begin(supplicant_ready: bool, timeout_ms: u32) -> (step: (Self, StationAction))
        ensures
            step.0.timeout_ms == timeout_ms && step.0.started_at == 0,
            supplicant_ready ==> step.0.phase is Submitting && step.1 is Disconnect,
            !supplicant_ready ==> step.0.phase is Over && step.1 == StationAction::Disconnected(
                Err(uninitialized()),
            ),
    {
        if supplicant_ready {
            (
                DisconnectAttempt {
                    timeout_ms,
                    started_at: 0,
                    phase: DisconnectPhase::Submitting,
                },
                StationAction::Disconnect,
            )
        } else {
            (
                DisconnectAttempt { timeout_ms, started_at: 0, phase: DisconnectPhase::Over },
                StationAction::Disconnected(Err(not_initialized())),
            )
        }
    }

    /// Take the reply to the last request and decide what comes next.
    pub fn resume(&mut self, reply: StationReply) -> (action: StationAction)
        requires
            old(self).awaits(reply),
        ensures
            (*final(self), action) == old(self).next(reply),
    {
        match (self.phase, reply) {
            (DisconnectPhase::Submitting, StationReply::Submitted(Ok(_))) => {
                self.phase = DisconnectPhase::Starting;
                StationAction::ReadClock
            },
            (DisconnectPhase::Starting, StationReply::Clock(now)) => {
                self.started_at = now;
                self.phase = DisconnectPhase::Polling;
                StationAction::Poll(32)
            },
            (DisconnectPhase::Polling, StationReply::Submitted(Ok(_))) => {
                self.phase = DisconnectPhase::Draining;
                StationAction::NextEvent
            },
            (_, StationReply::Submitted(Err(error))) | (_, StationReply::Event(Err(error))) => {
                self.phase = DisconnectPhase::Over;
                StationAction::Disconnected(Err(map_native_error(error)))
            },
            (_, StationReply::Event(Ok(Some(event)))) => {
                if event.kind == NATIVE_EVENT_DISCONNECTED {
                    self.phase = DisconnectPhase::Over;
                    StationAction::Disconnected(Ok(()))
                } else if event.kind == NATIVE_EVENT_FAILED {
                    self.phase = DisconnectPhase::Over;
                    StationAction::Disconnected(
                        Err(
                            staged_error(
                                BackendErrorClass::Connect,
                                event.status as u32,
                                DiagnosticStage::Disconnect,
                            ).with_trace(
                                DiagnosticTraceKind::DisconnectReason,
                                event.status as u32,
                            ),
                        ),
                    )
                } else {
                    self.phase = DisconnectPhase::Draining;
                    StationAction::NextEvent
                }
            },
            (_, StationReply::Event(Ok(None))) => {
                self.phase = DisconnectPhase::CheckingDeadline;
                StationAction::ReadClock
            },
            (DisconnectPhase::CheckingDeadline, StationReply::Clock(now)) => {
                let elapsed: u64 = now.wrapping_sub(self.started_at);
                if elapsed >= self.timeout_ms as u64 {
                    self.phase = DisconnectPhase::Over;
                    StationAction::Disconnected(
                        Err(
                            staged_error(
                                BackendErrorClass::BackendTimeout,
                                2,
                                DiagnosticStage::Disconnect,
                            ),
                        ),
                    )
                } else {
                    self.phase = DisconnectPhase::Sleeping;
                    StationAction::Sleep(1)
                }
            },
            (_, StationReply::Slept(Ok(_))) => {
                self.phase = DisconnectPhase::Polling;
                StationAction::Poll(32)
            },
            (_, StationReply::Slept(Err(error))) => {
                self.phase = DisconnectPhase::Over;
                StationAction::Disconnected(Err(runtime_wait_error(error)))
            },
            _ => {
                self.phase = DisconnectPhase::Over;
                StationAction::Disconnected(Err(not_initialized()))
            },
        }
    }
}

/// Whether a BSS asks for any link-layer security.
#[derive(Clone, Copy, Debug, PartialEq, Eq, Structural)]
pub enum ScanSecurity {
    Open,
    Protected,
}

/// One BSS as the vendor driver reported it.
#[derive(Debug)]
pub struct Ws63ScanResult {
    pub ssid: Vec<u8>,
    pub bssid: [u8; 6],
    pub frequency_mhz: u16,
    pub rssi_dbm: i16,
    pub security: ScanSecurity,
    pub supports_wpa2_personal: bool,
    pub supports_wpa3_personal: bool,
    pub supports_wpa2_wpa3_transition: bool,
    pub channel: u8,
}

/// The security class that a build with or without WPA3 reports for a BSS.
pub open spec fn discovered_security(scan: Ws63ScanResult, wpa3: bool) -> Security {
    if scan.security is Open {
        Security::Open
    } else if wpa3 && scan.supports_wpa2_wpa3_transition {
        Security::Wpa2Wpa3PersonalTransition
    } else if wpa3 && scan.supports_wpa3_personal {
        Security::Wpa3Personal
    } else if scan.supports_wpa2_personal {
        Security::Wpa2Personal
    } else {
        Security::OtherProtected
    }
}

/// `scan` has a name that the public schema can hold.
pub open spec fn nameable(scan: Ws63ScanResult) -> bool {
    1 <= scan.ssid@.len() <= 32
}

/// `result` is the public form of `scan`.
pub open spec fn converted(result: ScanResult, scan: Ws63ScanResult, wpa3: bool) -> bool {
    &&& crate::radio::ssid_bytes(result.ssid) == scan.ssid@
    &&& result.bssid == scan.bssid
    &&& result.frequency_mhz == scan.frequency_mhz
    &&& result.rssi_dbm == scan.rssi_dbm
    &&& result.security == discovered_security(scan, wpa3)
    &&& result.channel == scan.channel
}

/// Convert one vendor result; a BSS without a valid name has no public form.
pub fn convert_scan_result(scan: &Ws63ScanResult, wpa3: bool) -> (result: Option<ScanResult>)
    ensures
        result is Some <==> nameable(*scan),
        result matches Some(public) ==> converted(public, *scan, wpa3),
{
    match ssid_from_bytes(scan.ssid.as_slice()) {
        None => None,
        Some(ssid) => {
            let security = match scan.security {
                ScanSecurity::Open => Security::Open,
                ScanSecurity::Protected => if wpa3 && scan.supports_wpa2_wpa3_transition {
                    Security::Wpa2Wpa3PersonalTransition
                } else if wpa3 && scan.supports_wpa3_personal {
                    Security::Wpa3Personal
                } else if scan.supports_wpa2_personal {
                    Security::Wpa2Personal
                } else {
                    Security::OtherProtected
                },
            };
            Some(
                ScanResult {
                    ssid,
                    bssid: scan.bssid,
                    frequency_mhz: scan.frequency_mhz,
                    rssi_dbm: scan.rssi_dbm,
                    security,
                    channel: scan.channel,
                },
            )
        },
    }
}

/// A BSS is reported as open exactly when the driver found it open, and as one of
/// the personal modes only when it advertises that mode; WPA3 and its transition
/// mode need a build with WPA3. Nothing that a protected BSS advertises is passed
/// over for a weaker mode.
pub proof fn law_reported_security_is_what_the_network_advertises(
    scan: Ws63ScanResult,
    wpa3: bool,
    result: ScanResult,
)
    requires
        call_ensures(convert_scan_result, (&scan, wpa3), Some(result)),
    ensures
        result.security is Open <==> scan.security is Open,
        result.security is Wpa2Wpa3PersonalTransition <==> scan.security is Protected && wpa3
            && scan.supports_wpa2_wpa3_transition,
        result.security is Wpa3Personal <==> scan.security is Protected && wpa3
            && scan.supports_wpa3_personal && !scan.supports_wpa2_wpa3_transition,
        result.security is Wpa2Personal ==> scan.security is Protected
            && scan.supports_wpa2_personal,
        scan.security is Protected && scan.supports_wpa2_personal && !wpa3
            ==> result.security is Wpa2Personal,
        scan.security is Protected && scan.supports_wpa2_personal
            ==> !(result.security is OtherProtected),
        result.security is OtherProtected ==> scan.security is Protected
            && !scan.supports_wpa2_personal && (wpa3 ==> !scan.supports_wpa3_personal
            && !scan.supports_wpa2_wpa3_transition),
{
}

/// The public form of a BSS has its name, address, signal, frequency and channel,
/// and a BSS has one exactly when its name is between one and 32 bytes long.
pub proof fn law_scan_result_describes_the_network(
    scan: Ws63ScanResult,
    wpa3: bool,
    result: Option<ScanResult>,
)
    requires
        call_ensures(convert_scan_result, (&scan, wpa3), result),
    ensures
        result is None <==> scan.ssid@.len() == 0 || scan.ssid@.len() > 32,
        result matches Some(found) ==> {
            &&& crate::radio::ssid_bytes(found.ssid) == scan.ssid@
            &&& found.bssid@ == scan.bssid@
            &&& found.rssi_dbm == scan.rssi_dbm
            &&& found.frequency_mhz == scan.frequency_mhz
            &&& found.channel == scan.channel
        },
{
}

/// The nameable results of a scan, in order.
pub open spec fn named(scans: Seq<Ws63ScanResult>) -> Seq<Ws63ScanResult>
    decreases scans.len(),
{
    if scans.len() == 0 {
        seq![]
    } else {
        let earlier = named(scans.drop_last());
        if nameable(scans.last()) {
            earlier.push(scans.last())
        } else {
            earlier
        }
    }
}

/// Later results only append.
proof fn lemma_named_prefix(scans: Seq<Ws63ScanResult>, seen: int)
    requires
        0 <= seen <= scans.len(),
    ensures
        named(scans.take(seen)).len() <= named(scans).len(),
        named(scans.take(seen)).len() <= seen,
        forall|i: int|
            0 <= i < named(scans.take(seen)).len() ==> named(scans.take(seen))[i] == named(scans)[i],
    decreases scans.len(),
{
    if seen == scans.len() {
        assert(scans.take(seen) =~= scans);
        if seen > 0 {
            lemma_named_prefix(scans.drop_last(), seen - 1);
            assert(scans.drop_last().take(seen - 1) =~= scans.drop_last());
        }
    } else {
        lemma_named_prefix(scans.drop_last(), seen);
        assert(scans.drop_last().take(seen) =~= scans.take(seen));
    }
}

/// Of one network that a scan found, the results hold that network if it has a
/// valid name and nothing otherwise; of two scans one after the other, those of
/// the first and then those of the second. So no named network is lost, repeated
/// or moved.
pub proof fn law_scan_keeps_every_named_network_in_order(
    scan: Ws63ScanResult,
    first: Seq<Ws63ScanResult>,
    second: Seq<Ws63ScanResult>,
)
    ensures
        named(seq![scan]) == (if 1 <= scan.ssid@.len() <= 32 {
            seq![scan]
        } else {
            seq![]
        }),
        named(first + second) == named(first) + named(second),
    decreases second.len(),
{
    reveal_with_fuel(named, 2);
    assert(seq![scan].drop_last() =~= seq![]);
    assert(named(seq![scan]) =~= (if 1 <= scan.ssid@.len() <= 32 {
        seq![scan]
    } else {
        seq![]
    }));
    if second.len() == 0 {
        assert(first + second =~= first);
        assert(named(second) =~= seq![]);
    } else {
        law_scan_keeps_every_named_network_in_order(scan, first, second.drop_last());
        assert((first + second).drop_last() =~= first + second.drop_last());
        assert((first + second).last() == second.last());
    }
}

/// As many results are copied as there are named networks, up to the room there
/// is; each stands where its network stands among them and describes it, and the
/// rest of the buffer is left alone. The copy is called truncated exactly when
/// some network that was found has no result.
pub proof fn law_copied_results_are_the_named_networks(scans: &[Ws63ScanResult], wpa3: bool)
    ensures
        forall|output: &mut [ScanResult], outcome: ScanOutcome| #[trigger]
            call_ensures(copy_scan_results, (scans, wpa3, output), outcome) ==> {
                &&& outcome.count <= named(scans@).len() && outcome.count <= (*output)@.len()
                &&& outcome.count == named(scans@).len() || outcome.count == (*output)@.len()
                &&& outcome.truncated <==> outcome.count < scans@.len()
                &&& forall|i: int|
                    0 <= i < outcome.count ==> described(
                        #[trigger] (*final(output))@[i],
                        named(scans@)[i],
                    )
                &&& forall|i: int|
                    outcome.count <= i < (*output)@.len() ==> #[trigger] (*final(output))@[i]
                        == (*output)@[i]
            },
{
}

/// The result has the name, the address, the signal and the channel of the
/// network, and calls it open exactly when it is.
pub open spec fn described(result: ScanResult, scan: Ws63ScanResult) -> bool {
    &&& crate::radio::ssid_bytes(result.ssid) == scan.ssid@
    &&& result.bssid == scan.bssid && result.channel == scan.channel
    &&& result.rssi_dbm == scan.rssi_dbm && result.frequency_mhz == scan.frequency_mhz
    &&& result.security is Open <==> scan.security is Open
}

/// Copy the nameable results of a completed scan into the caller's buffer, in
/// order, as far as it has room. `truncated` says that some vendor result did
/// not reach the caller, for want of room or of a name.
pub fn copy_scan_results(scans: &[Ws63ScanResult], wpa3: bool, output: &mut [ScanResult]) -> (outcome:
    ScanOutcome)
    ensures
        final(output)@.len() == old(output)@.len(),
        outcome.count == (if named(scans@).len() <= old(output)@.len() {
            named(scans@).len()
        } else {
            old(output)@.len()
        }),
        outcome.truncated <==> outcome.count < scans@.len(),
        forall|i: int|
            0 <= i < outcome.count ==> converted(#[trigger] final(output)@[i], named(scans@)[i], wpa3),
        forall|i: int|
            outcome.count <= i < old(output)@.len() ==> #[trigger] final(output)@[i] == old(
                output,
            )@[i],
{
    let mut written: usize = 0;
    let mut seen: usize = 0;
    proof {
        assert(scans@.take(0) =~= seq![]);
    }
    while seen < scans.len()
        invariant
            0 <= seen <= scans@.len(),
            written <= output@.len(),
            output@.len() == old(output)@.len(),
            written == named(scans@.take(seen as int)).len(),
            forall|i: int|
                0 <= i < written ==> converted(
                    #[trigger] output@[i],
                    named(scans@.take(seen as int))[i],
                    wpa3,
                ),
            forall|i: int| written <= i < output@.len() ==> #[trigger] output@[i] == old(output)@[i],
        decreases scans@.len() - seen,
    {
        proof {
            assert(scans@.take(seen as int + 1).drop_last() =~= scans@.take(seen as int));
            assert(scans@.take(seen as int + 1).last() == scans@[seen as int]);
            lemma_named_prefix(scans@, seen as int + 1);
            lemma_named_prefix(scans@, seen as int);
        }
        if let Some(result) = convert_scan_result(&scans[seen], wpa3) {
            if written == output.len() {
                return ScanOutcome { count: written, truncated: written < scans.len() };
            }
            output[written] = result;
            written = written + 1;
        }
        seen = seen + 1;
    }
    proof {
        assert(scans@.take(seen as int) =~= scans@);
    }
    ScanOutcome { count: written, truncated: written < scans.len() }
}

fn same_address(left: &[u8; 6], right: &[u8; 6]) -> (same: bool)
    ensures
        same == (left@ == right@),
{
    let same = left[0] == right[0] && left[1] == right[1] && left[2] == right[2] && left[3]
        == right[3] && left[4] == right[4] && left[5] == right[5];
    assert(same ==> left@ =~= right@);
    same
}

fn same_bytes(left: &[u8], right: &[u8]) -> (same: bool)
    ensures
        same == (left@ == right@),
{
    if left.len() != right.len() {
        return false;
    }
    let mut index: usize = 0;
    while index < left.len()
        invariant
            left@.len() == right@.len(),
            0 <= index <= left@.len(),
            forall|i: int| 0 <= i < index ==> left@[i] == right@[i],
        decreases left@.len() - index,
    {
        if left[index] != right[index] {
            return false;
        }
        index = index + 1;
    }
    assert(left@ =~= right@);
    true
}

/// `scan` is the BSS that a station configuration selects.
pub open spec fn selects(scan: Ws63ScanResult, ssid: Seq<u8>, bssid: Seq<u8>, channel: u8) -> bool {
    scan.ssid@ == ssid && scan.bssid@ == bssid && scan.channel == channel
}

/// Find the first scan result with this name, address and channel; a network
/// that the latest scan did not see cannot be joined.
pub fn select_scan(scans: &[Ws63ScanResult], ssid: &[u8], bssid: &[u8; 6], channel: u8) -> (found:
    Result<usize, BackendError>)
    ensures
        match found {
            Ok(index) => {
                &&& index < scans@.len()
                &&& selects(scans@[index as int], ssid@, bssid@, channel)
                &&& forall|i: int|
                    0 <= i < index ==> !selects(#[trigger] scans@[i], ssid@, bssid@, channel)
            },
            Err(error) => {
                &&& error == staged(
                    BackendErrorClass::Connect,
                    0x1000_0002,
                    DiagnosticStage::Associate,
                )
                &&& forall|i: int|
                    0 <= i < scans@.len() ==> !selects(#[trigger] scans@[i], ssid@, bssid@, channel)
            },
        },
{
    let mut index: usize = 0;
    while index < scans.len()
        invariant
            0 <= index <= scans@.len(),
            forall|i: int|
                0 <= i < index ==> !selects(#[trigger] scans@[i], ssid@, bssid@, channel),
        decreases scans@.len() - index,
    {
        let scan = &scans[index];
        if same_bytes(scan.ssid.as_slice(), ssid) && same_address(&scan.bssid, bssid) && scan.channel
            == channel {
            return Ok(index);
        }
        index = index + 1;
    }
    Err(staged_error(BackendErrorClass::Connect, 0x1000_0002, DiagnosticStage::Associate))
}

/// What is joined is the first network of the scan with the name, the address and
/// the channel that were asked for; there is an error exactly when no network has
/// all three.
pub proof fn law_selected_network_is_the_one_asked_for(
    scans: &[Ws63ScanResult],
    ssid: &[u8],
    bssid: [u8; 6],
    channel: u8,
    found: Result<usize, BackendError>,
    i: int,
)
    requires
        call_ensures(select_scan, (scans, ssid, &bssid, channel), found),
    ensures
        found matches Ok(index) ==> {
            &&& index < scans@.len()
            &&& scans@[index as int].ssid@ == ssid@
            &&& scans@[index as int].bssid@ == bssid@
            &&& scans@[index as int].channel == channel
            &&& 0 <= i < index ==> scans@[i].ssid@ != ssid@ || scans@[i].bssid@ != bssid@
                || scans@[i].channel != channel
        },
        found matches Err(error) ==> {
            &&& error.class is Connect && error.code == 0x1000_0002 && error.stage is Associate
            &&& 0 <= i < scans@.len() ==> scans@[i].ssid@ != ssid@ || scans@[i].bssid@ != bssid@
                || scans@[i].channel != channel
        },
{
    if 0 <= i < scans@.len() {
        assert(selects(scans@[i], ssid@, bssid@, channel) <==> scans@[i].ssid@ == ssid@
            && scans@[i].bssid@ == bssid@ && scans@[i].channel == channel);
    }
}

/// What the vendor side answered to a [`ScanAction`].
#[derive(Clone, Copy, Debug)]
pub enum ScanReply {
    /// The supplicant's cache capture was opened or finished.
    Captured(Result<(), NativeSupplicantError>),
    /// The driver's scan returned this many results; `None` without a driver.
    Scanned(Option<Result<usize, Ws63Error>>),
    /// The capture was cancelled.
    Cancelled,
}

/// What a blocking scan asks of the vendor side next.
#[derive(Clone, Copy, Debug)]
pub enum ScanAction {
    /// Let the supplicant capture what the scan finds.
    OpenCapture,
    Scan,
    CancelCapture,
    FinishCapture,
    /// The scan is over; on success this many results can be copied.
    Done(Result<usize, BackendError>),
}

/// Where a blocking scan stands: which reply it waits for.
#[derive(Clone, Copy, Debug)]
pub enum ScanPhase {
    Opening,
    Scanning,
    /// The capture is cancelled before this failure is reported.
    Cancelling(BackendError),
    Finishing(usize),
    Over,
}

/// One blocking scan.
#[derive(Clone, Copy, Debug)]
pub struct ScanAttempt {
    pub phase: ScanPhase,
}

impl ScanAttempt {
    /// `reply` answers what the scan last asked for.
    pub open spec fn awaits(self, reply: ScanReply) -> bool {
        match self.phase {
            ScanPhase::Opening | ScanPhase::Finishing(_) => reply is Captured,
            ScanPhase::Scanning => reply is Scanned,
            ScanPhase::Cancelling(_) => reply is Cancelled,
            ScanPhase::Over => false,
        }
    }

    /// A capture is open and has to be closed before the scan is over.
    pub open spec fn capturing(self) -> bool {
        self.phase is Scanning || self.phase is Cancelling || self.phase is Finishing
    }

    /// The next state and request after `reply`.
    pub open spec fn next(self, reply: ScanReply) -> (ScanAttempt, ScanAction) {
        match (self.phase, reply) {
            (ScanPhase::Opening, ScanReply::Captured(Ok(_))) => (
                ScanAttempt { phase: ScanPhase::Scanning },
                ScanAction::Scan,
            ),
            (_, ScanReply::Captured(Err(error))) => (
                ScanAttempt { phase: ScanPhase::Over },
                ScanAction::Done(Err(native_failure(error))),
            ),
            (_, ScanReply::Scanned(Some(Ok(count)))) => (
                ScanAttempt { phase: ScanPhase::Finishing(count) },
                ScanAction::FinishCapture,
            ),
            (_, ScanReply::Scanned(Some(Err(error)))) => (
                ScanAttempt { phase: ScanPhase::Cancelling(driver_failure(error)) },
                ScanAction::CancelCapture,
            ),
            (_, ScanReply::Scanned(None)) => (
                ScanAttempt { phase: ScanPhase::Cancelling(uninitialized()) },
                ScanAction::CancelCapture,
            ),
            (ScanPhase::Cancelling(error), _) => (
                ScanAttempt { phase: ScanPhase::Over },
                ScanAction::Done(Err(error)),
            ),
            (ScanPhase::Finishing(count), _) => (
                ScanAttempt { phase: ScanPhase::Over },
                ScanAction::Done(Ok(count)),
            ),
            _ => (
                ScanAttempt { phase: ScanPhase::Over },
                ScanAction::Done(Err(uninitialized())),
            ),
        }
    }

    /// Start a scan; without a supplicant it is over at once.
    pub fn begin(supplicant_ready: bool) -> (step: (Self, ScanAction))
        ensures
            supplicant_ready ==> step.0.phase is Opening && step.1 is OpenCapture,
            !supplicant_ready ==> step.0.phase is Over && step.1 == ScanAction::Done(
                Err(uninitialized()),
            ),
    {
        if supplicant_ready {
            (ScanAttempt { phase: ScanPhase::Opening }, ScanAction::OpenCapture)
        } else {
            (ScanAttempt { phase: ScanPhase::Over }, ScanAction::Done(Err(not_initialized())))
        }
    }

    /// Take the reply to the last request and decide what comes next.
    pub fn resume(&mut self, reply: ScanReply) -> (action: ScanAction)
        requires
            old(self).awaits(reply),
        ensures
            (*final(self), action) == old(self).next(reply),
    {
        let (phase, action) = match (self.phase, reply) {
            (ScanPhase::Opening, ScanReply::Captured(Ok(_))) => (
                ScanPhase::Scanning,
                ScanAction::Scan,
            ),
            (_, ScanReply::Captured(Err(error))) => (
                ScanPhase::Over,
                ScanAction::Done(Err(map_native_error(error))),
            ),
            (_, ScanReply::Scanned(Some(Ok(count)))) => (
                ScanPhase::Finishing(count),
                ScanAction::FinishCapture,
            ),
            (_, ScanReply::Scanned(Some(Err(error)))) => (
                ScanPhase::Cancelling(map_error(error)),
                ScanAction::CancelCapture,
            ),
            (_, ScanReply::Scanned(None)) => (
                ScanPhase::Cancelling(not_initialized()),
                ScanAction::CancelCapture,
            ),
            (ScanPhase::Cancelling(error), _) => (ScanPhase::Over, ScanAction::Done(Err(error))),
            (ScanPhase::Finishing(count), _) => (ScanPhase::Over, ScanAction::Done(Ok(count))),
            _ => (ScanPhase::Over, ScanAction::Done(Err(not_initialized()))),
        };
        self.phase = phase;
        action
    }
}

/// A capture that was opened is closed before the scan is over: no scan ends but
/// after asking for its capture to be finished or cancelled, or because it could
/// not be opened.
pub proof fn law_opened_capture_is_closed(attempt: ScanAttempt, reply: ScanReply)
    requires
        attempt.awaits(reply),
    ensures
        attempt.next(reply).1 is Done ==> attempt.phase is Cancelling || attempt.phase is Finishing
            || attempt.phase is Opening && reply matches ScanReply::Captured(Err(_)),
        attempt.next(reply).0.capturing() && !attempt.capturing() ==> attempt.phase is Opening
            && reply matches ScanReply::Captured(Ok(_)),
        attempt.next(reply).0.phase is Cancelling ==> attempt.next(reply).1 is CancelCapture,
        attempt.next(reply).0.phase is Finishing ==> attempt.next(reply).1 is FinishCapture,
        attempt.next(reply).1 matches ScanAction::Done(Ok(count)) ==> attempt.phase
            == ScanPhase::Finishing(count) && reply matches ScanReply::Captured(Ok(_)),
{
}

/// Whether a supplicant poll left work behind; without a supplicant none is.
pub fn supplicant_polled(polled: Option<Result<u32, NativeSupplicantError>>) -> (pending: Result<
    bool,
    BackendError,
>)
    ensures
        pending == (match polled {
            None => Ok::<bool, BackendError>(false),
            Some(Ok(work_pending)) => Ok(work_pending != 0),
            Some(Err(error)) => Err(native_failure(error)),
        }),
{
    match polled {
        None => Ok(false),
        Some(Ok(work_pending)) => Ok(work_pending != 0),
        Some(Err(error)) => Err(map_native_error(error)),
    }
}

/// The one-shot hardware tokens that the vendor bootstrap consumes.
#[derive(Clone, Copy, Debug, PartialEq, Eq, Structural)]
pub struct BootstrapTokens {
    pub efuse: bool,
    pub trng: bool,
    pub km: bool,
    pub spacc: bool,
    pub pke: bool,
    pub crypto_storage: bool,
}

impl BootstrapTokens {
    /// The code of the first missing token, in the order of consumption.
    pub open spec fn missing(self) -> Option<u32> {
        if !self.efuse {
            Some(0x1000_0001u32)
        } else if !self.trng {
            Some(0x1000_0004u32)
        } else if !self.km {
            Some(0x1000_0005u32)
        } else if !self.spacc {
            Some(0x1000_0006u32)
        } else if !self.pke {
            Some(0x1000_0007u32)
        } else if !self.crypto_storage {
            Some(0x1000_0008u32)
        } else {
            None
        }
    }

    /// The tokens that are left after they were consumed in order up to the
    /// first missing one.
    pub open spec fn taken(self) -> BootstrapTokens {
        BootstrapTokens {
            efuse: false,
            trng: self.trng && !self.efuse,
            km: self.km && !(self.efuse && self.trng),
            spacc: self.spacc && !(self.efuse && self.trng && self.km),
            pke: self.pke && !(self.efuse && self.trng && self.km && self.spacc),
            crypto_storage: self.crypto_storage && !(self.efuse && self.trng && self.km
                && self.spacc && self.pke),
        }
    }

    /// Consume the tokens in order. A token that was taken stays taken when a
    /// later one is missing: a failed bootstrap cannot be repeated.
    pub fn take(&mut self) -> (result: Result<(), BackendError>)
        ensures
            *final(self) == old(self).taken(),
            result == (match old(self).missing() {
                None => Ok::<(), BackendError>(()),
                Some(code) => Err(
                    staged(BackendErrorClass::Initialize, code, DiagnosticStage::Initialize),
                ),
            }),
    {
        if !self.efuse {
            return Err(backend_error(BackendErrorClass::Initialize, 0x1000_0001));
        }
        self.efuse = false;
        if !self.trng {
            return Err(backend_error(BackendErrorClass::Initialize, 0x1000_0004));
        }
        self.trng = false;
        if !self.km {
            return Err(backend_error(BackendErrorClass::Initialize, 0x1000_0005));
        }
        self.km = false;
        if !self.spacc {
            return Err(backend_error(BackendErrorClass::Initialize, 0x1000_0006));
        }
        self.spacc = false;
        if !self.pke {
            return Err(backend_error(BackendErrorClass::Initialize, 0x1000_0007));
        }
        self.pke = false;
        if !self.crypto_storage {
            return Err(backend_error(BackendErrorClass::Initialize, 0x1000_0008));
        }
        self.crypto_storage = false;
        Ok(())
    }
}

/// What the vendor side answered to a [`BootstrapAction`].
#[derive(Clone, Copy, Debug)]
pub enum BootstrapReply {
    /// Installation or self-test of the hardware crypto service.
    Crypto(Result<(), u32>),
    /// Start of the vendor station driver.
    Driver(Result<(), Ws63Error>),
    /// Creation of the native supplicant.
    Supplicant(Result<(), NativeSupplicantError>),
}

/// What a bootstrap asks of the vendor side next.
#[derive(Clone, Copy, Debug)]
pub enum BootstrapAction {
    InstallCrypto,
    /// Run the self-test with this number, counted down.
    SelfTest(u8),
    StartDriver,
    CreateSupplicant,
    Done(Result<(), BackendError>),
}

/// Where a bootstrap stands.
#[derive(Clone, Copy, Debug, PartialEq, Eq, Structural)]
pub enum BootstrapPhase {
    Idle,
    InstallingCrypto,
    Testing(u8),
    StartingDriver,
    CreatingSupplicant,
    Ready,
    Failed,
}

/// The one-shot vendor bootstrap of a station.
#[derive(Clone, Copy, Debug, PartialEq, Eq, Structural)]
pub struct Bootstrap {
    pub tokens: BootstrapTokens,
    /// Self-tests that this build runs before the driver starts.
    pub self_tests: u8,
    pub phase: BootstrapPhase,
}

impl Bootstrap {
    pub open spec fn awaits(self, reply: BootstrapReply) -> bool {
        match self.phase {
            BootstrapPhase::InstallingCrypto => reply is Crypto,
            BootstrapPhase::Testing(_) => reply is Crypto,
            BootstrapPhase::StartingDriver => reply is Driver,
            BootstrapPhase::CreatingSupplicant => reply is Supplicant,
            _ => false,
        }
    }

    pub open spec fn failed(self, error: BackendError) -> (Bootstrap, BootstrapAction) {
        (
            Bootstrap { phase: BootstrapPhase::Failed, ..self },
            BootstrapAction::Done(Err(error)),
        )
    }

    /// The request after the crypto service answered well, with `left`
    /// self-tests to run.
    pub open spec fn tested(self, left: u8) -> (Bootstrap, BootstrapAction) {
        if left > 0 {
            (
                Bootstrap { phase: BootstrapPhase::Testing(left), ..self },
                BootstrapAction::SelfTest(left),
            )
        } else {
            (
                Bootstrap { phase: BootstrapPhase::StartingDriver, ..self },
                BootstrapAction::StartDriver,
            )
        }
    }

    pub open spec fn next(self, reply: BootstrapReply) -> (Bootstrap, BootstrapAction) {
        match (self.phase, reply) {
            (_, BootstrapReply::Crypto(Err(code))) => self.failed(
                staged(BackendErrorClass::Initialize, code, DiagnosticStage::Initialize),
            ),
            (BootstrapPhase::Testing(left), BootstrapReply::Crypto(Ok(_))) => self.tested(
                (left - 1) as u8,
            ),
            (_, BootstrapReply::Crypto(Ok(_))) => self.tested(self.self_tests),
            (_, BootstrapReply::Driver(Ok(_))) => (
                Bootstrap { phase: BootstrapPhase::CreatingSupplicant, ..self },
                BootstrapAction::CreateSupplicant,
            ),
            (_, BootstrapReply::Driver(Err(error))) => self.failed(driver_failure(error)),
            (_, BootstrapReply::Supplicant(Ok(_))) => (
                Bootstrap { phase: BootstrapPhase::Ready, ..self },
                BootstrapAction::Done(Ok(())),
            ),
            (_, BootstrapReply::Supplicant(Err(error))) => self.failed(native_failure(error)),
        }
    }

    /// A self-test is only awaited while one is left.
    pub open spec fn wf(self) -> bool {
        self.phase matches BootstrapPhase::Testing(left) ==> left > 0
    }

    /// Ask for an initialized radio. A ready one needs nothing; otherwise the
    /// one-shot tokens are consumed first.
    pub fn initialize(&mut self) -> (action: BootstrapAction)
        ensures
            final(self).wf(),
            old(self).phase is Ready ==> *final(self) == *old(self) && action
                == BootstrapAction::Done(Ok(())),
            !(old(self).phase is Ready) ==> {
                &&& final(self).self_tests == old(self).self_tests
                &&& match old(self).tokens.missing() {
                    Some(code) => final(self).phase is Failed && action == BootstrapAction::Done(
                        Err(
                            staged(
                                BackendErrorClass::Initialize,
                                code,
                                DiagnosticStage::Initialize,
                            ),
                        ),
                    ),
                    None => final(self).phase is InstallingCrypto && action is InstallCrypto,
                }
                &&& final(self).tokens == old(self).tokens.taken()
            },
    {
        match self.phase {
            BootstrapPhase::Ready => BootstrapAction::Done(Ok(())),
            _ => match self.tokens.take() {
                Err(error) => {
                    self.phase = BootstrapPhase::Failed;
                    BootstrapAction::Done(Err(error))
                },
                Ok(_) => {
                    self.phase = BootstrapPhase::InstallingCrypto;
                    BootstrapAction::InstallCrypto
                },
            },
        }
    }

    fn run_tests(&mut self, left: u8) -> (action: BootstrapAction)
        ensures
            (*final(self), action) == old(self).tested(left),
    {
        if left > 0 {
            self.phase = BootstrapPhase::Testing(left);
            BootstrapAction::SelfTest(left)
        } else {
            self.phase = BootstrapPhase::StartingDriver;
            BootstrapAction::StartDriver
        }
    }

    /// Take the reply to the last request and decide what comes next.
    pub fn resume(&mut self, reply: BootstrapReply) -> (action: BootstrapAction)
        requires
            old(self).wf(),
            old(self).awaits(reply),
        ensures
            final(self).wf(),
            (*final(self), action) == old(self).next(reply),
    {
        match (self.phase, reply) {
            (_, BootstrapReply::Crypto(Err(code))) => {
                self.phase = BootstrapPhase::Failed;
                BootstrapAction::Done(Err(backend_error(BackendErrorClass::Initialize, code)))
            },
            (BootstrapPhase::Testing(left), BootstrapReply::Crypto(Ok(_))) => self.run_tests(
                left - 1,
            ),
            (_, BootstrapReply::Crypto(Ok(_))) => self.run_tests(self.self_tests),
            (_, BootstrapReply::Driver(Ok(_))) => {
                self.phase = BootstrapPhase::CreatingSupplicant;
                BootstrapAction::CreateSupplicant
            },
            (_, BootstrapReply::Driver(Err(error))) => {
                self.phase = BootstrapPhase::Failed;
                BootstrapAction::Done(Err(map_error(error)))
            },
            (_, BootstrapReply::Supplicant(Ok(_))) => {
                self.phase = BootstrapPhase::Ready;
                BootstrapAction::Done(Ok(()))
            },
            (_, BootstrapReply::Supplicant(Err(error))) => {
                self.phase = BootstrapPhase::Failed;
                BootstrapAction::Done(Err(map_native_error(error)))
            },
        }
    }
}

/// The tokens of a bootstrap are good for one bootstrap: once they were taken,
/// asking again names the first of them as missing.
pub proof fn law_bootstrap_is_one_shot(tokens: BootstrapTokens)
    ensures
        tokens.taken().missing() == Some(0x1000_0001u32),
{
}

} // verus!
