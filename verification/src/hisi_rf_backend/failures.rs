//! What the public form of a vendor failure keeps of it.

use crate::error::{RuntimeError, TaskAdmissionError};
use crate::hisi_rf_backend::{
    AssociationAttempt, NativeSupplicantError, ScanStatus, Ws63Error,
};
use crate::radio::{BackendError, BackendErrorClass, DiagnosticStage, DiagnosticTraceKind};
use vstd::prelude::*;

verus! {

/// The failure has this number as its code and as its only trace value.
pub open spec fn carries(error: BackendError, kind: DiagnosticTraceKind, value: u32) -> bool {
    &&& error.code == value
    &&& error.trace@.len() == 1 && !error.trace.truncated
    &&& error.trace@[0].kind == kind
    &&& error.trace@[0].value == value
}

/// The failure has this code and nothing in its trace.
pub open spec fn named_by(error: BackendError, code: u32) -> bool {
    error.code == code && error.trace@.len() == 0 && !error.trace.truncated
}

/// Every number that a driver failure comes with is its public code, and is
/// traced once more as what it is: a status of the vendor, an IEEE status of a
/// refused connection, or the reason of a disconnect.
pub proof fn law_driver_status_is_never_lost(code: u32, status: i32, short: u16, scan: ScanStatus)
    ensures
        carries(
            super::driver_failure(Ws63Error::Initialize(code)),
            DiagnosticTraceKind::VendorStatus,
            code,
        ),
        carries(
            super::driver_failure(Ws63Error::Timebase(code)),
            DiagnosticTraceKind::VendorStatus,
            code,
        ),
        carries(
            super::driver_failure(Ws63Error::Crypto(code)),
            DiagnosticTraceKind::VendorStatus,
            code,
        ),
        carries(
            super::driver_failure(Ws63Error::CreateStation(status)),
            DiagnosticTraceKind::VendorStatus,
            status as u32,
        ),
        carries(
            super::driver_failure(Ws63Error::RegisterEvents(status)),
            DiagnosticTraceKind::VendorStatus,
            status as u32,
        ),
        carries(
            super::driver_failure(Ws63Error::OpenStation(status)),
            DiagnosticTraceKind::VendorStatus,
            status as u32,
        ),
        carries(
            super::driver_failure(Ws63Error::UnsupportedSecurity(status)),
            DiagnosticTraceKind::VendorStatus,
            status as u32,
        ),
        carries(
            super::driver_failure(Ws63Error::CryptoInitialize(status)),
            DiagnosticTraceKind::VendorStatus,
            status as u32,
        ),
        carries(
            super::driver_failure(Ws63Error::StartScan(status)),
            DiagnosticTraceKind::VendorStatus,
            status as u32,
        ),
        carries(
            super::driver_failure(Ws63Error::ConfigureSecurity(status)),
            DiagnosticTraceKind::VendorStatus,
            status as u32,
        ),
        carries(
            super::driver_failure(Ws63Error::StartConnect(status)),
            DiagnosticTraceKind::VendorStatus,
            status as u32,
        ),
        carries(
            super::driver_failure(Ws63Error::StartDisconnect(status)),
            DiagnosticTraceKind::VendorStatus,
            status as u32,
        ),
        carries(
            super::driver_failure(Ws63Error::ConnectFailed(short)),
            DiagnosticTraceKind::IeeeStatus,
            short as u32,
        ),
        carries(
            super::driver_failure(Ws63Error::Disconnected(short)),
            DiagnosticTraceKind::DisconnectReason,
            short as u32,
        ),
        carries(
            super::driver_failure(Ws63Error::ScanFailed(ScanStatus::Unknown(code))),
            DiagnosticTraceKind::VendorStatus,
            code,
        ),
        super::driver_failure(Ws63Error::ScanFailed(scan)).trace@.len() == 1,
        super::scan_status_number(ScanStatus::Success) == 0,
        super::scan_status_number(ScanStatus::Failed) == 1,
        super::scan_status_number(ScanStatus::Refused) == 2,
        super::scan_status_number(ScanStatus::Timeout) == 3,
{
}

/// A driver failure without a number is named by one, and nothing is traced of
/// it; those of the runtime and of task admission keep their own number below a
/// mark.
pub proof fn law_driver_failures_are_named(runtime: RuntimeError, admission: TaskAdmissionError)
    ensures
        named_by(super::driver_failure(Ws63Error::Busy), 1),
        named_by(super::driver_failure(Ws63Error::Timeout), 1),
        named_by(super::driver_failure(Ws63Error::AlreadyInitialized), 2),
        named_by(super::driver_failure(Ws63Error::SupplicantPort), 3),
        named_by(super::driver_failure(Ws63Error::InvalidSsid), 0x100),
        named_by(super::driver_failure(Ws63Error::ProtectedNetwork), 0x101),
        named_by(super::driver_failure(Ws63Error::OpenNetwork), 0x101),
        named_by(super::driver_failure(Ws63Error::InvalidPassphrase), 0x101),
        named_by(super::driver_failure(Ws63Error::UnsupportedTarget), 0xffff_ffff),
        super::driver_failure(Ws63Error::Runtime(runtime)).code == 0x2000_0000
            + crate::error::runtime_number(runtime),
        super::driver_failure(Ws63Error::Runtime(runtime)).trace@.len() == 0,
        super::driver_failure(Ws63Error::TaskAdmission(admission)).trace@.len() == 0,
        admission is InsufficientTaskSlots ==> super::driver_failure(
            Ws63Error::TaskAdmission(admission),
        ).code == 0x2100_0000 + crate::error::admission_number(admission),
{
    let number = crate::error::runtime_number(runtime);
    assert(number <= 10 ==> 0x2000_0000u32 | number == 0x2000_0000 + number) by (bit_vector);
    crate::error::law_admission_number_ranges(admission);
    if admission is InsufficientTaskSlots {
        let slots = crate::error::admission_number(admission) as u32;
        assert(slots < 0x1_0000 ==> 0x2100_0000u32 | slots == 0x2100_0000 + slots) by (bit_vector);
    }
}

/// Which driver failures are of which class: those of the bring-up, of a network
/// whose security does not fit, of a connection, and the two that ask for
/// patience. Every failure carries the selected profile.
pub proof fn law_driver_failure_classes(error: Ws63Error)
    ensures
        ({
            let class = super::driver_failure(error).class;
            &&& class is Initialize <==> error is Initialize || error is TaskAdmission
                || error is AlreadyInitialized || error is SupplicantPort
                || error is CryptoInitialize
            &&& class is Busy <==> error is Busy
            &&& class is BackendTimeout <==> error is Timeout
            &&& class is UnsupportedSecurity <==> error is UnsupportedSecurity
                || error is ProtectedNetwork || error is OpenNetwork || error is InvalidPassphrase
            &&& class is Connect <==> error is ConnectFailed || error is Disconnected
                || error is ConfigureSecurity || error is StartConnect || error is StartDisconnect
            &&& class is Initialize || class is Busy || class is BackendTimeout
                || class is UnsupportedSecurity || class is Connect || class is Other
            &&& super::driver_failure(error).profile_revision is Some
        }),
{
}

/// At which stage a driver failure is reported: the one whose call failed.
pub proof fn law_driver_failure_stages(error: Ws63Error)
    ensures
        ({
            let stage = super::driver_failure(error).stage;
            &&& stage is Operation <==> error is Busy || error is Timeout
            &&& stage is Scan <==> error is StartScan || error is ScanFailed || error is InvalidSsid
            &&& stage is Associate <==> error is ConnectFailed
            &&& stage is Disconnect <==> error is Disconnected || error is StartDisconnect
            &&& stage is Runtime <==> error is Runtime || error is TaskAdmission
                || error is Timebase
            &&& stage is Connect <==> error is UnsupportedSecurity || error is ConfigureSecurity
                || error is StartConnect || error is Crypto || error is ProtectedNetwork
                || error is OpenNetwork || error is InvalidPassphrase
            &&& stage is Initialize <==> error is Initialize || error is AlreadyInitialized
                || error is SupplicantPort || error is CreateStation || error is RegisterEvents
                || error is OpenStation || error is CryptoInitialize || error is UnsupportedTarget
        }),
{
}

/// The code is the block with the low twelve bits of a status behind it, and the
/// whole status is traced as one of the supplicant.
pub open spec fn blocked_status(error: BackendError, block: int, status: i32) -> bool {
    &&& error.code == block + (status as u32) % 0x1000
    &&& error.trace@.len() == 1 && !error.trace.truncated
    &&& error.trace@[0].kind is HostapStatus
    &&& error.trace@[0].value == status as u32
}

/// The code is the block with a count behind it, which stops at its largest
/// value; the whole count is traced.
pub open spec fn blocked_count(error: BackendError, block: int, count: u32) -> bool {
    &&& error.code == block + (if count < 0xfff {
        count
    } else {
        0xfff
    })
    &&& error.trace@.len() == 1 && !error.trace.truncated
    &&& error.trace@[0].kind is BackendStatus
    &&& error.trace@[0].value == count
}

proof fn lemma_block(block: u32, value: u32)
    requires
        block % 0x1000 == 0,
        block <= 0xf000,
    ensures
        0x5732_0000u32 | (block | value & 0xfff) == 0x5732_0000 + block + value % 0x1000,
        value <= 0xfff ==> 0x5732_0000u32 | (block | value) == 0x5732_0000 + block + value,
{
    assert(block % 0x1000 == 0 && block <= 0xf000 ==> 0x5732_0000u32 | (block | value & 0xfff)
        == 0x5732_0000 + block + value % 0x1000) by (bit_vector);
    assert(block % 0x1000 == 0 && block <= 0xf000 && value <= 0xfff ==> 0x5732_0000u32 | (block
        | value) == 0x5732_0000 + block + value) by (bit_vector);
}

/// Each call of the supplicant that returns a status has a block of codes of its
/// own, and the status can be read back from the trace.
pub proof fn law_supplicant_status_is_never_lost(status: i32)
    ensures
        blocked_status(
            super::native_failure(NativeSupplicantError::InitializeFailed(status)),
            0x5732_1000,
            status,
        ),
        blocked_status(
            super::native_failure(NativeSupplicantError::EnableEapolFailed(status)),
            0x5732_2000,
            status,
        ),
        blocked_status(
            super::native_failure(NativeSupplicantError::FeedMgmtFailed(status)),
            0x5732_3000,
            status,
        ),
        blocked_status(
            super::native_failure(NativeSupplicantError::FeedEapolFailed(status)),
            0x5732_4000,
            status,
        ),
        blocked_status(
            super::native_failure(NativeSupplicantError::PollFailed(status)),
            0x5732_5000,
            status,
        ),
        blocked_status(
            super::native_failure(NativeSupplicantError::FeedScanFailed(status)),
            0x5732_7000,
            status,
        ),
        blocked_status(
            super::native_failure(NativeSupplicantError::FeedLinkFailed(status)),
            0x5732_9000,
            status,
        ),
        blocked_status(
            super::native_failure(NativeSupplicantError::ConfigureFailed(status)),
            0x5732_b000,
            status,
        ),
        blocked_status(
            super::native_failure(NativeSupplicantError::ConnectFailed(status)),
            0x5732_c000,
            status,
        ),
        blocked_status(
            super::native_failure(NativeSupplicantError::DisconnectFailed(status)),
            0x5732_d000,
            status,
        ),
        blocked_status(
            super::native_failure(NativeSupplicantError::FeedExternalAuthFailed(status)),
            0x5732_e000,
            status,
        ),
{
    let value = status as u32;
    lemma_block(0x1000, value);
    lemma_block(0x2000, value);
    lemma_block(0x3000, value);
    lemma_block(0x4000, value);
    lemma_block(0x5000, value);
    lemma_block(0x7000, value);
    lemma_block(0x9000, value);
    lemma_block(0xb000, value);
    lemma_block(0xc000, value);
    lemma_block(0xd000, value);
    lemma_block(0xe000, value);
}

/// Each queue of the supplicant that overflows has a block of codes of its own,
/// and the number of lost entries can be read back from the trace. The failures
/// without a number are named.
pub proof fn law_queue_overflows_are_counted(count: u32)
    ensures
        blocked_count(
            super::native_failure(NativeSupplicantError::MgmtQueueOverflow(count)),
            0x5732_6000,
            count,
        ),
        blocked_count(
            super::native_failure(NativeSupplicantError::ScanQueueOverflow(count)),
            0x5732_8000,
            count,
        ),
        blocked_count(
            super::native_failure(NativeSupplicantError::LinkQueueOverflow(count)),
            0x5732_a000,
            count,
        ),
        blocked_count(
            super::native_failure(NativeSupplicantError::ExternalAuthQueueOverflow(count)),
            0x5732_f000,
            count,
        ),
        named_by(super::native_failure(NativeSupplicantError::Port), 0x5732_0001),
        named_by(super::native_failure(NativeSupplicantError::InvalidContextLayout), 0x5732_0002),
        named_by(super::native_failure(NativeSupplicantError::AllocationFailed), 0x5732_0003),
        named_by(super::native_failure(NativeSupplicantError::CreateFailed), 0x5732_0004),
        named_by(super::native_failure(NativeSupplicantError::InvalidResult), 0x5732_0005),
{
    let bounded = if count < 0xfff {
        count
    } else {
        0xfff
    };
    lemma_block(0x6000, bounded);
    lemma_block(0x8000, bounded);
    lemma_block(0xa000, bounded);
    lemma_block(0xf000, bounded);
    assert(0x5732_0000u32 | 1 == 0x5732_0001u32 && 0x5732_0000u32 | 2 == 0x5732_0002u32
        && 0x5732_0000u32 | 3 == 0x5732_0003u32 && 0x5732_0000u32 | 4 == 0x5732_0004u32
        && 0x5732_0000u32 | 5 == 0x5732_0005u32) by (bit_vector);
}

/// Which supplicant failures are of which class, and at which stage they are
/// reported.
pub proof fn law_supplicant_failures_are_placed(error: NativeSupplicantError)
    ensures
        ({
            let class = super::native_failure(error).class;
            let stage = super::native_failure(error).stage;
            &&& class is Initialize <==> error is Port || error is InvalidContextLayout
                || error is AllocationFailed || error is CreateFailed || error is InitializeFailed
                || error is EnableEapolFailed
            &&& class is Connect <==> error is FeedLinkFailed || error is LinkQueueOverflow
                || error is FeedExternalAuthFailed || error is ExternalAuthQueueOverflow
                || error is ConfigureFailed || error is ConnectFailed || error is DisconnectFailed
            &&& class is Initialize || class is Connect || class is Other
            &&& stage is Eapol <==> error is EnableEapolFailed || error is FeedEapolFailed
            &&& stage is Authenticate <==> error is FeedMgmtFailed || error is MgmtQueueOverflow
            &&& stage is Scan <==> error is FeedScanFailed || error is ScanQueueOverflow
            &&& stage is Associate <==> error is FeedLinkFailed || error is LinkQueueOverflow
                || error is ConnectFailed
            &&& stage is Sae <==> error is FeedExternalAuthFailed
                || error is ExternalAuthQueueOverflow
            &&& stage is Connect <==> error is ConfigureFailed
            &&& stage is Disconnect <==> error is DisconnectFailed
            &&& stage is Backend <==> error is InvalidResult
            &&& stage is Runtime <==> error is PollFailed
            &&& stage is Initialize <==> error is Port || error is InvalidContextLayout
                || error is AllocationFailed || error is CreateFailed || error is InitializeFailed
            &&& super::native_failure(error).profile_revision is Some
        }),
{
}

/// A connection that a status ended is reported with that status, in the stage of
/// the association or, for the temporary rejection, of its recovery; with it go
/// the two words that explain it.
pub proof fn law_connect_failure_explains_itself(status: i32, context: u32, port: u32)
    ensures
        ({
            let error = super::connect_failure(status, context, port);
            &&& error.class is Connect
            &&& error.code == status as u32
            &&& error.stage == (if status == 30 {
                DiagnosticStage::Pmf
            } else {
                DiagnosticStage::Associate
            })
            &&& error.trace@.len() == 3 && !error.trace.truncated
            &&& error.trace@[0].kind is IeeeStatus && error.trace@[0].value == status as u32
            &&& error.trace@[1].kind is SupplicantContext && error.trace@[1].value == context
            &&& error.trace@[2].kind is DriverContext && error.trace@[2].value == port
        }),
{
}

/// A connection that ran out of time is reported with a code that has its top bit
/// set and gives back the low bits of the last event, of the context and of the
/// driver word. The words are traced in full, and so is the latest association.
pub proof fn law_connect_timeout_explains_itself(
    last_event_kind: u8,
    context: u32,
    port: u32,
    latest: Option<AssociationAttempt>,
    eapol_received: u32,
)
    ensures
        ({
            let error = super::connect_timeout(
                last_event_kind,
                context,
                port,
                latest,
                eapol_received,
            );
            &&& error.class is BackendTimeout
            &&& error.code >= 0x8000_0000
            &&& port <= 0xffff ==> error.code % 0x1_0000 == port
            &&& port <= 0xffff ==> error.code / 0x1_0000 % 0x1000 == context % 0x1000
            &&& port <= 0xffff ==> error.code / 0x1000_0000 == 8 + last_event_kind % 8
            &&& super::attempts::stalled_at(error.stage, latest, eapol_received)
            &&& !error.trace.truncated
            &&& error.trace@.len() == (if latest is Some {
                4nat
            } else {
                2
            })
            &&& error.trace@[0].kind is SupplicantContext && error.trace@[0].value == context
            &&& error.trace@[1].kind is DriverContext && error.trace@[1].value == port
            &&& latest matches Some(attempt) ==> {
                &&& error.trace@[2].kind is VendorStatus && error.trace@[2].value
                    == attempt.raw_status
                &&& error.trace@[3].kind is IeeeStatus && error.trace@[3].value == attempt.status
            }
        }),
{
    let kind = last_event_kind as u32;
    let code = 0x8000_0000u32 | ((kind & 0x7) << 28) | ((context & 0x0fff) << 16) | port;
    assert(code >= 0x8000_0000 && (port <= 0xffff ==> code % 0x1_0000 == port && code / 0x1_0000
        % 0x1000 == context % 0x1000 && code / 0x1000_0000 == 8 + kind % 8)) by (bit_vector)
        requires
            code == 0x8000_0000u32 | ((kind & 0x7) << 28) | ((context & 0x0fff) << 16) | port,
    ;
}

/// A wait that the runtime failed is reported with the number of its failure,
/// below a mark and in the trace.
pub proof fn law_failed_wait_explains_itself(runtime: RuntimeError)
    ensures
        ({
            let error = super::wait_failure(runtime);
            let number = crate::error::runtime_number(runtime);
            &&& error.class is Other && error.stage is Runtime
            &&& error.code == 0x5732_e000 + number
            &&& error.trace@.len() == 1 && error.trace@[0].kind is RuntimeCode
                && error.trace@[0].value == number
        }),
{
    let number = crate::error::runtime_number(runtime);
    assert(number <= 10 ==> 0x5732_e000u32 | number == 0x5732_e000 + number) by (bit_vector);
}

/// An error is made with the class, the code and the stage that it is given, or else with
/// the stage of its class, and with the revision of the profile and no trace. A backend
/// that is not set up says so.
pub proof fn law_errors_hold_what_they_are_made_of(
    class: BackendErrorClass,
    code: u32,
    stage: DiagnosticStage,
    staged: BackendError,
    plain: BackendError,
    implied: BackendError,
    missing: BackendError,
)
    requires
        call_ensures(super::staged_error, (class, code, stage), staged),
        call_ensures(super::backend_error, (class, code), plain),
        call_ensures(BackendError::new, (class, code), implied),
        call_ensures(super::not_initialized, (), missing),
    ensures
        staged.class == class && staged.code == code && staged.stage == stage,
        plain.class == class && plain.code == code && plain.stage == implied.stage,
        staged.profile_revision is Some && plain.profile_revision is Some,
        staged.trace@.len() == 0 && plain.trace@.len() == 0,
        missing.class == BackendErrorClass::Initialize,
        missing.profile_revision is Some && missing.trace@.len() == 0,
{
}

/// A poll of the supplicant leaves work behind exactly when it says so; a failure is told
/// as the mapping of that failure tells it, and without a supplicant there is no work.
pub proof fn law_supplicant_poll_tells_of_work(
    work: u32,
    refused: NativeSupplicantError,
    told: BackendError,
    none: Result<bool, BackendError>,
    polled: Result<bool, BackendError>,
    failed: Result<bool, BackendError>,
)
    requires
        call_ensures(super::map_native_error, (refused,), told),
        call_ensures(super::supplicant_polled, (None,), none),
        call_ensures(super::supplicant_polled, (Some(Ok(work)),), polled),
        call_ensures(super::supplicant_polled, (Some(Err(refused)),), failed),
    ensures
        none == Ok::<bool, BackendError>(false),
        polled is Ok && (polled->Ok_0 <==> work > 0),
        failed == Err::<bool, BackendError>(told),
{
}

} // verus!
