//! Composition of one radio instance: resources, initialization failures and
//! data-path counters.

pub mod claim;
pub mod init;
pub mod reports;

use crate::error::{runtime_code, task_admission_code, RuntimeError, TaskAdmissionError};
use crate::radio::{
    BackendError, BackendErrorClass, Diagnostic, DiagnosticStage, DiagnosticTraceKind,
    ProfileRevision, RadioError,
};
use vstd::prelude::*;

verus! {

/// Stack of the mandatory runner task.
pub const RADIO_RUNNER_STACK_BYTES: usize = 8192;

/// Priority of the mandatory runner task.
pub const RADIO_RUNNER_PRIORITY: u8 = 10;

/// Profile of a station with WPA2.
#[derive(Clone, Copy, Debug, PartialEq, Eq, Structural)]
pub struct WifiWpa2Smoltcp {}

/// Profile of a station with WPA3.
#[derive(Clone, Copy, Debug, PartialEq, Eq, Structural)]
pub struct WifiWpa3Smoltcp {}

/// Type state: the crypto capabilities have not been supplied.
#[derive(Clone, Copy, Debug, PartialEq, Eq, Structural)]
pub struct MissingCrypto {}

/// Type state: the crypto capabilities are owned by the builder.
#[derive(Debug)]
pub struct CryptoReady<K, S, T> {
    pub km: K,
    pub spacc: S,
    pub trng: T,
}

/// Type state: the selected profile does not need PKE.
#[derive(Clone, Copy, Debug, PartialEq, Eq, Structural)]
pub struct PkeNotRequired {}

/// Type state: the selected profile requires a PKE token.
#[derive(Clone, Copy, Debug, PartialEq, Eq, Structural)]
pub struct MissingPke {}

/// Type state: PKE is owned by the builder.
#[derive(Debug)]
pub struct PkeReady<Q>(pub Q);

/// Radio resources assembled from uniquely owned peripheral tokens.
#[derive(Debug)]
pub struct Resources<P, F, A, K, S, Q, T> {
    pub profile: P,
    pub efuse: F,
    pub km: K,
    pub spacc: S,
    pub pke: Option<Q>,
    pub trng: T,
    pub arena: A,
}

/// Builder of the capabilities that a profile requires. It never touches
/// hardware; a profile that requires PKE cannot be built without it.
#[derive(Debug)]
pub struct ResourcesBuilder<P, F, A, C, E> {
    pub profile: P,
    pub efuse: F,
    pub crypto: C,
    pub pke: E,
    pub arena: A,
}

impl<P, F, A, K, S, Q, T> Resources<P, F, A, K, S, Q, T> {
    /// Assemble all capabilities at once. PKE is always held, also by a profile
    /// that does not need it.
    pub fn new(profile: P, efuse: F, km: K, spacc: S, pke: Q, trng: T, arena: A) -> (resources: Self)
        ensures
            resources == (Resources { profile, efuse, km, spacc, pke: Some(pke), trng, arena }),
    {
        Resources { profile, efuse, km, spacc, pke: Some(pke), trng, arena }
    }
}

impl<F, A, K, S, Q, T> Resources<WifiWpa2Smoltcp, F, A, K, S, Q, T> {
    /// Start assembling the capabilities that the WPA2 profile requires.
    pub fn builder(efuse: F, arena: A) -> (builder: ResourcesBuilder<
        WifiWpa2Smoltcp,
        F,
        A,
        MissingCrypto,
        PkeNotRequired,
    >)
        ensures
            builder == (ResourcesBuilder {
                profile: WifiWpa2Smoltcp {  },
                efuse,
                crypto: MissingCrypto {  },
                pke: PkeNotRequired {  },
                arena,
            }),
    {
        ResourcesBuilder {
            profile: WifiWpa2Smoltcp {  },
            efuse,
            crypto: MissingCrypto {  },
            pke: PkeNotRequired {  },
            arena,
        }
    }
}

impl<F, A, K, S, Q, T> Resources<WifiWpa3Smoltcp, F, A, K, S, Q, T> {
    /// Start assembling the capabilities that the WPA3 profile requires.
    pub fn builder(efuse: F, arena: A) -> (builder: ResourcesBuilder<
        WifiWpa3Smoltcp,
        F,
        A,
        MissingCrypto,
        MissingPke,
    >)
        ensures
            builder == (ResourcesBuilder {
                profile: WifiWpa3Smoltcp {  },
                efuse,
                crypto: MissingCrypto {  },
                pke: MissingPke {  },
                arena,
            }),
    {
        ResourcesBuilder {
            profile: WifiWpa3Smoltcp {  },
            efuse,
            crypto: MissingCrypto {  },
            pke: MissingPke {  },
            arena,
        }
    }
}

impl<P, F, A, E> ResourcesBuilder<P, F, A, MissingCrypto, E> {
    /// Supply the capabilities that every personal profile shares.
    pub fn crypto<K, S, T>(self, km: K, spacc: S, trng: T) -> (builder: ResourcesBuilder<
        P,
        F,
        A,
        CryptoReady<K, S, T>,
        E,
    >)
        ensures
            builder == (ResourcesBuilder {
                profile: self.profile,
                efuse: self.efuse,
                crypto: CryptoReady { km, spacc, trng },
                pke: self.pke,
                arena: self.arena,
            }),
    {
        ResourcesBuilder {
            profile: self.profile,
            efuse: self.efuse,
            crypto: CryptoReady { km, spacc, trng },
            pke: self.pke,
            arena: self.arena,
        }
    }
}

impl<F, A, C> ResourcesBuilder<WifiWpa3Smoltcp, F, A, C, MissingPke> {
    /// Supply the PKE capability that SAE requires.
    pub fn pke<Q>(self, pke: Q) -> (builder: ResourcesBuilder<
        WifiWpa3Smoltcp,
        F,
        A,
        C,
        PkeReady<Q>,
    >)
        ensures
            builder == (ResourcesBuilder {
                profile: self.profile,
                efuse: self.efuse,
                crypto: self.crypto,
                pke: PkeReady(pke),
                arena: self.arena,
            }),
    {
        ResourcesBuilder {
            profile: self.profile,
            efuse: self.efuse,
            crypto: self.crypto,
            pke: PkeReady(pke),
            arena: self.arena,
        }
    }
}

impl<F, A, K, S, T> ResourcesBuilder<
    WifiWpa2Smoltcp,
    F,
    A,
    CryptoReady<K, S, T>,
    PkeNotRequired,
> {
    /// Finish the WPA2 resources without an unused PKE token.
    pub fn build<Q>(self) -> (resources: Resources<WifiWpa2Smoltcp, F, A, K, S, Q, T>)
        ensures
            resources == (Resources {
                profile: self.profile,
                efuse: self.efuse,
                km: self.crypto.km,
                spacc: self.crypto.spacc,
                pke: None::<Q>,
                trng: self.crypto.trng,
                arena: self.arena,
            }),
    {
        Resources {
            profile: self.profile,
            efuse: self.efuse,
            km: self.crypto.km,
            spacc: self.crypto.spacc,
            pke: None,
            trng: self.crypto.trng,
            arena: self.arena,
        }
    }
}

impl<F, A, K, S, T, Q> ResourcesBuilder<
    WifiWpa3Smoltcp,
    F,
    A,
    CryptoReady<K, S, T>,
    PkeReady<Q>,
> {
    /// Finish the WPA3 resources.
    pub fn build(self) -> (resources: Resources<WifiWpa3Smoltcp, F, A, K, S, Q, T>)
        ensures
            resources == (Resources {
                profile: self.profile,
                efuse: self.efuse,
                km: self.crypto.km,
                spacc: self.crypto.spacc,
                pke: Some(self.pke.0),
                trng: self.crypto.trng,
                arena: self.arena,
            }),
    {
        Resources {
            profile: self.profile,
            efuse: self.efuse,
            km: self.crypto.km,
            spacc: self.crypto.spacc,
            pke: Some(self.pke.0),
            trng: self.crypto.trng,
            arena: self.arena,
        }
    }
}

/// Category of an initialization failure.
#[derive(Clone, Copy, Debug, PartialEq, Eq, Structural)]
pub enum InitErrorKind {
    /// The installed runtime cannot satisfy the profile.
    Runtime,
    /// The runtime could not reserve the profile's tasks.
    TaskAdmission,
    /// The storage was consumed by an earlier initialization.
    StorageAlreadyClaimed,
    /// The controller rejected initialization.
    Core,
}

/// Failure before the radio backend starts executing.
#[derive(Clone, Copy, Debug, PartialEq, Eq, Structural)]
pub struct InitError {
    pub kind: InitErrorKind,
    pub diagnostic: Diagnostic,
}

/// The class of a runtime failure.
pub open spec fn runtime_class(error: RuntimeError) -> BackendErrorClass {
    match error {
        RuntimeError::ResourceExhausted | RuntimeError::NoTaskSlots =>
        BackendErrorClass::ResourceUnavailable,
        RuntimeError::TimedOut => BackendErrorClass::BackendTimeout,
        _ => BackendErrorClass::Other,
    }
}

/// A failure at the runtime stage of the selected profile, without a trace.
pub open spec fn at_runtime(class: BackendErrorClass, code: u32) -> BackendError {
    BackendError {
        class,
        code,
        stage: DiagnosticStage::Runtime,
        profile_revision: Some(ProfileRevision::Selected),
        trace: crate::radio::no_trace(),
    }
}

/// The failure that a runtime error is reported as.
pub open spec fn runtime_failure(error: RuntimeError) -> BackendError {
    at_runtime(runtime_class(error), 0x5732_e000u32 | crate::error::runtime_number(error)).traced(
        DiagnosticTraceKind::RuntimeCode,
        crate::error::runtime_number(error),
    )
}

/// A resource amount as a trace value: it stops at the largest one.
pub open spec fn amount(value: usize) -> u32 {
    crate::error::capped(value as int, u32::MAX as int) as u32
}

/// The failure that an admission error is reported as: its code, and every
/// amount that it carries, in a fixed order.
pub open spec fn admission_failure(error: TaskAdmissionError) -> BackendError {
    let code = 0x5732_a000u32 | (crate::error::admission_number(error) as u32);
    let unavailable = at_runtime(BackendErrorClass::ResourceUnavailable, code);
    match error {
        TaskAdmissionError::Runtime(runtime) => at_runtime(runtime_class(runtime), code).traced(
            DiagnosticTraceKind::RuntimeCode,
            crate::error::runtime_number(runtime),
        ),
        TaskAdmissionError::InsufficientTaskSlots { required, available }
        | TaskAdmissionError::InsufficientTaskStackMemory { required, available } =>
        unavailable.traced(DiagnosticTraceKind::ResourceRequired, amount(required)).traced(
            DiagnosticTraceKind::ResourceAvailable,
            amount(available),
        ),
        TaskAdmissionError::InsufficientTaskGroupSlots { owner, required, available } =>
        unavailable.traced(DiagnosticTraceKind::ResourceOwner, owner).traced(
            DiagnosticTraceKind::ResourceRequired,
            amount(required),
        ).traced(DiagnosticTraceKind::ResourceAvailable, amount(available)),
        TaskAdmissionError::InsufficientTaskGroupStackMemory {
            owner,
            required,
            available,
            largest_contiguous,
        } => unavailable.traced(DiagnosticTraceKind::ResourceOwner, owner).traced(
            DiagnosticTraceKind::ResourceRequired,
            amount(required),
        ).traced(DiagnosticTraceKind::ResourceAvailable, amount(available)).traced(
            DiagnosticTraceKind::LargestContiguous,
            amount(largest_contiguous),
        ),
    }
}

fn classify_runtime(error: RuntimeError) -> (class: BackendErrorClass)
    ensures
        class == runtime_class(error),
{
    match error {
        RuntimeError::ResourceExhausted
        | RuntimeError::NoTaskSlots => BackendErrorClass::ResourceUnavailable,
        RuntimeError::TimedOut => BackendErrorClass::BackendTimeout,
        _ => BackendErrorClass::Other,
    }
}

fn trace_amount(value: usize) -> (bounded: u32)
    ensures
        bounded == amount(value),
{
    let cap: usize = u32::MAX as usize;
    if value <= cap {
        value as u32
    } else {
        u32::MAX
    }
}

/// The public diagnostic of a runtime failure.
pub fn runtime_diagnostic(error: RuntimeError) -> (diagnostic: Diagnostic)
    ensures
        diagnostic == crate::radio::backend_diagnostic(runtime_failure(error)),
{
    let code: u32 = runtime_code(error);
    BackendError::new(classify_runtime(error), 0x5732_e000 | code).with_stage(
        DiagnosticStage::Runtime,
    ).with_profile_revision(ProfileRevision::Selected).with_trace(
        DiagnosticTraceKind::RuntimeCode,
        code,
    ).diagnostic()
}

/// The public diagnostic of an admission failure.
pub fn task_admission_diagnostic(error: TaskAdmissionError) -> (diagnostic: Diagnostic)
    ensures
        diagnostic == crate::radio::backend_diagnostic(admission_failure(error)),
{
    let code: u32 = 0x5732_a000 | task_admission_code(error);
    let class = match error {
        TaskAdmissionError::Runtime(runtime) => classify_runtime(runtime),
        _ => BackendErrorClass::ResourceUnavailable,
    };
    let backend = BackendError::new(class, code).with_stage(
        DiagnosticStage::Runtime,
    ).with_profile_revision(ProfileRevision::Selected);
    let traced = match error {
        TaskAdmissionError::Runtime(runtime) => backend.with_trace(
            DiagnosticTraceKind::RuntimeCode,
            runtime_code(runtime),
        ),
        TaskAdmissionError::InsufficientTaskSlots { required, available }
        | TaskAdmissionError::InsufficientTaskStackMemory {
            required,
            available,
        } => backend.with_trace(
            DiagnosticTraceKind::ResourceRequired,
            trace_amount(required),
        ).with_trace(DiagnosticTraceKind::ResourceAvailable, trace_amount(available)),
        TaskAdmissionError::InsufficientTaskGroupSlots {
            owner,
            required,
            available,
        } => backend.with_trace(DiagnosticTraceKind::ResourceOwner, owner).with_trace(
            DiagnosticTraceKind::ResourceRequired,
            trace_amount(required),
        ).with_trace(DiagnosticTraceKind::ResourceAvailable, trace_amount(available)),
        TaskAdmissionError::InsufficientTaskGroupStackMemory {
            owner,
            required,
            available,
            largest_contiguous,
        } => backend.with_trace(DiagnosticTraceKind::ResourceOwner, owner).with_trace(
            DiagnosticTraceKind::ResourceRequired,
            trace_amount(required),
        ).with_trace(DiagnosticTraceKind::ResourceAvailable, trace_amount(available)).with_trace(
            DiagnosticTraceKind::LargestContiguous,
            trace_amount(largest_contiguous),
        ),
    };
    traced.diagnostic()
}

/// The failure of an initialization because of the runtime.
pub open spec fn runtime_init_error(error: RuntimeError) -> InitError {
    InitError {
        kind: InitErrorKind::Runtime,
        diagnostic: crate::radio::backend_diagnostic(runtime_failure(error)),
    }
}

/// The failure of an initialization because of task admission.
pub open spec fn admission_init_error(error: TaskAdmissionError) -> InitError {
    InitError {
        kind: InitErrorKind::TaskAdmission,
        diagnostic: crate::radio::backend_diagnostic(admission_failure(error)),
    }
}

/// The failure of an initialization because of the controller.
pub open spec fn core_init_error(error: RadioError) -> InitError {
    InitError { kind: InitErrorKind::Core, diagnostic: crate::radio::radio_diagnostic(error) }
}

/// The failure of an initialization with used storage.
pub open spec fn claimed_init_error() -> InitError {
    InitError {
        kind: InitErrorKind::StorageAlreadyClaimed,
        diagnostic: crate::radio::radio_diagnostic(RadioError::AlreadyInitialized),
    }
}

impl InitError {
    pub fn runtime(error: RuntimeError) -> (failure: Self)
        ensures
            failure == runtime_init_error(error),
    {
        InitError { kind: InitErrorKind::Runtime, diagnostic: runtime_diagnostic(error) }
    }

    pub fn task_admission(error: TaskAdmissionError) -> (failure: Self)
        ensures
            failure == admission_init_error(error),
    {
        InitError {
            kind: InitErrorKind::TaskAdmission,
            diagnostic: task_admission_diagnostic(error),
        }
    }

    pub fn storage_already_claimed() -> (failure: Self)
        ensures
            failure == claimed_init_error(),
    {
        InitError {
            kind: InitErrorKind::StorageAlreadyClaimed,
            diagnostic: RadioError::AlreadyInitialized.diagnostic(),
        }
    }

    pub fn controller(error: RadioError) -> (failure: Self)
        ensures
            failure == core_init_error(error),
    {
        InitError { kind: InitErrorKind::Core, diagnostic: error.diagnostic() }
    }

    /// The failure category, without the runtime backend.
    pub fn kind(self) -> (kind: InitErrorKind)
        ensures
            kind == self.kind,
    {
        self.kind
    }

    /// The failure in the shared, secret-free schema.
    pub fn diagnostic(self) -> (diagnostic: Diagnostic)
        ensures
            diagnostic == self.diagnostic,
    {
        self.diagnostic
    }
}

/// Counters across the network bridge and the vendor's interrupt boundary.
#[derive(Clone, Copy, Debug, PartialEq, Eq, Structural)]
pub struct DataPathDiagnostics {
    /// Instrumented boundaries, one bit each.
    pub instrumented_capabilities: u32,
    pub tx_frames: u32,
    pub tx_failed: u32,
    pub vendor_tx_frames: u32,
    pub tx_completions: u32,
    /// Calls that enter the receive preparation, management traffic included.
    pub dmac_rx_prepares: u32,
    pub dmac_rx_prepare_zero: u32,
    pub dmac_rx_prepare_nonzero: u32,
    pub dmac_rx_prepare_last_result: u32,
    pub hmac_rx_data_event_adapt_calls: u32,
    pub hmac_rx_process_data_msg_calls: u32,
    pub hmac_rx_data_calls: u32,
    pub vendor_rx_frames: u32,
    pub rx_frames: u32,
    pub mac_rx_successful_mpdu: u32,
    pub mac_rx_failed_mpdu: u32,
    pub mac_rx_filtered_mpdu: u32,
    pub mac_rx_filter_control: u32,
    pub mac_station_address_matches_device: bool,
    pub mac_bssid_programmed: bool,
    pub coex_wlan_irqs: u32,
    pub wlphy_irqs: u32,
    pub wlmac_irqs: u32,
}

pub const DATA_PATH_CAP_VENDOR_TX_SUBMISSION: u32 = 0x01;

pub const DATA_PATH_CAP_VENDOR_RX_BOUNDARY: u32 = 0x02;

pub const DATA_PATH_CAP_MAC_RX_COUNTERS: u32 = 0x04;

pub const DATA_PATH_CAP_DMAC_TX_COMPLETION: u32 = 0x08;

pub const DATA_PATH_CAP_DMAC_RX_PREPARE: u32 = 0x10;

pub const DATA_PATH_CAP_MAC_FILTER_STATE: u32 = 0x20;

/// Every boundary that an instrumented snapshot reports.
pub const DATA_PATH_DIAG_CAPABILITIES: u32 = 0x3f;

/// The interrupts whose dispatches are reported.
pub const COEX_WLAN_IRQ: u32 = 40;

pub const WLPHY_IRQ: u32 = 44;

pub const WLMAC_IRQ: u32 = 45;

/// Every instrumented boundary has a bit of its own, and all of them are claimed.
pub proof fn law_capabilities_cover_every_boundary()
    ensures
        DATA_PATH_DIAG_CAPABILITIES == DATA_PATH_CAP_VENDOR_TX_SUBMISSION
            + DATA_PATH_CAP_VENDOR_RX_BOUNDARY + DATA_PATH_CAP_MAC_RX_COUNTERS
            + DATA_PATH_CAP_DMAC_TX_COMPLETION + DATA_PATH_CAP_DMAC_RX_PREPARE
            + DATA_PATH_CAP_MAC_FILTER_STATE,
        DATA_PATH_DIAG_CAPABILITIES == DATA_PATH_CAP_VENDOR_TX_SUBMISSION
            | DATA_PATH_CAP_VENDOR_RX_BOUNDARY | DATA_PATH_CAP_MAC_RX_COUNTERS
            | DATA_PATH_CAP_DMAC_TX_COMPLETION | DATA_PATH_CAP_DMAC_RX_PREPARE
            | DATA_PATH_CAP_MAC_FILTER_STATE,
{
    assert(0x3fu32 == 0x01u32 | 0x02u32 | 0x04u32 | 0x08u32 | 0x10u32 | 0x20u32) by (bit_vector);
}

/// Registers of the receive engine.
#[derive(Clone, Copy, Debug, PartialEq, Eq)]
pub struct MacSnapshot {
    pub rx_success_mpdu: u32,
    pub rx_failed_mpdu: u32,
    pub rx_filtered_mpdu: u16,
    pub rx_filter_control: u32,
    pub station_address: [u8; 6],
    pub bssid: [u8; 6],
}

/// Counters of the full event-loop instrumentation.
#[derive(Clone, Copy, Debug, PartialEq, Eq)]
pub struct LoopCounters {
    pub bridge_xmit_calls: u32,
    pub tx_complete_calls: u32,
    pub dmac_rx_calls: u32,
    pub rx_prepare_results: [u32; 3],
    pub rx_pipeline_stages: [u32; 3],
    pub netif_rx_calls: u32,
}

/// Counters of the bounded data-path instrumentation.
#[derive(Clone, Copy, Debug, PartialEq, Eq)]
pub struct BoundaryCounters {
    pub tx_submitted: u32,
    pub tx_completions: u32,
    pub rx_prepares: u32,
    pub rx_prepare_results: [u32; 3],
    pub rx_pipeline_stages: [u32; 3],
}

/// The instrumentation that is built in.
#[derive(Clone, Copy, Debug, PartialEq, Eq)]
pub enum Instrumentation {
    Absent,
    Bounded(BoundaryCounters, MacSnapshot),
    Full(LoopCounters, MacSnapshot),
}

/// Counters that are always there.
#[derive(Clone, Copy, Debug, PartialEq, Eq, Structural)]
pub struct BridgeCounters {
    pub tx_frames: u32,
    pub tx_failed: u32,
    pub rx_frames: u32,
    pub coex_wlan_irqs: u32,
    pub wlphy_irqs: u32,
    pub wlmac_irqs: u32,
}

/// Whether the programmed station address is that of the device.
pub open spec fn station_matches(station: Option<[u8; 6]>, mac: MacSnapshot) -> bool {
    station is Some && station->0@ == mac.station_address@
}

pub open spec fn bssid_programmed(mac: MacSnapshot) -> bool {
    exists|i: int| 0 <= i < 6 && #[trigger] mac.bssid@[i] != 0
}

/// Counters without instrumentation.
pub open spec fn bridge_only(bridge: BridgeCounters) -> DataPathDiagnostics {
    DataPathDiagnostics {
        instrumented_capabilities: 0,
        tx_frames: bridge.tx_frames,
        tx_failed: bridge.tx_failed,
        vendor_tx_frames: 0,
        tx_completions: 0,
        dmac_rx_prepares: 0,
        dmac_rx_prepare_zero: 0,
        dmac_rx_prepare_nonzero: 0,
        dmac_rx_prepare_last_result: 0,
        hmac_rx_data_event_adapt_calls: 0,
        hmac_rx_process_data_msg_calls: 0,
        hmac_rx_data_calls: 0,
        vendor_rx_frames: 0,
        rx_frames: bridge.rx_frames,
        mac_rx_successful_mpdu: 0,
        mac_rx_failed_mpdu: 0,
        mac_rx_filtered_mpdu: 0,
        mac_rx_filter_control: 0,
        mac_station_address_matches_device: false,
        mac_bssid_programmed: false,
        coex_wlan_irqs: bridge.coex_wlan_irqs,
        wlphy_irqs: bridge.wlphy_irqs,
        wlmac_irqs: bridge.wlmac_irqs,
    }
}

/// The registers of the receive engine in a snapshot.
pub open spec fn with_mac(
    base: DataPathDiagnostics,
    station: Option<[u8; 6]>,
    mac: MacSnapshot,
) -> DataPathDiagnostics {
    DataPathDiagnostics {
        instrumented_capabilities: DATA_PATH_DIAG_CAPABILITIES,
        mac_rx_successful_mpdu: mac.rx_success_mpdu,
        mac_rx_failed_mpdu: mac.rx_failed_mpdu,
        mac_rx_filtered_mpdu: mac.rx_filtered_mpdu as u32,
        mac_rx_filter_control: mac.rx_filter_control,
        mac_station_address_matches_device: station_matches(station, mac),
        mac_bssid_programmed: bssid_programmed(mac),
        ..base
    }
}

/// The snapshot of the data path.
pub open spec fn data_path_of(
    bridge: BridgeCounters,
    station: Option<[u8; 6]>,
    instrumentation: Instrumentation,
) -> DataPathDiagnostics {
    match instrumentation {
        Instrumentation::Absent => bridge_only(bridge),
        Instrumentation::Full(counters, mac) => DataPathDiagnostics {
            vendor_tx_frames: counters.bridge_xmit_calls,
            tx_completions: counters.tx_complete_calls,
            dmac_rx_prepares: counters.dmac_rx_calls,
            dmac_rx_prepare_zero: counters.rx_prepare_results@[0],
            dmac_rx_prepare_nonzero: counters.rx_prepare_results@[1],
            dmac_rx_prepare_last_result: counters.rx_prepare_results@[2],
            hmac_rx_data_event_adapt_calls: counters.rx_pipeline_stages@[0],
            hmac_rx_process_data_msg_calls: counters.rx_pipeline_stages@[1],
            hmac_rx_data_calls: counters.rx_pipeline_stages@[2],
            vendor_rx_frames: counters.netif_rx_calls,
            ..with_mac(bridge_only(bridge), station, mac)
        },
        Instrumentation::Bounded(counters, mac) => DataPathDiagnostics {
            vendor_tx_frames: counters.tx_submitted,
            tx_completions: counters.tx_completions,
            dmac_rx_prepares: counters.rx_prepares,
            dmac_rx_prepare_zero: counters.rx_prepare_results@[0],
            dmac_rx_prepare_nonzero: counters.rx_prepare_results@[1],
            dmac_rx_prepare_last_result: counters.rx_prepare_results@[2],
            hmac_rx_data_event_adapt_calls: counters.rx_pipeline_stages@[0],
            hmac_rx_process_data_msg_calls: counters.rx_pipeline_stages@[1],
            hmac_rx_data_calls: counters.rx_pipeline_stages@[2],
            vendor_rx_frames: bridge.rx_frames,
            ..with_mac(bridge_only(bridge), station, mac)
        },
    }
}

fn same_address(left: &[u8; 6], right: &[u8; 6]) -> (same: bool)
    ensures
        same == (left@ == right@),
{
    let same = left[0] == right[0] && left[1] == right[1] && left[2] == right[2] && left[3]
        == right[3] && left[4] == right[4] && left[5] == right[5];
    assert(same ==> left@ =~= right@);
    same
}

fn non_zero_address(address: &[u8; 6]) -> (programmed: bool)
    ensures
        programmed == (exists|i: int| 0 <= i < 6 && #[trigger] address@[i] != 0),
{
    let programmed = address[0] != 0 || address[1] != 0 || address[2] != 0 || address[3] != 0
        || address[4] != 0 || address[5] != 0;
    programmed
}

/// Snapshot the data path from the counters that the build has.
pub fn data_path_diagnostics(
    bridge: BridgeCounters,
    station: Option<[u8; 6]>,
    instrumentation: Instrumentation,
) -> (diagnostics: DataPathDiagnostics)
    ensures
        diagnostics == data_path_of(bridge, station, instrumentation),
{
    let base = DataPathDiagnostics {
        instrumented_capabilities: 0,
        tx_frames: bridge.tx_frames,
        tx_failed: bridge.tx_failed,
        vendor_tx_frames: 0,
        tx_completions: 0,
        dmac_rx_prepares: 0,
        dmac_rx_prepare_zero: 0,
        dmac_rx_prepare_nonzero: 0,
        dmac_rx_prepare_last_result: 0,
        hmac_rx_data_event_adapt_calls: 0,
        hmac_rx_process_data_msg_calls: 0,
        hmac_rx_data_calls: 0,
        vendor_rx_frames: 0,
        rx_frames: bridge.rx_frames,
        mac_rx_successful_mpdu: 0,
        mac_rx_failed_mpdu: 0,
        mac_rx_filtered_mpdu: 0,
        mac_rx_filter_control: 0,
        mac_station_address_matches_device: false,
        mac_bssid_programmed: false,
        coex_wlan_irqs: bridge.coex_wlan_irqs,
        wlphy_irqs: bridge.wlphy_irqs,
        wlmac_irqs: bridge.wlmac_irqs,
    };
    match instrumentation {
        Instrumentation::Absent => base,
        Instrumentation::Full(counters, mac) => DataPathDiagnostics {
            vendor_tx_frames: counters.bridge_xmit_calls,
            tx_completions: counters.tx_complete_calls,
            dmac_rx_prepares: counters.dmac_rx_calls,
            dmac_rx_prepare_zero: counters.rx_prepare_results[0],
            dmac_rx_prepare_nonzero: counters.rx_prepare_results[1],
            dmac_rx_prepare_last_result: counters.rx_prepare_results[2],
            hmac_rx_data_event_adapt_calls: counters.rx_pipeline_stages[0],
            hmac_rx_process_data_msg_calls: counters.rx_pipeline_stages[1],
            hmac_rx_data_calls: counters.rx_pipeline_stages[2],
            vendor_rx_frames: counters.netif_rx_calls,
            ..read_mac(base, station, mac)
        },
        Instrumentation::Bounded(counters, mac) => DataPathDiagnostics {
            vendor_tx_frames: counters.tx_submitted,
            tx_completions: counters.tx_completions,
            dmac_rx_prepares: counters.rx_prepares,
            dmac_rx_prepare_zero: counters.rx_prepare_results[0],
            dmac_rx_prepare_nonzero: counters.rx_prepare_results[1],
            dmac_rx_prepare_last_result: counters.rx_prepare_results[2],
            hmac_rx_data_event_adapt_calls: counters.rx_pipeline_stages[0],
            hmac_rx_process_data_msg_calls: counters.rx_pipeline_stages[1],
            hmac_rx_data_calls: counters.rx_pipeline_stages[2],
            vendor_rx_frames: bridge.rx_frames,
            ..read_mac(base, station, mac)
        },
    }
}

fn read_mac(base: DataPathDiagnostics, station: Option<[u8; 6]>, mac: MacSnapshot) -> (diagnostics:
    DataPathDiagnostics)
    ensures
        diagnostics == with_mac(base, station, mac),
{
    DataPathDiagnostics {
        instrumented_capabilities: DATA_PATH_DIAG_CAPABILITIES,
        mac_rx_successful_mpdu: mac.rx_success_mpdu,
        mac_rx_failed_mpdu: mac.rx_failed_mpdu,
        mac_rx_filtered_mpdu: mac.rx_filtered_mpdu as u32,
        mac_rx_filter_control: mac.rx_filter_control,
        mac_station_address_matches_device: match station {
            Some(address) => same_address(&address, &mac.station_address),
            None => false,
        },
        mac_bssid_programmed: non_zero_address(&mac.bssid),
        ..base
    }
}

/// A snapshot that claims the receive preparation reports results that add up to
/// its calls, when none is in progress and nothing has wrapped.
pub proof fn law_instrumented_receive_results_add_up(
    steps: Seq<crate::data_path_diag::RxPrepareStep>,
    bridge: BridgeCounters,
    station: Option<[u8; 6]>,
    instrumentation: Instrumentation,
)
    requires
        crate::data_path_diag::entered(steps) == crate::data_path_diag::returned(steps),
        crate::data_path_diag::entered(steps) <= u32::MAX,
        reports_preparation(
            instrumentation,
            crate::data_path_diag::RxPrepare::unused().ran(steps),
        ),
    ensures
        ({
            let d = data_path_of(bridge, station, instrumentation);
            d.instrumented_capabilities != 0 ==> {
                &&& d.instrumented_capabilities == DATA_PATH_DIAG_CAPABILITIES
                &&& d.dmac_rx_prepares == crate::data_path_diag::entered(steps)
                &&& d.dmac_rx_prepare_zero + d.dmac_rx_prepare_nonzero == d.dmac_rx_prepares
            }
        }),
{
    crate::data_path_diag::law_receive_results_add_up_to_calls(steps);
}

/// The instrumentation holds these counters of the receive preparation.
pub open spec fn reports_preparation(
    instrumentation: Instrumentation,
    prepare: crate::data_path_diag::RxPrepare,
) -> bool {
    let results = seq![prepare.zero, prepare.nonzero, prepare.last_result];
    match instrumentation {
        Instrumentation::Absent => true,
        Instrumentation::Bounded(counters, _) => counters.rx_prepares == prepare.calls
            && counters.rx_prepare_results@ == results,
        Instrumentation::Full(counters, _) => counters.dmac_rx_calls == prepare.calls
            && counters.rx_prepare_results@ == results,
    }
}

/// Counters of stale worker responses.
#[derive(Clone, Copy, Debug, PartialEq, Eq, Structural)]
pub struct IncrementalWorkerDiagnostics {
    /// Responses of an operation older than the active one.
    pub stale_responses_dropped: u32,
    /// Stale responses injected after a replacement started.
    pub stale_responses_injected: u32,
}

/// The diagnostic of an admission failure gives every amount back, as far as it
/// fits a trace value.
pub proof fn law_group_stack_shortage_is_lossless(
    owner: u32,
    required: usize,
    available: usize,
    largest_contiguous: usize,
)
    requires
        required <= u32::MAX,
        available <= u32::MAX,
        largest_contiguous <= u32::MAX,
    ensures
        ({
            let trace = admission_failure(
                TaskAdmissionError::InsufficientTaskGroupStackMemory {
                    owner,
                    required,
                    available,
                    largest_contiguous,
                },
            ).trace@;
            &&& trace.len() == 4
            &&& trace[0].kind is ResourceOwner && trace[0].value == owner
            &&& trace[1].kind is ResourceRequired && trace[1].value == required
            &&& trace[2].kind is ResourceAvailable && trace[2].value == available
            &&& trace[3].kind is LargestContiguous && trace[3].value == largest_contiguous
        }),
{
}

} // verus!
