//! What the builders, the failures and the snapshots of a composition hold.

use crate::composition::{
    data_path_diagnostics, runtime_diagnostic, task_admission_diagnostic, BridgeCounters,
    CryptoReady, DataPathDiagnostics, InitError, Instrumentation, MissingCrypto,
    MissingPke, PkeNotRequired, PkeReady, Resources, ResourcesBuilder, WifiWpa2Smoltcp,
    WifiWpa3Smoltcp,
};
use crate::error::{runtime_code, task_admission_code, RuntimeError, TaskAdmissionError};
use crate::radio::{
    Diagnostic, RadioError,
};
use vstd::prelude::*;

verus! {

/// Built step by step, the resources of the WPA2 profile hold every capability that was
/// supplied, and no PKE; those of the WPA3 profile hold the PKE as well.
pub proof fn law_built_resources_hold_what_was_supplied<F, A, K, S, Q, T>(
    efuse: F,
    arena: A,
    km: K,
    spacc: S,
    pke: Q,
    trng: T,
    second_start: ResourcesBuilder<WifiWpa2Smoltcp, F, A, MissingCrypto, PkeNotRequired>,
    second_ready: ResourcesBuilder<
        WifiWpa2Smoltcp,
        F,
        A,
        CryptoReady<K, S, T>,
        PkeNotRequired,
    >,
    second: Resources<WifiWpa2Smoltcp, F, A, K, S, Q, T>,
    third_start: ResourcesBuilder<WifiWpa3Smoltcp, F, A, MissingCrypto, MissingPke>,
    third_ready: ResourcesBuilder<WifiWpa3Smoltcp, F, A, CryptoReady<K, S, T>, MissingPke>,
    third_keyed: ResourcesBuilder<WifiWpa3Smoltcp, F, A, CryptoReady<K, S, T>, PkeReady<Q>>,
    third: Resources<WifiWpa3Smoltcp, F, A, K, S, Q, T>,
)
    requires
        call_ensures(
            Resources::<WifiWpa2Smoltcp, F, A, K, S, Q, T>::builder,
            (efuse, arena),
            second_start,
        ),
        call_ensures(
            ResourcesBuilder::<
                WifiWpa2Smoltcp,
                F,
                A,
                MissingCrypto,
                PkeNotRequired,
            >::crypto::<K, S, T>,
            (second_start, km, spacc, trng),
            second_ready,
        ),
        call_ensures(
            ResourcesBuilder::<
                WifiWpa2Smoltcp,
                F,
                A,
                CryptoReady<K, S, T>,
                PkeNotRequired,
            >::build::<Q>,
            (second_ready,),
            second,
        ),
        call_ensures(
            Resources::<WifiWpa3Smoltcp, F, A, K, S, Q, T>::builder,
            (efuse, arena),
            third_start,
        ),
        call_ensures(
            ResourcesBuilder::<WifiWpa3Smoltcp, F, A, MissingCrypto, MissingPke>::crypto::<K, S, T>,
            (third_start, km, spacc, trng),
            third_ready,
        ),
        call_ensures(
            ResourcesBuilder::<
                WifiWpa3Smoltcp,
                F,
                A,
                CryptoReady<K, S, T>,
                MissingPke,
            >::pke::<Q>,
            (third_ready, pke),
            third_keyed,
        ),
        call_ensures(
            ResourcesBuilder::<
                WifiWpa3Smoltcp,
                F,
                A,
                CryptoReady<K, S, T>,
                PkeReady<Q>,
            >::build,
            (third_keyed,),
            third,
        ),
    ensures
        second.efuse == efuse && second.arena == arena && second.km == km && second.spacc == spacc
            && second.trng == trng && second.pke is None,
        third.efuse == efuse && third.arena == arena && third.km == km && third.spacc == spacc
            && third.trng == trng && third.pke == Some(pke),
{
}

/// A runtime failure is told at the runtime stage with its own number, marked as one of
/// the runtime, which the trace repeats. A shortage asks for resources, a timeout for a
/// retry, and anything else to look at the code.
pub proof fn law_runtime_failure_is_told(error: RuntimeError, number: u32, diagnostic: Diagnostic)
    requires
        call_ensures(runtime_code, (error,), number),
        call_ensures(runtime_diagnostic, (error,), diagnostic),
    ensures
        diagnostic.stage is Runtime,
        diagnostic.backend_code == Some((0x5732_e000 + number) as u32),
        diagnostic.profile_revision is Some,
        diagnostic.trace@.len() == 1,
        diagnostic.trace@[0].kind is RuntimeCode && diagnostic.trace@[0].value == number,
        error is ResourceExhausted || error is NoTaskSlots
            <==> diagnostic.action is ProvideResources,
        error is ResourceExhausted || error is NoTaskSlots
            <==> diagnostic.code is ResourceUnavailable,
        error is TimedOut <==> diagnostic.code is BackendTimeout,
        error is TimedOut <==> diagnostic.action is RetryOperation,
        !(error is ResourceExhausted || error is NoTaskSlots || error is TimedOut)
            <==> diagnostic.code is BackendOther,
{
    assert(number < 16 ==> 0x5732_e000u32 | number == (0x5732_e000 + number) as u32)
        by (bit_vector);
}

/// The value of an amount in a trace.
pub open spec fn told(value: usize) -> int {
    if value <= 0xffff_ffff {
        value as int
    } else {
        0xffff_ffff
    }
}

/// An admission failure is told at the runtime stage. A shortage asks for resources, and
/// its trace tells the owner, where there is one, then what was required and what was
/// available, and then the largest piece, where it is known.
pub proof fn law_admission_failure_tells_its_amounts(
    error: TaskAdmissionError,
    diagnostic: Diagnostic,
)
    requires
        call_ensures(task_admission_diagnostic, (error,), diagnostic),
    ensures
        diagnostic.stage is Runtime && diagnostic.backend_code is Some,
        !(error is Runtime) ==> diagnostic.code is ResourceUnavailable
            && diagnostic.action is ProvideResources,
        error matches TaskAdmissionError::Runtime(cause) ==> diagnostic.trace@.len() == 1
            && diagnostic.trace@[0].kind is RuntimeCode && diagnostic.trace@[0].value
            == crate::error::runtime_number(cause),
        error matches TaskAdmissionError::InsufficientTaskSlots { required, available } ==> {
            &&& diagnostic.trace@.len() == 2
            &&& diagnostic.trace@[0].kind is ResourceRequired && diagnostic.trace@[0].value == told(
                required,
            )
            &&& diagnostic.trace@[1].kind is ResourceAvailable && diagnostic.trace@[1].value
                == told(available)
        },
        error matches TaskAdmissionError::InsufficientTaskStackMemory { required, available } ==> {
            &&& diagnostic.trace@.len() == 2
            &&& diagnostic.trace@[0].kind is ResourceRequired && diagnostic.trace@[0].value == told(
                required,
            )
            &&& diagnostic.trace@[1].kind is ResourceAvailable && diagnostic.trace@[1].value
                == told(available)
        },
        error matches TaskAdmissionError::InsufficientTaskGroupSlots { owner, required, available }
            ==> {
            &&& diagnostic.trace@.len() == 3
            &&& diagnostic.trace@[0].kind is ResourceOwner && diagnostic.trace@[0].value == owner
            &&& diagnostic.trace@[1].kind is ResourceRequired && diagnostic.trace@[1].value == told(
                required,
            )
            &&& diagnostic.trace@[2].kind is ResourceAvailable && diagnostic.trace@[2].value
                == told(available)
        },
        error matches TaskAdmissionError::InsufficientTaskGroupStackMemory {
            owner,
            required,
            available,
            largest_contiguous,
        } ==> {
            &&& diagnostic.trace@.len() == 4
            &&& diagnostic.trace@[0].kind is ResourceOwner && diagnostic.trace@[0].value == owner
            &&& diagnostic.trace@[1].kind is ResourceRequired && diagnostic.trace@[1].value == told(
                required,
            )
            &&& diagnostic.trace@[2].kind is ResourceAvailable && diagnostic.trace@[2].value
                == told(available)
            &&& diagnostic.trace@[3].kind is LargestContiguous && diagnostic.trace@[3].value
                == told(largest_contiguous)
        },
{
}

/// The code of an admission failure has every bit of its packed number and of the mark
/// of admissions, and no other.
pub proof fn law_admission_code_is_marked(
    error: TaskAdmissionError,
    number: u32,
    diagnostic: Diagnostic,
)
    requires
        call_ensures(task_admission_code, (error,), number),
        call_ensures(task_admission_diagnostic, (error,), diagnostic),
    ensures
        diagnostic.backend_code == Some(0x5732_a000u32 | number),
{
}

/// An initialization failure names its category, and is told as its cause is.
pub proof fn law_initialization_failure_names_its_cause(
    runtime: RuntimeError,
    admission: TaskAdmissionError,
    controller: RadioError,
    runtime_told: Diagnostic,
    admission_told: Diagnostic,
    controller_told: Diagnostic,
    of_runtime: InitError,
    of_admission: InitError,
    of_controller: InitError,
    of_storage: InitError,
)
    requires
        call_ensures(runtime_diagnostic, (runtime,), runtime_told),
        call_ensures(task_admission_diagnostic, (admission,), admission_told),
        call_ensures(RadioError::diagnostic, (controller,), controller_told),
        call_ensures(InitError::runtime, (runtime,), of_runtime),
        call_ensures(InitError::task_admission, (admission,), of_admission),
        call_ensures(InitError::controller, (controller,), of_controller),
        call_ensures(InitError::storage_already_claimed, (), of_storage),
    ensures
        of_runtime.kind is Runtime && of_runtime.diagnostic == runtime_told,
        of_admission.kind is TaskAdmission && of_admission.diagnostic == admission_told,
        of_controller.kind is Core && of_controller.diagnostic == controller_told,
        of_storage.kind is StorageAlreadyClaimed && of_storage.diagnostic.code is AlreadyInitialized
            && of_storage.diagnostic.action is UseExistingController,
{
}

/// Without instrumentation a snapshot claims no boundary and reports the counters of the
/// bridge and the interrupts alone; with any it claims all of them, and reports each
/// counter under its own name.
pub proof fn law_snapshot_reports_its_counters(
    bridge: BridgeCounters,
    station: Option<[u8; 6]>,
    instrumentation: Instrumentation,
    d: DataPathDiagnostics,
)
    requires
        call_ensures(data_path_diagnostics, (bridge, station, instrumentation), d),
    ensures
        d.tx_frames == bridge.tx_frames && d.tx_failed == bridge.tx_failed && d.rx_frames
            == bridge.rx_frames,
        d.coex_wlan_irqs == bridge.coex_wlan_irqs && d.wlphy_irqs == bridge.wlphy_irqs
            && d.wlmac_irqs == bridge.wlmac_irqs,
        d.instrumented_capabilities == (if instrumentation is Absent {
            0u32
        } else {
            0x3f
        }),
        instrumentation is Absent ==> d.vendor_tx_frames == 0 && d.tx_completions == 0
            && d.dmac_rx_prepares == 0 && d.vendor_rx_frames == 0 && d.mac_rx_successful_mpdu == 0
            && d.mac_rx_failed_mpdu == 0 && d.mac_rx_filtered_mpdu == 0
            && !d.mac_station_address_matches_device && !d.mac_bssid_programmed,
        instrumentation matches Instrumentation::Full(counters, mac) ==> {
            &&& d.vendor_tx_frames == counters.bridge_xmit_calls
            &&& d.tx_completions == counters.tx_complete_calls
            &&& d.dmac_rx_prepares == counters.dmac_rx_calls
            &&& d.dmac_rx_prepare_zero == counters.rx_prepare_results[0]
            &&& d.dmac_rx_prepare_nonzero == counters.rx_prepare_results[1]
            &&& d.dmac_rx_prepare_last_result == counters.rx_prepare_results[2]
            &&& d.hmac_rx_data_event_adapt_calls == counters.rx_pipeline_stages[0]
            &&& d.hmac_rx_process_data_msg_calls == counters.rx_pipeline_stages[1]
            &&& d.hmac_rx_data_calls == counters.rx_pipeline_stages[2]
            &&& d.vendor_rx_frames == counters.netif_rx_calls
            &&& d.mac_rx_successful_mpdu == mac.rx_success_mpdu
            &&& d.mac_rx_failed_mpdu == mac.rx_failed_mpdu
            &&& d.mac_rx_filtered_mpdu == mac.rx_filtered_mpdu
            &&& d.mac_rx_filter_control == mac.rx_filter_control
            &&& d.mac_station_address_matches_device <==> station is Some && station->0@
                == mac.station_address@
            &&& d.mac_bssid_programmed <==> mac.bssid@ != seq![0u8, 0, 0, 0, 0, 0]
        },
        instrumentation matches Instrumentation::Bounded(counters, mac) ==> {
            &&& d.vendor_tx_frames == counters.tx_submitted
            &&& d.tx_completions == counters.tx_completions
            &&& d.dmac_rx_prepares == counters.rx_prepares
            &&& d.dmac_rx_prepare_zero == counters.rx_prepare_results[0]
            &&& d.dmac_rx_prepare_nonzero == counters.rx_prepare_results[1]
            &&& d.dmac_rx_prepare_last_result == counters.rx_prepare_results[2]
            &&& d.hmac_rx_data_event_adapt_calls == counters.rx_pipeline_stages[0]
            &&& d.hmac_rx_process_data_msg_calls == counters.rx_pipeline_stages[1]
            &&& d.hmac_rx_data_calls == counters.rx_pipeline_stages[2]
            &&& d.vendor_rx_frames == bridge.rx_frames
            &&& d.mac_rx_successful_mpdu == mac.rx_success_mpdu
            &&& d.mac_rx_failed_mpdu == mac.rx_failed_mpdu
            &&& d.mac_rx_filtered_mpdu == mac.rx_filtered_mpdu
            &&& d.mac_rx_filter_control == mac.rx_filter_control
            &&& d.mac_station_address_matches_device <==> station is Some && station->0@
                == mac.station_address@
            &&& d.mac_bssid_programmed <==> mac.bssid@ != seq![0u8, 0, 0, 0, 0, 0]
        },
{
    if let Instrumentation::Full(_, mac) = instrumentation {
        lemma_programmed(mac.bssid@);
    }
    if let Instrumentation::Bounded(_, mac) = instrumentation {
        lemma_programmed(mac.bssid@);
    }
}

proof fn lemma_programmed(address: Seq<u8>)
    requires
        address.len() == 6,
    ensures
        (exists|i: int| 0 <= i < 6 && #[trigger] address[i] != 0) <==> address != seq![
            0u8,
            0,
            0,
            0,
            0,
            0,
        ],
{
    if forall|i: int| 0 <= i < 6 ==> #[trigger] address[i] == 0 {
        assert(address =~= seq![0u8, 0, 0, 0, 0, 0]);
    }
}

} // verus!
