//! Secret-free snapshots of what the supplicant port, the vendor driver and the
//! crypto engines counted.
//!
//! The counters are kept by the application, which hands them over as one value.

use crate::hisi_rf_backend::incremental::IncrementalSupplicant;
use crate::hisi_rf_backend::AssociationAttempt;
use crate::render::{append_hex, append_text};
use vstd::prelude::*;
use vstd::string::*;

verus! {

/// OSAL success.
pub const OSAL_OK: i32 = 0;

/// OSAL generic failure.
pub const OSAL_NOK: i32 = 1;

/// A wait without a deadline.
pub const OSAL_SYS_WAIT_FOREVER: u32 = 0xFFFF_FFFF;

/// Dynamic task slots that the vendor bootstrap needs. The incremental worker is
/// reserved separately.
pub const WS63_WIFI_VENDOR_DYNAMIC_TASKS_REQUIRED: usize = 7;

/// How often a driver request was made, and how long it took.
#[derive(Clone, Copy, Debug, PartialEq, Eq, Structural)]
pub struct AssociationIoctlMetrics {
    pub calls: u32,
    pub last_ms: u32,
    pub max_ms: u32,
}

impl AssociationIoctlMetrics {
    /// The last request took no longer than the longest, and without a request
    /// none took any time.
    pub open spec fn wf(self) -> bool {
        &&& self.last_ms <= self.max_ms
        &&& self.calls == 0 ==> self.max_ms == 0
    }

    /// The calls, the last duration and the longest one.
    pub open spec fn words(self) -> Seq<u32> {
        seq![self.calls, self.last_ms, self.max_ms]
    }

    /// The counters after one more request. The number of calls stops at its
    /// largest value.
    pub open spec fn timed(self, elapsed_ms: u32) -> Self {
        AssociationIoctlMetrics {
            calls: if self.calls < u32::MAX {
                (self.calls + 1) as u32
            } else {
                u32::MAX
            },
            last_ms: elapsed_ms,
            max_ms: if elapsed_ms > self.max_ms {
                elapsed_ms
            } else {
                self.max_ms
            },
        }
    }

    pub fn new() -> (metrics: Self)
        ensures
            metrics == (AssociationIoctlMetrics { calls: 0, last_ms: 0, max_ms: 0 }),
            metrics.wf(),
    {
        AssociationIoctlMetrics { calls: 0, last_ms: 0, max_ms: 0 }
    }

    /// Record one request.
    pub fn record(&mut self, elapsed_ms: u32)
        ensures
            *final(self) == old(self).timed(elapsed_ms),
            final(self).wf(),
    {
        self.calls = self.calls.saturating_add(1);
        self.last_ms = elapsed_ms;
        if elapsed_ms > self.max_ms {
            self.max_ms = elapsed_ms;
        }
    }
}

/// Driver requests of the association: the first one, the disconnect of a stale
/// state, the bounded retry, and an ordinary deauthentication.
#[derive(Clone, Copy, Debug, PartialEq, Eq, Structural)]
pub struct AssociationTimingDiagnostics {
    pub associate: AssociationIoctlMetrics,
    pub stale_disconnect: AssociationIoctlMetrics,
    pub associate_retry: AssociationIoctlMetrics,
    pub deauthenticate: AssociationIoctlMetrics,
}

impl AssociationTimingDiagnostics {
    pub open spec fn wf(self) -> bool {
        self.associate.wf() && self.stale_disconnect.wf() && self.associate_retry.wf()
            && self.deauthenticate.wf()
    }

    /// Three words of each request, in order.
    pub open spec fn words(self) -> Seq<u32> {
        self.associate.words() + self.stale_disconnect.words() + self.associate_retry.words()
            + self.deauthenticate.words()
    }
}

/// Scan counters of the supplicant port.
#[derive(Clone, Copy, Debug, PartialEq, Eq, Structural)]
pub struct NativeScan {
    pub starts: u32,
    pub results: u32,
    pub done: u32,
    pub active: u32,
    pub pending: u32,
    pub dropped: u32,
    pub start_ms: u32,
    pub done_ms: u32,
}

/// Scan state of the vendor driver.
#[derive(Clone, Copy, Debug, PartialEq, Eq, Structural)]
pub struct DriverScan {
    pub active: u32,
    pub done: u32,
    pub results: u32,
    pub status: u32,
    pub done_ms: u32,
}

/// What the supplicant port counted.
#[derive(Clone, Copy, Debug)]
pub struct SupplicantDiagnostics {
    pub bring_up: [u32; 11],
    pub association_ioctls: AssociationTimingDiagnostics,
    pub external_auth_retry: [u32; 2],
    pub scan: NativeScan,
    pub authentication: [u32; 12],
    pub authentication_progress: [u32; 10],
    pub eapol: [u32; 8],
    pub events: [u32; 6],
    pub recovery: u32,
    pub temporary_reject_recovery: [u32; 4],
}

/// What the vendor driver counted.
#[derive(Clone, Copy, Debug)]
pub struct DriverDiagnostics {
    pub scan: DriverScan,
    pub events: [u32; 6],
}

/// What the crypto engines counted.
#[derive(Clone, Copy, Debug)]
pub struct CryptoDiagnostics {
    pub entropy: [u32; 4],
    pub pbkdf2: [u32; 5],
    pub hash: [u32; 10],
    pub cipher: [u32; 6],
    pub p256: [u32; 8],
    pub p256_field: [u32; 10],
    pub p256_curve: [u32; 10],
    pub contention: [u32; 5],
}

/// The bring-up snapshot.
pub fn upstream_supplicant_diagnostic_snapshot(port: &SupplicantDiagnostics) -> (words: [u32; 11])
    ensures
        words == port.bring_up,
{
    port.bring_up
}

/// Crypto counters of an access point: entropy, PBKDF2, hash and cipher.
pub fn upstream_authenticator_crypto_diagnostic_snapshot(crypto: &CryptoDiagnostics) -> (words: [u32;
    25])
    ensures
        words@ == crypto.entropy@ + crypto.pbkdf2@ + crypto.hash@ + crypto.cipher@,
{
    let e = crypto.entropy;
    let p = crypto.pbkdf2;
    let h = crypto.hash;
    let c = crypto.cipher;
    let words: [u32; 25] = [
        e[0], e[1], e[2], e[3],
        p[0], p[1], p[2], p[3], p[4],
        h[0], h[1], h[2], h[3], h[4], h[5], h[6], h[7], h[8], h[9],
        c[0], c[1], c[2], c[3], c[4], c[5],
    ];
    assert(words@ =~= crypto.entropy@ + crypto.pbkdf2@ + crypto.hash@ + crypto.cipher@);
    words
}

/// Driver requests of the association, three words each.
pub fn upstream_supplicant_association_ioctl_diagnostic_snapshot(port: &SupplicantDiagnostics) -> (
words: [u32; 12])
    ensures
        words@ == port.association_ioctls.words(),
{
    let ioctls = port.association_ioctls;
    let words: [u32; 12] = [
        ioctls.associate.calls,
        ioctls.associate.last_ms,
        ioctls.associate.max_ms,
        ioctls.stale_disconnect.calls,
        ioctls.stale_disconnect.last_ms,
        ioctls.stale_disconnect.max_ms,
        ioctls.associate_retry.calls,
        ioctls.associate_retry.last_ms,
        ioctls.associate_retry.max_ms,
        ioctls.deauthenticate.calls,
        ioctls.deauthenticate.last_ms,
        ioctls.deauthenticate.max_ms,
    ];
    assert(words@ =~= port.association_ioctls.words());
    words
}

/// Counter-only timing of the association requests.
pub fn association_timing_diagnostics(port: &SupplicantDiagnostics) -> (timing:
    AssociationTimingDiagnostics)
    ensures
        timing == port.association_ioctls,
{
    port.association_ioctls
}

/// Retries of the external authentication status.
pub fn upstream_supplicant_external_auth_retry_diagnostic_snapshot(
    port: &SupplicantDiagnostics,
) -> (words: [u32; 2])
    ensures
        words == port.external_auth_retry,
{
    port.external_auth_retry
}

/// The scan words: eight of the supplicant port and five of the driver.
pub open spec fn scan_words(native: NativeScan, driver: DriverScan) -> Seq<u32> {
    seq![
        native.starts,
        native.results,
        native.done,
        native.active,
        native.pending,
        native.dropped,
        native.start_ms,
        native.done_ms,
        driver.active,
        driver.done,
        driver.results,
        driver.status,
        driver.done_ms,
    ]
}

/// Scan queue and callback words.
pub fn upstream_supplicant_scan_diagnostic_snapshot(
    port: &SupplicantDiagnostics,
    driver: &DriverDiagnostics,
) -> (words: [u32; 13])
    ensures
        words@ == scan_words(port.scan, driver.scan),
{
    let words: [u32; 13] = [
        port.scan.starts,
        port.scan.results,
        port.scan.done,
        port.scan.active,
        port.scan.pending,
        port.scan.dropped,
        port.scan.start_ms,
        port.scan.done_ms,
        driver.scan.active,
        driver.scan.done,
        driver.scan.results,
        driver.scan.status,
        driver.scan.done_ms,
    ];
    assert(words@ =~= scan_words(port.scan, driver.scan));
    words
}

/// Scan and callback state captured at an operation boundary.
#[derive(Clone, Copy, Debug, PartialEq, Eq, Structural)]
pub struct ScanDiagnostics {
    /// Native scan requests started.
    pub native_starts: u32,
    /// Native scan-result events accepted.
    pub native_results: u32,
    /// Native scan-done events accepted.
    pub native_done: u32,
    /// Whether the native scan capture remains active.
    pub native_active: bool,
    /// Whether the native scan-event queue contains pending work.
    pub queue_pending: bool,
    /// Native scan events dropped because the queue was full.
    pub queue_dropped: u32,
    /// When the scan transaction started, in milliseconds.
    pub native_start_ms: u32,
    /// When native completion was first observed, in milliseconds.
    pub native_done_ms: u32,
    /// Whether the driver scan state remains active.
    pub driver_active: bool,
    /// Whether the driver published scan completion.
    pub driver_done: bool,
    /// Results retained by the driver callback.
    pub driver_results: u32,
    /// Raw scan completion status.
    pub driver_status: u32,
    /// When driver completion was first observed, in milliseconds.
    pub driver_done_ms: u32,
}

/// The typed form of the scan words.
pub open spec fn scan_diagnostics_of(native: NativeScan, driver: DriverScan) -> ScanDiagnostics {
    ScanDiagnostics {
        native_starts: native.starts,
        native_results: native.results,
        native_done: native.done,
        native_active: native.active != 0,
        queue_pending: native.pending != 0,
        queue_dropped: native.dropped,
        native_start_ms: native.start_ms,
        native_done_ms: native.done_ms,
        driver_active: driver.active != 0,
        driver_done: driver.done != 0,
        driver_results: driver.results,
        driver_status: driver.status,
        driver_done_ms: driver.done_ms,
    }
}

/// Typed scan state. Without a vendor driver, every field is zero.
pub fn upstream_supplicant_scan_diagnostics(
    port: &SupplicantDiagnostics,
    driver: Option<&DriverDiagnostics>,
) -> (diagnostics: ScanDiagnostics)
    ensures
        diagnostics == (match driver {
            Some(driver) => scan_diagnostics_of(port.scan, driver.scan),
            None => scan_diagnostics_of(no_native_scan(), no_driver_scan()),
        }),
{
    match driver {
        Some(driver) => {
            let values = upstream_supplicant_scan_diagnostic_snapshot(port, driver);
            ScanDiagnostics {
                native_starts: values[0],
                native_results: values[1],
                native_done: values[2],
                native_active: values[3] != 0,
                queue_pending: values[4] != 0,
                queue_dropped: values[5],
                native_start_ms: values[6],
                native_done_ms: values[7],
                driver_active: values[8] != 0,
                driver_done: values[9] != 0,
                driver_results: values[10],
                driver_status: values[11],
                driver_done_ms: values[12],
            }
        },
        None => ScanDiagnostics {
            native_starts: 0,
            native_results: 0,
            native_done: 0,
            native_active: false,
            queue_pending: false,
            queue_dropped: 0,
            native_start_ms: 0,
            native_done_ms: 0,
            driver_active: false,
            driver_done: false,
            driver_results: 0,
            driver_status: 0,
            driver_done_ms: 0,
        },
    }
}

/// Scan counters before any scan.
pub open spec fn no_native_scan() -> NativeScan {
    NativeScan {
        starts: 0,
        results: 0,
        done: 0,
        active: 0,
        pending: 0,
        dropped: 0,
        start_ms: 0,
        done_ms: 0,
    }
}

/// Driver scan state before any scan.
pub open spec fn no_driver_scan() -> DriverScan {
    DriverScan { active: 0, done: 0, results: 0, status: 0, done_ms: 0 }
}

/// Header words of the last authentication frames.
pub fn upstream_supplicant_authentication_diagnostic_snapshot(port: &SupplicantDiagnostics) -> (
words: [u32; 12])
    ensures
        words == port.authentication,
{
    port.authentication
}

/// Sequence and timing words of the external authentication.
pub fn upstream_supplicant_authentication_progress_snapshot(port: &SupplicantDiagnostics) -> (words:
    [u32; 10])
    ensures
        words == port.authentication_progress,
{
    port.authentication_progress
}

/// EAPOL notifications, receptions, transmissions and key installations.
pub fn upstream_supplicant_eapol_diagnostic_snapshot(port: &SupplicantDiagnostics) -> (words: [u32;
    8])
    ensures
        words == port.eapol,
{
    port.eapol
}

/// Copy the retained association results, as far as there is room. The result is
/// how many were copied.
pub fn upstream_supplicant_association_attempt_diagnostics(
    retained: &[AssociationAttempt],
    output: &mut [AssociationAttempt],
) -> (copied: usize)
    ensures
        copied == (if retained@.len() < old(output)@.len() {
            retained@.len()
        } else {
            old(output)@.len()
        }),
        final(output)@ == retained@.take(copied as int) + old(output)@.skip(copied as int),
{
    let mut copied: usize = 0;
    while copied < retained.len() && copied < output.len()
        invariant
            copied <= retained@.len(),
            copied <= output@.len(),
            output@.len() == old(output)@.len(),
            forall|i: int| 0 <= i < copied ==> #[trigger] output@[i] == retained@[i],
            forall|i: int| copied <= i < output@.len() ==> #[trigger] output@[i] == old(output)@[i],
        decreases retained@.len() - copied,
    {
        output[copied] = retained[copied];
        copied = copied + 1;
    }
    assert(output@ =~= retained@.take(copied as int) + old(output)@.skip(copied as int));
    copied
}

/// Event-ring words and the last event.
pub fn upstream_supplicant_event_diagnostic_snapshot(port: &SupplicantDiagnostics) -> (words: [u32;
    6])
    ensures
        words == port.events,
{
    port.events
}

/// Callback words of the vendor driver.
pub fn upstream_supplicant_driver_event_diagnostic_snapshot(driver: &DriverDiagnostics) -> (words:
    [u32; 6])
    ensures
        words == driver.events,
{
    driver.events
}

/// First-EAPOL timeout and reassociation recovery counters, in one word.
pub fn upstream_supplicant_recovery_diagnostic_word(port: &SupplicantDiagnostics) -> (word: u32)
    ensures
        word == port.recovery,
{
    port.recovery
}

/// Reconnects submitted for first-EAPOL and for external-authentication stalls.
pub fn incremental_reconnect_diagnostic_snapshot(supplicant: &IncrementalSupplicant) -> (words: [u32;
    2])
    ensures
        words@ == seq![supplicant.first_eapol_reconnects, supplicant.external_auth_reconnects],
{
    supplicant.reconnect_diagnostic_snapshot()
}

/// Stale associations that were cleared after a temporary rejection.
pub fn upstream_supplicant_temporary_reject_recovery_diagnostic_snapshot(
    port: &SupplicantDiagnostics,
) -> (words: [u32; 4])
    ensures
        words == port.temporary_reject_recovery,
{
    port.temporary_reject_recovery
}

/// Entropy health words.
pub fn hardware_entropy_diagnostic_snapshot(crypto: &CryptoDiagnostics) -> (words: [u32; 4])
    ensures
        words == crypto.entropy,
{
    crypto.entropy
}

/// PBKDF2 health words.
pub fn hardware_pbkdf2_diagnostic_snapshot(crypto: &CryptoDiagnostics) -> (words: [u32; 5])
    ensures
        words == crypto.pbkdf2,
{
    crypto.pbkdf2
}

/// Hash and HMAC health words.
pub fn hardware_hash_diagnostic_snapshot(crypto: &CryptoDiagnostics) -> (words: [u32; 10])
    ensures
        words == crypto.hash,
{
    crypto.hash
}

/// AES request, failure, timing and recovery words.
pub fn hardware_cipher_diagnostic_snapshot(crypto: &CryptoDiagnostics) -> (words: [u32; 6])
    ensures
        words == crypto.cipher,
{
    crypto.cipher
}

/// P-256 point-operation words.
pub fn hardware_p256_diagnostic_snapshot(crypto: &CryptoDiagnostics) -> (words: [u32; 8])
    ensures
        words == crypto.p256,
{
    crypto.p256
}

/// P-256 field-operation words.
pub fn hardware_p256_field_diagnostic_snapshot(crypto: &CryptoDiagnostics) -> (words: [u32; 10])
    ensures
        words == crypto.p256_field,
{
    crypto.p256_field
}

/// P-256 curve-composition words.
pub fn hardware_p256_curve_diagnostic_snapshot(crypto: &CryptoDiagnostics) -> (words: [u32; 10])
    ensures
        words == crypto.p256_curve,
{
    crypto.p256_curve
}

/// Words of the contention between tasks for the engines.
pub fn hardware_crypto_contention_diagnostic_snapshot(crypto: &CryptoDiagnostics) -> (words: [u32;
    5])
    ensures
        words == crypto.contention,
{
    crypto.contention
}

/// The line of a mask-ROM callback that is not supplied.
pub open spec fn missing_callback(caller: u32) -> Seq<u8> {
    "RFDBG_MISSING_ROM_CALLBACK ra=0x".spec_bytes() + crate::render::hex_of(caller)
        + "\r\n".spec_bytes()
}

pub fn missing_rom_callback_line(caller: u32) -> (line: Vec<u8>)
    ensures
        line@ == missing_callback(caller),
{
    let mut line: Vec<u8> = Vec::new();
    append_text(&mut line, "RFDBG_MISSING_ROM_CALLBACK ra=0x");
    append_hex(&mut line, caller);
    append_text(&mut line, "\r\n");
    assert(line@ =~= missing_callback(caller));
    line
}

/// The typed scan state loses nothing of the scan words but the values of the
/// words that are flags.
pub proof fn law_typed_scan_state_is_faithful(
    a: NativeScan,
    b: DriverScan,
    c: NativeScan,
    d: DriverScan,
)
    requires
        scan_diagnostics_of(a, b) == scan_diagnostics_of(c, d),
    ensures
        forall|i: int|
            0 <= i < 13 && i != 3 && i != 4 && i != 8 && i != 9 ==> #[trigger] scan_words(a, b)[i]
                == scan_words(c, d)[i],
        forall|i: int|
            0 <= i < 13 ==> (#[trigger] scan_words(a, b)[i] == 0 <==> scan_words(c, d)[i] == 0),
{
}

/// However requests are recorded, the last one of each kind took no longer than
/// the longest, and before the first both durations are zero. The words say the
/// same, three for each kind.
pub proof fn law_association_timing_is_consistent(
    timing: AssociationTimingDiagnostics,
    elapsed_ms: u32,
    kind: int,
)
    requires
        timing.wf(),
        0 <= kind < 4,
    ensures
        timing.words().len() == 12,
        timing.words()[3 * kind + 1] <= timing.words()[3 * kind + 2],
        timing.words()[3 * kind] == 0 ==> timing.words()[3 * kind + 1] == 0
            && timing.words()[3 * kind + 2] == 0,
        timing.associate.timed(elapsed_ms).wf(),
        timing.associate.timed(elapsed_ms).calls != 0,
        timing.associate.timed(elapsed_ms).max_ms >= timing.associate.max_ms,
{
}

/// The scan words tell each counter in its place, and the typed scan state the same under
/// its own name, with a flag for each word that is one.
pub proof fn law_scan_state_is_told_in_place(
    port: SupplicantDiagnostics,
    driver: DriverDiagnostics,
    words: [u32; 13],
    typed: ScanDiagnostics,
    none: ScanDiagnostics,
)
    requires
        call_ensures(upstream_supplicant_scan_diagnostic_snapshot, (&port, &driver), words),
        call_ensures(upstream_supplicant_scan_diagnostics, (&port, Some(&driver)), typed),
        call_ensures(upstream_supplicant_scan_diagnostics, (&port, None), none),
    ensures
        words@[0] == port.scan.starts && typed.native_starts == words@[0],
        words@[1] == port.scan.results && typed.native_results == words@[1],
        words@[2] == port.scan.done && typed.native_done == words@[2],
        words@[3] == port.scan.active && (typed.native_active <==> words@[3] != 0),
        words@[4] == port.scan.pending && (typed.queue_pending <==> words@[4] != 0),
        words@[5] == port.scan.dropped && typed.queue_dropped == words@[5],
        words@[6] == port.scan.start_ms && typed.native_start_ms == words@[6],
        words@[7] == port.scan.done_ms && typed.native_done_ms == words@[7],
        words@[8] == driver.scan.active && (typed.driver_active <==> words@[8] != 0),
        words@[9] == driver.scan.done && (typed.driver_done <==> words@[9] != 0),
        words@[10] == driver.scan.results && typed.driver_results == words@[10],
        words@[11] == driver.scan.status && typed.driver_status == words@[11],
        words@[12] == driver.scan.done_ms && typed.driver_done_ms == words@[12],
        none.native_starts == 0 && none.native_results == 0 && none.native_done == 0
            && !none.native_active && !none.queue_pending && none.queue_dropped == 0,
        none.native_start_ms == 0 && none.native_done_ms == 0 && !none.driver_active
            && !none.driver_done && none.driver_results == 0 && none.driver_status == 0
            && none.driver_done_ms == 0,
{
}

/// The words of the crypto engines follow one another: entropy, PBKDF2, hash and cipher;
/// and those of the association requests by request, each with its calls, its last and its
/// longest duration.
pub proof fn law_joined_words_are_in_order(
    port: SupplicantDiagnostics,
    crypto: CryptoDiagnostics,
    joined: [u32; 25],
    requests: [u32; 12],
)
    requires
        call_ensures(upstream_authenticator_crypto_diagnostic_snapshot, (&crypto,), joined),
        call_ensures(upstream_supplicant_association_ioctl_diagnostic_snapshot, (&port,), requests),
    ensures
        forall|i: int| 0 <= i < 4 ==> #[trigger] joined@[i] == crypto.entropy@[i],
        forall|i: int| 4 <= i < 9 ==> #[trigger] joined@[i] == crypto.pbkdf2@[i - 4],
        forall|i: int| 9 <= i < 19 ==> #[trigger] joined@[i] == crypto.hash@[i - 9],
        forall|i: int| 19 <= i < 25 ==> #[trigger] joined@[i] == crypto.cipher@[i - 19],
        requests@[0] == port.association_ioctls.associate.calls && requests@[1]
            == port.association_ioctls.associate.last_ms && requests@[2]
            == port.association_ioctls.associate.max_ms,
        requests@[3] == port.association_ioctls.stale_disconnect.calls && requests@[4]
            == port.association_ioctls.stale_disconnect.last_ms && requests@[5]
            == port.association_ioctls.stale_disconnect.max_ms,
        requests@[6] == port.association_ioctls.associate_retry.calls && requests@[7]
            == port.association_ioctls.associate_retry.last_ms && requests@[8]
            == port.association_ioctls.associate_retry.max_ms,
        requests@[9] == port.association_ioctls.deauthenticate.calls && requests@[10]
            == port.association_ioctls.deauthenticate.last_ms && requests@[11]
            == port.association_ioctls.deauthenticate.max_ms,
{
}

/// A request is counted once, up to the largest count, with its duration as the last one;
/// the longest duration is the largest that was seen.
pub proof fn law_request_is_timed(elapsed_ms: u32)
    ensures
        forall|metrics: &mut AssociationIoctlMetrics, unit: ()| #[trigger]
            call_ensures(AssociationIoctlMetrics::record, (metrics, elapsed_ms), unit) ==> {
                let before = *metrics;
                let after = *final(metrics);
                &&& before.calls < u32::MAX ==> after.calls == before.calls + 1
                &&& before.calls == u32::MAX ==> after.calls == u32::MAX
                &&& after.last_ms == elapsed_ms
                &&& after.max_ms >= elapsed_ms && after.max_ms >= before.max_ms
                &&& after.max_ms == elapsed_ms || after.max_ms == before.max_ms
            },
{
}

/// The retained association results are copied in order, as many as there are or as there
/// is room for, and the rest of the buffer stays.
pub proof fn law_association_results_are_copied_in_order(retained: &[AssociationAttempt])
    ensures
        forall|output: &mut [AssociationAttempt], copied: usize| #[trigger]
            call_ensures(
                upstream_supplicant_association_attempt_diagnostics,
                (retained, output),
                copied,
            ) ==> {
                &&& copied <= retained@.len() && copied <= (*output)@.len()
                &&& copied == retained@.len() || copied == (*output)@.len()
                &&& (*final(output))@.len() == (*output)@.len()
                &&& forall|i: int|
                    0 <= i < copied ==> #[trigger] (*final(output))@[i] == retained@[i]
                &&& forall|i: int|
                    copied <= i < (*output)@.len() ==> #[trigger] (*final(output))@[i]
                        == (*output)@[i]
            },
{
}

/// Each snapshot tells the words of its own subject.
pub proof fn law_snapshots_tell_their_subject(
    port: SupplicantDiagnostics,
    driver: DriverDiagnostics,
    supplicant: IncrementalSupplicant,
    bring_up: [u32; 11],
    authentication: [u32; 12],
    progress: [u32; 10],
    eapol: [u32; 8],
    events: [u32; 6],
    driver_events: [u32; 6],
    recovery: u32,
    rejects: [u32; 4],
    reconnects: [u32; 2],
    retries: [u32; 2],
)
    requires
        call_ensures(upstream_supplicant_diagnostic_snapshot, (&port,), bring_up),
        call_ensures(
            upstream_supplicant_authentication_diagnostic_snapshot,
            (&port,),
            authentication,
        ),
        call_ensures(upstream_supplicant_authentication_progress_snapshot, (&port,), progress),
        call_ensures(upstream_supplicant_eapol_diagnostic_snapshot, (&port,), eapol),
        call_ensures(upstream_supplicant_event_diagnostic_snapshot, (&port,), events),
        call_ensures(
            upstream_supplicant_driver_event_diagnostic_snapshot,
            (&driver,),
            driver_events,
        ),
        call_ensures(upstream_supplicant_recovery_diagnostic_word, (&port,), recovery),
        call_ensures(
            upstream_supplicant_temporary_reject_recovery_diagnostic_snapshot,
            (&port,),
            rejects,
        ),
        call_ensures(incremental_reconnect_diagnostic_snapshot, (&supplicant,), reconnects),
        call_ensures(
            upstream_supplicant_external_auth_retry_diagnostic_snapshot,
            (&port,),
            retries,
        ),
    ensures
        bring_up == port.bring_up && authentication == port.authentication,
        progress == port.authentication_progress && eapol == port.eapol,
        events == port.events && driver_events == driver.events && recovery == port.recovery,
        rejects == port.temporary_reject_recovery && retries == port.external_auth_retry,
        reconnects@[0] == supplicant.first_eapol_reconnects && reconnects@[1]
            == supplicant.external_auth_reconnects,
{
}

/// Each snapshot of a crypto engine tells the words of that engine.
pub proof fn law_engine_snapshots_tell_their_engine(
    crypto: CryptoDiagnostics,
    entropy: [u32; 4],
    pbkdf2: [u32; 5],
    hash: [u32; 10],
    cipher: [u32; 6],
    p256: [u32; 8],
    field: [u32; 10],
    curve: [u32; 10],
    contention: [u32; 5],
)
    requires
        call_ensures(hardware_entropy_diagnostic_snapshot, (&crypto,), entropy),
        call_ensures(hardware_pbkdf2_diagnostic_snapshot, (&crypto,), pbkdf2),
        call_ensures(hardware_hash_diagnostic_snapshot, (&crypto,), hash),
        call_ensures(hardware_cipher_diagnostic_snapshot, (&crypto,), cipher),
        call_ensures(hardware_p256_diagnostic_snapshot, (&crypto,), p256),
        call_ensures(hardware_p256_field_diagnostic_snapshot, (&crypto,), field),
        call_ensures(hardware_p256_curve_diagnostic_snapshot, (&crypto,), curve),
        call_ensures(hardware_crypto_contention_diagnostic_snapshot, (&crypto,), contention),
    ensures
        entropy == crypto.entropy && pbkdf2 == crypto.pbkdf2 && hash == crypto.hash && cipher
            == crypto.cipher,
        p256 == crypto.p256 && field == crypto.p256_field && curve == crypto.p256_curve
            && contention == crypto.contention,
{
}

} // verus!
