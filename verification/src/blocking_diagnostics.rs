//! Counters of the blocking Wi-Fi backend.

use crate::render::{append, append_hex, append_text};
use vstd::prelude::*;
use vstd::string::*;

verus! {

/// Ordered stages of the one-shot Wi-Fi bootstrap.
///
/// A boundary between stages does not imply that the enclosed vendor call can be
/// preempted.
#[derive(Clone, Copy, Debug, PartialEq, Eq, Structural)]
#[non_exhaustive]
pub enum BootstrapStage {
    /// Consume the uniquely owned resources of the backend.
    ResourceClaim,
    /// Install the selected crypto backend.
    CryptoInstall,
    /// Run the enabled crypto self-tests.
    CryptoSelfTest,
    /// Prepare the dedicated vendor memory.
    VendorMemoryPrepare,
    /// Initialize the monotonic timebase.
    RomTimebaseInitialize,
    /// Start the vendor Wi-Fi runtime.
    VendorWifiInitialize,
    /// Create the station network device.
    StationDeviceCreate,
    /// Register bounded vendor event delivery.
    EventRegistration,
    /// Open the station data path after event delivery is installed.
    StationDeviceOpen,
    /// Install the supplicant port.
    SupplicantPortPrepare,
    /// Create the native supplicant context.
    NativeSupplicantCreate,
}

/// The number of bootstrap stages.
pub const BOOTSTRAP_STAGES: usize = 11;

/// The position of a stage in execution order.
pub open spec fn stage_position(stage: BootstrapStage) -> int {
    match stage {
        BootstrapStage::ResourceClaim => 0,
        BootstrapStage::CryptoInstall => 1,
        BootstrapStage::CryptoSelfTest => 2,
        BootstrapStage::VendorMemoryPrepare => 3,
        BootstrapStage::RomTimebaseInitialize => 4,
        BootstrapStage::VendorWifiInitialize => 5,
        BootstrapStage::StationDeviceCreate => 6,
        BootstrapStage::EventRegistration => 7,
        BootstrapStage::StationDeviceOpen => 8,
        BootstrapStage::SupplicantPortPrepare => 9,
        BootstrapStage::NativeSupplicantCreate => 10,
    }
}

/// The machine-readable name of a stage.
pub open spec fn stage_name(stage: BootstrapStage) -> &'static str {
    match stage {
        BootstrapStage::ResourceClaim => "resource_claim",
        BootstrapStage::CryptoInstall => "crypto_install",
        BootstrapStage::CryptoSelfTest => "crypto_self_test",
        BootstrapStage::VendorMemoryPrepare => "vendor_memory_prepare",
        BootstrapStage::RomTimebaseInitialize => "rom_timebase_initialize",
        BootstrapStage::VendorWifiInitialize => "vendor_wifi_initialize",
        BootstrapStage::StationDeviceCreate => "station_device_create",
        BootstrapStage::EventRegistration => "event_registration",
        BootstrapStage::StationDeviceOpen => "station_device_open",
        BootstrapStage::SupplicantPortPrepare => "supplicant_port_prepare",
        BootstrapStage::NativeSupplicantCreate => "native_supplicant_create",
    }
}

impl BootstrapStage {
    /// All stages in execution order.
    pub fn all() -> (stages: [BootstrapStage; 11])
        ensures
            forall|i: int|
                0 <= i < BOOTSTRAP_STAGES ==> stage_position(#[trigger] stages@[i]) == i,
    {
        [
            BootstrapStage::ResourceClaim,
            BootstrapStage::CryptoInstall,
            BootstrapStage::CryptoSelfTest,
            BootstrapStage::VendorMemoryPrepare,
            BootstrapStage::RomTimebaseInitialize,
            BootstrapStage::VendorWifiInitialize,
            BootstrapStage::StationDeviceCreate,
            BootstrapStage::EventRegistration,
            BootstrapStage::StationDeviceOpen,
            BootstrapStage::SupplicantPortPrepare,
            BootstrapStage::NativeSupplicantCreate,
        ]
    }

    /// Stable machine-readable stage name.
    pub fn as_str(self) -> (name: &'static str)
        ensures
            name@ == stage_name(self)@,
    {
        match self {
            BootstrapStage::ResourceClaim => "resource_claim",
            BootstrapStage::CryptoInstall => "crypto_install",
            BootstrapStage::CryptoSelfTest => "crypto_self_test",
            BootstrapStage::VendorMemoryPrepare => "vendor_memory_prepare",
            BootstrapStage::RomTimebaseInitialize => "rom_timebase_initialize",
            BootstrapStage::VendorWifiInitialize => "vendor_wifi_initialize",
            BootstrapStage::StationDeviceCreate => "station_device_create",
            BootstrapStage::EventRegistration => "event_registration",
            BootstrapStage::StationDeviceOpen => "station_device_open",
            BootstrapStage::SupplicantPortPrepare => "supplicant_port_prepare",
            BootstrapStage::NativeSupplicantCreate => "native_supplicant_create",
        }
    }

    pub fn index(self) -> (index: usize)
        ensures
            index == stage_position(self),
            index < BOOTSTRAP_STAGES,
    {
        match self {
            BootstrapStage::ResourceClaim => 0,
            BootstrapStage::CryptoInstall => 1,
            BootstrapStage::CryptoSelfTest => 2,
            BootstrapStage::VendorMemoryPrepare => 3,
            BootstrapStage::RomTimebaseInitialize => 4,
            BootstrapStage::VendorWifiInitialize => 5,
            BootstrapStage::StationDeviceCreate => 6,
            BootstrapStage::EventRegistration => 7,
            BootstrapStage::StationDeviceOpen => 8,
            BootstrapStage::SupplicantPortPrepare => 9,
            BootstrapStage::NativeSupplicantCreate => 10,
        }
    }
}

/// Every stage has a position and a name of its own.
pub proof fn law_stages_are_told_apart(left: BootstrapStage, right: BootstrapStage)
    ensures
        stage_position(left) == stage_position(right) <==> left == right,
        stage_name(left)@ == stage_name(right)@ <==> left == right,
{
    reveal_strlit("resource_claim");
    reveal_strlit("crypto_install");
    reveal_strlit("crypto_self_test");
    reveal_strlit("vendor_memory_prepare");
    reveal_strlit("rom_timebase_initialize");
    reveal_strlit("vendor_wifi_initialize");
    reveal_strlit("station_device_create");
    reveal_strlit("event_registration");
    reveal_strlit("station_device_open");
    reveal_strlit("supplicant_port_prepare");
    reveal_strlit("native_supplicant_create");
    assert("resource_claim"@.len() == 14);
    assert("crypto_install"@.len() == 14);
    assert("crypto_self_test"@.len() == 16);
    assert("vendor_memory_prepare"@.len() == 21);
    assert("rom_timebase_initialize"@.len() == 23);
    assert("vendor_wifi_initialize"@.len() == 22);
    assert("station_device_create"@.len() == 21);
    assert("event_registration"@.len() == 18);
    assert("station_device_open"@.len() == 19);
    assert("supplicant_port_prepare"@.len() == 23);
    assert("native_supplicant_create"@.len() == 24);
    assert("resource_claim"@[0] != "crypto_install"@[0]);
    assert("vendor_memory_prepare"@[0] != "station_device_create"@[0]);
    assert("rom_timebase_initialize"@[0] != "supplicant_port_prepare"@[0]);
}

/// Statistics of one stage.
#[derive(Clone, Copy, Debug, PartialEq, Eq, Structural)]
pub struct BootstrapStageMetrics {
    /// Calls that entered this stage.
    pub calls: u32,
    /// Calls that completed this stage successfully.
    pub completed_calls: u32,
    /// Calls that left the stage before it completed.
    pub failed_calls: u32,
    /// Calls measured with an initialized timebase.
    pub timed_calls: u32,
    /// Longest measured duration in milliseconds.
    pub max_elapsed_ms: u32,
}

/// Stage-by-stage view of the bootstrap.
#[derive(Clone, Copy, Debug, PartialEq, Eq)]
pub struct BlockingBootstrapMetrics {
    pub stages: [BootstrapStageMetrics; 11],
}

/// Statistics of one blocking operation.
#[derive(Clone, Copy, Debug, PartialEq, Eq, Structural)]
pub struct BlockingOperationMetrics {
    /// Calls that entered the operation.
    pub calls: u32,
    /// Calls measured with an initialized timebase.
    pub timed_calls: u32,
    /// Longest measured duration in milliseconds.
    pub max_elapsed_ms: u32,
}

/// The workload of the blocking backend. Counters stop at their largest value.
#[derive(Clone, Copy, Debug, PartialEq, Eq)]
pub struct BlockingBackendMetrics {
    pub bootstrap: BlockingBootstrapMetrics,
    pub initialize: BlockingOperationMetrics,
    pub scan: BlockingOperationMetrics,
    pub connect: BlockingOperationMetrics,
    pub disconnect: BlockingOperationMetrics,
    pub poll: BlockingOperationMetrics,
    /// One-millisecond sleeps inside blocking operations.
    pub internal_sleep_calls: u32,
    /// Supplicant polls of all blocking operations.
    pub supplicant_poll_calls: u32,
}

/// A blocking operation.
#[derive(Clone, Copy, Debug, PartialEq, Eq, Structural)]
pub enum Operation {
    Initialize,
    Scan,
    Connect,
    Disconnect,
    Poll,
}

/// A counter after one more event; at its end it stays.
pub open spec fn counted(counter: u32) -> u32 {
    if counter < u32::MAX {
        (counter + 1) as u32
    } else {
        u32::MAX
    }
}

/// A duration as it is recorded.
pub open spec fn recorded_ms(elapsed_ms: u64) -> u32 {
    if elapsed_ms <= u32::MAX {
        elapsed_ms as u32
    } else {
        u32::MAX
    }
}

/// The time between two readings of the clock, if there are both.
pub open spec fn measured(started_at_ms: Option<u64>, finished_at_ms: Option<u64>) -> Option<u64> {
    match (started_at_ms, finished_at_ms) {
        (Some(started), Some(finished)) => Some(
            if finished >= started {
                (finished - started) as u64
            } else {
                (finished - started + 0x1_0000_0000_0000_0000) as u64
            },
        ),
        _ => None,
    }
}

fn elapsed_between(started_at_ms: Option<u64>, finished_at_ms: Option<u64>) -> (elapsed_ms: Option<
    u64,
>)
    ensures
        elapsed_ms == measured(started_at_ms, finished_at_ms),
{
    match (started_at_ms, finished_at_ms) {
        (Some(started), Some(finished)) => Some(finished.wrapping_sub(started)),
        _ => None,
    }
}

fn bounded_ms(elapsed_ms: u64) -> (recorded: u32)
    ensures
        recorded == recorded_ms(elapsed_ms),
{
    if elapsed_ms <= u32::MAX as u64 {
        elapsed_ms as u32
    } else {
        u32::MAX
    }
}

impl BlockingOperationMetrics {
    pub open spec fn begun(self) -> BlockingOperationMetrics {
        BlockingOperationMetrics { calls: counted(self.calls), ..self }
    }

    pub open spec fn finished(self, elapsed_ms: u64) -> BlockingOperationMetrics {
        BlockingOperationMetrics {
            timed_calls: counted(self.timed_calls),
            max_elapsed_ms: if recorded_ms(elapsed_ms) > self.max_elapsed_ms {
                recorded_ms(elapsed_ms)
            } else {
                self.max_elapsed_ms
            },
            ..self
        }
    }

    pub fn new() -> (metrics: Self)
        ensures
            metrics == (BlockingOperationMetrics { calls: 0, timed_calls: 0, max_elapsed_ms: 0 }),
    {
        BlockingOperationMetrics { calls: 0, timed_calls: 0, max_elapsed_ms: 0 }
    }

    pub fn begin(&mut self)
        ensures
            *final(self) == old(self).begun(),
    {
        self.calls = self.calls.saturating_add(1);
    }

    pub fn finish(&mut self, elapsed_ms: u64)
        ensures
            *final(self) == old(self).finished(elapsed_ms),
    {
        self.timed_calls = self.timed_calls.saturating_add(1);
        let recorded: u32 = bounded_ms(elapsed_ms);
        if recorded > self.max_elapsed_ms {
            self.max_elapsed_ms = recorded;
        }
    }
}

impl BootstrapStageMetrics {
    pub open spec fn begun(self) -> BootstrapStageMetrics {
        BootstrapStageMetrics { calls: counted(self.calls), ..self }
    }

    pub open spec fn finished(self, completed: bool, elapsed_ms: Option<u64>) -> BootstrapStageMetrics {
        let judged = BootstrapStageMetrics {
            completed_calls: if completed {
                counted(self.completed_calls)
            } else {
                self.completed_calls
            },
            failed_calls: if completed {
                self.failed_calls
            } else {
                counted(self.failed_calls)
            },
            ..self
        };
        match elapsed_ms {
            Some(elapsed) => BootstrapStageMetrics {
                timed_calls: counted(judged.timed_calls),
                max_elapsed_ms: if recorded_ms(elapsed) > judged.max_elapsed_ms {
                    recorded_ms(elapsed)
                } else {
                    judged.max_elapsed_ms
                },
                ..judged
            },
            None => judged,
        }
    }

    pub fn new() -> (metrics: Self)
        ensures
            metrics == (BootstrapStageMetrics {
                calls: 0,
                completed_calls: 0,
                failed_calls: 0,
                timed_calls: 0,
                max_elapsed_ms: 0,
            }),
    {
        BootstrapStageMetrics {
            calls: 0,
            completed_calls: 0,
            failed_calls: 0,
            timed_calls: 0,
            max_elapsed_ms: 0,
        }
    }

    pub fn begin(&mut self)
        ensures
            *final(self) == old(self).begun(),
    {
        self.calls = self.calls.saturating_add(1);
    }

    pub fn finish(&mut self, completed: bool, elapsed_ms: Option<u64>)
        ensures
            *final(self) == old(self).finished(completed, elapsed_ms),
    {
        if completed {
            self.completed_calls = self.completed_calls.saturating_add(1);
        } else {
            self.failed_calls = self.failed_calls.saturating_add(1);
        }
        if let Some(elapsed) = elapsed_ms {
            self.timed_calls = self.timed_calls.saturating_add(1);
            let recorded: u32 = bounded_ms(elapsed);
            if recorded > self.max_elapsed_ms {
                self.max_elapsed_ms = recorded;
            }
        }
    }
}

impl BlockingBootstrapMetrics {
    /// The metrics of one stage.
    pub fn stage(&self, stage: BootstrapStage) -> (metrics: BootstrapStageMetrics)
        ensures
            metrics == self.stages@[stage_position(stage)],
    {
        self.stages[stage.index()]
    }
}

impl BlockingBackendMetrics {
    /// The metrics of one operation.
    pub open spec fn of(self, operation: Operation) -> BlockingOperationMetrics {
        match operation {
            Operation::Initialize => self.initialize,
            Operation::Scan => self.scan,
            Operation::Connect => self.connect,
            Operation::Disconnect => self.disconnect,
            Operation::Poll => self.poll,
        }
    }

    /// The same counters but for one operation.
    pub open spec fn with(self, operation: Operation, metrics: BlockingOperationMetrics) -> BlockingBackendMetrics {
        match operation {
            Operation::Initialize => BlockingBackendMetrics { initialize: metrics, ..self },
            Operation::Scan => BlockingBackendMetrics { scan: metrics, ..self },
            Operation::Connect => BlockingBackendMetrics { connect: metrics, ..self },
            Operation::Disconnect => BlockingBackendMetrics { disconnect: metrics, ..self },
            Operation::Poll => BlockingBackendMetrics { poll: metrics, ..self },
        }
    }

    /// Nothing was recorded yet.
    pub fn new() -> (metrics: Self)
        ensures
            forall|operation: Operation| #[trigger]
                metrics.of(operation) == (BlockingOperationMetrics {
                    calls: 0,
                    timed_calls: 0,
                    max_elapsed_ms: 0,
                }),
            forall|i: int|
                0 <= i < BOOTSTRAP_STAGES ==> #[trigger] metrics.bootstrap.stages@[i] == (
                BootstrapStageMetrics {
                    calls: 0,
                    completed_calls: 0,
                    failed_calls: 0,
                    timed_calls: 0,
                    max_elapsed_ms: 0,
                }),
            metrics.internal_sleep_calls == 0,
            metrics.supplicant_poll_calls == 0,
    {
        let none = BlockingOperationMetrics::new();
        BlockingBackendMetrics {
            bootstrap: BlockingBootstrapMetrics { stages: [BootstrapStageMetrics::new();11] },
            initialize: none,
            scan: none,
            connect: none,
            disconnect: none,
            poll: none,
            internal_sleep_calls: 0,
            supplicant_poll_calls: 0,
        }
    }

    fn operation_mut(&mut self, operation: Operation) -> (metrics: &mut BlockingOperationMetrics)
        ensures
            *metrics == old(self).of(operation),
            *final(self) == old(self).with(operation, *final(metrics)),
    {
        match operation {
            Operation::Initialize => &mut self.initialize,
            Operation::Scan => &mut self.scan,
            Operation::Connect => &mut self.connect,
            Operation::Disconnect => &mut self.disconnect,
            Operation::Poll => &mut self.poll,
        }
    }

    pub fn record_internal_sleep(&mut self)
        ensures
            *final(self) == (BlockingBackendMetrics {
                internal_sleep_calls: counted(old(self).internal_sleep_calls),
                ..*old(self)
            }),
    {
        self.internal_sleep_calls = self.internal_sleep_calls.saturating_add(1);
    }

    pub fn record_supplicant_poll(&mut self)
        ensures
            *final(self) == (BlockingBackendMetrics {
                supplicant_poll_calls: counted(old(self).supplicant_poll_calls),
                ..*old(self)
            }),
    {
        self.supplicant_poll_calls = self.supplicant_poll_calls.saturating_add(1);
    }
}

/// A snapshot of the blocking backend's workload.
pub fn blocking_backend_metrics(metrics: &BlockingBackendMetrics) -> (snapshot: BlockingBackendMetrics)
    ensures
        snapshot == *metrics,
{
    *metrics
}

/// One blocking operation in progress.
#[derive(Clone, Copy, Debug)]
pub struct OperationTimer {
    pub operation: Operation,
    pub started_at_ms: Option<u64>,
}

impl OperationTimer {
    pub fn start(metrics: &mut BlockingBackendMetrics, operation: Operation, now_ms: Option<u64>) -> (timer:
        Self)
        ensures
            *final(metrics) == old(metrics).with(operation, old(metrics).of(operation).begun()),
            timer == (OperationTimer { operation, started_at_ms: now_ms }),
    {
        metrics.operation_mut(operation).begin();
        OperationTimer { operation, started_at_ms: now_ms }
    }

    /// The operation returned. Without both readings of the clock nothing is
    /// measured.
    pub fn finish(self, metrics: &mut BlockingBackendMetrics, now_ms: Option<u64>)
        ensures
            match measured(self.started_at_ms, now_ms) {
                Some(elapsed) => *final(metrics) == old(metrics).with(
                    self.operation,
                    old(metrics).of(self.operation).finished(elapsed),
                ),
                None => *final(metrics) == *old(metrics),
            },
    {
        if let Some(elapsed) = elapsed_between(self.started_at_ms, now_ms) {
            metrics.operation_mut(self.operation).finish(elapsed);
        }
    }
}

/// One bootstrap stage in progress.
#[derive(Clone, Copy, Debug)]
pub struct BootstrapStageTimer {
    pub stage: BootstrapStage,
    pub started_at_ms: Option<u64>,
}

impl BootstrapStageTimer {
    pub fn start(
        metrics: &mut BlockingBootstrapMetrics,
        stage: BootstrapStage,
        now_ms: Option<u64>,
    ) -> (timer: Self)
        ensures
            final(metrics).stages@ == old(metrics).stages@.update(
                stage_position(stage),
                old(metrics).stages@[stage_position(stage)].begun(),
            ),
            timer == (BootstrapStageTimer { stage, started_at_ms: now_ms }),
    {
        let index: usize = stage.index();
        let mut entry = metrics.stages[index];
        entry.begin();
        metrics.stages[index] = entry;
        BootstrapStageTimer { stage, started_at_ms: now_ms }
    }

    fn leave(self, metrics: &mut BlockingBootstrapMetrics, completed: bool, now_ms: Option<u64>)
        ensures
            final(metrics).stages@ == old(metrics).stages@.update(
                stage_position(self.stage),
                old(metrics).stages@[stage_position(self.stage)].finished(
                    completed,
                    measured(self.started_at_ms, now_ms),
                ),
            ),
    {
        let index: usize = self.stage.index();
        let mut entry = metrics.stages[index];
        entry.finish(completed, elapsed_between(self.started_at_ms, now_ms));
        metrics.stages[index] = entry;
    }

    /// The stage succeeded.
    pub fn complete(self, metrics: &mut BlockingBootstrapMetrics, now_ms: Option<u64>)
        ensures
            final(metrics).stages@ == old(metrics).stages@.update(
                stage_position(self.stage),
                old(metrics).stages@[stage_position(self.stage)].finished(
                    true,
                    measured(self.started_at_ms, now_ms),
                ),
            ),
    {
        self.leave(metrics, true, now_ms);
    }

    /// The stage was left before it succeeded.
    pub fn fail(self, metrics: &mut BlockingBootstrapMetrics, now_ms: Option<u64>)
        ensures
            final(metrics).stages@ == old(metrics).stages@.update(
                stage_position(self.stage),
                old(metrics).stages@[stage_position(self.stage)].finished(
                    false,
                    measured(self.started_at_ms, now_ms),
                ),
            ),
    {
        self.leave(metrics, false, now_ms);
    }
}

/// The line that traces one event of a stage.
pub open spec fn stage_line(stage: BootstrapStage, event: Seq<u8>, elapsed_ms: Option<u64>) -> Seq<u8> {
    "RFDBG_BOOT_STAGE_LIVE name=".spec_bytes() + stage_name(stage).spec_bytes()
        + " event=".spec_bytes() + event + (match elapsed_ms {
        Some(elapsed) => " elapsed_ms=0x".spec_bytes() + crate::render::hex_of(recorded_ms(elapsed)),
        None => seq![],
    }) + "\r\n".spec_bytes()
}

/// Render the trace of one event of a stage.
pub fn trace_bootstrap_stage(stage: BootstrapStage, event: &[u8], elapsed_ms: Option<u64>) -> (line: Vec<
    u8,
>)
    ensures
        line@ == stage_line(stage, event@, elapsed_ms),
{
    let mut line: Vec<u8> = Vec::new();
    append_text(&mut line, "RFDBG_BOOT_STAGE_LIVE name=");
    append_text(&mut line, stage.as_str());
    append_text(&mut line, " event=");
    append(&mut line, event);
    if let Some(elapsed) = elapsed_ms {
        append_text(&mut line, " elapsed_ms=0x");
        append_hex(&mut line, bounded_ms(elapsed));
    }
    append_text(&mut line, "\r\n");
    assert(line@ =~= stage_line(stage, event@, elapsed_ms));
    line
}

/// Render the trace of one detail of the bootstrap.
pub fn trace_bootstrap_detail(name: &[u8], event: &[u8]) -> (line: Vec<u8>)
    ensures
        line@ == "RFDBG_BOOT_DETAIL name=".spec_bytes() + name@ + " event=".spec_bytes() + event@
            + "\r\n".spec_bytes(),
{
    let mut line: Vec<u8> = Vec::new();
    append_text(&mut line, "RFDBG_BOOT_DETAIL name=");
    append(&mut line, name);
    append_text(&mut line, " event=");
    append(&mut line, event);
    append_text(&mut line, "\r\n");
    assert(line@ =~= "RFDBG_BOOT_DETAIL name=".spec_bytes() + name@ + " event=".spec_bytes()
        + event@ + "\r\n".spec_bytes());
    line
}

/// A stage that is entered and left once is counted once, as completed or as
/// failed, and no other stage moves.
pub proof fn law_stage_is_completed_or_failed(
    stages: Seq<BootstrapStageMetrics>,
    stage: BootstrapStage,
    completed: bool,
    elapsed_ms: Option<u64>,
    other: BootstrapStage,
)
    requires
        stages.len() == BOOTSTRAP_STAGES,
        stages[stage_position(stage)].calls < u32::MAX,
        stages[stage_position(stage)].completed_calls < u32::MAX,
        stages[stage_position(stage)].failed_calls < u32::MAX,
    ensures
        ({
            let before = stages[stage_position(stage)];
            let after = before.begun().finished(completed, elapsed_ms);
            &&& after.calls == before.calls + 1
            &&& after.completed_calls + after.failed_calls == before.completed_calls
                + before.failed_calls + 1
            &&& other != stage ==> stages.update(stage_position(stage), after)[stage_position(
                other,
            )] == stages[stage_position(other)]
        }),
{
    law_stages_are_told_apart(stage, other);
}

/// What is recorded of the blocking backend.
#[derive(Clone, Copy, Debug)]
pub enum Recording {
    OperationStarted(Operation),
    /// An operation returned; the two readings of the clock are those of its
    /// start and its end.
    OperationFinished(Operation, Option<u64>, Option<u64>),
    StageStarted(BootstrapStage),
    /// A stage was completed or left, with the readings of the clock.
    StageFinished(BootstrapStage, bool, Option<u64>, Option<u64>),
    Slept,
    SupplicantPolled,
}

impl BootstrapStageMetrics {
    /// No counter is below that of `earlier`.
    pub open spec fn at_least(self, earlier: BootstrapStageMetrics) -> bool {
        &&& self.calls >= earlier.calls
        &&& self.completed_calls >= earlier.completed_calls
        &&& self.failed_calls >= earlier.failed_calls
        &&& self.timed_calls >= earlier.timed_calls
        &&& self.max_elapsed_ms >= earlier.max_elapsed_ms
    }
}

impl BlockingOperationMetrics {
    /// No counter is below that of `earlier`.
    pub open spec fn at_least(self, earlier: BlockingOperationMetrics) -> bool {
        &&& self.calls >= earlier.calls
        &&& self.timed_calls >= earlier.timed_calls
        &&& self.max_elapsed_ms >= earlier.max_elapsed_ms
    }
}

impl BlockingBackendMetrics {
    /// No counter is below that of `earlier`.
    pub open spec fn at_least(self, earlier: BlockingBackendMetrics) -> bool {
        &&& forall|i: int|
            0 <= i < BOOTSTRAP_STAGES ==> (#[trigger] self.bootstrap.stages@[i]).at_least(
                earlier.bootstrap.stages@[i],
            )
        &&& forall|operation: Operation|
            (#[trigger] self.of(operation)).at_least(earlier.of(operation))
        &&& self.internal_sleep_calls >= earlier.internal_sleep_calls
        &&& self.supplicant_poll_calls >= earlier.supplicant_poll_calls
    }

    /// `after` is this workload with one more recording.
    pub open spec fn records(self, recording: Recording, after: BlockingBackendMetrics) -> bool {
        match recording {
            Recording::OperationStarted(operation) => after == self.with(
                operation,
                self.of(operation).begun(),
            ),
            Recording::OperationFinished(operation, started_at_ms, finished_at_ms) => match measured(
                started_at_ms,
                finished_at_ms,
            ) {
                Some(elapsed) => after == self.with(operation, self.of(operation).finished(elapsed)),
                None => after == self,
            },
            Recording::StageStarted(stage) => {
                &&& after == (BlockingBackendMetrics { bootstrap: after.bootstrap, ..self })
                &&& after.bootstrap.stages@ == self.bootstrap.stages@.update(
                    stage_position(stage),
                    self.bootstrap.stages@[stage_position(stage)].begun(),
                )
            },
            Recording::StageFinished(stage, completed, started_at_ms, finished_at_ms) => {
                &&& after == (BlockingBackendMetrics { bootstrap: after.bootstrap, ..self })
                &&& after.bootstrap.stages@ == self.bootstrap.stages@.update(
                    stage_position(stage),
                    self.bootstrap.stages@[stage_position(stage)].finished(
                        completed,
                        measured(started_at_ms, finished_at_ms),
                    ),
                )
            },
            Recording::Slept => after == (BlockingBackendMetrics {
                internal_sleep_calls: counted(self.internal_sleep_calls),
                ..self
            }),
            Recording::SupplicantPolled => after == (BlockingBackendMetrics {
                supplicant_poll_calls: counted(self.supplicant_poll_calls),
                ..self
            }),
        }
    }
}

/// Each recording takes the workload before it to the next one.
pub open spec fn recorded(workloads: Seq<BlockingBackendMetrics>, recordings: Seq<Recording>) -> bool {
    &&& workloads.len() == recordings.len() + 1
    &&& forall|i: int|
        0 <= i < recordings.len() ==> workloads[i].records(
            #[trigger] recordings[i],
            workloads[i + 1],
        )
}

proof fn lemma_recording_takes_nothing_back(
    before: BlockingBackendMetrics,
    recording: Recording,
    after: BlockingBackendMetrics,
)
    requires
        before.records(recording, after),
    ensures
        after.at_least(before),
{
    assert forall|i: int| 0 <= i < BOOTSTRAP_STAGES implies (
    #[trigger] after.bootstrap.stages@[i]).at_least(before.bootstrap.stages@[i]) by {}
    assert forall|operation: Operation| (#[trigger] after.of(operation)).at_least(
        before.of(operation),
    ) by {}
}

/// Whatever is recorded, and however often, no counter of the workload and no
/// longest duration ever goes back: a later snapshot is at least an earlier one.
pub proof fn law_workload_never_goes_back(
    workloads: Seq<BlockingBackendMetrics>,
    recordings: Seq<Recording>,
    earlier: int,
    later: int,
)
    requires
        recorded(workloads, recordings),
        0 <= earlier <= later < workloads.len(),
    ensures
        workloads[later].at_least(workloads[earlier]),
    decreases later - earlier,
{
    if earlier < later {
        law_workload_never_goes_back(workloads, recordings, earlier, later - 1);
        assert(workloads[later - 1].records(recordings[later - 1], workloads[later]));
        lemma_recording_takes_nothing_back(
            workloads[later - 1],
            recordings[later - 1],
            workloads[later],
        );
        let middle = workloads[later - 1];
        assert forall|i: int| 0 <= i < BOOTSTRAP_STAGES implies (
        #[trigger] workloads[later].bootstrap.stages@[i]).at_least(
            workloads[earlier].bootstrap.stages@[i],
        ) by {
            assert(middle.bootstrap.stages@[i].at_least(workloads[earlier].bootstrap.stages@[i]));
        }
        assert forall|operation: Operation| (#[trigger] workloads[later].of(operation)).at_least(
            workloads[earlier].of(operation),
        ) by {
            assert(middle.of(operation).at_least(workloads[earlier].of(operation)));
        }
    }
}

/// The stages have fixed names and are run in a fixed order.
pub proof fn law_stages_are_named_and_ordered(
    stage: BootstrapStage,
    name: &'static str,
    index: usize,
    stages: [BootstrapStage; 11],
)
    requires
        call_ensures(BootstrapStage::as_str, (stage,), name),
        call_ensures(BootstrapStage::index, (stage,), index),
        call_ensures(BootstrapStage::all, (), stages),
    ensures
        stages@[index as int] == stage,
        stage is ResourceClaim ==> index == 0 && name@ == "resource_claim"@,
        stage is CryptoInstall ==> index == 1 && name@ == "crypto_install"@,
        stage is CryptoSelfTest ==> index == 2 && name@ == "crypto_self_test"@,
        stage is VendorMemoryPrepare ==> index == 3 && name@ == "vendor_memory_prepare"@,
        stage is RomTimebaseInitialize ==> index == 4 && name@ == "rom_timebase_initialize"@,
        stage is VendorWifiInitialize ==> index == 5 && name@ == "vendor_wifi_initialize"@,
        stage is StationDeviceCreate ==> index == 6 && name@ == "station_device_create"@,
        stage is EventRegistration ==> index == 7 && name@ == "event_registration"@,
        stage is StationDeviceOpen ==> index == 8 && name@ == "station_device_open"@,
        stage is SupplicantPortPrepare ==> index == 9 && name@ == "supplicant_port_prepare"@,
        stage is NativeSupplicantCreate ==> index == 10 && name@ == "native_supplicant_create"@,
{
    assert(stage_position(stages@[index as int]) == index);
}

/// An operation is counted when it starts, and timed when it returns with both readings of
/// the clock: by the time between them, up to the largest duration that can be held. No
/// other operation and no stage changes.
pub proof fn law_operation_is_counted_and_timed(
    timer: OperationTimer,
    operation: Operation,
    other: Operation,
    now_ms: Option<u64>,
)
    requires
        other != operation,
        timer.operation == operation,
    ensures
        forall|metrics: &mut BlockingBackendMetrics, started: OperationTimer| #[trigger]
            call_ensures(OperationTimer::start, (metrics, operation, now_ms), started) ==> {
                let before = (*metrics).of(operation);
                let after = (*final(metrics)).of(operation);
                &&& started.operation == operation && started.started_at_ms == now_ms
                &&& before.calls < u32::MAX ==> after.calls == before.calls + 1
                &&& after.timed_calls == before.timed_calls && after.max_elapsed_ms
                    == before.max_elapsed_ms
                &&& (*final(metrics)).of(other) == (*metrics).of(other)
                &&& (*final(metrics)).bootstrap == (*metrics).bootstrap
            },
        forall|metrics: &mut BlockingBackendMetrics, unit: ()| #[trigger]
            call_ensures(OperationTimer::finish, (timer, metrics, now_ms), unit) ==> {
                let before = (*metrics).of(operation);
                let after = (*final(metrics)).of(operation);
                let timed = timer.started_at_ms is Some && now_ms is Some;
                &&& after.calls == before.calls
                &&& !timed ==> *final(metrics) == *metrics
                &&& timed && before.timed_calls < u32::MAX ==> after.timed_calls
                    == before.timed_calls + 1
                &&& timed && timer.started_at_ms->0 <= now_ms->0 && now_ms->0
                    - timer.started_at_ms->0 <= u32::MAX ==> {
                    let elapsed = now_ms->0 - timer.started_at_ms->0;
                    &&& after.max_elapsed_ms >= elapsed && after.max_elapsed_ms
                        >= before.max_elapsed_ms
                    &&& after.max_elapsed_ms == elapsed || after.max_elapsed_ms
                        == before.max_elapsed_ms
                }
                &&& timed && timer.started_at_ms->0 <= now_ms->0 && now_ms->0
                    - timer.started_at_ms->0 > u32::MAX ==> after.max_elapsed_ms == u32::MAX
                &&& (*final(metrics)).of(other) == (*metrics).of(other)
            },
{
}

/// A stage is counted when it starts, and as completed or as failed when it is left. No
/// other stage changes.
pub proof fn law_stage_is_counted_as_it_ends(
    timer: BootstrapStageTimer,
    stage: BootstrapStage,
    other: BootstrapStage,
    now_ms: Option<u64>,
)
    requires
        other != stage,
        timer.stage == stage,
    ensures
        forall|metrics: &mut BlockingBootstrapMetrics, started: BootstrapStageTimer| #[trigger]
            call_ensures(BootstrapStageTimer::start, (metrics, stage, now_ms), started) ==> {
                let before = (*metrics).stages@[stage_position(stage)];
                let after = (*final(metrics)).stages@[stage_position(stage)];
                &&& started.stage == stage && started.started_at_ms == now_ms
                &&& before.calls < u32::MAX ==> after.calls == before.calls + 1
                &&& after.completed_calls == before.completed_calls && after.failed_calls
                    == before.failed_calls
                &&& (*final(metrics)).stages@[stage_position(other)]
                    == (*metrics).stages@[stage_position(other)]
            },
        forall|metrics: &mut BlockingBootstrapMetrics, unit: ()| #[trigger]
            call_ensures(BootstrapStageTimer::complete, (timer, metrics, now_ms), unit) ==> {
                let before = (*metrics).stages@[stage_position(stage)];
                let after = (*final(metrics)).stages@[stage_position(stage)];
                &&& before.completed_calls < u32::MAX ==> after.completed_calls
                    == before.completed_calls + 1
                &&& after.failed_calls == before.failed_calls && after.calls == before.calls
                &&& timer.started_at_ms is Some && now_ms is Some && before.timed_calls < u32::MAX
                    ==> after.timed_calls == before.timed_calls + 1
                &&& (*final(metrics)).stages@[stage_position(other)]
                    == (*metrics).stages@[stage_position(other)]
            },
        forall|metrics: &mut BlockingBootstrapMetrics, unit: ()| #[trigger]
            call_ensures(BootstrapStageTimer::fail, (timer, metrics, now_ms), unit) ==> {
                let before = (*metrics).stages@[stage_position(stage)];
                let after = (*final(metrics)).stages@[stage_position(stage)];
                &&& before.failed_calls < u32::MAX ==> after.failed_calls == before.failed_calls + 1
                &&& after.completed_calls == before.completed_calls && after.calls == before.calls
                &&& (*final(metrics)).stages@[stage_position(other)]
                    == (*metrics).stages@[stage_position(other)]
            },
{
    law_stages_are_told_apart(stage, other);
}

} // verus!
