//! Bounded packet-path counters for low-disturbance diagnosis.
//!
//! Every observer forwards its vendor call unchanged; what it records is fixed
//! here. Counters wrap around.

use vstd::prelude::*;

verus! {

/// Retained entries of the transmit timeline.
pub const TX_COMPLETION_TRACE_SLOTS: usize = 18;

/// Queues of one transmit scheduler.
pub const DMAC_TX_QUEUE_COUNT: usize = 6;

/// The scheduler callback that is sampled after a completion.
pub const FRD_ROM_TX_SCH: u32 = 239;

/// Virtual access points of the device, the configuration one included.
pub const VAP_COUNT: u8 = 4;

/// Timeline that binds one-byte echo traffic to hardware completions.
#[derive(Clone, Copy, Debug, PartialEq, Eq)]
pub struct TxTimelineDiagnostics {
    pub submission_total: u32,
    pub completion_total: u32,
    pub callback_total: u32,
    /// Packed submissions: the highest bit marks an echo, the direction stands
    /// four bits below it, and the low byte is the application's sequence.
    pub submissions: [u32; 18],
    pub submission_time_ms: [u32; 18],
    /// Packed completion status, traffic class, queue and hardware sequence.
    pub completions: [u32; 18],
    pub packet_number_lsb: [u32; 18],
    pub completion_time_ms: [u32; 18],
    /// The submission that a completion belongs to, or zero.
    pub completion_echo: [u32; 18],
}

/// Calls of one vendor boundary, with the low nibble of their status.
#[derive(Clone, Copy, Debug, PartialEq, Eq)]
pub struct BoundaryStatus {
    pub calls: u32,
    pub last_status: u32,
    pub status: [u32; 16],
}

/// Results of the receive preparation.
#[derive(Clone, Copy, Debug, PartialEq, Eq, Structural)]
pub struct RxPrepare {
    pub calls: u32,
    pub zero: u32,
    pub nonzero: u32,
    pub last_result: u32,
}

/// The transmit timeline and its accounting.
#[derive(Clone, Copy, Debug, PartialEq, Eq)]
pub struct TxTrace {
    pub timeline: TxTimelineDiagnostics,
    pub completion_status: [u32; 16],
    pub submissions_consumed: u32,
}

/// A counter after one more event.
pub open spec fn bumped(counter: u32) -> u32 {
    if counter < u32::MAX {
        (counter + 1) as u32
    } else {
        0
    }
}

/// Two bytes in network order.
pub open spec fn word_at(frame: Seq<u8>, at: int) -> int {
    frame[at] * 256 + frame[at + 1]
}

/// The start of the transport header of an Ethernet frame with an IPv4 packet.
pub open spec fn transport_at(frame: Seq<u8>) -> int {
    14 + (frame[14] as int % 16) * 4
}

/// The frame carries one byte of UDP payload over IPv4.
pub open spec fn one_byte_udp(frame: Seq<u8>) -> bool {
    &&& frame.len() >= 43
    &&& frame[12] == 0x08 && frame[13] == 0x00
    &&& frame[14] as int / 16 == 4
    &&& frame[14] as int % 16 >= 5
    &&& frame[23] == 17
    &&& transport_at(frame) + 9 <= frame.len()
    &&& word_at(frame, transport_at(frame) + 4) == 9
}

/// The identity of an echo: request or reply, and the byte that it carries.
pub open spec fn echo_of(frame: Seq<u8>) -> Option<int> {
    if !one_byte_udp(frame) {
        None
    } else {
        let udp = transport_at(frame);
        if word_at(frame, udp + 2) == 9 {
            Some(0x9000_0000 + frame[udp + 8] as int)
        } else if word_at(frame, udp) == 9 {
            Some(0xa000_0000 + frame[udp + 8] as int)
        } else {
            None
        }
    }
}

fn be16(high: u8, low: u8) -> (word: u32)
    ensures
        word == high * 256 + low,
{
    high as u32 * 256 + low as u32
}

/// Classify a one-byte echo by its direction.
pub fn classify_udp_echo(frame: &[u8]) -> (echo: Option<u32>)
    ensures
        match echo {
            Some(identity) => echo_of(frame@) == Some(identity as int),
            None => echo_of(frame@) is None,
        },
{
    if frame.len() < 43 || frame[12] != 0x08 || frame[13] != 0x00 || frame[14] / 16 != 4
        || frame[23] != 17 {
        return None;
    }
    let ip_header: usize = (frame[14] % 16) as usize * 4;
    let udp: usize = 14 + ip_header;
    if ip_header < 20 || udp + 9 > frame.len() {
        return None;
    }
    if be16(frame[udp + 4], frame[udp + 5]) != 9 {
        return None;
    }
    let payload: u32 = frame[udp + 8] as u32;
    if be16(frame[udp + 2], frame[udp + 3]) == 9 {
        Some(0x9000_0000 + payload)
    } else if be16(frame[udp], frame[udp + 1]) == 9 {
        Some(0xa000_0000 + payload)
    } else {
        None
    }
}

/// Whether a descriptor belongs to the queue of normal data; the flags above the
/// queue number do not count.
pub fn is_normal_data_queue(queue: u8) -> (normal: bool)
    ensures
        normal == (queue as int % 8 == 0),
{
    queue % 8 == 0
}

/// A packed queue state.
pub open spec fn packed_queue(valid: bool, list_empty: bool, status: u8, ppdu: u8, mpdu: u8) -> int {
    (if valid {
        0x8000_0000int
    } else {
        0
    }) + (if list_empty {
        0x4000_0000int
    } else {
        0
    }) + 0x1_0000 * status + 0x100 * ppdu + mpdu
}

/// Pack the state of one transmit queue.
pub fn pack_dmac_tx_queue(valid: bool, list_empty: bool, status: u8, ppdu: u8, mpdu: u8) -> (packed:
    u32)
    ensures
        packed == packed_queue(valid, list_empty, status, ppdu, mpdu),
{
    let valid_bit: u32 = if valid {
        0x8000_0000
    } else {
        0
    };
    let empty_bit: u32 = if list_empty {
        0x4000_0000
    } else {
        0
    };
    valid_bit + empty_bit + 0x1_0000 * status as u32 + 0x100 * ppdu as u32 + mpdu as u32
}

/// The header of one transmit queue, with the address that it stands at.
#[derive(Clone, Copy, Debug, PartialEq, Eq, Structural)]
pub struct QueueHeader {
    pub address: u32,
    pub next: u32,
    pub previous: u32,
    pub status: u8,
    pub ppdu: u8,
    pub mpdu: u8,
}

impl QueueHeader {
    /// The list is empty when both links point back at the header.
    pub open spec fn list_empty(self) -> bool {
        self.next == self.address && self.previous == self.address
    }

    /// The packed state of a queue that could be read.
    pub open spec fn packed(self) -> u32 {
        packed_queue(true, self.list_empty(), self.status, self.ppdu, self.mpdu) as u32
    }
}

/// Pack the state of one queue from its header.
pub fn queue_snapshot(header: QueueHeader) -> (packed: u32)
    ensures
        packed == header.packed(),
{
    let list_empty = header.next == header.address && header.previous == header.address;
    pack_dmac_tx_queue(true, list_empty, header.status, header.ppdu, header.mpdu)
}

/// The latest sampled transmit queues, with what was sampled beside them.
#[derive(Clone, Copy, Debug, PartialEq, Eq)]
pub struct DmacTxQueues {
    pub software: [u32; 6],
    pub hardware: [u32; 6],
    pub mac_status: u32,
    pub mac_ext_status: u32,
    /// One after a submission was sampled, two after a completion.
    pub stage: u32,
    pub schedule_hook: u32,
}

/// The packed states after sampling: queues that could not be read keep theirs.
pub open spec fn sampled(before: Seq<u32>, headers: Option<[QueueHeader; 6]>) -> Seq<u32> {
    match headers {
        Some(read) => read@.map_values(|header: QueueHeader| header.packed()),
        None => before,
    }
}

fn sample(before: [u32; 6], headers: Option<[QueueHeader; 6]>) -> (packed: [u32; 6])
    ensures
        packed@ == sampled(before@, headers),
{
    match headers {
        None => before,
        Some(read) => {
            let mut packed: [u32; 6] = [0; 6];
            let mut i: usize = 0;
            while i < 6
                invariant
                    i <= 6,
                    forall|j: int| 0 <= j < i ==> #[trigger] packed@[j] == read@[j].packed(),
                decreases 6 - i,
            {
                packed[i] = queue_snapshot(read[i]);
                i = i + 1;
            }
            assert(packed@ =~= read@.map_values(|header: QueueHeader| header.packed()));
            packed
        },
    }
}

impl DmacTxQueues {
    pub fn new() -> (queues: Self)
        ensures
            queues.software@ == Seq::new(6, |i: int| 0u32),
            queues.hardware@ == Seq::new(6, |i: int| 0u32),
            queues.mac_status == 0,
            queues.mac_ext_status == 0,
            queues.stage == 0,
            queues.schedule_hook == 0,
    {
        let queues = DmacTxQueues {
            software: [0; 6],
            hardware: [0; 6],
            mac_status: 0,
            mac_ext_status: 0,
            stage: 0,
            schedule_hook: 0,
        };
        assert(queues.software@ =~= Seq::new(6, |i: int| 0u32));
        assert(queues.hardware@ =~= Seq::new(6, |i: int| 0u32));
        queues
    }

    /// Sample both schedulers and the queue status of the hardware. The software
    /// queues are there when the access point is, the hardware queues when the
    /// device is.
    pub fn snapshot_dmac_tx_queue_state(
        &mut self,
        software: Option<[QueueHeader; 6]>,
        mac_status: u32,
        mac_ext_status: u32,
        hardware: Option<[QueueHeader; 6]>,
    )
        ensures
            final(self).software@ == sampled(old(self).software@, software),
            final(self).hardware@ == sampled(old(self).hardware@, hardware),
            *final(self) == (DmacTxQueues {
                software: final(self).software,
                hardware: final(self).hardware,
                mac_status,
                mac_ext_status,
                ..*old(self)
            }),
    {
        self.software = sample(self.software, software);
        self.mac_status = mac_status;
        self.mac_ext_status = mac_ext_status;
        self.hardware = sample(self.hardware, hardware);
    }

    /// Sample after a submission.
    pub fn snapshot_dmac_tx_queues(
        &mut self,
        software: Option<[QueueHeader; 6]>,
        mac_status: u32,
        mac_ext_status: u32,
        hardware: Option<[QueueHeader; 6]>,
    )
        ensures
            final(self).software@ == sampled(old(self).software@, software),
            final(self).hardware@ == sampled(old(self).hardware@, hardware),
            *final(self) == (DmacTxQueues {
                software: final(self).software,
                hardware: final(self).hardware,
                mac_status,
                mac_ext_status,
                stage: 1,
                ..*old(self)
            }),
    {
        self.snapshot_dmac_tx_queue_state(software, mac_status, mac_ext_status, hardware);
        self.stage = 1;
    }

    /// Sample after a completion, with the scheduler's callback.
    pub fn snapshot_dmac_tx_completion_queues(
        &mut self,
        software: Option<[QueueHeader; 6]>,
        mac_status: u32,
        mac_ext_status: u32,
        hardware: Option<[QueueHeader; 6]>,
        schedule_hook: u32,
    )
        ensures
            final(self).software@ == sampled(old(self).software@, software),
            final(self).hardware@ == sampled(old(self).hardware@, hardware),
            *final(self) == (DmacTxQueues {
                software: final(self).software,
                hardware: final(self).hardware,
                mac_status,
                mac_ext_status,
                stage: 2,
                schedule_hook,
            }),
    {
        self.snapshot_dmac_tx_queue_state(software, mac_status, mac_ext_status, hardware);
        self.schedule_hook = schedule_hook;
        self.stage = 2;
    }

    /// The packed software queues and the packed hardware queues.
    pub fn dmac_tx_queue_diagnostics(&self) -> (queues: ([u32; 6], [u32; 6]))
        ensures
            queues == (self.software, self.hardware),
    {
        (self.software, self.hardware)
    }

    /// The queue status words of the hardware.
    pub fn dmac_tx_mac_queue_status(&self) -> (words: [u32; 2])
        ensures
            words@ == seq![self.mac_status, self.mac_ext_status],
    {
        let words: [u32; 2] = [self.mac_status, self.mac_ext_status];
        assert(words@ =~= seq![self.mac_status, self.mac_ext_status]);
        words
    }

    /// The stage of the latest sample and the scheduler's callback.
    pub fn dmac_tx_queue_snapshot_metadata(&self) -> (words: [u32; 2])
        ensures
            words@ == seq![self.stage, self.schedule_hook],
    {
        let words: [u32; 2] = [self.stage, self.schedule_hook];
        assert(words@ =~= seq![self.stage, self.schedule_hook]);
        words
    }
}

/// Calls of one vendor boundary that returns nothing, before and after it.
#[derive(Clone, Copy, Debug, PartialEq, Eq, Structural)]
pub struct SendCalls {
    pub calls: u32,
    pub returns: u32,
}

impl SendCalls {
    pub fn new() -> (counters: Self)
        ensures
            counters == (SendCalls { calls: 0, returns: 0 }),
    {
        SendCalls { calls: 0, returns: 0 }
    }

    /// The boundary is about to be entered.
    pub fn enter(&mut self)
        ensures
            *final(self) == (SendCalls { calls: bumped(old(self).calls), ..*old(self) }),
    {
        self.calls = self.calls.wrapping_add(1);
    }

    /// The boundary returned.
    pub fn leave(&mut self)
        ensures
            *final(self) == (SendCalls { returns: bumped(old(self).returns), ..*old(self) }),
    {
        self.returns = self.returns.wrapping_add(1);
    }
}

/// One stage of the receive pipeline.
#[derive(Clone, Copy, Debug, PartialEq, Eq, Structural)]
pub enum RxStage {
    EventAdapt,
    ProcessMessage,
    Data,
}

/// Calls of each stage of the receive pipeline.
#[derive(Clone, Copy, Debug, PartialEq, Eq, Structural)]
pub struct RxPipeline {
    pub event_adapt: u32,
    pub process_message: u32,
    pub data: u32,
}

impl RxPipeline {
    pub fn new() -> (pipeline: Self)
        ensures
            pipeline == (RxPipeline { event_adapt: 0, process_message: 0, data: 0 }),
    {
        RxPipeline { event_adapt: 0, process_message: 0, data: 0 }
    }

    /// Count one call of a stage.
    pub fn record(&mut self, stage: RxStage)
        ensures
            *final(self) == (match stage {
                RxStage::EventAdapt => RxPipeline {
                    event_adapt: bumped(old(self).event_adapt),
                    ..*old(self)
                },
                RxStage::ProcessMessage => RxPipeline {
                    process_message: bumped(old(self).process_message),
                    ..*old(self)
                },
                RxStage::Data => RxPipeline { data: bumped(old(self).data), ..*old(self) },
            }),
    {
        match stage {
            RxStage::EventAdapt => {
                self.event_adapt = self.event_adapt.wrapping_add(1);
            },
            RxStage::ProcessMessage => {
                self.process_message = self.process_message.wrapping_add(1);
            },
            RxStage::Data => {
                self.data = self.data.wrapping_add(1);
            },
        }
    }

    /// The calls of the stages in their order.
    pub fn rx_pipeline_stages(&self) -> (stages: [u32; 3])
        ensures
            stages@ == seq![self.event_adapt, self.process_message, self.data],
    {
        let stages: [u32; 3] = [self.event_adapt, self.process_message, self.data];
        assert(stages@ =~= seq![self.event_adapt, self.process_message, self.data]);
        stages
    }
}

/// The packed queue state gives every part of it back.
pub proof fn law_packed_queue_is_lossless(
    valid: bool,
    list_empty: bool,
    status: u8,
    ppdu: u8,
    mpdu: u8,
)
    ensures
        ({
            let packed = packed_queue(valid, list_empty, status, ppdu, mpdu);
            &&& packed <= u32::MAX
            &&& valid <==> packed >= 0x8000_0000
            &&& list_empty <==> packed / 0x4000_0000 % 2 == 1
            &&& packed / 0x1_0000 % 256 == status
            &&& packed / 0x100 % 256 == ppdu
            &&& packed % 256 == mpdu
        }),
{
    let packed = packed_queue(valid, list_empty, status, ppdu, mpdu);
    let flags: int = (if valid {
        2int
    } else {
        0
    }) + (if list_empty {
        1int
    } else {
        0
    });
    let upper = flags * 0x4000 + status;
    let middle = upper * 0x100 + ppdu;
    assert(packed == middle * 0x100 + mpdu);
    assert(packed / 0x100 == middle && packed % 256 == mpdu);
    assert(middle / 0x100 == upper && middle % 256 == ppdu);
    assert(packed / 0x1_0000 == middle / 0x100);
    assert(upper / 0x4000 == flags && upper % 256 == status);
    assert(packed / 0x4000_0000 == upper / 0x4000);
}

/// A packed completion.
pub open spec fn packed_completion(
    status: u8,
    sequence_valid: bool,
    tid: u8,
    queue: u8,
    sequence: u16,
) -> int {
    0x1000_0000 * (status as int % 16) + (if sequence_valid {
        0x0800_0000int
    } else {
        0
    }) + 0x80_0000 * (tid as int % 16) + 0x10_0000 * (queue as int % 8) + sequence as int % 4096
}

/// The fields of a completed descriptor.
#[derive(Clone, Copy, Debug, PartialEq, Eq, Structural)]
pub struct CompletedDescriptor {
    /// First hardware word; its high nibble is the status.
    pub control: u32,
    /// Fifth hardware word, with the hardware sequence and its validity.
    pub sequence_word: u32,
    pub flags: u8,
    pub queue: u8,
    pub packet_number_lsb: u32,
}

impl BoundaryStatus {
    /// The counts by status after a call returned `status`.
    pub open spec fn tallied(self, status: u32) -> Seq<u32> {
        let nibble = status as int % 16;
        self.status@.update(nibble, bumped(self.status@[nibble]))
    }

    pub fn new() -> (boundary: Self)
        ensures
            boundary.calls == 0,
            boundary.last_status == 0,
            forall|i: int| 0 <= i < 16 ==> #[trigger] boundary.status@[i] == 0,
    {
        BoundaryStatus { calls: 0, last_status: 0, status: [0;16] }
    }

    /// The boundary is about to be entered.
    pub fn enter(&mut self)
        ensures
            *final(self) == (BoundaryStatus { calls: bumped(old(self).calls), ..*old(self) }),
    {
        self.calls = self.calls.wrapping_add(1);
    }

    /// The boundary returned `status`.
    pub fn leave(&mut self, status: u32)
        ensures
            final(self).calls == old(self).calls,
            final(self).last_status == status,
            final(self).status@ == old(self).tallied(status),
    {
        self.last_status = status;
        let nibble: usize = (status % 16) as usize;
        let entry: u32 = self.status[nibble];
        self.status[nibble] = entry.wrapping_add(1);
    }
}

impl RxPrepare {
    /// Nothing was counted yet.
    pub open spec fn unused() -> RxPrepare {
        RxPrepare { calls: 0, zero: 0, nonzero: 0, last_result: 0 }
    }

    pub fn new() -> (prepare: Self)
        ensures
            prepare == RxPrepare::unused(),
    {
        RxPrepare { calls: 0, zero: 0, nonzero: 0, last_result: 0 }
    }

    /// The counters after the preparation was entered, or returned a result.
    pub open spec fn after(self, step: RxPrepareStep) -> RxPrepare {
        match step {
            RxPrepareStep::Enter => RxPrepare { calls: bumped(self.calls), ..self },
            RxPrepareStep::Leave(result) => RxPrepare {
                zero: if result == 0 {
                    bumped(self.zero)
                } else {
                    self.zero
                },
                nonzero: if result == 0 {
                    self.nonzero
                } else {
                    bumped(self.nonzero)
                },
                last_result: result,
                ..self
            },
        }
    }

    /// The counters after a run of steps.
    pub open spec fn ran(self, steps: Seq<RxPrepareStep>) -> RxPrepare
        decreases steps.len(),
    {
        if steps.len() == 0 {
            self
        } else {
            self.ran(steps.drop_last()).after(steps.last())
        }
    }

    /// The preparation is about to be entered.
    pub fn enter(&mut self)
        ensures
            *final(self) == old(self).after(RxPrepareStep::Enter),
    {
        self.calls = self.calls.wrapping_add(1);
    }

    /// The preparation returned `result`.
    pub fn leave(&mut self, result: u32)
        ensures
            *final(self) == old(self).after(RxPrepareStep::Leave(result)),
    {
        self.last_result = result;
        if result == 0 {
            self.zero = self.zero.wrapping_add(1);
        } else {
            self.nonzero = self.nonzero.wrapping_add(1);
        }
    }

    /// Calls that returned zero, calls that did not, and the last result.
    pub fn results(&self) -> (results: [u32; 3])
        ensures
            results@ == seq![self.zero, self.nonzero, self.last_result],
    {
        let results: [u32; 3] = [self.zero, self.nonzero, self.last_result];
        assert(results@ =~= seq![self.zero, self.nonzero, self.last_result]);
        results
    }
}

/// What the receive preparation does.
#[derive(Clone, Copy, Debug, PartialEq, Eq)]
pub enum RxPrepareStep {
    Enter,
    Leave(u32),
}

/// The calls that entered the receive preparation.
pub open spec fn entered(steps: Seq<RxPrepareStep>) -> nat
    decreases steps.len(),
{
    if steps.len() == 0 {
        0
    } else {
        entered(steps.drop_last()) + (if steps.last() is Enter {
            1nat
        } else {
            0
        })
    }
}

/// The calls that returned from the receive preparation.
pub open spec fn returned(steps: Seq<RxPrepareStep>) -> nat
    decreases steps.len(),
{
    if steps.len() == 0 {
        0
    } else {
        returned(steps.drop_last()) + (if steps.last() is Enter {
            0nat
        } else {
            1
        })
    }
}

/// While nothing has wrapped, every call is counted on its way in and every
/// result on its way out: the results never outnumber the calls, and they add up
/// to the calls when none is in progress.
pub proof fn law_receive_results_add_up_to_calls(steps: Seq<RxPrepareStep>)
    requires
        entered(steps) <= u32::MAX,
        returned(steps) <= entered(steps),
    ensures
        ({
            let counted = RxPrepare::unused().ran(steps);
            &&& counted.calls == entered(steps)
            &&& counted.zero + counted.nonzero == returned(steps)
            &&& counted.zero + counted.nonzero <= counted.calls
            &&& returned(steps) == entered(steps) ==> counted.zero + counted.nonzero
                == counted.calls
        }),
{
    lemma_receive_results_are_counted(steps);
}

proof fn lemma_receive_results_are_counted(steps: Seq<RxPrepareStep>)
    requires
        entered(steps) <= u32::MAX,
        returned(steps) <= u32::MAX,
    ensures
        RxPrepare::unused().ran(steps).calls == entered(steps),
        RxPrepare::unused().ran(steps).zero + RxPrepare::unused().ran(steps).nonzero == returned(
            steps,
        ),
    decreases steps.len(),
{
    if steps.len() > 0 {
        lemma_receive_results_are_counted(steps.drop_last());
    }
}

impl TxTrace {
    pub fn new() -> (trace: Self)
        ensures
            trace.timeline.submission_total == 0,
            trace.timeline.completion_total == 0,
            trace.timeline.callback_total == 0,
            trace.timeline.submissions@ == Seq::new(18, |i: int| 0u32),
            trace.timeline.submission_time_ms@ == Seq::new(18, |i: int| 0u32),
            trace.timeline.completions@ == Seq::new(18, |i: int| 0u32),
            trace.timeline.packet_number_lsb@ == Seq::new(18, |i: int| 0u32),
            trace.timeline.completion_time_ms@ == Seq::new(18, |i: int| 0u32),
            trace.timeline.completion_echo@ == Seq::new(18, |i: int| 0u32),
            trace.completion_status@ == Seq::new(16, |i: int| 0u32),
            trace.submissions_consumed == 0,
            trace.retains(Seq::empty()),
    {
        TxTrace {
            timeline: TxTimelineDiagnostics {
                submission_total: 0,
                completion_total: 0,
                callback_total: 0,
                submissions: [0;18],
                submission_time_ms: [0;18],
                completions: [0;18],
                packet_number_lsb: [0;18],
                completion_time_ms: [0;18],
                completion_echo: [0;18],
            },
            completion_status: [0;16],
            submissions_consumed: 0,
        }
    }

    /// The latest submissions of a history are retained, each in its slot.
    pub open spec fn retains(self, history: Seq<u32>) -> bool {
        &&& self.timeline.submission_total == history.len()
        &&& forall|s: int|
            history.len() - 18 <= s < history.len() && s >= 0 ==> self.timeline.submissions@[s % 18]
                == #[trigger] history[s]
    }

    /// The oldest submission that is retained and was not consumed.
    pub open spec fn oldest(self) -> int {
        let floor = self.timeline.submission_total - 18;
        if floor > self.submissions_consumed {
            floor
        } else {
            self.submissions_consumed as int
        }
    }

    /// Record a submission and its time.
    pub fn record_tx_submission(&mut self, echo: u32, timestamp_ms: u32)
        ensures
            final(self).timeline.submission_total == bumped(old(self).timeline.submission_total),
            final(self).timeline.submissions@ == old(self).timeline.submissions@.update(
                old(self).timeline.submission_total as int % 18,
                echo,
            ),
            final(self).timeline.submission_time_ms@ == old(
                self).timeline.submission_time_ms@.update(
                old(self).timeline.submission_total as int % 18,
                timestamp_ms,
            ),
            *final(self) == (TxTrace {
                timeline: TxTimelineDiagnostics {
                    submission_total: final(self).timeline.submission_total,
                    submissions: final(self).timeline.submissions,
                    submission_time_ms: final(self).timeline.submission_time_ms,
                    ..old(self).timeline
                },
                ..*old(self)
            }),
    {
        let slot: usize = (self.timeline.submission_total % 18) as usize;
        self.timeline.submission_total = self.timeline.submission_total.wrapping_add(1);
        self.timeline.submissions[slot] = echo;
        self.timeline.submission_time_ms[slot] = timestamp_ms;
    }

    /// Record a submitted frame: an echo by its identity, any other as zero.
    pub fn record_tx_frame_submission(&mut self, frame: &[u8], timestamp_ms: u32)
        ensures
            final(self).timeline.submission_total == bumped(old(self).timeline.submission_total),
            final(self).timeline.submissions@ == old(self).timeline.submissions@.update(
                old(self).timeline.submission_total as int % 18,
                match echo_of(frame@) {
                    Some(identity) => identity as u32,
                    None => 0,
                },
            ),
            final(self).timeline.submission_time_ms@ == old(
                self).timeline.submission_time_ms@.update(
                old(self).timeline.submission_total as int % 18,
                timestamp_ms,
            ),
            *final(self) == (TxTrace {
                timeline: TxTimelineDiagnostics {
                    submission_total: final(self).timeline.submission_total,
                    submissions: final(self).timeline.submissions,
                    submission_time_ms: final(self).timeline.submission_time_ms,
                    ..old(self).timeline
                },
                ..*old(self)
            }),
    {
        let echo: u32 = match classify_udp_echo(frame) {
            Some(identity) => identity,
            None => 0,
        };
        self.record_tx_submission(echo, timestamp_ms);
    }

    /// Take the identity of the oldest submission that is retained and was not
    /// taken; zero when there is none.
    pub fn consume_tx_submission(&mut self) -> (echo: u32)
        ensures
            ({
                let at = old(self).oldest();
                if at >= old(self).timeline.submission_total {
                    echo == 0 && *final(self) == (TxTrace {
                        submissions_consumed: at as u32,
                        ..*old(self)
                    })
                } else {
                    echo == old(self).timeline.submissions@[at % 18] && *final(self) == (TxTrace {
                        submissions_consumed: (at + 1) as u32,
                        ..*old(self)
                    })
                }
            }),
    {
        let total: u32 = self.timeline.submission_total;
        let floor: u32 = total.saturating_sub(18);
        if floor > self.submissions_consumed {
            self.submissions_consumed = floor;
        }
        if self.submissions_consumed >= total {
            return 0;
        }
        let sequence: u32 = self.submissions_consumed;
        self.submissions_consumed = sequence + 1;
        self.timeline.submissions[(sequence % 18) as usize]
    }

    /// Count the status of a completion.
    pub fn record_tx_completion_status(&mut self, status: u8)
        ensures
            final(self).completion_status@ == old(self).completion_status@.update(
                status as int % 16,
                bumped(old(self).completion_status@[status as int % 16]),
            ),
            *final(self) == (TxTrace {
                completion_status: final(self).completion_status,
                ..*old(self)
            }),
    {
        let nibble: usize = (status % 16) as usize;
        let entry: u32 = self.completion_status[nibble];
        self.completion_status[nibble] = entry.wrapping_add(1);
    }

    /// Record a completion in the timeline.
    pub fn record_tx_completion_trace(
        &mut self,
        status: u8,
        sequence_valid: bool,
        tid: u8,
        queue: u8,
        sequence: u16,
        packet_number_lsb: u32,
        timestamp_ms: u32,
        echo: u32,
    )
        ensures
            ({
                let slot = old(self).timeline.completion_total as int % 18;
                let before = old(self).timeline;
                let after = final(self).timeline;
                &&& after.completion_total == bumped(before.completion_total)
                &&& after.completions@ == before.completions@.update(
                    slot,
                    packed_completion(status, sequence_valid, tid, queue, sequence) as u32,
                )
                &&& after.packet_number_lsb@ == before.packet_number_lsb@.update(
                    slot,
                    packet_number_lsb,
                )
                &&& after.completion_time_ms@ == before.completion_time_ms@.update(
                    slot,
                    timestamp_ms,
                )
                &&& after.completion_echo@ == before.completion_echo@.update(slot, echo)
                &&& *final(self) == (TxTrace {
                    timeline: TxTimelineDiagnostics {
                        completion_total: after.completion_total,
                        completions: after.completions,
                        packet_number_lsb: after.packet_number_lsb,
                        completion_time_ms: after.completion_time_ms,
                        completion_echo: after.completion_echo,
                        ..before
                    },
                    ..*old(self)
                })
            }),
    {
        let slot: usize = (self.timeline.completion_total % 18) as usize;
        self.timeline.completion_total = self.timeline.completion_total.wrapping_add(1);
        let valid_bit: u32 = if sequence_valid {
            0x0800_0000
        } else {
            0
        };
        let packed: u32 = 0x1000_0000 * (status % 16) as u32 + valid_bit + 0x80_0000 * (tid
            % 16) as u32 + 0x10_0000 * (queue % 8) as u32 + (sequence % 4096) as u32;
        self.timeline.completions[slot] = packed;
        self.timeline.packet_number_lsb[slot] = packet_number_lsb;
        self.timeline.completion_time_ms[slot] = timestamp_ms;
        self.timeline.completion_echo[slot] = echo;
    }

    /// Observe one completion callback. Only completions of the normal data queue
    /// enter the timeline; the result tells whether this was one.
    pub fn observe_tx_completion(
        &mut self,
        descriptor: Option<CompletedDescriptor>,
        timestamp_ms: u32,
    ) -> (normal_data: bool)
        ensures
            normal_data == (descriptor matches Some(done) && done.queue as int % 8 == 0),
            match descriptor {
                None => final(self).completion_status == old(self).completion_status,
                Some(done) => {
                    let status = done.control as int / 0x1000_0000;
                    final(self).completion_status@ == old(self).completion_status@.update(
                        status,
                        bumped(old(self).completion_status@[status]),
                    )
                },
            },
            !normal_data ==> final(self).submissions_consumed == old(self).submissions_consumed
                && final(self).timeline == (TxTimelineDiagnostics {
                callback_total: bumped(old(self).timeline.callback_total),
                ..old(self).timeline
            }),
            normal_data ==> {
                let done = descriptor->0;
                let slot = old(self).timeline.completion_total as int % 18;
                let oldest = old(self).oldest();
                let submitted = oldest < old(self).timeline.submission_total;
                let before = old(self).timeline;
                let after = final(self).timeline;
                &&& final(self).submissions_consumed == (if submitted {
                    oldest + 1
                } else {
                    oldest
                })
                &&& after.completion_total == bumped(before.completion_total)
                &&& after.completions@ == before.completions@.update(
                    slot,
                    packed_completion(
                        (done.control as int / 0x1000_0000) as u8,
                        done.sequence_word as int / 0x2_0000 % 2 == 1,
                        (done.flags as int / 16) as u8,
                        done.queue,
                        (done.sequence_word as int / 0x10_0000) as u16,
                    ) as u32,
                )
                &&& after.packet_number_lsb@ == before.packet_number_lsb@.update(
                    slot,
                    done.packet_number_lsb,
                )
                &&& after.completion_time_ms@ == before.completion_time_ms@.update(
                    slot,
                    timestamp_ms,
                )
                &&& after.completion_echo@ == before.completion_echo@.update(
                    slot,
                    if submitted {
                        before.submissions@[oldest % 18]
                    } else {
                        0
                    },
                )
                &&& after == (TxTimelineDiagnostics {
                    callback_total: bumped(before.callback_total),
                    completion_total: after.completion_total,
                    completions: after.completions,
                    packet_number_lsb: after.packet_number_lsb,
                    completion_time_ms: after.completion_time_ms,
                    completion_echo: after.completion_echo,
                    ..before
                })
            },
    {
        self.timeline.callback_total = self.timeline.callback_total.wrapping_add(1);
        let done = match descriptor {
            Some(done) => done,
            None => {
                return false;
            },
        };
        let status: u8 = (done.control / 0x1000_0000) as u8;
        self.record_tx_completion_status(status);
        if !is_normal_data_queue(done.queue) {
            return false;
        }
        let echo: u32 = self.consume_tx_submission();
        self.record_tx_completion_trace(
            status,
            done.sequence_word / 0x2_0000 % 2 == 1,
            done.flags / 16,
            done.queue,
            (done.sequence_word / 0x10_0000) as u16,
            done.packet_number_lsb,
            timestamp_ms,
            echo,
        );
        true
    }

    /// A snapshot of the timeline.
    pub fn tx_timeline(&self) -> (timeline: TxTimelineDiagnostics)
        ensures
            timeline == self.timeline,
    {
        self.timeline
    }
}

/// The power-save state of one station.
#[derive(Clone, Copy, Debug, PartialEq, Eq, Structural)]
pub struct StationPowerSave {
    pub mode: u8,
    pub queue_empty: u8,
    pub pending_mpdus: u32,
}

/// The first access point that knows the station, and the state that it has of
/// it. The words are: found, access point, mode, queue empty, pending frames.
pub fn associated_station_ps(lookups: &[Option<StationPowerSave>]) -> (words: [u32; 5])
    requires
        lookups@.len() <= VAP_COUNT,
    ensures
        forall|i: int|
            0 <= i < lookups@.len() && (#[trigger] lookups@[i]) is Some && (forall|j: int|
                0 <= j < i ==> (#[trigger] lookups@[j]) is None) ==> words@ == seq![
                1u32,
                i as u32,
                lookups@[i]->0.mode as u32,
                lookups@[i]->0.queue_empty as u32,
                lookups@[i]->0.pending_mpdus,
            ],
        (forall|i: int| 0 <= i < lookups@.len() ==> (#[trigger] lookups@[i]) is None) ==> words@
            == seq![0u32, u32::MAX, u32::MAX, u32::MAX, 0],
{
    let mut i: usize = 0;
    while i < lookups.len()
        invariant
            i <= lookups@.len() <= VAP_COUNT,
            forall|j: int| 0 <= j < i ==> (#[trigger] lookups@[j]) is None,
        decreases lookups@.len() - i,
    {
        if let Some(found) = lookups[i] {
            let words: [u32; 5] = [
                1,
                i as u32,
                found.mode as u32,
                found.queue_empty as u32,
                found.pending_mpdus,
            ];
            assert(words@ =~= seq![
                1u32,
                i as u32,
                found.mode as u32,
                found.queue_empty as u32,
                found.pending_mpdus,
            ]);
            return words;
        }
        i = i + 1;
    }
    let words: [u32; 5] = [0, u32::MAX, u32::MAX, u32::MAX, 0];
    assert(words@ =~= seq![0u32, u32::MAX, u32::MAX, u32::MAX, 0]);
    words
}

/// A recorded submission joins the retained history, and the retained part of
/// the history before it stays in place.
pub proof fn law_submissions_are_retained(
    before: TxTrace,
    after: TxTrace,
    history: Seq<u32>,
    echo: u32,
)
    requires
        before.retains(history),
        history.len() < u32::MAX,
        after.timeline.submission_total == bumped(before.timeline.submission_total),
        after.timeline.submissions@ == before.timeline.submissions@.update(
            before.timeline.submission_total as int % 18,
            echo,
        ),
    ensures
        after.retains(history.push(echo)),
{
    let longer = history.push(echo);
    assert forall|s: int| longer.len() - 18 <= s < longer.len() && s >= 0 implies after.timeline.submissions@[s
        % 18] == #[trigger] longer[s] by {
        if s < history.len() {
            assert(s % 18 != history.len() as int % 18) by {
                assert(0 < history.len() - s < 18);
            }
            assert(longer[s] == history[s]);
        }
    }
}

/// Submissions are consumed in order, each at most once: what a completion takes
/// is the oldest one that is retained and was not taken.
pub proof fn law_submissions_are_consumed_in_order(trace: TxTrace, history: Seq<u32>)
    requires
        trace.retains(history),
        trace.oldest() < history.len(),
    ensures
        trace.timeline.submissions@[trace.oldest() % 18] == history[trace.oldest()],
        trace.oldest() >= trace.submissions_consumed,
        trace.oldest() >= history.len() - 18,
{
    let at = trace.oldest();
    assert(history[at] == trace.timeline.submissions@[at % 18]);
}

/// A frame is an echo exactly when it is IPv4 over Ethernet, carries UDP with one byte of
/// payload, and one of its ports is the echo port: the destination of a request, and else
/// the source of a reply. Its identity tells which of the two, and the byte.
pub proof fn law_echo_is_recognized(frame: &[u8], echo: Option<u32>)
    requires
        call_ensures(classify_udp_echo, (frame,), echo),
        frame@.len() >= 14 + 60 + 9,
    ensures
        ({
            let udp = 14 + 4 * (frame@[14] as int % 16);
            let source = 256 * frame@[udp] + frame@[udp + 1];
            let destination = 256 * frame@[udp + 2] + frame@[udp + 3];
            let carries = frame@[12] == 0x08 && frame@[13] == 0 && 0x45 <= frame@[14] <= 0x4f
                && frame@[23] == 17 && 256 * frame@[udp + 4] + frame@[udp + 5] == 9;
            &&& echo is Some <==> carries && (source == 9 || destination == 9)
            &&& carries && destination == 9 ==> echo is Some && echo->0 == 0x9000_0000 + frame@[udp
                + 8]
            &&& carries && destination != 9 && source == 9 ==> echo is Some && echo->0
                == 0xa000_0000 + frame@[udp + 8]
        }),
{
}

/// A frame that is too short for its headers and one byte is no echo.
pub proof fn law_short_frame_is_no_echo(frame: &[u8], echo: Option<u32>)
    requires
        call_ensures(classify_udp_echo, (frame,), echo),
        frame@.len() < 43 || frame@.len() < 14 + 4 * (frame@[14] as int % 16) + 9,
    ensures
        echo is None,
{
}

/// The state of a queue is packed from its header: as valid, as empty exactly when both
/// links point back at it, and with its three counts each in a byte.
pub proof fn law_queue_state_can_be_taken_apart(header: QueueHeader, packed: u32)
    requires
        call_ensures(queue_snapshot, (header,), packed),
    ensures
        packed >= 0x8000_0000,
        packed as int / 0x4000_0000 % 2 == 1 <==> header.next == header.address && header.previous
            == header.address,
        packed as int / 0x1_0000 % 256 == header.status,
        packed as int / 0x100 % 256 == header.ppdu,
        packed as int % 256 == header.mpdu,
{
    law_packed_queue_is_lossless(
        true,
        header.list_empty(),
        header.status,
        header.ppdu,
        header.mpdu,
    );
}

/// A packed completion gives its parts back, each as far as it has bits for them.
pub proof fn law_completion_can_be_taken_apart(
    status: u8,
    sequence_valid: bool,
    tid: u8,
    queue: u8,
    sequence: u16,
)
    ensures
        ({
            let packed = packed_completion(status, sequence_valid, tid, queue, sequence);
            &&& 0 <= packed <= u32::MAX
            &&& packed / 0x1000_0000 == status as int % 16
            &&& packed / 0x800_0000 % 2 == 1 <==> sequence_valid
            &&& packed / 0x80_0000 % 16 == tid as int % 16
            &&& packed / 0x10_0000 % 8 == queue as int % 8
            &&& packed % 4096 == sequence as int % 4096
        }),
{
    let packed = packed_completion(status, sequence_valid, tid, queue, sequence);
    let low = sequence as int % 4096;
    let upper = 0x1_0000 * (status as int % 16) + (if sequence_valid {
        0x8000int
    } else {
        0
    }) + 0x800 * (tid as int % 16) + 0x100 * (queue as int % 8);
    assert(packed == upper * 4096 + low);
    assert(packed % 4096 == low);
    assert(packed / 4096 == upper);
    assert(packed / 0x10_0000 == upper / 0x100);
    assert(packed / 0x80_0000 == upper / 0x800);
    assert(packed / 0x800_0000 == upper / 0x8000);
    assert(packed / 0x1000_0000 == upper / 0x1_0000);
}

/// A boundary counts each call on its way in, and on its way out the status that it
/// returned, by its low four bits; no other status is counted.
pub proof fn law_boundary_counts_by_status(status: u32)
    ensures
        forall|boundary: &mut BoundaryStatus, unit: ()| #[trigger]
            call_ensures(BoundaryStatus::enter, (boundary,), unit) ==> {
                &&& (*boundary).calls < u32::MAX ==> (*final(boundary)).calls == (*boundary).calls
                    + 1
                &&& (*final(boundary)).status@ == (*boundary).status@
            },
        forall|boundary: &mut BoundaryStatus, unit: ()| #[trigger]
            call_ensures(BoundaryStatus::leave, (boundary, status), unit) ==> {
                let place = status as int % 16;
                &&& (*final(boundary)).calls == (*boundary).calls
                &&& (*final(boundary)).last_status == status
                &&& (*boundary).status@[place] < u32::MAX ==> (*final(boundary)).status@[place]
                    == (*boundary).status@[place] + 1
                &&& forall|i: int|
                    0 <= i < 16 && i != place ==> #[trigger] (*final(boundary)).status@[i]
                        == (*boundary).status@[i]
            },
{
}

/// The receive preparation counts its calls on their way in, and on their way out whether
/// they returned zero; the stages of the receive pipeline count their own calls alone.
pub proof fn law_receive_stages_count_their_own(result: u32, stage: RxStage)
    ensures
        forall|prepare: &mut RxPrepare, unit: ()| #[trigger]
            call_ensures(RxPrepare::leave, (prepare, result), unit) ==> {
                let before = *prepare;
                let after = *final(prepare);
                &&& after.last_result == result && after.calls == before.calls
                &&& result == 0 ==> after.nonzero == before.nonzero && (before.zero < u32::MAX
                    ==> after.zero == before.zero + 1)
                &&& result != 0 ==> after.zero == before.zero && (before.nonzero < u32::MAX
                    ==> after.nonzero == before.nonzero + 1)
            },
        forall|prepare: &mut RxPrepare, unit: ()| #[trigger]
            call_ensures(RxPrepare::enter, (prepare,), unit) ==> {
                let before = *prepare;
                let after = *final(prepare);
                &&& before.calls < u32::MAX ==> after.calls == before.calls + 1
                &&& after.zero == before.zero && after.nonzero == before.nonzero
                    && after.last_result == before.last_result
            },
        forall|pipeline: &mut RxPipeline, unit: ()| #[trigger]
            call_ensures(RxPipeline::record, (pipeline, stage), unit) ==> {
                let before = *pipeline;
                let after = *final(pipeline);
                &&& before.event_adapt < u32::MAX ==> after.event_adapt - before.event_adapt == (
                if stage is EventAdapt {
                    1int
                } else {
                    0
                })
                &&& before.process_message < u32::MAX ==> after.process_message
                    - before.process_message == (if stage is ProcessMessage {
                    1int
                } else {
                    0
                })
                &&& before.data < u32::MAX ==> after.data - before.data == (if stage is Data {
                    1int
                } else {
                    0
                })
            },
{
}

/// A submission takes the next of eighteen slots, with its identity and its time; a frame
/// that is no echo is recorded as zero. No other slot changes.
pub proof fn law_submission_takes_the_next_slot(echo: u32, timestamp_ms: u32)
    ensures
        forall|trace: &mut TxTrace, unit: ()| #[trigger]
            call_ensures(TxTrace::record_tx_submission, (trace, echo, timestamp_ms), unit) ==> {
                let before = (*trace).timeline;
                let after = (*final(trace)).timeline;
                let slot = before.submission_total as int % 18;
                &&& before.submission_total < u32::MAX ==> after.submission_total
                    == before.submission_total + 1
                &&& after.submissions@[slot] == echo
                &&& after.submission_time_ms@[slot] == timestamp_ms
                &&& forall|i: int|
                    0 <= i < 18 && i != slot ==> #[trigger] after.submissions@[i]
                        == before.submissions@[i]
                &&& after.completion_total == before.completion_total
                &&& (*final(trace)).submissions_consumed == (*trace).submissions_consumed
            },
{
}

/// A completion callback is counted, and its status where it has a descriptor. Only a
/// completion of the normal data queue enters the timeline, in the next of eighteen slots
/// and with the identity of the oldest submission that is left; it takes that submission.
pub proof fn law_completion_takes_the_oldest_submission(
    descriptor: Option<CompletedDescriptor>,
    timestamp_ms: u32,
)
    ensures
        forall|trace: &mut TxTrace, normal: bool| #[trigger]
            call_ensures(
                TxTrace::observe_tx_completion,
                (trace, descriptor, timestamp_ms),
                normal,
            ) ==> {
                let before = *trace;
                let after = *final(trace);
                let slot = before.timeline.completion_total as int % 18;
                let total = before.timeline.submission_total as int;
                let first = if before.submissions_consumed + 18 < total {
                    total - 18
                } else {
                    before.submissions_consumed as int
                };
                &&& normal <==> descriptor is Some && descriptor->0.queue as int % 8 == 0
                &&& before.timeline.callback_total < u32::MAX ==> after.timeline.callback_total
                    == before.timeline.callback_total + 1
                &&& descriptor is None ==> after.completion_status == before.completion_status
                &&& descriptor matches Some(done) ==> forall|i: int|
                    0 <= i < 16 && i != done.control as int / 0x1000_0000
                        ==> #[trigger] after.completion_status@[i] == before.completion_status@[i]
                &&& !normal ==> after.timeline.completion_total == before.timeline.completion_total
                    && after.submissions_consumed == before.submissions_consumed
                &&& normal ==> {
                    &&& before.timeline.completion_total < u32::MAX
                        ==> after.timeline.completion_total == before.timeline.completion_total + 1
                    &&& after.timeline.completion_time_ms@[slot] == timestamp_ms
                    &&& after.timeline.packet_number_lsb@[slot] == descriptor->0.packet_number_lsb
                    &&& first < total ==> after.submissions_consumed == first + 1
                        && after.timeline.completion_echo@[slot]
                        == before.timeline.submissions@[first % 18]
                    &&& first >= total ==> after.timeline.completion_echo@[slot] == 0
                        && after.submissions_consumed == first
                }
            },
{
}

/// Queues that could be read are sampled each from its own header, and the others keep
/// their state; a sample remembers the words of the hardware and what it was taken after.
pub proof fn law_queues_are_sampled_from_their_headers(
    software: Option<[QueueHeader; 6]>,
    hardware: Option<[QueueHeader; 6]>,
    status: u32,
    ext_status: u32,
    hook: u32,
)
    ensures
        forall|queues: &mut DmacTxQueues, unit: ()| #[trigger]
            call_ensures(
                DmacTxQueues::snapshot_dmac_tx_queues,
                (queues, software, status, ext_status, hardware),
                unit,
            ) ==> {
                let before = *queues;
                let after = *final(queues);
                &&& after.stage == 1 && after.schedule_hook == before.schedule_hook
                &&& after.mac_status == status && after.mac_ext_status == ext_status
                &&& forall|i: int|
                    0 <= i < 6 ==> #[trigger] after.software@[i] == (if software is Some {
                        software->0@[i].packed()
                    } else {
                        before.software@[i]
                    })
                &&& forall|i: int|
                    0 <= i < 6 ==> #[trigger] after.hardware@[i] == (if hardware is Some {
                        hardware->0@[i].packed()
                    } else {
                        before.hardware@[i]
                    })
            },
        forall|queues: &mut DmacTxQueues, unit: ()| #[trigger]
            call_ensures(
                DmacTxQueues::snapshot_dmac_tx_completion_queues,
                (queues, software, status, ext_status, hardware, hook),
                unit,
            ) ==> {
                let after = *final(queues);
                &&& after.stage == 2 && after.schedule_hook == hook
                &&& after.mac_status == status && after.mac_ext_status == ext_status
            },
{
}

/// The first access point that knows the station is told, with the state that it has of
/// it; without one there is none.
pub proof fn law_first_knowing_access_point_is_told(
    lookups: &[Option<StationPowerSave>],
    i: int,
    words: [u32; 5],
)
    requires
        lookups@.len() <= 4,
        call_ensures(associated_station_ps, (lookups,), words),
    ensures
        0 <= i < lookups@.len() && lookups@[i] is Some && (forall|j: int|
            0 <= j < i ==> (#[trigger] lookups@[j]) is None) ==> words@[0] == 1 && words@[1] == i
            && words@[2] == lookups@[i]->0.mode && words@[3] == lookups@[i]->0.queue_empty
            && words@[4] == lookups@[i]->0.pending_mpdus,
        (forall|j: int| 0 <= j < lookups@.len() ==> (#[trigger] lookups@[j]) is None) ==> words@[0]
            == 0 && words@[4] == 0,
{
}

/// Submissions are taken in the order in which they were recorded; one that was not taken
/// before eighteen more came is lost, and without any the identity is zero.
pub proof fn law_oldest_submission_is_taken_first()
    ensures
        forall|trace: &mut TxTrace, echo: u32| #[trigger]
            call_ensures(TxTrace::consume_tx_submission, (trace,), echo) ==> {
                let before = *trace;
                let after = *final(trace);
                let total = before.timeline.submission_total;
                let lost = before.submissions_consumed + 18 < total;
                &&& before.submissions_consumed >= total ==> echo == 0
                    && after.submissions_consumed == before.submissions_consumed
                &&& before.submissions_consumed < total && !lost ==> echo
                    == before.timeline.submissions@[before.submissions_consumed as int % 18]
                    && after.submissions_consumed == before.submissions_consumed + 1
                &&& lost ==> echo == before.timeline.submissions@[(total - 18) % 18]
                    && after.submissions_consumed == total - 17
                &&& after.timeline == before.timeline
            },
{
}

/// A submitted frame is recorded by its identity where it is an echo, and else as zero.
pub proof fn law_frame_is_recorded_by_its_identity(
    frame: &[u8],
    timestamp_ms: u32,
    echo: Option<u32>,
)
    requires
        call_ensures(classify_udp_echo, (frame,), echo),
    ensures
        forall|trace: &mut TxTrace, unit: ()| #[trigger]
            call_ensures(
                TxTrace::record_tx_frame_submission,
                (trace, frame, timestamp_ms),
                unit,
            ) ==> {
                let slot = (*trace).timeline.submission_total as int % 18;
                &&& echo is Some ==> (*final(trace)).timeline.submissions@[slot] == echo->0
                &&& echo is None ==> (*final(trace)).timeline.submissions@[slot] == 0
                &&& (*final(trace)).timeline.submission_time_ms@[slot] == timestamp_ms
            },
{
}

} // verus!
