//! Checked allocation round trip while admission stays sealed.
//!
//! The counts describe native software lists, not DMA ownership. A successful
//! reconstruction is no permission to reopen the network device.

use crate::netif_l2::rx_stop::MAC_ENABLED;
use vstd::prelude::*;

verus! {

pub const PRECONDITION: i32 = -0x1025;

pub const INCOMPLETE: i32 = -0x1026;

pub const CONFIG_CHANGED: i32 = -0x1027;

pub const CLEANUP: i32 = -0x1028;

/// Descriptor counts, in the order normal, high, small.
#[derive(Clone, Copy, Debug, PartialEq, Eq)]
pub struct Counts {
    pub actual: [u16; 3],
    pub expected: [u16; 3],
}

/// Immediate observations of an allocation and its cleanup, never a DMA fence.
#[derive(Clone, Copy, Debug, PartialEq, Eq)]
pub struct RxRebuildDiagnostics {
    pub expected: [u16; 3],
    pub actual: [u16; 3],
    pub cleaned: [u16; 3],
    pub mac_after_init: u8,
    pub mac_after_cleanup: u8,
    pub attempted: bool,
    pub cleanup_attempted: bool,
    pub init_status: i32,
    pub cleanup_status: i32,
    pub fault: i32,
}

/// The native operations of a probe.
pub trait DescriptorOps {
    fn counts(&self) -> Counts;

    fn mac_enabled(&self) -> u8;

    fn initialize(&mut self) -> i32;

    fn disable(&mut self);

    fn destroy(&mut self) -> i32;
}

/// What a probe asks for next.
#[derive(Clone, Copy, Debug, PartialEq, Eq)]
pub enum ProbeAction {
    ReadCounts,
    ReadMac,
    Initialize,
    Disable,
    Destroy,
    Done(RxRebuildDiagnostics),
}

/// The answer to what a probe asked for.
#[derive(Clone, Copy, Debug, PartialEq, Eq)]
pub enum ProbeReply {
    Counts(Counts),
    Mac(u8),
    Status(i32),
    Disabled,
}

/// What a probe waits for.
#[derive(Clone, Copy, Debug, PartialEq, Eq, Structural)]
pub enum ProbePhase {
    Before,
    MacBefore,
    Initialized,
    MacInitialized,
    After,
    Disabling,
    MacDisabled,
    Destroyed,
    MacCleaned,
    Cleaned,
    Finished,
}

/// One round trip in progress.
#[derive(Clone, Copy, Debug)]
pub struct Probe {
    pub phase: ProbePhase,
    pub report: RxRebuildDiagnostics,
}

pub open spec fn none() -> Seq<u16> {
    seq![0u16, 0, 0]
}

fn same(left: &[u16; 3], right: &[u16; 3]) -> (equal: bool)
    ensures
        equal == (left@ == right@),
{
    let equal = left[0] == right[0] && left[1] == right[1] && left[2] == right[2];
    assert(equal ==> left@ =~= right@);
    equal
}

fn empty(counts: &[u16; 3]) -> (zero: bool)
    ensures
        zero == (counts@ == none()),
{
    let zero = counts[0] == 0 && counts[1] == 0 && counts[2] == 0;
    assert(zero ==> counts@ =~= none());
    zero
}

impl RxRebuildDiagnostics {
    /// Nothing was observed yet.
    pub open spec fn untried(self) -> bool {
        &&& self.expected@ == none() && self.actual@ == none() && self.cleaned@ == none()
        &&& self.mac_after_init == 0xff && self.mac_after_cleanup == 0xff
        &&& !self.attempted && !self.cleanup_attempted
        &&& self.init_status == 0 && self.cleanup_status == 0
        &&& self.fault == 0
    }

    /// The first failure of the allocation.
    pub open spec fn allocation_fault(self, after: Counts) -> i32 {
        if self.init_status != 0 {
            self.init_status
        } else if self.mac_after_init != 0 {
            MAC_ENABLED
        } else if after.expected@ != self.expected@ {
            CONFIG_CHANGED
        } else if after.actual@ != self.expected@ {
            INCOMPLETE
        } else {
            0
        }
    }

    /// The failure of a cleanup after a clean allocation.
    pub open spec fn cleanup_fault(self, cleaned: Counts) -> i32 {
        if self.cleanup_status != 0 {
            self.cleanup_status
        } else if self.mac_after_cleanup != 0 || cleaned.actual@ != none() {
            CLEANUP
        } else if cleaned.expected@ != self.expected@ {
            CONFIG_CHANGED
        } else {
            0
        }
    }

    /// A clean report shows a complete allocation, destroyed again, with the
    /// hardware disabled throughout; an invalid precondition changed nothing.
    pub open spec fn sound(self) -> bool {
        &&& self.fault == 0 ==> {
            &&& self.attempted && self.cleanup_attempted
            &&& self.init_status == 0 && self.cleanup_status == 0
            &&& self.mac_after_init == 0 && self.mac_after_cleanup == 0
            &&& self.actual@ == self.expected@
            &&& self.cleaned@ == none()
        }
        &&& !self.attempted ==> self.fault == PRECONDITION && !self.cleanup_attempted
        &&& self.attempted && self.init_status != 0 ==> self.fault == self.init_status
    }
}

impl Probe {
    pub open spec fn awaits(self, reply: ProbeReply) -> bool {
        match self.phase {
            ProbePhase::Before | ProbePhase::After | ProbePhase::Cleaned => reply is Counts,
            ProbePhase::MacBefore | ProbePhase::MacInitialized | ProbePhase::MacDisabled
            | ProbePhase::MacCleaned => reply is Mac,
            ProbePhase::Initialized | ProbePhase::Destroyed => reply is Status,
            ProbePhase::Disabling => reply is Disabled,
            ProbePhase::Finished => false,
        }
    }

    /// What is known of the report in each phase.
    pub open spec fn inv(self) -> bool {
        let r = self.report;
        match self.phase {
            ProbePhase::Before | ProbePhase::MacBefore => !r.attempted && !r.cleanup_attempted,
            ProbePhase::Initialized | ProbePhase::MacInitialized | ProbePhase::After => r.attempted
                && !r.cleanup_attempted,
            ProbePhase::Disabling | ProbePhase::MacDisabled => {
                &&& r.attempted && !r.cleanup_attempted
                &&& r.init_status != 0 ==> r.fault == r.init_status
                &&& r.fault == 0 ==> r.init_status == 0 && r.mac_after_init == 0 && r.actual@
                    == r.expected@
            },
            ProbePhase::Destroyed => {
                &&& r.attempted && r.cleanup_attempted
                &&& r.init_status != 0 ==> r.fault == r.init_status
                &&& r.fault == 0 ==> r.init_status == 0 && r.mac_after_init == 0 && r.actual@
                    == r.expected@
            },
            ProbePhase::MacCleaned | ProbePhase::Cleaned => {
                &&& r.attempted
                &&& !r.cleanup_attempted ==> r.cleanup_status != 0
                &&& r.init_status != 0 ==> r.fault == r.init_status
                &&& r.fault == 0 ==> r.init_status == 0 && r.mac_after_init == 0 && r.actual@
                    == r.expected@
            },
            ProbePhase::Finished => r.sound(),
        }
    }

    /// The probe after a reply, and what it asks for next.
    pub open spec fn next(self, reply: ProbeReply) -> (Probe, ProbeAction) {
        let r = self.report;
        match (self.phase, reply) {
            (ProbePhase::Before, ProbeReply::Counts(counts)) => {
                let seen = RxRebuildDiagnostics { expected: counts.expected, ..r };
                if counts.actual@ != none() || counts.expected@ == none() {
                    Self::finish(RxRebuildDiagnostics { fault: PRECONDITION, ..seen })
                } else {
                    (Probe { phase: ProbePhase::MacBefore, report: seen }, ProbeAction::ReadMac)
                }
            },
            (ProbePhase::MacBefore, ProbeReply::Mac(mac)) => if mac != 0 {
                Self::finish(RxRebuildDiagnostics { fault: PRECONDITION, ..r })
            } else {
                (
                    Probe {
                        phase: ProbePhase::Initialized,
                        report: RxRebuildDiagnostics { attempted: true, ..r },
                    },
                    ProbeAction::Initialize,
                )
            },
            (ProbePhase::Initialized, ProbeReply::Status(status)) => (
                Probe {
                    phase: ProbePhase::MacInitialized,
                    report: RxRebuildDiagnostics { init_status: status, ..r },
                },
                ProbeAction::ReadMac,
            ),
            (ProbePhase::MacInitialized, ProbeReply::Mac(mac)) => (
                Probe {
                    phase: ProbePhase::After,
                    report: RxRebuildDiagnostics { mac_after_init: mac, ..r },
                },
                ProbeAction::ReadCounts,
            ),
            (ProbePhase::After, ProbeReply::Counts(counts)) => (
                Probe {
                    phase: ProbePhase::Disabling,
                    report: RxRebuildDiagnostics {
                        actual: counts.actual,
                        fault: r.allocation_fault(counts),
                        ..r
                    },
                },
                ProbeAction::Disable,
            ),
            (ProbePhase::Disabling, ProbeReply::Disabled) => (
                Probe { phase: ProbePhase::MacDisabled, report: r },
                ProbeAction::ReadMac,
            ),
            (ProbePhase::MacDisabled, ProbeReply::Mac(mac)) => if mac == 0 {
                (
                    Probe {
                        phase: ProbePhase::Destroyed,
                        report: RxRebuildDiagnostics { cleanup_attempted: true, ..r },
                    },
                    ProbeAction::Destroy,
                )
            } else {
                (
                    Probe {
                        phase: ProbePhase::MacCleaned,
                        report: RxRebuildDiagnostics { cleanup_status: MAC_ENABLED, ..r },
                    },
                    ProbeAction::ReadMac,
                )
            },
            (ProbePhase::Destroyed, ProbeReply::Status(status)) => (
                Probe {
                    phase: ProbePhase::MacCleaned,
                    report: RxRebuildDiagnostics { cleanup_status: status, ..r },
                },
                ProbeAction::ReadMac,
            ),
            (ProbePhase::MacCleaned, ProbeReply::Mac(mac)) => (
                Probe {
                    phase: ProbePhase::Cleaned,
                    report: RxRebuildDiagnostics { mac_after_cleanup: mac, ..r },
                },
                ProbeAction::ReadCounts,
            ),
            (ProbePhase::Cleaned, ProbeReply::Counts(counts)) => Self::finish(
                RxRebuildDiagnostics {
                    cleaned: counts.actual,
                    fault: if r.fault == 0 {
                        r.cleanup_fault(counts)
                    } else {
                        r.fault
                    },
                    ..r
                },
            ),
            _ => (self, ProbeAction::Done(r)),
        }
    }

    pub open spec fn finish(report: RxRebuildDiagnostics) -> (Probe, ProbeAction) {
        (Probe { phase: ProbePhase::Finished, report }, ProbeAction::Done(report))
    }

    /// A probe starts by reading the counts.
    pub fn new() -> (probe: Self)
        ensures
            probe.inv(),
            probe.phase is Before,
            probe.report.untried(),
    {
        let probe = Probe {
            phase: ProbePhase::Before,
            report: RxRebuildDiagnostics {
                expected: [0, 0, 0],
                actual: [0, 0, 0],
                cleaned: [0, 0, 0],
                mac_after_init: 0xff,
                mac_after_cleanup: 0xff,
                attempted: false,
                cleanup_attempted: false,
                init_status: 0,
                cleanup_status: 0,
                fault: 0,
            },
        };
        assert(probe.report.expected@ =~= none());
        assert(probe.report.actual@ =~= none());
        assert(probe.report.cleaned@ =~= none());
        probe
    }

    pub fn resume(&mut self, reply: ProbeReply) -> (action: ProbeAction)
        requires
            old(self).inv(),
            old(self).awaits(reply),
        ensures
            final(self).inv(),
            (*final(self), action) == old(self).next(reply),
    {
        match (self.phase, reply) {
            (ProbePhase::Before, ProbeReply::Counts(counts)) => {
                self.report.expected = counts.expected;
                if !empty(&counts.actual) || empty(&counts.expected) {
                    self.report.fault = PRECONDITION;
                    self.phase = ProbePhase::Finished;
                    ProbeAction::Done(self.report)
                } else {
                    self.phase = ProbePhase::MacBefore;
                    ProbeAction::ReadMac
                }
            },
            (ProbePhase::MacBefore, ProbeReply::Mac(mac)) => {
                if mac != 0 {
                    self.report.fault = PRECONDITION;
                    self.phase = ProbePhase::Finished;
                    ProbeAction::Done(self.report)
                } else {
                    self.report.attempted = true;
                    self.phase = ProbePhase::Initialized;
                    ProbeAction::Initialize
                }
            },
            (ProbePhase::Initialized, ProbeReply::Status(status)) => {
                self.report.init_status = status;
                self.phase = ProbePhase::MacInitialized;
                ProbeAction::ReadMac
            },
            (ProbePhase::MacInitialized, ProbeReply::Mac(mac)) => {
                self.report.mac_after_init = mac;
                self.phase = ProbePhase::After;
                ProbeAction::ReadCounts
            },
            (ProbePhase::After, ProbeReply::Counts(counts)) => {
                self.report.fault = if self.report.init_status != 0 {
                    self.report.init_status
                } else if self.report.mac_after_init != 0 {
                    MAC_ENABLED
                } else if !same(&counts.expected, &self.report.expected) {
                    CONFIG_CHANGED
                } else if !same(&counts.actual, &self.report.expected) {
                    INCOMPLETE
                } else {
                    0
                };
                self.report.actual = counts.actual;
                self.phase = ProbePhase::Disabling;
                ProbeAction::Disable
            },
            (ProbePhase::Disabling, ProbeReply::Disabled) => {
                self.phase = ProbePhase::MacDisabled;
                ProbeAction::ReadMac
            },
            (ProbePhase::MacDisabled, ProbeReply::Mac(mac)) => {
                if mac == 0 {
                    self.report.cleanup_attempted = true;
                    self.phase = ProbePhase::Destroyed;
                    ProbeAction::Destroy
                } else {
                    self.report.cleanup_status = MAC_ENABLED;
                    self.phase = ProbePhase::MacCleaned;
                    ProbeAction::ReadMac
                }
            },
            (ProbePhase::Destroyed, ProbeReply::Status(status)) => {
                self.report.cleanup_status = status;
                self.phase = ProbePhase::MacCleaned;
                ProbeAction::ReadMac
            },
            (ProbePhase::MacCleaned, ProbeReply::Mac(mac)) => {
                self.report.mac_after_cleanup = mac;
                self.phase = ProbePhase::Cleaned;
                ProbeAction::ReadCounts
            },
            (ProbePhase::Cleaned, ProbeReply::Counts(counts)) => {
                if self.report.fault == 0 {
                    self.report.fault = if self.report.cleanup_status != 0 {
                        self.report.cleanup_status
                    } else if self.report.mac_after_cleanup != 0 || !empty(&counts.actual) {
                        CLEANUP
                    } else if !same(&counts.expected, &self.report.expected) {
                        CONFIG_CHANGED
                    } else {
                        0
                    };
                }
                self.report.cleaned = counts.actual;
                self.phase = ProbePhase::Finished;
                ProbeAction::Done(self.report)
            },
            _ => ProbeAction::Done(self.report),
        }
    }
}

/// How many steps a probe can still take.
spec fn remaining(phase: ProbePhase) -> nat {
    match phase {
        ProbePhase::Before => 10,
        ProbePhase::MacBefore => 9,
        ProbePhase::Initialized => 8,
        ProbePhase::MacInitialized => 7,
        ProbePhase::After => 6,
        ProbePhase::Disabling => 5,
        ProbePhase::MacDisabled => 4,
        ProbePhase::Destroyed => 3,
        ProbePhase::MacCleaned => 2,
        ProbePhase::Cleaned => 1,
        ProbePhase::Finished => 0,
    }
}

/// What a probe asks for in its phase.
pub open spec fn request(probe: Probe) -> ProbeAction {
    match probe.phase {
        ProbePhase::Before => ProbeAction::ReadCounts,
        ProbePhase::After => ProbeAction::ReadCounts,
        ProbePhase::Cleaned => ProbeAction::ReadCounts,
        ProbePhase::MacBefore => ProbeAction::ReadMac,
        ProbePhase::MacInitialized => ProbeAction::ReadMac,
        ProbePhase::MacDisabled => ProbeAction::ReadMac,
        ProbePhase::MacCleaned => ProbeAction::ReadMac,
        ProbePhase::Initialized => ProbeAction::Initialize,
        ProbePhase::Destroyed => ProbeAction::Destroy,
        ProbePhase::Disabling => ProbeAction::Disable,
        ProbePhase::Finished => ProbeAction::Done(probe.report),
    }
}

/// The request only reads.
pub open spec fn reads(action: ProbeAction) -> bool {
    action is ReadCounts || action is ReadMac
}

/// `reply` is what `ops` answers to a request that only reads.
pub open spec fn read_answer<O: DescriptorOps>(
    action: ProbeAction,
    ops: O,
    reply: ProbeReply,
) -> bool {
    match (action, reply) {
        (ProbeAction::ReadCounts, ProbeReply::Counts(counts)) => call_ensures(
            O::counts,
            (&ops,),
            counts,
        ),
        (ProbeAction::ReadMac, ProbeReply::Mac(mac)) => call_ensures(O::mac_enabled, (&ops,), mac),
        _ => false,
    }
}

/// `reply` is what the operations that `at` borrows answer to any other request.
pub open spec fn call_answer<O: DescriptorOps>(
    action: ProbeAction,
    at: &mut O,
    reply: ProbeReply,
) -> bool {
    match (action, reply) {
        (ProbeAction::Initialize, ProbeReply::Status(status)) => call_ensures(
            O::initialize,
            (at,),
            status,
        ),
        (ProbeAction::Disable, ProbeReply::Disabled) => call_ensures(O::disable, (at,), ()),
        (ProbeAction::Destroy, ProbeReply::Status(status)) => call_ensures(
            O::destroy,
            (at,),
            status,
        ),
        _ => false,
    }
}

/// A round trip went through `probes` by `replies`, and read what `states` show.
pub open spec fn round_trip<O: DescriptorOps>(
    probes: Seq<Probe>,
    replies: Seq<ProbeReply>,
    states: Seq<O>,
) -> bool {
    &&& probes.len() == replies.len() + 1
    &&& states.len() == replies.len() + 1
    &&& probes[0].phase is Before && probes[0].report.untried()
    &&& forall|i: int|
        #![trigger replies[i]]
        0 <= i < replies.len() ==> probes[i].awaits(replies[i]) && probes[i + 1] == probes[i].next(
            replies[i],
        ).0
    &&& forall|i: int|
        #![trigger states[i]]
        0 <= i < replies.len() && reads(request(probes[i])) ==> states[i + 1] == states[i]
            && read_answer(request(probes[i]), states[i], replies[i])
}

/// One more reply extends a round trip.
proof fn lemma_one_more_reply<O: DescriptorOps>(
    probes: Seq<Probe>,
    replies: Seq<ProbeReply>,
    states: Seq<O>,
    reply: ProbeReply,
    state: O,
)
    requires
        round_trip(probes, replies, states),
        probes.last().awaits(reply),
        reads(request(probes.last())) ==> state == states.last() && read_answer(
            request(probes.last()),
            state,
            reply,
        ),
    ensures
        round_trip(
            probes.push(probes.last().next(reply).0),
            replies.push(reply),
            states.push(state),
        ),
{
    let more = replies.push(reply);
    let after = probes.push(probes.last().next(reply).0);
    let seen = states.push(state);
    assert forall|i: int| #![trigger more[i]] 0 <= i < more.len() implies after[i].awaits(more[i])
        && after[i + 1] == after[i].next(more[i]).0 by {
        if i < replies.len() {
            assert(more[i] == replies[i]);
        }
    }
    assert forall|i: int|
        #![trigger seen[i]]
        0 <= i < more.len() && reads(request(after[i])) implies seen[i + 1] == seen[i]
        && read_answer(request(after[i]), seen[i], more[i]) by {
        if i < replies.len() {
            assert(seen[i] == states[i]);
        }
    }
}

/// Make a native call that is no mere read.
fn call<O: DescriptorOps>(ops: &mut O, action: ProbeAction) -> (reply: ProbeReply)
    requires
        action is Initialize || action is Disable || action is Destroy,
    ensures
        exists|at: &mut O|
            #[trigger] call_answer(action, at, reply) && *at == *old(ops) && *final(at)
                == *final(ops),
{
    match action {
        ProbeAction::Initialize => {
            let status: i32 = ops.initialize();
            proof {
                let at = choose|at: &mut O|
                    #[trigger] call_ensures(O::initialize, (at,), status) && *at == *old(ops)
                        && *final(at) == *ops;
                assert(call_answer(action, at, ProbeReply::Status(status)));
            }
            ProbeReply::Status(status)
        },
        ProbeAction::Disable => {
            ops.disable();
            proof {
                let at = choose|at: &mut O|
                    #[trigger] call_ensures(O::disable, (at,), ()) && *at == *old(ops) && *final(at)
                        == *ops;
                assert(call_answer(action, at, ProbeReply::Disabled));
            }
            ProbeReply::Disabled
        },
        _ => {
            let status: i32 = ops.destroy();
            proof {
                let at = choose|at: &mut O|
                    #[trigger] call_ensures(O::destroy, (at,), status) && *at == *old(ops)
                        && *final(at) == *ops;
                assert(call_answer(action, at, ProbeReply::Status(status)));
            }
            ProbeReply::Status(status)
        },
    }
}

/// Run one round trip. The caller has established the device worker and sealed
/// admission. A cleanup always follows an attempted initialization.
pub fn probe<O: DescriptorOps>(ops: &mut O) -> (report: RxRebuildDiagnostics)
    ensures
        report.sound(),
        exists|probes: Seq<Probe>, replies: Seq<ProbeReply>, states: Seq<O>|
            {
                &&& #[trigger] round_trip(probes, replies, states)
                &&& probes.last().phase is Finished && probes.last().report == report
                &&& states.first() == *old(ops) && states.last() == *final(ops)
                &&& forall|i: int|
                    #![trigger probes[i]]
                    0 <= i < replies.len() && !reads(request(probes[i])) ==> exists|at: &mut O|
                        #[trigger] call_answer(request(probes[i]), at, replies[i]) && *at
                            == states[i] && *final(at) == states[i + 1]
            },
{
    let mut probe = Probe::new();
    let mut action = ProbeAction::ReadCounts;
    let ghost mut probes: Seq<Probe> = seq![probe];
    let ghost mut replies: Seq<ProbeReply> = seq![];
    let ghost mut states: Seq<O> = seq![*ops];
    loop
        invariant
            probe.inv(),
            action == request(probe),
            round_trip(probes, replies, states),
            probes.last() == probe,
            states.first() == *old(ops) && states.last() == *ops,
            forall|i: int|
                #![trigger probes[i]]
                0 <= i < replies.len() && !reads(request(probes[i])) ==> exists|at: &mut O|
                    #[trigger] call_answer(request(probes[i]), at, replies[i]) && *at == states[i]
                        && *final(at) == states[i + 1],
        decreases remaining(probe.phase),
    {
        let ghost held = *ops;
        let reply = match action {
            ProbeAction::ReadCounts => ProbeReply::Counts(ops.counts()),
            ProbeAction::ReadMac => ProbeReply::Mac(ops.mac_enabled()),
            ProbeAction::Done(report) => {
                return report;
            },
            other => call(ops, other),
        };
        proof {
            lemma_one_more_reply(probes, replies, states, reply, *ops);
            let seen = states;
            let done = replies;
            let past = probes;
            probes = probes.push(probe.next(reply).0);
            replies = replies.push(reply);
            states = states.push(*ops);
            assert forall|i: int|
                #![trigger probes[i]]
                0 <= i < replies.len() && !reads(request(probes[i])) implies exists|at: &mut O|
                #[trigger] call_answer(request(probes[i]), at, replies[i]) && *at == states[i]
                    && *final(at) == states[i + 1] by {
                if i < done.len() {
                    assert(states[i] == seen[i] && states[i + 1] == seen[i + 1]);
                    assert(probes[i] == past[i] && replies[i] == done[i]);
                } else {
                    assert(states[i] == held);
                    assert(probes[i] == probe && replies[i] == reply);
                }
            }
        }
        action = probe.resume(reply);
    }
}

/// The descriptors are destroyed only after the hardware was seen disabled, and
/// an initialization is always followed by an attempt to disable it.
pub proof fn law_destroy_needs_disabled_hardware(probe: Probe, reply: ProbeReply)
    requires
        probe.inv(),
        probe.awaits(reply),
    ensures
        probe.next(reply).1 is Destroy ==> reply == ProbeReply::Mac(0),
        probe.next(reply).1 is Initialize ==> reply == ProbeReply::Mac(0),
        probe.next(reply).1 matches ProbeAction::Done(report) && report.attempted ==> probe.phase
            is Cleaned,
{
}

/// The first failure is kept.
pub proof fn law_first_failure_is_kept(probe: Probe, reply: ProbeReply)
    requires
        probe.inv(),
        probe.awaits(reply),
        probe.phase is Disabling || probe.phase is MacDisabled || probe.phase is Destroyed
            || probe.phase is MacCleaned || probe.phase is Cleaned,
        probe.report.fault != 0,
    ensures
        probe.next(reply).0.report.fault == probe.report.fault,
{
}

/// A round trip that meets no obstacle takes every step once, in this order: the lists
/// and the hardware are looked at, the descriptors are allocated, the hardware and the
/// lists are looked at, the hardware is turned off and looked at, the descriptors are
/// destroyed, and the hardware and the lists are looked at for the last time.
pub proof fn law_round_trip_takes_every_step_in_order(
    probe: Probe,
    counts: Counts,
    mac: u8,
    status: i32,
)
    ensures
        ({
            let counted = probe.next(ProbeReply::Counts(counts));
            let read = probe.next(ProbeReply::Mac(mac));
            let off = probe.next(ProbeReply::Mac(0));
            let returned = probe.next(ProbeReply::Status(status));
            let disabled = probe.next(ProbeReply::Disabled);
            &&& probe.phase is Before && counts.actual@ == seq![0u16, 0, 0] && counts.expected@
                != seq![0u16, 0, 0] ==> counted.1 is ReadMac && counted.0.phase is MacBefore
                && counted.0.report.expected == counts.expected
            &&& probe.phase is MacBefore ==> off.1 is Initialize && off.0.phase is Initialized
                && off.0.report.attempted
            &&& probe.phase is Initialized ==> returned.1 is ReadMac
                && returned.0.phase is MacInitialized && returned.0.report.init_status == status
            &&& probe.phase is MacInitialized ==> read.1 is ReadCounts && read.0.phase is After
                && read.0.report.mac_after_init == mac
            &&& probe.phase is After ==> counted.1 is Disable && counted.0.phase is Disabling
                && counted.0.report.actual == counts.actual
            &&& probe.phase is Disabling ==> disabled.1 is ReadMac
                && disabled.0.phase is MacDisabled
            &&& probe.phase is MacDisabled ==> off.1 is Destroy && off.0.phase is Destroyed
                && off.0.report.cleanup_attempted
            &&& probe.phase is MacDisabled && mac != 0 ==> read.1 is ReadMac
                && read.0.phase is MacCleaned && read.0.report.cleanup_status == -0x1022
            &&& probe.phase is Destroyed ==> returned.1 is ReadMac && returned.0.phase is MacCleaned
                && returned.0.report.cleanup_status == status
            &&& probe.phase is MacCleaned ==> read.1 is ReadCounts && read.0.phase is Cleaned
                && read.0.report.mac_after_cleanup == mac
            &&& probe.phase is Cleaned ==> counted.1 == ProbeAction::Done(counted.0.report)
                && counted.0.report.cleaned == counts.actual
        }),
{
}

/// A round trip is not begun with descriptors left, with none expected, or with the
/// hardware on; it then reports that and has changed nothing.
pub proof fn law_round_trip_needs_empty_lists(probe: Probe, counts: Counts, mac: u8)
    ensures
        ({
            let counted = probe.next(ProbeReply::Counts(counts));
            let read = probe.next(ProbeReply::Mac(mac));
            &&& probe.phase is Before && (counts.actual@ != seq![0u16, 0, 0] || counts.expected@
                == seq![0u16, 0, 0]) ==> counted.1 == ProbeAction::Done(counted.0.report)
                && counted.0.report.fault == -0x1025
            &&& probe.phase is MacBefore && mac != 0 ==> read.1 == ProbeAction::Done(read.0.report)
                && read.0.report.fault == -0x1025
        }),
{
}

/// The fault of a round trip is the first that was seen: of the allocation, hardware that
/// came on, another configuration, or lists that are incomplete; then of the cleanup,
/// hardware or lists that it left, or another configuration. Without any there is none.
pub proof fn law_round_trip_tells_its_first_fault(probe: Probe, counts: Counts)
    ensures
        ({
            let r = probe.report;
            let after = probe.next(ProbeReply::Counts(counts)).0.report.fault;
            let changed = counts.expected@ != r.expected@;
            let allocated = r.init_status == 0 && r.mac_after_init == 0;
            &&& probe.phase is After ==> {
                &&& r.init_status != 0 ==> after == r.init_status
                &&& r.init_status == 0 && r.mac_after_init != 0 ==> after == -0x1022
                &&& allocated && changed ==> after == -0x1027
                &&& allocated && !changed && counts.actual@ != r.expected@ ==> after == -0x1026
                &&& allocated && !changed && counts.actual@ == r.expected@ ==> after == 0
            }
            &&& probe.phase is Cleaned ==> {
                let left = r.mac_after_cleanup != 0 || counts.actual@ != seq![0u16, 0, 0];
                &&& r.fault != 0 ==> after == r.fault
                &&& r.fault == 0 && r.cleanup_status != 0 ==> after == r.cleanup_status
                &&& r.fault == 0 && r.cleanup_status == 0 && left ==> after == -0x1028
                &&& r.fault == 0 && r.cleanup_status == 0 && !left && changed ==> after == -0x1027
                &&& r.fault == 0 && r.cleanup_status == 0 && !left && !changed ==> after == 0
            }
        }),
{
}

} // verus!
