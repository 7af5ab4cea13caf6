//! Which call of the vendor side answers which request of a poll.

use crate::hisi_rf_backend::incremental::{
    MonotonicClock, PollAction, PollResult, PortReply, SupplicantPort,
};
use crate::hisi_rf_backend::NativeEvent;
use crate::radio::{BackendError, ScanResult, StationConfig};
use vstd::prelude::*;

verus! {

/// A request that changes the vendor side is answered by the call of its name, with
/// what the request carries, and by no other.
pub proof fn law_requests_make_their_calls<P: SupplicantPort>(
    config: StationConfig,
    grant: u32,
    submitted: Result<(), BackendError>,
    polled: Result<PollResult, BackendError>,
    event: Result<Option<NativeEvent>, BackendError>,
    total: Result<Option<usize>, BackendError>,
)
    ensures
        forall|at: &mut P|
            #![trigger super::call_answer(PollAction::StartScan, at, PortReply::Submitted(submitted))]
            super::call_answer(PollAction::StartScan, at, PortReply::Submitted(submitted))
                ==> call_ensures(P::start_scan, (at,), submitted),
        forall|at: &mut P|
            #![trigger super::call_answer(PollAction::Configure(config), at, PortReply::Submitted(submitted))]
            super::call_answer(PollAction::Configure(config), at, PortReply::Submitted(submitted))
                ==> call_ensures(P::configure, (at, &config), submitted),
        forall|at: &mut P|
            #![trigger super::call_answer(PollAction::Connect, at, PortReply::Submitted(submitted))]
            super::call_answer(PollAction::Connect, at, PortReply::Submitted(submitted))
                ==> call_ensures(P::connect, (at,), submitted),
        forall|at: &mut P|
            #![trigger super::call_answer(PollAction::Disconnect, at, PortReply::Submitted(submitted))]
            super::call_answer(PollAction::Disconnect, at, PortReply::Submitted(submitted))
                ==> call_ensures(P::disconnect, (at,), submitted),
        forall|at: &mut P|
            #![trigger super::call_answer(PollAction::CancelScan, at, PortReply::Done)]
            super::call_answer(PollAction::CancelScan, at, PortReply::Done) ==> call_ensures(
                P::cancel_scan,
                (at,),
                (),
            ),
        forall|at: &mut P|
            #![trigger super::call_answer(PollAction::PollSupplicant(grant), at, PortReply::Polled(polled))]
            super::call_answer(PollAction::PollSupplicant(grant), at, PortReply::Polled(polled))
                ==> call_ensures(P::poll, (at, grant), polled),
        forall|at: &mut P|
            #![trigger super::call_answer(PollAction::NextEvent, at, PortReply::Event(event))]
            super::call_answer(PollAction::NextEvent, at, PortReply::Event(event)) ==> call_ensures(
                P::next_event,
                (at,),
                event,
            ),
        forall|at: &mut P|
            #![trigger super::call_answer(PollAction::PollScan, at, PortReply::ScanTotal(total))]
            super::call_answer(PollAction::PollScan, at, PortReply::ScanTotal(total))
                ==> call_ensures(P::poll_scan, (at,), total),
{
}

/// A request that only reads is answered by the reading of its name.
pub proof fn law_requests_make_their_readings<P: SupplicantPort, C: MonotonicClock>(
    port: P,
    clock: C,
    now_us: u64,
    index: usize,
    entry: Option<ScanResult>,
    flag: bool,
    word: u32,
)
    ensures
        super::read_answer(PollAction::ReadClock, port, clock, PortReply::Clock(now_us))
            ==> call_ensures(C::now_us, (&clock,), now_us),
        super::read_answer(
            PollAction::ReadScanResult(index),
            port,
            clock,
            PortReply::ScanEntry(entry),
        ) ==> call_ensures(P::scan_result, (&port, index), entry),
        super::read_answer(PollAction::ReadScanCachePending, port, clock, PortReply::Flag(flag))
            ==> call_ensures(P::scan_cache_pending, (&port,), flag),
        super::read_answer(PollAction::ReadExternalAuthStalled, port, clock, PortReply::Flag(flag))
            ==> call_ensures(P::external_auth_retry_stalled, (&port,), flag),
        super::read_answer(PollAction::ReadInputPending, port, clock, PortReply::Flag(flag))
            ==> call_ensures(P::input_pending, (&port,), flag),
        super::read_answer(PollAction::ReadRecoveryWord, port, clock, PortReply::Word(word))
            ==> call_ensures(P::recovery_diagnostic_word, (&port,), word),
        super::read_answer(PollAction::ReadContextWord, port, clock, PortReply::Word(word))
            ==> call_ensures(P::context_diagnostic_word, (&port,), word),
        super::read_answer(PollAction::ReadDriverWord, port, clock, PortReply::Word(word))
            ==> call_ensures(P::driver_diagnostic_word, (&port,), word),
        super::read_answer(PollAction::ReadMatchWord, port, clock, PortReply::Word(word))
            ==> call_ensures(P::match_diagnostic_word, (&port,), word),
{
}

} // verus!
