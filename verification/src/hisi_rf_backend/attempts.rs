//! What the blocking station operations ask of the vendor side over their runs,
//! and what the answers come to.

use crate::hisi_rf_backend::{
    AssociationAttempt, Bootstrap, BootstrapAction, BootstrapPhase, BootstrapReply,
    BootstrapTokens, ConnectAttempt, ConnectPhase, DisconnectAttempt, DisconnectPhase, NativeEvent,
    NativeSupplicantError, ScanAction, ScanAttempt, ScanReply, StationAction,
    StationReply, Ws63Error,
};
use crate::error::RuntimeError;
use crate::radio::DiagnosticStage;
use vstd::prelude::*;

verus! {

/// The kind of reply that a station request is answered with.
pub open spec fn station_answers(action: StationAction, reply: StationReply) -> bool {
    match reply {
        StationReply::Submitted(_) => action is Configure || action is Connect
            || action is Disconnect || action is Poll,
        StationReply::Clock(_) => action is ReadClock,
        StationReply::Event(_) => action is NextEvent,
        StationReply::FailureWords { .. } => action is ReadFailureWords,
        StationReply::TimeoutEvidence { .. } => action is ReadTimeoutEvidence,
        StationReply::Abandoned => action is Abandon,
        StationReply::Slept(_) => action is Sleep,
    }
}

/// The reply accepts a configuration, a submission or a poll.
pub open spec fn accepts(reply: StationReply) -> bool {
    reply is Submitted && reply->Submitted_0 is Ok
}

/// A connection attempt after one more reply, with what it asks for then.
#[verifier::opaque]
pub open spec fn connect_step(attempt: ConnectAttempt, reply: StationReply) -> (
    ConnectAttempt,
    StationAction,
) {
    attempt.next(reply)
}

/// A connection attempt after a sequence of replies, with what it asks for then.
pub open spec fn connect_run(
    begun: (ConnectAttempt, StationAction),
    replies: Seq<StationReply>,
) -> (ConnectAttempt, StationAction)
    decreases replies.len(),
{
    if replies.len() == 0 {
        begun
    } else {
        connect_step(connect_run(begun, replies.drop_last()).0, replies.last())
    }
}

/// Every reply answers what the attempt asked for before it.
pub open spec fn connect_answered(
    begun: (ConnectAttempt, StationAction),
    replies: Seq<StationReply>,
) -> bool {
    forall|i: int|
        0 <= i < replies.len() ==> station_answers(
            connect_run(begun, replies.take(i)).1,
            #[trigger] replies[i],
        )
}

/// An attempt in this phase has asked for `action`.
spec fn connect_asked(phase: ConnectPhase, action: StationAction) -> bool {
    match phase {
        ConnectPhase::Configuring => action is Configure,
        ConnectPhase::Submitting => action is Connect,
        ConnectPhase::Starting => action is ReadClock,
        ConnectPhase::Polling => action == StationAction::Poll(32),
        ConnectPhase::Draining => action is NextEvent,
        ConnectPhase::CheckingDeadline => action is ReadClock,
        ConnectPhase::Failing(_) => action is ReadFailureWords,
        ConnectPhase::Expiring(_) => action is ReadFailureWords,
        ConnectPhase::ReadingEvidence => action is ReadTimeoutEvidence,
        ConnectPhase::Abandoning(_) => action is Abandon,
        ConnectPhase::Sleeping => action == StationAction::Sleep(1),
        ConnectPhase::Over => action is Connected,
    }
}

/// What one reply does to an attempt that has asked for it.
proof fn lemma_connect_step(attempt: ConnectAttempt, asks: StationAction, reply: StationReply)
    requires
        connect_asked(attempt.phase, asks),
        station_answers(asks, reply),
    ensures
        ({
            let (after, next) = connect_step(attempt, reply);
            &&& connect_asked(after.phase, next)
            &&& !(after.phase is Configuring)
            &&& after.phase is Submitting <==> attempt.phase is Configuring && accepts(reply)
            &&& after.phase is Starting <==> attempt.phase is Submitting && accepts(reply)
            &&& (attempt.phase is Configuring || attempt.phase is Submitting) && !accepts(reply)
                ==> next is Connected && next->Connected_0 is Err
            &&& attempt.phase is Starting ==> reply is Clock && after.started_at == reply->Clock_0
                && after.phase is Polling
            &&& !(attempt.phase is Starting) ==> after.started_at == attempt.started_at
            &&& after.bssid == attempt.bssid && after.channel == attempt.channel && after.timeout_ms
                == attempt.timeout_ms
            &&& !(attempt.phase is Over)
        }),
{
    reveal(connect_step);
}

/// What holds after each number of replies.
proof fn lemma_connect_run(begun: (ConnectAttempt, StationAction), replies: Seq<StationReply>)
    requires
        begun.0.phase is Configuring,
        begun.1 is Configure,
        connect_answered(begun, replies),
    ensures
        ({
            let (attempt, asks) = connect_run(begun, replies);
            &&& connect_asked(attempt.phase, asks)
            &&& attempt.phase is Configuring <==> replies.len() == 0
            &&& attempt.phase is Submitting <==> replies.len() == 1 && accepts(replies[0])
            &&& replies.len() >= 2 ==> accepts(replies[0])
            &&& replies.len() >= 2 && !accepts(replies[1]) ==> replies.len() == 2 && asks is Connected
                && asks->Connected_0 is Err
            &&& replies.len() == 1 && !accepts(replies[0]) ==> asks is Connected
                && asks->Connected_0 is Err
            &&& replies.len() == 2 && accepts(replies[1]) ==> attempt.phase is Starting
            &&& attempt.phase is Starting ==> replies.len() == 2
            &&& replies.len() == 3 ==> attempt.phase is Polling
            &&& attempt.bssid == begun.0.bssid && attempt.channel == begun.0.channel
                && attempt.timeout_ms == begun.0.timeout_ms
            &&& replies.len() >= 3 ==> replies[2] is Clock && attempt.started_at
                == replies[2]->Clock_0
        }),
    decreases replies.len(),
{
    if replies.len() > 0 {
        let earlier = replies.drop_last();
        assert forall|i: int| 0 <= i < earlier.len() implies station_answers(
            connect_run(begun, earlier.take(i)).1,
            #[trigger] earlier[i],
        ) by {
            assert(earlier.take(i) == replies.take(i));
            assert(earlier[i] == replies[i]);
        }
        lemma_connect_run(begun, earlier);
        assert(replies.take(replies.len() - 1) == earlier);
        assert(station_answers(
            connect_run(begun, replies.take(replies.len() - 1)).1,
            replies[replies.len() - 1],
        ));
        let (attempt, asks) = connect_run(begun, earlier);
        lemma_connect_step(attempt, asks, replies.last());
    }
}

/// However the vendor side answers, a connection attempt configures first and
/// submits the connection exactly once, directly after the accepted
/// configuration. It polls, takes events, sleeps, gives up or succeeds only after
/// that submission was accepted. A refused configuration or submission ends it.
pub proof fn law_connection_is_submitted_once(
    bssid: [u8; 6],
    channel: u8,
    timeout_ms: u32,
    begun: (ConnectAttempt, StationAction),
    replies: Seq<StationReply>,
    i: int,
)
    requires
        call_ensures(ConnectAttempt::begin, (true, bssid, channel, timeout_ms), begun),
        connect_answered(begun, replies),
        0 <= i <= replies.len(),
    ensures
        ({
            let asks = connect_run(begun, replies.take(i)).1;
            &&& asks is Configure <==> i == 0
            &&& asks is Connect <==> i == 1 && accepts(replies[0])
            &&& asks is Disconnect ==> false
            &&& asks is Poll || asks is NextEvent || asks is Sleep || asks is Abandon
                || asks is ReadFailureWords || asks is ReadTimeoutEvidence || asks is ReadClock || (
            asks is Connected && asks->Connected_0 is Ok) ==> {
                &&& i >= 2
                &&& accepts(replies[0]) && connect_run(begun, replies.take(1)).1 is Connect
                &&& accepts(replies[1])
            }
            &&& i == 1 && !accepts(replies[0]) ==> asks is Connected && asks->Connected_0 is Err
            &&& i == 2 && !accepts(replies[1]) ==> asks is Connected && asks->Connected_0 is Err
            &&& i == 2 && accepts(replies[1]) ==> asks is ReadClock
            &&& i == 3 ==> asks == StationAction::Poll(32)
        }),
{
    let seen = replies.take(i);
    assert forall|j: int| 0 <= j < seen.len() implies station_answers(
        connect_run(begun, seen.take(j)).1,
        #[trigger] seen[j],
    ) by {
        assert(seen.take(j) == replies.take(j));
        assert(seen[j] == replies[j]);
    }
    lemma_connect_run(begun, seen);
    if i >= 1 {
        let first = replies.take(1);
        assert forall|j: int| 0 <= j < first.len() implies station_answers(
            connect_run(begun, first.take(j)).1,
            #[trigger] first[j],
        ) by {
            assert(first.take(j) == replies.take(j));
            assert(first[j] == replies[j]);
        }
        lemma_connect_run(begun, first);
    }
}

/// Without a supplicant no operation asks for anything: it ends at once with the
/// failure of a radio that is not initialized.
pub proof fn law_nothing_runs_without_a_supplicant(
    bssid: [u8; 6],
    channel: u8,
    timeout_ms: u32,
    connect: (ConnectAttempt, StationAction),
    disconnect: (DisconnectAttempt, StationAction),
    scan: (ScanAttempt, ScanAction),
)
    requires
        call_ensures(ConnectAttempt::begin, (false, bssid, channel, timeout_ms), connect),
        call_ensures(DisconnectAttempt::begin, (false, timeout_ms), disconnect),
        call_ensures(ScanAttempt::begin, (false,), scan),
    ensures
        connect.1 is Connected && connect.1->Connected_0 is Err,
        disconnect.1 is Disconnected && disconnect.1->Disconnected_0 is Err,
        scan.1 is Done && scan.1->Done_0 is Err,
        connect.1->Connected_0->Err_0 == disconnect.1->Disconnected_0->Err_0,
        connect.1->Connected_0->Err_0 == scan.1->Done_0->Err_0,
        connect.1->Connected_0->Err_0.class is Initialize,
        connect.1->Connected_0->Err_0.code == 0x1000_0003,
        connect.1->Connected_0->Err_0.stage is Initialize,
        forall|reply: StationReply| !connect.0.awaits(reply) && !disconnect.0.awaits(reply),
        forall|reply: ScanReply| !scan.0.awaits(reply),
{
}

/// An authorization ends the attempt with the network that was asked for; a
/// terminal failure ends it with its own status, once the words that explain it
/// were read; every other event only lets the attempt take the next one. Of the
/// disconnects on the way, the latest status that is not zero is kept.
pub proof fn law_events_decide_a_connection(
    attempt: ConnectAttempt,
    event: NativeEvent,
    context: u32,
    port: u32,
)
    requires
        attempt.phase is Draining,
    ensures
        ({
            let (after, asks) = attempt.next(StationReply::Event(Ok(Some(event))));
            &&& event.kind == 3 ==> {
                &&& asks is Connected && asks->Connected_0 is Ok
                &&& asks->Connected_0->Ok_0.bssid == attempt.bssid
                &&& 1 <= attempt.channel <= 13 ==> asks->Connected_0->Ok_0.frequency_mhz == 2407 + 5
                    * attempt.channel
                &&& attempt.channel == 14 ==> asks->Connected_0->Ok_0.frequency_mhz == 2484
            }
            &&& event.kind == 5 ==> {
                let (over, failed) = after.next(StationReply::FailureWords { context, port });
                &&& asks is ReadFailureWords
                &&& over.phase is Over
                &&& failed is Connected && failed->Connected_0 is Err
                &&& failed->Connected_0->Err_0.class is Connect
                &&& failed->Connected_0->Err_0.code == event.status as u32
                &&& failed->Connected_0->Err_0.stage is Pmf <==> event.status == 30
                &&& failed->Connected_0->Err_0.stage is Associate <==> event.status != 30
            }
            &&& event.kind != 3 && event.kind != 5 ==> asks is NextEvent && after.phase is Draining
            &&& after.last_event_kind == event.kind
            &&& after.last_disconnect_status == (if event.kind == 4 && event.status != 0 {
                Some(event.status)
            } else {
                attempt.last_disconnect_status
            })
            &&& after.bssid == attempt.bssid && after.channel == attempt.channel
            &&& after.timeout_ms == attempt.timeout_ms && after.started_at == attempt.started_at
        }),
{
}

/// Milliseconds from one reading of a wrapping clock to a later one.
pub open spec fn passed(from: u64, to: u64) -> int {
    if to >= from {
        to - from
    } else {
        to - from + 0x1_0000_0000_0000_0000
    }
}

/// An attempt without an event polls again after one millisecond until its
/// timeout has passed since it was submitted, and not longer. Then it disconnects
/// before it fails: with the status of the latest disconnect if there was one,
/// otherwise as timed out, at the stage that the association had come to.
pub proof fn law_connection_ends_at_its_timeout(
    attempt: ConnectAttempt,
    now: u64,
    context: u32,
    port: u32,
    latest: Option<AssociationAttempt>,
    eapol_received: u32,
)
    requires
        attempt.phase is CheckingDeadline,
    ensures
        ({
            let (after, asks) = attempt.next(StationReply::Clock(now));
            let words = StationReply::FailureWords { context, port };
            let evidence = StationReply::TimeoutEvidence { context, port, latest, eapol_received };
            &&& passed(attempt.started_at, now) < attempt.timeout_ms ==> {
                &&& asks == StationAction::Sleep(1)
                &&& after.next(StationReply::Slept(Ok(()))).1 == StationAction::Poll(32)
                &&& after.next(StationReply::Slept(Ok(()))).0.phase is Polling
            }
            &&& passed(attempt.started_at, now) >= attempt.timeout_ms ==> {
                match attempt.last_disconnect_status {
                    Some(status) => {
                        let (dropped, drop) = after.next(words);
                        let (over, ended) = dropped.next(StationReply::Abandoned);
                        &&& asks is ReadFailureWords
                        &&& drop is Abandon
                        &&& over.phase is Over
                        &&& ended is Connected && ended->Connected_0 is Err
                        &&& ended->Connected_0->Err_0.class is Connect
                        &&& ended->Connected_0->Err_0.code == status as u32
                    },
                    None => {
                        let (dropped, drop) = after.next(evidence);
                        let (over, ended) = dropped.next(StationReply::Abandoned);
                        &&& asks is ReadTimeoutEvidence
                        &&& drop is Abandon
                        &&& over.phase is Over
                        &&& ended is Connected && ended->Connected_0 is Err
                        &&& ended->Connected_0->Err_0.class is BackendTimeout
                        &&& stalled_at(ended->Connected_0->Err_0.stage, latest, eapol_received)
                    },
                }
            }
        }),
{
}

/// `stage` is where an attempt that ran out of time stood: in the key exchange
/// when the association was accepted and no EAPOL frame came, in the recovery of
/// protected management frames after the temporary rejection, otherwise in the
/// connection as a whole.
pub open spec fn stalled_at(
    stage: DiagnosticStage,
    latest: Option<AssociationAttempt>,
    eapol_received: u32,
) -> bool {
    &&& stage is Eapol <==> latest is Some && latest->0.status == 0 && eapol_received == 0
    &&& stage is Pmf <==> latest is Some && latest->0.status == 30
    &&& stage is Eapol || stage is Pmf || stage is Connect
}

/// The timeout of an attempt is measured from the reading of the clock that
/// follows its submission: nothing else moves its start.
pub proof fn law_connection_is_timed_from_its_submission(
    attempt: ConnectAttempt,
    reply: StationReply,
)
    requires
        attempt.awaits(reply),
    ensures
        attempt.phase is Starting ==> attempt.next(reply).0.started_at == reply->Clock_0,
        !(attempt.phase is Starting) ==> attempt.next(reply).0.started_at == attempt.started_at,
        attempt.next(reply).0.timeout_ms == attempt.timeout_ms,
        attempt.next(reply).0.phase is Starting ==> attempt.phase is Submitting,
        attempt.phase is Polling && accepts(reply) ==> attempt.next(reply).1 is NextEvent,
        attempt.phase is Draining && reply == StationReply::Event(Ok(None)) ==> attempt.next(
            reply,
        ).1 is ReadClock && attempt.next(reply).0.phase is CheckingDeadline,
{
}

/// A vendor failure ends a connection or a disconnection at once, with that
/// failure and no other.
pub proof fn law_vendor_failure_ends_the_operation(
    connect: ConnectAttempt,
    disconnect: DisconnectAttempt,
    failure: NativeSupplicantError,
    runtime: RuntimeError,
)
    ensures
        forall|reply: StationReply|
            #![trigger connect.next(reply)]
            (reply == StationReply::Submitted(Err(failure)) || reply == StationReply::Event(
                Err(failure),
            )) && connect.awaits(reply) ==> connect.next(reply).0.phase is Over && connect.next(
                reply,
            ).1 == StationAction::Connected(Err(super::native_failure(failure))),
        forall|reply: StationReply|
            #![trigger disconnect.next(reply)]
            (reply == StationReply::Submitted(Err(failure)) || reply == StationReply::Event(
                Err(failure),
            )) && disconnect.awaits(reply) ==> disconnect.next(reply).0.phase is Over
                && disconnect.next(reply).1 == StationAction::Disconnected(
                Err(super::native_failure(failure)),
            ),
        connect.phase is Sleeping ==> connect.next(StationReply::Slept(Err(runtime))).1
            == StationAction::Connected(Err(super::wait_failure(runtime))),
        disconnect.phase is Sleeping ==> disconnect.next(StationReply::Slept(Err(runtime))).1
            == StationAction::Disconnected(Err(super::wait_failure(runtime))),
{
}

/// A disconnection after one more reply, with what it asks for then.
#[verifier::opaque]
pub open spec fn disconnect_step(attempt: DisconnectAttempt, reply: StationReply) -> (
    DisconnectAttempt,
    StationAction,
) {
    attempt.next(reply)
}

/// A disconnection after a sequence of replies, with what it asks for then.
pub open spec fn disconnect_run(
    begun: (DisconnectAttempt, StationAction),
    replies: Seq<StationReply>,
) -> (DisconnectAttempt, StationAction)
    decreases replies.len(),
{
    if replies.len() == 0 {
        begun
    } else {
        disconnect_step(disconnect_run(begun, replies.drop_last()).0, replies.last())
    }
}

/// Every reply answers what the disconnection asked for before it.
pub open spec fn disconnect_answered(
    begun: (DisconnectAttempt, StationAction),
    replies: Seq<StationReply>,
) -> bool {
    forall|i: int|
        0 <= i < replies.len() ==> station_answers(
            disconnect_run(begun, replies.take(i)).1,
            #[trigger] replies[i],
        )
}

spec fn disconnect_asked(phase: DisconnectPhase, action: StationAction) -> bool {
    match phase {
        DisconnectPhase::Submitting => action is Disconnect,
        DisconnectPhase::Starting => action is ReadClock,
        DisconnectPhase::Polling => action == StationAction::Poll(32),
        DisconnectPhase::Draining => action is NextEvent,
        DisconnectPhase::CheckingDeadline => action is ReadClock,
        DisconnectPhase::Sleeping => action == StationAction::Sleep(1),
        DisconnectPhase::Over => action is Disconnected,
    }
}

proof fn lemma_disconnect_step(
    attempt: DisconnectAttempt,
    asks: StationAction,
    reply: StationReply,
)
    requires
        disconnect_asked(attempt.phase, asks),
        station_answers(asks, reply),
    ensures
        ({
            let (after, next) = disconnect_step(attempt, reply);
            &&& disconnect_asked(after.phase, next)
            &&& !(after.phase is Submitting)
            &&& after.phase is Starting <==> attempt.phase is Submitting && accepts(reply)
            &&& attempt.phase is Submitting && !accepts(reply) ==> next is Disconnected
                && next->Disconnected_0 is Err
            &&& attempt.phase is Starting ==> reply is Clock && after.started_at == reply->Clock_0
                && after.phase is Polling
            &&& !(attempt.phase is Starting) ==> after.started_at == attempt.started_at
            &&& after.timeout_ms == attempt.timeout_ms
            &&& !(attempt.phase is Over)
        }),
{
    reveal(disconnect_step);
}

proof fn lemma_disconnect_run(
    begun: (DisconnectAttempt, StationAction),
    replies: Seq<StationReply>,
)
    requires
        begun.0.phase is Submitting,
        begun.1 is Disconnect,
        disconnect_answered(begun, replies),
    ensures
        ({
            let (attempt, asks) = disconnect_run(begun, replies);
            &&& disconnect_asked(attempt.phase, asks)
            &&& attempt.phase is Submitting <==> replies.len() == 0
            &&& attempt.phase is Starting <==> replies.len() == 1 && accepts(replies[0])
            &&& replies.len() >= 2 ==> accepts(replies[0]) && replies[1] is Clock
                && attempt.started_at == replies[1]->Clock_0
            &&& replies.len() == 1 && !accepts(replies[0]) ==> asks is Disconnected
                && asks->Disconnected_0 is Err
            &&& attempt.timeout_ms == begun.0.timeout_ms
            &&& replies.len() == 2 ==> attempt.phase is Polling
        }),
    decreases replies.len(),
{
    if replies.len() > 0 {
        let earlier = replies.drop_last();
        assert forall|i: int| 0 <= i < earlier.len() implies station_answers(
            disconnect_run(begun, earlier.take(i)).1,
            #[trigger] earlier[i],
        ) by {
            assert(earlier.take(i) == replies.take(i));
            assert(earlier[i] == replies[i]);
        }
        lemma_disconnect_run(begun, earlier);
        assert(replies.take(replies.len() - 1) == earlier);
        assert(station_answers(
            disconnect_run(begun, replies.take(replies.len() - 1)).1,
            replies[replies.len() - 1],
        ));
        let (attempt, asks) = disconnect_run(begun, earlier);
        lemma_disconnect_step(attempt, asks, replies.last());
    }
}

/// However the vendor side answers, a disconnection is submitted first and once,
/// and goes on only once the submission was accepted; its time runs from the
/// reading of the clock after it.
pub proof fn law_disconnection_is_submitted_once(
    timeout_ms: u32,
    begun: (DisconnectAttempt, StationAction),
    replies: Seq<StationReply>,
    i: int,
)
    requires
        call_ensures(DisconnectAttempt::begin, (true, timeout_ms), begun),
        disconnect_answered(begun, replies),
        0 <= i <= replies.len(),
    ensures
        ({
            let (attempt, asks) = disconnect_run(begun, replies.take(i));
            &&& asks is Disconnect <==> i == 0
            &&& !(asks is Configure) && !(asks is Connect)
            &&& i >= 1 && !(asks is Disconnected && asks->Disconnected_0 is Err) ==> accepts(
                replies[0],
            )
            &&& i == 1 && !accepts(replies[0]) ==> asks is Disconnected && asks->Disconnected_0
                is Err
            &&& i == 1 && accepts(replies[0]) ==> asks is ReadClock
            &&& i == 2 ==> asks == StationAction::Poll(32)
            &&& i >= 2 ==> replies[1] is Clock && attempt.started_at == replies[1]->Clock_0
                && attempt.timeout_ms == timeout_ms
        }),
{
    let seen = replies.take(i);
    assert forall|j: int| 0 <= j < seen.len() implies station_answers(
        disconnect_run(begun, seen.take(j)).1,
        #[trigger] seen[j],
    ) by {
        assert(seen.take(j) == replies.take(j));
        assert(seen[j] == replies[j]);
    }
    lemma_disconnect_run(begun, seen);
}

/// The disconnect event completes a disconnection and a terminal failure fails it
/// with its own status; every other event only lets it take the next one.
pub proof fn law_events_decide_a_disconnection(attempt: DisconnectAttempt, event: NativeEvent)
    requires
        attempt.phase is Draining,
    ensures
        ({
            let (after, asks) = attempt.next(StationReply::Event(Ok(Some(event))));
            &&& event.kind == 4 ==> asks == StationAction::Disconnected(Ok(()))
            &&& event.kind == 5 ==> {
                &&& asks is Disconnected && asks->Disconnected_0 is Err
                &&& asks->Disconnected_0->Err_0.class is Connect
                &&& asks->Disconnected_0->Err_0.code == event.status as u32
                &&& asks->Disconnected_0->Err_0.stage is Disconnect
                &&& asks->Disconnected_0->Err_0.trace@.len() == 1
                &&& asks->Disconnected_0->Err_0.trace@[0].kind is DisconnectReason
                &&& asks->Disconnected_0->Err_0.trace@[0].value == event.status as u32
            }
            &&& event.kind != 4 && event.kind != 5 ==> asks is NextEvent && after.phase is Draining
            &&& after.started_at == attempt.started_at && after.timeout_ms == attempt.timeout_ms
        }),
{
}

/// A disconnection without an event polls again after one millisecond until its
/// timeout has passed, and then fails as timed out.
pub proof fn law_disconnection_ends_at_its_timeout(attempt: DisconnectAttempt, now: u64)
    requires
        attempt.phase is CheckingDeadline,
    ensures
        ({
            let (after, asks) = attempt.next(StationReply::Clock(now));
            &&& passed(attempt.started_at, now) < attempt.timeout_ms ==> {
                &&& asks == StationAction::Sleep(1)
                &&& after.next(StationReply::Slept(Ok(()))).1 == StationAction::Poll(32)
            }
            &&& passed(attempt.started_at, now) >= attempt.timeout_ms ==> {
                &&& asks is Disconnected && asks->Disconnected_0 is Err
                &&& asks->Disconnected_0->Err_0.class is BackendTimeout
                &&& asks->Disconnected_0->Err_0.code == 2
                &&& asks->Disconnected_0->Err_0.stage is Disconnect
            }
        }),
{
}

/// A disconnection takes events after each accepted poll, and looks at the time
/// only when none is left. It succeeds on no reply but an event.
pub proof fn law_disconnection_takes_events_first(attempt: DisconnectAttempt, reply: StationReply)
    requires
        attempt.awaits(reply),
    ensures
        attempt.phase is Polling && accepts(reply) ==> attempt.next(reply).1 is NextEvent,
        attempt.phase is Draining && reply == StationReply::Event(Ok(None)) ==> attempt.next(
            reply,
        ).1 is ReadClock && attempt.next(reply).0.phase is CheckingDeadline,
        attempt.next(reply).1 is Disconnected && attempt.next(reply).1->Disconnected_0 is Ok
            ==> reply is Event && reply->Event_0 is Ok && reply->Event_0->Ok_0 is Some
            && reply->Event_0->Ok_0->0.kind == 4,
{
}

/// A scan opens the supplicant's capture, scans, finishes the capture, and then
/// reports as many results as the driver found. A driver that fails or is not
/// there has the capture cancelled, and its own failure is what is reported; so
/// is that of a capture which cannot be opened or finished.
pub proof fn law_scan_reports_what_the_driver_found(
    begun: (ScanAttempt, ScanAction),
    count: usize,
    driver: Ws63Error,
    capture: NativeSupplicantError,
)
    requires
        call_ensures(ScanAttempt::begin, (true,), begun),
    ensures
        ({
            let opened = begun.0.next(ScanReply::Captured(Ok(())));
            let scanned = opened.0.next(ScanReply::Scanned(Some(Ok(count))));
            let failed = opened.0.next(ScanReply::Scanned(Some(Err(driver))));
            let absent = opened.0.next(ScanReply::Scanned(None));
            &&& begun.1 is OpenCapture
            &&& opened.1 is Scan
            &&& scanned.1 is FinishCapture
            &&& scanned.0.next(ScanReply::Captured(Ok(()))).1 == ScanAction::Done(Ok(count))
            &&& scanned.0.next(ScanReply::Captured(Err(capture))).1 == ScanAction::Done(
                Err(super::native_failure(capture)),
            )
            &&& failed.1 is CancelCapture
            &&& failed.0.next(ScanReply::Cancelled).1 == ScanAction::Done(
                Err(super::driver_failure(driver)),
            )
            &&& absent.1 is CancelCapture
            &&& absent.0.next(ScanReply::Cancelled).1 is Done
            &&& absent.0.next(ScanReply::Cancelled).1->Done_0 is Err
            &&& absent.0.next(ScanReply::Cancelled).1->Done_0->Err_0.code == 0x1000_0003
            &&& begun.0.next(ScanReply::Captured(Err(capture))).1 == ScanAction::Done(
                Err(super::native_failure(capture)),
            )
        }),
{
}

/// The number of one-shot tokens that are there.
pub open spec fn tokens_left(tokens: BootstrapTokens) -> nat {
    let one = |there: bool|
        if there {
            1nat
        } else {
            0
        };
    one(tokens.efuse) + one(tokens.trng) + one(tokens.km) + one(tokens.spacc) + one(tokens.pke)
        + one(tokens.crypto_storage)
}

/// The tokens are complete exactly when none is missing, and then all of them are
/// taken. Otherwise the code names a token that is not there, while every one
/// before it in the order of consumption is.
pub proof fn law_missing_token_is_named(tokens: BootstrapTokens)
    ensures
        tokens.missing() is None <==> tokens_left(tokens) == 6,
        tokens.missing() is None ==> tokens_left(tokens.taken()) == 0,
        tokens.missing() matches Some(code) ==> {
            ||| code == 0x1000_0001 && !tokens.efuse && tokens.taken() == tokens
            ||| code == 0x1000_0004 && !tokens.trng && tokens.efuse && tokens_left(tokens.taken())
                == tokens_left(tokens) - 1
            ||| code == 0x1000_0005 && !tokens.km && tokens.efuse && tokens.trng && tokens_left(
                tokens.taken(),
            ) == tokens_left(tokens) - 2
            ||| code == 0x1000_0006 && !tokens.spacc && tokens.efuse && tokens.trng && tokens.km
                && tokens_left(tokens.taken()) == tokens_left(tokens) - 3
            ||| code == 0x1000_0007 && !tokens.pke && tokens.efuse && tokens.trng && tokens.km
                && tokens.spacc && tokens_left(tokens.taken()) == tokens_left(tokens) - 4
            ||| code == 0x1000_0008 && !tokens.crypto_storage && tokens.efuse && tokens.trng
                && tokens.km && tokens.spacc && tokens.pke && tokens_left(tokens.taken()) == 0
        },
{
}

/// A bootstrap after a sequence of replies, with what it asks for then.
pub open spec fn bootstrap_run(
    begun: (Bootstrap, BootstrapAction),
    replies: Seq<BootstrapReply>,
) -> (Bootstrap, BootstrapAction)
    decreases replies.len(),
{
    if replies.len() == 0 {
        begun
    } else {
        bootstrap_run(begun, replies.drop_last()).0.next(replies.last())
    }
}

/// Every reply answers what the bootstrap asked for before it.
pub open spec fn bootstrap_answered(
    begun: (Bootstrap, BootstrapAction),
    replies: Seq<BootstrapReply>,
) -> bool {
    forall|i: int|
        0 <= i < replies.len() ==> match #[trigger] replies[i] {
            BootstrapReply::Crypto(_) => bootstrap_run(begun, replies.take(i)).1 is InstallCrypto
                || bootstrap_run(begun, replies.take(i)).1 is SelfTest,
            BootstrapReply::Driver(_) => bootstrap_run(begun, replies.take(i)).1 is StartDriver,
            BootstrapReply::Supplicant(_) => bootstrap_run(
                begun,
                replies.take(i),
            ).1 is CreateSupplicant,
        }
}

/// The vendor side did what it was asked to.
pub open spec fn succeeded(reply: BootstrapReply) -> bool {
    match reply {
        BootstrapReply::Crypto(result) => result is Ok,
        BootstrapReply::Driver(result) => result is Ok,
        BootstrapReply::Supplicant(result) => result is Ok,
    }
}

/// What a bootstrap with `tests` self-tests asks for after `answered` successes.
pub open spec fn bootstrap_order(tests: int, answered: int) -> BootstrapAction {
    if answered == 0 {
        BootstrapAction::InstallCrypto
    } else if answered <= tests {
        BootstrapAction::SelfTest((tests + 1 - answered) as u8)
    } else if answered == tests + 1 {
        BootstrapAction::StartDriver
    } else if answered == tests + 2 {
        BootstrapAction::CreateSupplicant
    } else {
        BootstrapAction::Done(Ok(()))
    }
}

spec fn bootstrap_asked(step: (Bootstrap, BootstrapAction)) -> bool {
    match step.0.phase {
        BootstrapPhase::InstallingCrypto => step.1 is InstallCrypto,
        BootstrapPhase::Testing(left) => left > 0 && step.1 == BootstrapAction::SelfTest(left),
        BootstrapPhase::StartingDriver => step.1 is StartDriver,
        BootstrapPhase::CreatingSupplicant => step.1 is CreateSupplicant,
        BootstrapPhase::Ready => step.1 == BootstrapAction::Done(Ok(())),
        BootstrapPhase::Failed => step.1 is Done && step.1->Done_0 is Err,
        BootstrapPhase::Idle => false,
    }
}

proof fn lemma_bootstrap_step(
    step: (Bootstrap, BootstrapAction),
    reply: BootstrapReply,
    tests: int,
    answered: int,
)
    requires
        bootstrap_asked(step),
        step.0.awaits(reply),
        step.0.self_tests == tests,
        0 <= answered <= tests + 3,
        step.1 == bootstrap_order(tests, answered),
    ensures
        bootstrap_asked(step.0.next(reply)),
        step.0.next(reply).0.self_tests == tests,
        step.0.next(reply).0.tokens == step.0.tokens,
        succeeded(reply) ==> answered < tests + 3 && step.0.next(reply).1 == bootstrap_order(
            tests,
            answered + 1,
        ),
        !succeeded(reply) ==> step.0.next(reply).0.phase is Failed,
{
}

#[verifier::spinoff_prover]
#[verifier::rlimit(60)]
proof fn lemma_bootstrap_run(begun: (Bootstrap, BootstrapAction), replies: Seq<BootstrapReply>)
    requires
        begun.0.phase is InstallingCrypto,
        begun.1 is InstallCrypto,
        bootstrap_answered(begun, replies),
    ensures
        ({
            let step = bootstrap_run(begun, replies);
            let tests = begun.0.self_tests as int;
            &&& bootstrap_asked(step)
            &&& step.0.self_tests == begun.0.self_tests
            &&& step.0.tokens == begun.0.tokens
            &&& forall|i: int| 0 <= i < replies.len() - 1 ==> succeeded(#[trigger] replies[i])
            &&& replies.len() == 0 || succeeded(replies.last()) ==> replies.len() <= tests + 3
                && step.1 == bootstrap_order(tests, replies.len() as int)
            &&& replies.len() > 0 && !succeeded(replies.last()) ==> step.0.phase is Failed
        }),
    decreases replies.len(),
{
    if replies.len() > 0 {
        let earlier = replies.drop_last();
        assert forall|i: int| 0 <= i < earlier.len() implies (match #[trigger] earlier[i] {
            BootstrapReply::Crypto(_) => bootstrap_run(begun, earlier.take(i)).1 is InstallCrypto
                || bootstrap_run(begun, earlier.take(i)).1 is SelfTest,
            BootstrapReply::Driver(_) => bootstrap_run(begun, earlier.take(i)).1 is StartDriver,
            BootstrapReply::Supplicant(_) => bootstrap_run(
                begun,
                earlier.take(i),
            ).1 is CreateSupplicant,
        }) by {
            assert(earlier.take(i) == replies.take(i));
            assert(earlier[i] == replies[i]);
        }
        lemma_bootstrap_run(begun, earlier);
        assert(replies.take(replies.len() - 1) == earlier);
        let last = replies[replies.len() - 1];
        assert(last == replies.last());
        let step = bootstrap_run(begun, earlier);
        assert(step.0.awaits(last));
        assert(earlier.len() == 0 || succeeded(earlier.last()));
        lemma_bootstrap_step(step, last, begun.0.self_tests as int, earlier.len() as int);
        assert forall|i: int| 0 <= i < replies.len() - 1 implies succeeded(#[trigger] replies[i]) by {
            assert(earlier[i] == replies[i]);
            if i == earlier.len() - 1 {
                assert(earlier.last() == earlier[i]);
            }
        }
    }
}

/// A bootstrap installs the crypto service, runs every self-test of the build,
/// counted down, starts the driver and creates the supplicant, in this order and
/// each once. It is ready exactly when all of them have succeeded; the first that
/// fails ends it.
pub proof fn law_bootstrap_goes_through_every_stage(
    begun: (Bootstrap, BootstrapAction),
    replies: Seq<BootstrapReply>,
)
    requires
        begun.0.phase is InstallingCrypto,
        begun.1 is InstallCrypto,
        bootstrap_answered(begun, replies),
    ensures
        ({
            let (bootstrap, asks) = bootstrap_run(begun, replies);
            let tests = begun.0.self_tests as int;
            &&& replies.len() == 0 || succeeded(replies.last()) ==> asks == bootstrap_order(
                tests,
                replies.len() as int,
            )
            &&& replies.len() > 0 && !succeeded(replies.last()) ==> asks is Done && asks->Done_0
                is Err
            &&& asks == BootstrapAction::Done(Ok(())) <==> replies.len() == tests + 3
                && succeeded(replies.last())
            &&& bootstrap.phase is Ready <==> asks == BootstrapAction::Done(Ok(()))
        }),
{
    lemma_bootstrap_run(begun, replies);
}

/// A failed bootstrap reports the failure of the stage that failed: the code of
/// the crypto service, or the failure of the driver or the supplicant.
pub proof fn law_bootstrap_reports_its_failure(
    bootstrap: Bootstrap,
    code: u32,
    driver: Ws63Error,
    supplicant: NativeSupplicantError,
)
    ensures
        ({
            let crypto = bootstrap.next(BootstrapReply::Crypto(Err(code)));
            let started = bootstrap.next(BootstrapReply::Driver(Err(driver)));
            let created = bootstrap.next(BootstrapReply::Supplicant(Err(supplicant)));
            &&& crypto.1 is Done && crypto.1->Done_0 is Err
            &&& crypto.1->Done_0->Err_0.code == code
            &&& crypto.1->Done_0->Err_0.class is Initialize
            &&& crypto.1->Done_0->Err_0.stage is Initialize
            &&& started.1 == BootstrapAction::Done(Err(super::driver_failure(driver)))
            &&& created.1 == BootstrapAction::Done(Err(super::native_failure(supplicant)))
            &&& crypto.0.phase is Failed && started.0.phase is Failed && created.0.phase is Failed
        }),
{
}

} // verus!
