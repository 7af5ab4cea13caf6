use core::sync::atomic::{AtomicUsize, Ordering};
use core::task::{Context, Poll, Waker};
use std::sync::Arc;
use std::task::Wake;

use hisi_rf_ws63::incremental_wait::{
    incremental_wait_diagnostics, poll_timer, TimerStep, WaitSignals,
    Ws63IncrementalWaitDiagnostics,
};
use hisi_rf_ws63::radio::WaitSet;

struct WakeCounter(AtomicUsize);

impl Wake for WakeCounter {
    fn wake(self: Arc<Self>) {
        self.0.fetch_add(1, Ordering::Relaxed);
    }

    fn wake_by_ref(self: &Arc<Self>) {
        self.0.fetch_add(1, Ordering::Relaxed);
    }
}

struct Platform {
    signals: WaitSignals,
    waker: Option<Waker>,
}

impl Platform {
    fn new() -> Self {
        Self {
            signals: WaitSignals::new(),
            waker: None,
        }
    }

    fn signal(&mut self, source: WaitSet) {
        self.signals.signal(source);
        if let Some(waker) = self.waker.take() {
            waker.wake();
        }
    }

    fn poll_ready(
        &mut self,
        cx: &mut Context<'_>,
        sources: WaitSet,
        deadline_us: Option<u64>,
    ) -> Poll<WaitSet> {
        self.waker = Some(cx.waker().clone());
        let timer_ready = sources.timer
            && matches!(
                poll_timer(None, deadline_us, 1),
                TimerStep::Clear { ready: true }
            );
        let ready = self.signals.begin_poll(sources, false, timer_ready);
        match self.signals.finish_poll(sources, ready) {
            Some(ready) => Poll::Ready(ready),
            None => Poll::Pending,
        }
    }
}

fn backend() -> WaitSet {
    WaitSet {
        backend: true,
        ..WaitSet::empty()
    }
}

fn timer() -> WaitSet {
    WaitSet {
        timer: true,
        ..WaitSet::empty()
    }
}

#[test]
fn backend_signal_is_bounded_to_subscribed_source() {
    let mut platform = Platform::new();
    platform.signal(backend());
    let counter = Arc::new(WakeCounter(AtomicUsize::new(0)));
    let waker = Waker::from(counter.clone());
    let mut cx = Context::from_waker(&waker);

    assert!(platform.poll_ready(&mut cx, timer(), None).is_pending());
    assert_eq!(
        platform.poll_ready(&mut cx, backend(), None),
        Poll::Ready(backend())
    );
    assert_eq!(
        incremental_wait_diagnostics(&platform.signals),
        Ws63IncrementalWaitDiagnostics {
            backend_signals: 1,
            l2_rx_signals: 0,
            waker_notifications: 1,
            poll_calls: 2,
            pending_polls: 1,
            ready_polls: 1,
            timer_ready_polls: 0,
        }
    );
}

#[test]
fn registered_waiter_is_woken_by_callback_edge() {
    let mut platform = Platform::new();
    let counter = Arc::new(WakeCounter(AtomicUsize::new(0)));
    let waker = Waker::from(counter.clone());
    let mut cx = Context::from_waker(&waker);

    assert!(platform.poll_ready(&mut cx, backend(), None).is_pending());
    platform.signal(backend());
    assert_eq!(counter.0.load(Ordering::Relaxed), 1);
    assert_eq!(
        platform.poll_ready(&mut cx, backend(), None),
        Poll::Ready(backend())
    );
}

#[test]
fn coalesced_backend_edges_remain_independently_ready() {
    let mut platform = Platform::new();
    let counter = Arc::new(WakeCounter(AtomicUsize::new(0)));
    let waker = Waker::from(counter.clone());
    let mut cx = Context::from_waker(&waker);

    platform.signal(backend());
    platform.signal(backend());

    for _ in 0..2 {
        assert_eq!(
            platform.poll_ready(&mut cx, backend(), None),
            Poll::Ready(backend())
        );
    }
    assert!(platform.poll_ready(&mut cx, backend(), None).is_pending());
    assert_eq!(counter.0.load(Ordering::Relaxed), 0);
}

#[test]
fn elapsed_deadline_is_reported_as_timer_readiness() {
    let mut platform = Platform::new();
    let counter = Arc::new(WakeCounter(AtomicUsize::new(0)));
    let waker = Waker::from(counter);
    let mut cx = Context::from_waker(&waker);

    assert_eq!(
        platform.poll_ready(&mut cx, timer(), Some(0)),
        Poll::Ready(timer())
    );
    assert_eq!(
        incremental_wait_diagnostics(&platform.signals).timer_ready_polls,
        1
    );
}

#[test]
fn a_timer_is_set_once_for_one_deadline() {
    assert_eq!(
        poll_timer(None, Some(30), 10),
        TimerStep::Install {
            deadline_us: 30,
            after_us: 20
        }
    );
    assert_eq!(poll_timer(Some(30), Some(30), 10), TimerStep::Keep);
    assert_eq!(
        poll_timer(Some(30), None, 10),
        TimerStep::Clear { ready: false }
    );
    assert_eq!(
        poll_timer(Some(30), Some(30), 30),
        TimerStep::Clear { ready: true }
    );
}

#[test]
fn frames_that_wait_make_the_receive_source_ready() {
    let mut signals = WaitSignals::new();
    let sources = WaitSet {
        l2_rx: true,
        ..WaitSet::empty()
    };
    assert_eq!(signals.begin_poll(sources, true, false), sources);
    signals.signal_l2_rx();
    signals.signal_backend();
    assert_eq!(signals.take_ready(sources), sources);
    assert_eq!(signals.backend_pending, 1);
    assert_eq!(signals.l2_rx_pending, 0);
}

#[test]
fn every_poll_is_counted_as_pending_or_as_ready() {
    let mut platform = Platform::new();
    let counter = Arc::new(WakeCounter(AtomicUsize::new(0)));
    let waker = Waker::from(counter);
    let mut cx = Context::from_waker(&waker);
    for round in 0..5u64 {
        if round % 2 == 0 {
            platform.signal(backend());
        }
        let _ = platform.poll_ready(&mut cx, backend(), None);
        let _ = platform.poll_ready(&mut cx, timer(), Some(0));
    }
    let d = incremental_wait_diagnostics(&platform.signals);
    assert_eq!((d.poll_calls, d.pending_polls, d.ready_polls), (10, 2, 8));
    assert_eq!(d.timer_ready_polls, 5);
    assert_eq!(incremental_wait_diagnostics(&platform.signals), d);
}
