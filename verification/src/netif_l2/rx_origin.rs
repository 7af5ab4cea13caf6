//! Census of the origin of received buffers, not packet admission.
//!
//! A native buffer is bound to a descriptor before the descriptor is published.
//! That binding is observed without reading either pointer. The callback may
//! deliver a different or copied buffer: missing coverage is counted, never
//! guessed or repaired from the current epoch.


use crate::netif_l2::AllocationEpoch;
use vstd::prelude::*;

verus! {

/// The native callback that frees a buffer.
pub const NETBUF_FREE_CALLBACK_ID: u32 = 249;

/// The native callback that is consulted before it.
pub const PBUF_FREE_CALLBACK_ID: u32 = 250;

/// Native frees do not pass through the observer.
pub const FREE_ROUTE_INVALID: u32 = 0x1000_0012;

/// The observer has no native free to pass a buffer on to.
pub const FREE_ROUTE_UNPUBLISHED: u32 = 0x1000_0013;

/// What becomes of a native callback registration.
#[derive(Clone, Copy, Debug, PartialEq, Eq, Structural)]
pub enum FreeRegistration {
    /// It is passed on as it is.
    Unchanged,
    /// The callback is kept, and the observer is registered in its place.
    Observe,
    /// No callback is kept, and none is registered.
    Withdraw,
}

/// Observation only. A matched address is no proof of a native lifetime.
#[derive(Clone, Copy, Debug, PartialEq, Eq, Structural)]
pub struct RxOriginDiagnostics {
    pub bindings: u64,
    pub failed_bindings: u64,
    pub replaced: u64,
    /// Observations retired before a native free attempt, not a free receipt.
    pub retired_on_free_attempt: u64,
    pub free_calls: u64,
    pub capacity_failures: u64,
    pub matched: u64,
    pub unmatched: u64,
    pub closed_origin: u64,
    pub current_origin: u64,
    pub stale_origin: u64,
    pub occupied: usize,
    pub peak: usize,
    pub exhausted: bool,
}

/// The observed buffers, in columns. A zero buffer marks an unused row; `open`
/// tells a closed origin from every revision.
pub struct Tracker<const N: usize> {
    pub descriptors: [usize; N],
    pub netbufs: [usize; N],
    pub revisions: [u64; N],
    pub open: [bool; N],
    pub diagnostic: RxOriginDiagnostics,
}

/// One observed buffer.
pub struct Binding {
    pub descriptor: usize,
    pub netbuf: usize,
    pub origin: AllocationEpoch,
}

/// What a tracker holds.
#[verifier::ext_equal]
pub struct Census {
    pub rows: Seq<Option<Binding>>,
    pub diagnostic: RxOriginDiagnostics,
}

/// A counter after `n` more events; at its end it stays.
pub open spec fn advanced(counter: u64, n: nat) -> u64 {
    if counter + n <= u64::MAX {
        (counter + n) as u64
    } else {
        u64::MAX
    }
}

/// Count one event; a counter at its end stays and marks the counts exhausted.
pub fn increment(value: &mut u64, exhausted: &mut bool)
    ensures
        *final(value) == advanced(*old(value), 1),
        *final(exhausted) == (*old(exhausted) || *old(value) == u64::MAX),
{
    match value.checked_add(1) {
        Some(next) => {
            *value = next;
        },
        None => {
            *exhausted = true;
        },
    }
}

/// Whether every native free passes through the observer: it is installed, and
/// no other free callback is consulted before it.
pub fn free_route_valid(current: usize, expected: usize, pbuf: usize) -> (valid: bool)
    ensures
        valid == (expected != 0 && current == expected && pbuf == 0),
{
    expected != 0 && current == expected && pbuf == 0
}

/// Whether every native free is observed and can be passed on.
pub fn validate_free_route(current: usize, expected: usize, pbuf: usize, published: bool) -> (result:
    Result<(), u32>)
    ensures
        result == (if expected != 0 && current == expected && pbuf == 0 && published {
            Ok::<(), u32>(())
        } else {
            Err(FREE_ROUTE_INVALID)
        }),
{
    if free_route_valid(current, expected, pbuf) && published {
        Ok(())
    } else {
        Err(FREE_ROUTE_INVALID)
    }
}

/// Route the registration of `callback` under `id`: only a native free of another
/// owner is put behind the observer.
pub fn route_registration(id: u32, callback: usize, observer: usize) -> (route: FreeRegistration)
    ensures
        route == (if id != NETBUF_FREE_CALLBACK_ID || callback == observer {
            FreeRegistration::Unchanged
        } else if callback == 0 {
            FreeRegistration::Withdraw
        } else {
            FreeRegistration::Observe
        }),
{
    if id != NETBUF_FREE_CALLBACK_ID || callback == observer {
        FreeRegistration::Unchanged
    } else if callback == 0 {
        FreeRegistration::Withdraw
    } else {
        FreeRegistration::Observe
    }
}

/// The row that a column entry stands for.
pub open spec fn row(descriptor: usize, netbuf: usize, revision: u64, open: bool) -> Option<
    Binding,
> {
    if netbuf == 0 {
        None
    } else {
        Some(
            Binding {
                descriptor,
                netbuf,
                origin: AllocationEpoch {
                    revision: if open {
                        Some(revision)
                    } else {
                        None
                    },
                },
            },
        )
    }
}

impl<const N: usize> View for Tracker<N> {
    type V = Census;

    open spec fn view(&self) -> Census {
        Census {
            rows: Seq::new(
                N as nat,
                |i: int| row(self.descriptors@[i], self.netbufs@[i], self.revisions@[i], self.open@[i]),
            ),
            diagnostic: self.diagnostic,
        }
    }
}

/// Row `i` observes this buffer or this descriptor.
pub open spec fn superseded(entry: Option<Binding>, descriptor: usize, netbuf: usize) -> bool {
    entry is Some && (entry->0.netbuf == netbuf || entry->0.descriptor == descriptor)
}

/// The rows without those that a new binding supersedes.
pub open spec fn without(rows: Seq<Option<Binding>>, descriptor: usize, netbuf: usize) -> Seq<
    Option<Binding>,
> {
    Seq::new(
        rows.len(),
        |i: int|
            if superseded(rows[i], descriptor, netbuf) {
                None
            } else {
                rows[i]
            },
    )
}

impl Census {
    /// Until a counter is exhausted, every binding is matched, replaced, retired
    /// or still observed, and every match has one origin. A buffer is observed at
    /// most once, and so is a descriptor.
    pub open spec fn wf(self) -> bool {
        let d = self.diagnostic;
        &&& d.occupied == crate::netif_l2::slots::occupied(self.rows)
        &&& d.occupied <= d.peak <= self.rows.len()
        &&& !d.exhausted ==> d.bindings == d.matched + d.replaced + d.retired_on_free_attempt
            + d.occupied
        &&& !d.exhausted ==> d.matched == d.closed_origin + d.current_origin + d.stale_origin
        &&& forall|i: int|
            0 <= i < self.rows.len() && (#[trigger] self.rows[i]) is Some ==> self.rows[i]->0.netbuf
                != 0
        &&& forall|i: int, j: int|
            0 <= i < j < self.rows.len() && (#[trigger] self.rows[i]) is Some && (
            #[trigger] self.rows[j]) is Some ==> self.rows[i]->0.netbuf != self.rows[j]->0.netbuf
                && self.rows[i]->0.descriptor != self.rows[j]->0.descriptor
    }

    /// The row that observes `netbuf`.
    pub open spec fn row_of(self, netbuf: usize) -> Option<int> {
        if exists|i: int|
            0 <= i < self.rows.len() && (#[trigger] self.rows[i]) is Some
                && self.rows[i]->0.netbuf == netbuf {
            Some(
                choose|i: int|
                    0 <= i < self.rows.len() && (#[trigger] self.rows[i]) is Some
                        && self.rows[i]->0.netbuf == netbuf,
            )
        } else {
            None
        }
    }

    /// The rows of either identity are dropped and counted as replaced.
    pub open spec fn replaced(self, descriptor: usize, netbuf: usize) -> Census {
        let rows = without(self.rows, descriptor, netbuf);
        let n = (crate::netif_l2::slots::occupied(self.rows) - crate::netif_l2::slots::occupied(rows)) as nat;
        Census {
            rows,
            diagnostic: RxOriginDiagnostics {
                occupied: crate::netif_l2::slots::occupied(rows) as usize,
                replaced: advanced(self.diagnostic.replaced, n),
                exhausted: self.diagnostic.exhausted || self.diagnostic.replaced + n > u64::MAX,
                ..self.diagnostic
            },
        }
    }

    /// `next` is this census after a binding of `netbuf` to `descriptor`, made in
    /// `origin` and reported with `status`.
    pub open spec fn binds(
        self,
        descriptor: usize,
        netbuf: usize,
        origin: AllocationEpoch,
        status: u32,
        next: Census,
    ) -> bool {
        let kept = self.replaced(descriptor, netbuf);
        let d = kept.diagnostic;
        if status != 0 || descriptor == 0 || netbuf == 0 {
            next == (Census {
                diagnostic: RxOriginDiagnostics {
                    failed_bindings: advanced(d.failed_bindings, 1),
                    exhausted: d.exhausted || d.failed_bindings == u64::MAX,
                    ..d
                },
                ..kept
            })
        } else if d.occupied == self.rows.len() {
            next == (Census {
                diagnostic: RxOriginDiagnostics {
                    capacity_failures: advanced(d.capacity_failures, 1),
                    exhausted: d.exhausted || d.capacity_failures == u64::MAX,
                    ..d
                },
                ..kept
            })
        } else {
            exists|i: int|
                0 <= i < kept.rows.len() && (#[trigger] kept.rows[i]) is None && (forall|j: int|
                    0 <= j < i ==> (#[trigger] kept.rows[j]) is Some) && next == (Census {
                    rows: kept.rows.update(i, Some(Binding { descriptor, netbuf, origin })),
                    diagnostic: RxOriginDiagnostics {
                        bindings: advanced(d.bindings, 1),
                        occupied: (d.occupied + 1) as usize,
                        peak: if d.occupied + 1 > d.peak {
                            (d.occupied + 1) as usize
                        } else {
                            d.peak
                        },
                        exhausted: d.exhausted || d.bindings == u64::MAX,
                        ..d
                    },
                })
        }
    }

    /// This census after `netbuf` was delivered while `current` was the epoch.
    pub open spec fn after_delivery(self, netbuf: usize, current: AllocationEpoch) -> Census {
        let d = self.diagnostic;
        match self.row_of(netbuf) {
            None => Census {
                diagnostic: RxOriginDiagnostics {
                    unmatched: advanced(d.unmatched, 1),
                    exhausted: d.exhausted || d.unmatched == u64::MAX,
                    ..d
                },
                ..self
            },
            Some(i) => {
                let origin = self.rows[i]->0.origin.revision;
                let retired = RxOriginDiagnostics {
                    occupied: (d.occupied - 1) as usize,
                    matched: advanced(d.matched, 1),
                    exhausted: d.exhausted || d.matched == u64::MAX,
                    ..d
                };
                Census {
                    rows: self.rows.update(i, None),
                    diagnostic: if origin is None {
                        RxOriginDiagnostics {
                            closed_origin: advanced(d.closed_origin, 1),
                            exhausted: retired.exhausted || d.closed_origin == u64::MAX,
                            ..retired
                        }
                    } else if current.revision == origin {
                        RxOriginDiagnostics {
                            current_origin: advanced(d.current_origin, 1),
                            exhausted: retired.exhausted || d.current_origin == u64::MAX,
                            ..retired
                        }
                    } else {
                        RxOriginDiagnostics {
                            stale_origin: advanced(d.stale_origin, 1),
                            exhausted: retired.exhausted || d.stale_origin == u64::MAX,
                            ..retired
                        }
                    },
                }
            },
        }
    }

    /// This census after an attempt to free `netbuf` was seen.
    pub open spec fn after_free_attempt(self, netbuf: usize) -> Census {
        let called = RxOriginDiagnostics {
            free_calls: advanced(self.diagnostic.free_calls, 1),
            exhausted: self.diagnostic.exhausted || self.diagnostic.free_calls == u64::MAX,
            ..self.diagnostic
        };
        match self.row_of(netbuf) {
            None => Census { diagnostic: called, ..self },
            Some(i) => Census {
                rows: self.rows.update(i, None),
                diagnostic: RxOriginDiagnostics {
                    occupied: (called.occupied - 1) as usize,
                    retired_on_free_attempt: advanced(called.retired_on_free_attempt, 1),
                    exhausted: called.exhausted || called.retired_on_free_attempt == u64::MAX,
                    ..called
                },
            },
        }
    }
}

proof fn lemma_row_of(census: Census, i: int, netbuf: usize)
    requires
        census.wf(),
        0 <= i < census.rows.len(),
        census.rows[i] is Some,
        census.rows[i]->0.netbuf == netbuf,
    ensures
        census.row_of(netbuf) == Some(i),
{
    let j = census.row_of(netbuf)->0;
    assert(census.rows[j] is Some && census.rows[j]->0.netbuf == netbuf);
    if j != i {
        let (a, b) = if i < j {
            (i, j)
        } else {
            (j, i)
        };
        assert(census.rows[a] is Some && census.rows[b] is Some);
    }
}

impl<const N: usize> Tracker<N> {
    pub fn new() -> (tracker: Self)
        ensures
            tracker@.wf(),
            forall|i: int| 0 <= i < N ==> #[trigger] tracker@.rows[i] is None,
            tracker.diagnostic == (RxOriginDiagnostics {
                bindings: 0,
                failed_bindings: 0,
                replaced: 0,
                retired_on_free_attempt: 0,
                free_calls: 0,
                capacity_failures: 0,
                matched: 0,
                unmatched: 0,
                closed_origin: 0,
                current_origin: 0,
                stale_origin: 0,
                occupied: 0,
                peak: 0,
                exhausted: false,
            }),
    {
        let tracker = Tracker {
            descriptors: [0;N],
            netbufs: [0;N],
            revisions: [0;N],
            open: [false;N],
            diagnostic: RxOriginDiagnostics {
                bindings: 0,
                failed_bindings: 0,
                replaced: 0,
                retired_on_free_attempt: 0,
                free_calls: 0,
                capacity_failures: 0,
                matched: 0,
                unmatched: 0,
                closed_origin: 0,
                current_origin: 0,
                stale_origin: 0,
                occupied: 0,
                peak: 0,
                exhausted: false,
            },
        };
        proof {
            crate::netif_l2::slots::lemma_occupied_bounds(tracker@.rows);
        }
        tracker
    }

    /// Forget the rows of either identity.
    fn supersede(&mut self, descriptor: usize, netbuf: usize)
        requires
            old(self)@.wf(),
        ensures
            final(self)@ == old(self)@.replaced(descriptor, netbuf),
            final(self)@.wf(),
            forall|i: int|
                0 <= i < N && (#[trigger] final(self)@.rows[i]) is Some ==> !superseded(
                    final(self)@.rows[i],
                    descriptor,
                    netbuf,
                ),
    {
        let ghost rows = self@.rows;
        let ghost before = self.diagnostic;
        let mut slot: usize = 0;
        proof {
            assert(partial(rows, 0, descriptor, netbuf) =~= rows);
            crate::netif_l2::slots::lemma_occupied_bounds(rows);
        }
        while slot < N
            invariant
                slot <= N,
                rows.len() == N,
                self@.rows =~= partial(rows, slot as int, descriptor, netbuf),
                crate::netif_l2::slots::occupied(self@.rows) <= crate::netif_l2::slots::occupied(rows) <= N,
                before.occupied == crate::netif_l2::slots::occupied(rows),
                self.diagnostic == (RxOriginDiagnostics {
                    occupied: crate::netif_l2::slots::occupied(self@.rows) as usize,
                    replaced: advanced(
                        before.replaced,
                        (crate::netif_l2::slots::occupied(rows)
                            - crate::netif_l2::slots::occupied(self@.rows)) as nat,
                    ),
                    exhausted: before.exhausted || before.replaced + (
                    crate::netif_l2::slots::occupied(rows) - crate::netif_l2::slots::occupied(
                        self@.rows,
                    )) > u64::MAX,
                    ..before
                }),
            decreases N - slot,
        {
            let ghost held = self@.rows;
            proof {
                assert(held[slot as int] == rows[slot as int]);
                crate::netif_l2::slots::lemma_occupied_update(held, slot as int, None);
                crate::netif_l2::slots::lemma_occupied_bounds(held);
                crate::netif_l2::slots::lemma_occupied_bounds(held.update(slot as int, None));
            }
            if self.netbufs[slot] != 0 && (self.netbufs[slot] == netbuf || self.descriptors[slot]
                == descriptor) {
                self.netbufs[slot] = 0;
                proof {
                    assert(self@.rows =~= held.update(slot as int, None));
                }
                self.diagnostic.occupied = self.diagnostic.occupied - 1;
                increment(&mut self.diagnostic.replaced, &mut self.diagnostic.exhausted);
                proof {
                    assert(self@.rows =~= partial(rows, slot + 1, descriptor, netbuf));
                }
            } else {
                proof {
                    assert(self@.rows =~= partial(rows, slot + 1, descriptor, netbuf));
                }
            }
            slot = slot + 1;
        }
        proof {
            assert(self@.rows =~= without(rows, descriptor, netbuf));
            assert forall|i: int| 0 <= i < N && (#[trigger] self@.rows[i]) is Some implies rows[i]
                == self@.rows[i] && !superseded(self@.rows[i], descriptor, netbuf) by {}
        }
    }

    /// The native side bound a buffer to a descriptor. This supersedes the old
    /// observation of either identity, also when the binding failed.
    pub fn bind(&mut self, descriptor: usize, netbuf: usize, epoch: AllocationEpoch, status: u32)
        requires
            old(self)@.wf(),
        ensures
            final(self)@.wf(),
            old(self)@.binds(descriptor, netbuf, epoch, status, final(self)@),
    {
        self.supersede(descriptor, netbuf);
        let ghost kept = self@;
        proof {
            crate::netif_l2::slots::lemma_occupied_bounds(kept.rows);
        }
        if status != 0 || descriptor == 0 || netbuf == 0 {
            increment(&mut self.diagnostic.failed_bindings, &mut self.diagnostic.exhausted);
            return;
        }
        let mut slot: usize = 0;
        while slot < N && self.netbufs[slot] != 0
            invariant
                slot <= N,
                self@ == kept,
                kept.rows.len() == N,
                forall|j: int| 0 <= j < slot ==> (#[trigger] kept.rows[j]) is Some,
            ensures
                slot <= N,
                forall|j: int| 0 <= j < slot ==> (#[trigger] kept.rows[j]) is Some,
                slot < N ==> kept.rows[slot as int] is None,
                slot == N ==> forall|j: int| 0 <= j < N ==> (#[trigger] kept.rows[j]) is Some,
            decreases N - slot,
        {
            slot = slot + 1;
        }
        if slot == N {
            increment(&mut self.diagnostic.capacity_failures, &mut self.diagnostic.exhausted);
            return;
        }
        self.descriptors[slot] = descriptor;
        self.netbufs[slot] = netbuf;
        match epoch.revision {
            Some(revision) => {
                self.open[slot] = true;
                self.revisions[slot] = revision;
            },
            None => {
                self.open[slot] = false;
                self.revisions[slot] = 0;
            },
        }
        let ghost entry = Binding { descriptor, netbuf, origin: epoch };
        proof {
            assert(self@.rows =~= kept.rows.update(slot as int, Some(entry)));
            crate::netif_l2::slots::lemma_occupied_update(kept.rows, slot as int, Some(entry));
            crate::netif_l2::slots::lemma_occupied_bounds(self@.rows);
        }
        increment(&mut self.diagnostic.bindings, &mut self.diagnostic.exhausted);
        self.diagnostic.occupied = self.diagnostic.occupied + 1;
        if self.diagnostic.occupied > self.diagnostic.peak {
            self.diagnostic.peak = self.diagnostic.occupied;
        }
        proof {
            assert(kept.rows[slot as int] is None);
            assert(self@.rows =~= kept.rows.update(slot as int, Some(entry)));
        }
    }

    fn find(&self, netbuf: usize) -> (found: Option<usize>)
        requires
            self@.wf(),
        ensures
            match found {
                Some(i) => i < N && self@.rows[i as int] is Some && self@.row_of(netbuf) == Some(
                    i as int,
                ),
                None => self@.row_of(netbuf) is None,
            },
    {
        let mut slot: usize = 0;
        while slot < N
            invariant
                slot <= N,
                self@.wf(),
                forall|j: int|
                    0 <= j < slot && (#[trigger] self@.rows[j]) is Some ==> self@.rows[j]->0.netbuf
                        != netbuf,
            decreases N - slot,
        {
            if netbuf != 0 && self.netbufs[slot] == netbuf {
                proof {
                    lemma_row_of(self@, slot as int, netbuf);
                }
                return Some(slot);
            }
            slot = slot + 1;
        }
        None
    }

    /// A buffer reaches the host.
    pub fn delivered(&mut self, netbuf: usize, current: AllocationEpoch)
        requires
            old(self)@.wf(),
        ensures
            final(self)@.wf(),
            final(self)@ == old(self)@.after_delivery(netbuf, current),
    {
        let ghost held = self@;
        let slot: usize = match self.find(netbuf) {
            Some(slot) => slot,
            None => {
                increment(&mut self.diagnostic.unmatched, &mut self.diagnostic.exhausted);
                return;
            },
        };
        proof {
            crate::netif_l2::slots::lemma_occupied_update(held.rows, slot as int, None);
            crate::netif_l2::slots::lemma_occupied_bounds(held.rows);
        }
        let opened = self.open[slot];
        let revision: u64 = self.revisions[slot];
        self.netbufs[slot] = 0;
        proof {
            assert(self@.rows =~= held.rows.update(slot as int, None));
        }
        self.diagnostic.occupied = self.diagnostic.occupied - 1;
        increment(&mut self.diagnostic.matched, &mut self.diagnostic.exhausted);
        if !opened {
            increment(&mut self.diagnostic.closed_origin, &mut self.diagnostic.exhausted);
        } else {
            let live = match current.revision {
                Some(now) => now == revision,
                None => false,
            };
            if live {
                increment(&mut self.diagnostic.current_origin, &mut self.diagnostic.exhausted);
            } else {
                increment(&mut self.diagnostic.stale_origin, &mut self.diagnostic.exhausted);
            }
        }
    }

    /// The native side is about to free a buffer.
    pub fn before_free(&mut self, netbuf: usize)
        requires
            old(self)@.wf(),
        ensures
            final(self)@.wf(),
            final(self)@ == old(self)@.after_free_attempt(netbuf),
    {
        let ghost held = self@;
        let found = self.find(netbuf);
        increment(&mut self.diagnostic.free_calls, &mut self.diagnostic.exhausted);
        if let Some(slot) = found {
            proof {
                crate::netif_l2::slots::lemma_occupied_update(held.rows, slot as int, None);
                crate::netif_l2::slots::lemma_occupied_bounds(held.rows);
            }
            self.netbufs[slot] = 0;
            proof {
                assert(self@.rows =~= held.rows.update(slot as int, None));
            }
            self.diagnostic.occupied = self.diagnostic.occupied - 1;
            increment(
                &mut self.diagnostic.retired_on_free_attempt,
                &mut self.diagnostic.exhausted,
            );
        }
    }
}

/// The rows when only the first `n` were looked at.
spec fn partial(rows: Seq<Option<Binding>>, n: int, descriptor: usize, netbuf: usize) -> Seq<
    Option<Binding>,
> {
    Seq::new(
        rows.len(),
        |i: int|
            if i < n && superseded(rows[i], descriptor, netbuf) {
                None
            } else {
                rows[i]
            },
    )
}

/// An origin is never retagged: a delivery counts as current only when the
/// buffer was bound in the epoch of the delivery, and as closed only when it was
/// bound while the route was closed.
pub proof fn law_origin_is_not_retagged(census: Census, netbuf: usize, current: AllocationEpoch)
    requires
        census.wf(),
        census.row_of(netbuf) is Some,
        census.diagnostic.current_origin < u64::MAX,
        census.diagnostic.closed_origin < u64::MAX,
    ensures
        ({
            let origin = census.rows[census.row_of(netbuf)->0]->0.origin;
            let after = census.after_delivery(netbuf, current).diagnostic;
            &&& after.current_origin > census.diagnostic.current_origin <==> origin.revision is Some
                && origin == current
            &&& after.closed_origin > census.diagnostic.closed_origin <==> origin.revision is None
        }),
{
}

/// A delivered or freed buffer is observed no longer: a second delivery of it is
/// unmatched until it is bound again.
pub proof fn law_delivery_is_counted_once(
    census: Census,
    netbuf: usize,
    current: AllocationEpoch,
)
    requires
        census.wf(),
    ensures
        census.after_delivery(netbuf, current).row_of(netbuf) is None,
        census.after_free_attempt(netbuf).row_of(netbuf) is None,
{
    let delivered = census.after_delivery(netbuf, current);
    let freed = census.after_free_attempt(netbuf);
    if let Some(i) = census.row_of(netbuf) {
        assert(census.rows[i] is Some && census.rows[i]->0.netbuf == netbuf);
        assert forall|j: int|
            0 <= j < delivered.rows.len() && (#[trigger] delivered.rows[j])
                is Some implies delivered.rows[j]->0.netbuf != netbuf by {
            assert(census.rows[j] is Some);
        }
        assert forall|j: int|
            0 <= j < freed.rows.len() && (#[trigger] freed.rows[j]) is Some implies freed.rows[j]->0.netbuf
            != netbuf by {
            assert(census.rows[j] is Some);
        }
    }
}

/// Native frees pass through the observer exactly when it is the callback that is
/// registered for them, no other one is consulted before it, and it has a callback to
/// pass them on to.
pub proof fn law_free_route_is_checked(
    current: usize,
    expected: usize,
    pbuf: usize,
    published: bool,
    valid: bool,
    result: Result<(), u32>,
)
    requires
        call_ensures(free_route_valid, (current, expected, pbuf), valid),
        call_ensures(validate_free_route, (current, expected, pbuf, published), result),
    ensures
        valid <==> current == expected && expected != 0 && pbuf == 0,
        result is Ok <==> valid && published,
        result matches Err(code) ==> code == 0x1000_0012,
{
}

/// Only the registration of a native free is touched: a callback of another owner goes
/// behind the observer, the observer itself and every other registration are passed on,
/// and none is registered in place of none.
pub proof fn law_only_native_frees_are_rerouted(
    id: u32,
    callback: usize,
    observer: usize,
    route: FreeRegistration,
)
    requires
        call_ensures(route_registration, (id, callback, observer), route),
    ensures
        route is Observe <==> id == 249 && callback != observer && callback != 0,
        route is Withdraw <==> id == 249 && callback != observer && callback == 0,
        route is Unchanged <==> id != 249 || callback == observer,
{
}

/// A binding that the native side reports as done is observed: exactly one row holds the
/// buffer then, with the descriptor and the origin that it was bound in, and no row
/// holds an older observation of either. A failed binding leaves none, and is counted.
pub proof fn law_binding_is_observed_as_made(
    census: Census,
    descriptor: usize,
    netbuf: usize,
    origin: AllocationEpoch,
    status: u32,
    next: Census,
)
    requires
        census.wf(),
        census.binds(descriptor, netbuf, origin, status, next),
    ensures
        next.rows.len() == census.rows.len(),
        forall|i: int|
            0 <= i < next.rows.len() && (#[trigger] next.rows[i]) is Some && (
            next.rows[i]->0.netbuf == netbuf || next.rows[i]->0.descriptor == descriptor)
                ==> status == 0 && next.rows[i]->0.netbuf == netbuf && next.rows[i]->0.descriptor
                == descriptor && next.rows[i]->0.origin == origin,
        forall|i: int|
            0 <= i < census.rows.len() && (#[trigger] census.rows[i]) is Some
                && census.rows[i]->0.netbuf != netbuf && census.rows[i]->0.descriptor != descriptor
                ==> next.rows[i] == census.rows[i],
        status != 0 || descriptor == 0 || netbuf == 0 ==> next.diagnostic.bindings
            == census.diagnostic.bindings && (census.diagnostic.failed_bindings < u64::MAX
            ==> next.diagnostic.failed_bindings == census.diagnostic.failed_bindings + 1),
        status == 0 && descriptor != 0 && netbuf != 0 ==> next.diagnostic.failed_bindings
            == census.diagnostic.failed_bindings,
{
    let kept = census.replaced(descriptor, netbuf);
    assert forall|i: int|
        0 <= i < census.rows.len() && (#[trigger] census.rows[i]) is Some
            && census.rows[i]->0.netbuf != netbuf && census.rows[i]->0.descriptor
            != descriptor implies next.rows[i] == census.rows[i] by {
        assert(kept.rows[i] == census.rows[i]);
    }
}

/// A delivered buffer that is observed counts as matched, by its own origin, and one
/// that is not counts as unmatched. An observed buffer is forgotten on an attempt to
/// free it, and each attempt is counted.
pub proof fn law_deliveries_and_frees_are_counted(
    census: Census,
    i: int,
    netbuf: usize,
    current: AllocationEpoch,
)
    requires
        census.wf(),
    ensures
        ({
            let before = census.diagnostic;
            let delivered = census.after_delivery(netbuf, current);
            let freed = census.after_free_attempt(netbuf);
            let observed = 0 <= i < census.rows.len() && census.rows[i] is Some
                && census.rows[i]->0.netbuf == netbuf;
            let absent = forall|j: int|
                0 <= j < census.rows.len() && (#[trigger] census.rows[j]) is Some
                    ==> census.rows[j]->0.netbuf != netbuf;
            &&& observed && !delivered.diagnostic.exhausted ==> {
                let origin = census.rows[i]->0.origin.revision;
                &&& delivered.rows[i] is None
                &&& delivered.diagnostic.matched == before.matched + 1
                &&& delivered.diagnostic.unmatched == before.unmatched
                &&& delivered.diagnostic.occupied == before.occupied - 1
                &&& delivered.diagnostic.closed_origin - before.closed_origin == (if origin is None {
                    1int
                } else {
                    0
                })
                &&& delivered.diagnostic.current_origin - before.current_origin == (if origin is Some
                    && origin == current.revision {
                    1int
                } else {
                    0
                })
                &&& delivered.diagnostic.stale_origin - before.stale_origin == (if origin is Some
                    && origin != current.revision {
                    1int
                } else {
                    0
                })
            }
            &&& absent && !delivered.diagnostic.exhausted ==> delivered.rows == census.rows
                && delivered.diagnostic.unmatched == before.unmatched + 1
                && delivered.diagnostic.matched == before.matched
            &&& !freed.diagnostic.exhausted ==> freed.diagnostic.free_calls == before.free_calls + 1
            &&& observed && !freed.diagnostic.exhausted ==> freed.rows[i] is None
                && freed.diagnostic.retired_on_free_attempt == before.retired_on_free_attempt + 1
                && freed.diagnostic.matched == before.matched
            &&& absent && !freed.diagnostic.exhausted ==> freed.rows == census.rows
                && freed.diagnostic.retired_on_free_attempt == before.retired_on_free_attempt
        }),
{
    crate::netif_l2::slots::lemma_occupied_bounds(census.rows);
    if 0 <= i < census.rows.len() && census.rows[i] is Some && census.rows[i]->0.netbuf == netbuf {
        lemma_row_of(census, i, netbuf);
    }
}

} // verus!
