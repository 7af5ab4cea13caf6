use hisi_rf_ws63::netif_l2::rx_origin::{
    free_route_valid, route_registration, validate_free_route, FreeRegistration, Tracker,
    FREE_ROUTE_INVALID, NETBUF_FREE_CALLBACK_ID, PBUF_FREE_CALLBACK_ID,
};
use hisi_rf_ws63::netif_l2::AllocationEpoch;

fn epoch(revision: u64) -> AllocationEpoch {
    AllocationEpoch {
        revision: Some(revision),
    }
}

#[test]
fn free_route_rejects_a_foreign_or_bypassing_callback() {
    assert!(free_route_valid(10, 10, 0));
    for (current, expected, pbuf) in [(0, 10, 0), (11, 10, 0), (10, 10, 1), (0, 0, 0)] {
        assert!(!free_route_valid(current, expected, pbuf));
    }
}

fn conserved<const N: usize>(tracker: &Tracker<N>) {
    let d = tracker.diagnostic;
    assert!(!d.exhausted);
    assert_eq!(
        d.bindings,
        d.matched + d.replaced + d.retired_on_free_attempt + d.occupied as u64
    );
    assert_eq!(
        d.matched,
        d.closed_origin + d.current_origin + d.stale_origin
    );
    assert_eq!(
        d.occupied,
        tracker.netbufs.iter().filter(|entry| **entry != 0).count()
    );
}

#[test]
fn origin_is_not_retagged_when_delivery_crosses_close() {
    let mut t = Tracker::<2>::new();
    t.bind(1, 11, epoch(1), 0);
    t.bind(2, 22, AllocationEpoch::closed(), 0);
    t.delivered(11, epoch(2));
    t.delivered(22, epoch(2));
    assert_eq!(t.diagnostic.stale_origin, 1);
    assert_eq!(t.diagnostic.closed_origin, 1);
    assert_eq!(t.diagnostic.current_origin, 0);
    conserved(&t);
}

#[test]
fn undelivered_native_frees_do_not_accumulate_live_observations() {
    let mut t = Tracker::<1>::new();
    for identity in 1..100 {
        t.bind(identity, identity + 100, epoch(1), 0);
        t.before_free(identity + 100);
        conserved(&t);
    }
    assert_eq!(t.diagnostic.capacity_failures, 0);
    assert_eq!(t.diagnostic.retired_on_free_attempt, 99);
    assert_eq!(t.diagnostic.free_calls, 99);
    assert_eq!(t.diagnostic.occupied, 0);
}

#[test]
fn free_attempt_cannot_certify_delivery_or_retag_a_reused_buffer() {
    let mut t = Tracker::<2>::new();
    t.bind(1, 11, epoch(1), 0);
    t.bind(2, 22, epoch(1), 0);
    for pointer in [0, 99, 11, 11] {
        t.before_free(pointer);
    }
    assert_eq!(t.diagnostic.retired_on_free_attempt, 1);
    assert_eq!(t.diagnostic.occupied, 1);
    t.delivered(11, epoch(2));
    assert_eq!(t.diagnostic.unmatched, 1);
    t.bind(3, 11, epoch(2), 0);
    t.delivered(11, epoch(2));
    t.delivered(22, epoch(2));
    assert_eq!(t.diagnostic.current_origin, 1);
    assert_eq!(t.diagnostic.stale_origin, 1);
    conserved(&t);
}

#[test]
fn duplicate_or_unknown_delivery_never_fabricates_an_origin() {
    let mut t = Tracker::<1>::new();
    t.bind(1, 11, epoch(1), 0);
    t.delivered(11, epoch(1));
    for value in [11, 12, 0] {
        t.delivered(value, epoch(1));
    }
    assert_eq!(t.diagnostic.current_origin, 1);
    assert_eq!(t.diagnostic.unmatched, 3);
    conserved(&t);
}

#[test]
fn reused_descriptor_and_buffer_remove_both_old_observations() {
    let mut t = Tracker::<2>::new();
    t.bind(1, 11, epoch(1), 0);
    t.bind(2, 22, epoch(1), 0);
    t.bind(1, 22, epoch(2), 0);
    assert_eq!(t.diagnostic.replaced, 2);
    t.delivered(11, epoch(2));
    t.delivered(22, epoch(2));
    assert_eq!(t.diagnostic.current_origin, 1);
    assert_eq!(t.diagnostic.unmatched, 1);
    conserved(&t);
}

#[test]
fn failed_binding_invalidates_previous_observation_but_does_not_insert() {
    let mut t = Tracker::<1>::new();
    t.bind(1, 11, epoch(1), 0);
    t.bind(1, 11, epoch(2), 100);
    for (descriptor, netbuf) in [(0, 1), (1, 0), (0, 0)] {
        t.bind(descriptor, netbuf, epoch(2), 0);
    }
    t.delivered(11, epoch(2));
    assert_eq!(t.diagnostic.failed_bindings, 4);
    assert_eq!(t.diagnostic.unmatched, 1);
    conserved(&t);
}

#[test]
fn capacity_exhaustion_does_not_evict_an_unrelated_binding() {
    let mut t = Tracker::<1>::new();
    t.bind(1, 11, epoch(1), 0);
    t.bind(2, 22, epoch(2), 0);
    t.delivered(11, epoch(2));
    t.delivered(22, epoch(2));
    assert_eq!(t.diagnostic.capacity_failures, 1);
    assert_eq!(t.diagnostic.stale_origin, 1);
    assert_eq!(t.diagnostic.unmatched, 1);
    conserved(&t);
}

#[test]
fn saturation_invalidates_the_census_without_wrapping() {
    let mut t = Tracker::<0>::new();
    t.diagnostic.unmatched = u64::MAX;
    t.delivered(1, epoch(1));
    assert!(t.diagnostic.exhausted);
    assert_eq!(t.diagnostic.unmatched, u64::MAX);
}

#[test]
fn a_free_route_needs_a_published_callback() {
    assert_eq!(validate_free_route(10, 10, 0, true), Ok(()));
    assert_eq!(validate_free_route(10, 10, 0, false), Err(FREE_ROUTE_INVALID));
    assert_eq!(validate_free_route(11, 10, 0, true), Err(FREE_ROUTE_INVALID));
    assert_eq!(FREE_ROUTE_INVALID, 0x1000_0012);
}

#[test]
fn only_a_native_free_of_another_owner_is_observed() {
    assert_eq!(
        route_registration(NETBUF_FREE_CALLBACK_ID, 7, 9),
        FreeRegistration::Observe
    );
    assert_eq!(
        route_registration(NETBUF_FREE_CALLBACK_ID, 0, 9),
        FreeRegistration::Withdraw
    );
    assert_eq!(
        route_registration(NETBUF_FREE_CALLBACK_ID, 9, 9),
        FreeRegistration::Unchanged
    );
    assert_eq!(
        route_registration(PBUF_FREE_CALLBACK_ID, 7, 9),
        FreeRegistration::Unchanged
    );
}

#[test]
fn a_descriptor_is_bound_in_one_row() {
    let mut t = Tracker::<2>::new();
    t.bind(1, 11, epoch(1), 0);
    t.bind(1, 22, epoch(2), 0);
    assert_eq!(t.diagnostic.replaced, 1);
    assert_eq!(t.diagnostic.occupied, 1);
    t.delivered(11, epoch(2));
    assert_eq!(t.diagnostic.unmatched, 1);
    t.delivered(22, epoch(2));
    assert_eq!(t.diagnostic.current_origin, 1);
    conserved(&t);
}
