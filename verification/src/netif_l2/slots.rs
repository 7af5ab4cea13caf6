//! Counting and searching in a fixed table of optional entries.

use vstd::prelude::*;

verus! {

/// The number of entries that are held.
pub open spec fn occupied<T>(slots: Seq<Option<T>>) -> nat
    decreases slots.len(),
{
    if slots.len() == 0 {
        0
    } else {
        occupied(slots.drop_last()) + (if slots.last() is Some {
            1nat
        } else {
            0
        })
    }
}

pub proof fn lemma_occupied_bounds<T>(slots: Seq<Option<T>>)
    ensures
        occupied(slots) <= slots.len(),
        occupied(slots) == slots.len() <==> (forall|i: int|
            0 <= i < slots.len() ==> #[trigger] slots[i] is Some),
        occupied(slots) == 0 <==> (forall|i: int|
            0 <= i < slots.len() ==> #[trigger] slots[i] is None),
    decreases slots.len(),
{
    if slots.len() > 0 {
        let rest = slots.drop_last();
        lemma_occupied_bounds(rest);
        assert(slots[slots.len() - 1] == slots.last());
        assert(forall|i: int| 0 <= i < rest.len() ==> #[trigger] rest[i] == slots[i]);
        if occupied(slots) == slots.len() {
            assert forall|i: int| 0 <= i < slots.len() implies #[trigger] slots[i] is Some by {
                if i < rest.len() {
                    assert(rest[i] is Some);
                }
            }
        }
        if forall|i: int| 0 <= i < slots.len() ==> #[trigger] slots[i] is Some {
            assert(forall|i: int| 0 <= i < rest.len() ==> #[trigger] rest[i] is Some);
        }
        if occupied(slots) == 0 {
            assert forall|i: int| 0 <= i < slots.len() implies #[trigger] slots[i] is None by {
                if i < rest.len() {
                    assert(rest[i] is None);
                }
            }
        }
        if forall|i: int| 0 <= i < slots.len() ==> #[trigger] slots[i] is None {
            assert(forall|i: int| 0 <= i < rest.len() ==> #[trigger] rest[i] is None);
        }
    }
}

/// Replacing one entry changes the count by what that entry changes.
pub proof fn lemma_occupied_update<T>(slots: Seq<Option<T>>, index: int, entry: Option<T>)
    requires
        0 <= index < slots.len(),
    ensures
        occupied(slots.update(index, entry)) == occupied(slots) - (if slots[index] is Some {
            1int
        } else {
            0
        }) + (if entry is Some {
            1int
        } else {
            0
        }),
    decreases slots.len(),
{
    let updated = slots.update(index, entry);
    if index == slots.len() - 1 {
        assert(updated.drop_last() =~= slots.drop_last());
    } else {
        assert(updated.drop_last() =~= slots.drop_last().update(index, entry));
        lemma_occupied_update(slots.drop_last(), index, entry);
    }
}

/// The first vacant entry.
pub fn vacancy<T, const N: usize>(slots: &[Option<T>; N]) -> (index: Option<usize>)
    ensures
        match index {
            Some(i) => i < N && slots@[i as int] is None && (forall|j: int|
                0 <= j < i ==> #[trigger] slots@[j] is Some),
            None => forall|j: int| 0 <= j < N ==> #[trigger] slots@[j] is Some,
        },
{
    let mut i: usize = 0;
    while i < N
        invariant
            i <= N,
            forall|j: int| 0 <= j < i ==> #[trigger] slots@[j] is Some,
        decreases N - i,
    {
        if slots[i].is_none() {
            return Some(i);
        }
        i = i + 1;
    }
    None
}

} // verus!
