//! Bounded histories: on append, the oldest entries leave until the history
//! fits its capacity again.

use std::collections::VecDeque;
use vstd::prelude::*;

verus! {

/// A history after one more entry: the entry is the youngest, and only the
/// youngest `capacity` entries stay.
pub open spec fn appended<T>(history: Seq<T>, entry: T, capacity: nat) -> Seq<T> {
    let grown = history.push(entry);
    if grown.len() > capacity {
        grown.subrange(grown.len() - capacity, grown.len() as int)
    } else {
        grown
    }
}

/// A history after several entries, appended one by one under one capacity.
pub open spec fn appended_all<T>(history: Seq<T>, entries: Seq<T>, capacity: nat) -> Seq<T>
    decreases entries.len(),
{
    if entries.len() == 0 {
        history
    } else {
        appended(appended_all(history, entries.drop_last(), capacity), entries.last(), capacity)
    }
}

/// Appends an entry to a history and evicts the oldest entries beyond its
/// capacity.
pub fn push_bounded<T>(queue: &mut VecDeque<T>, entry: T, capacity: usize)
    ensures
        final(queue)@ == appended(old(queue)@, entry, capacity as nat),
        final(queue)@.len() <= capacity,
{
    queue.push_back(entry);
    let ghost grown = queue@;
    while queue.len() > capacity
        invariant
            grown == old(queue)@.push(entry),
            queue@.len() <= grown.len(),
            queue@.len() >= capacity || queue@.len() == grown.len(),
            queue@ == grown.subrange(grown.len() - queue@.len(), grown.len() as int),
        decreases queue@.len(),
    {
        let _evicted = queue.pop_front();
        assert(queue@ == grown.subrange(grown.len() - queue@.len(), grown.len() as int));
    }
    assert(grown.subrange(0, grown.len() as int) == grown);
}

/// No append leaves a history longer than its capacity.
pub proof fn lemma_appended_fits<T>(history: Seq<T>, entry: T, capacity: nat)
    ensures
        appended(history, entry, capacity).len() <= capacity,
        capacity > 0 ==> appended(history, entry, capacity).last() == entry,
{
}

/// A history never exceeds its capacity. After `n` appends to an empty
/// history of capacity `c` it holds the last `min(n, c)` of the entries, so
/// that the youngest entry has index `min(n, c) - 1`.
pub proof fn lemma_ring_buffer_cap<T>(entries: Seq<T>, capacity: nat)
    ensures
        ({
            let history = appended_all(Seq::<T>::empty(), entries, capacity);
            let n = entries.len();
            let kept = if n <= capacity {
                n
            } else {
                capacity
            };
            &&& history.len() == kept
            &&& history.len() <= capacity
            &&& history == entries.subrange(n - kept, n as int)
            &&& kept > 0 ==> history[kept - 1] == entries.last()
        }),
    decreases entries.len(),
{
    if entries.len() > 0 {
        lemma_ring_buffer_cap(entries.drop_last(), capacity);
        let history = appended_all(Seq::<T>::empty(), entries, capacity);
        let n = entries.len();
        let kept = if n <= capacity {
            n
        } else {
            capacity
        };
        assert(history =~= entries.subrange(n - kept, n as int));
    } else {
        assert(appended_all(Seq::<T>::empty(), entries, capacity) =~= entries.subrange(0, 0));
    }
}

} // verus!
