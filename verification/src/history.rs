//! The history ring: a bounded log that keeps the most recent entries.
//!
//! Entries are kept oldest first. While there is room an entry is appended;
//! once the log is full every append evicts exactly the single oldest entry.

use crate::outcome::MatchResult;
use vstd::prelude::*;

verus! {

/// The log after one append: the entry goes to the end, and where the log was
/// already full the oldest entry leaves.
pub open spec fn ring_push<T>(history: Seq<T>, capacity: nat, entry: T) -> Seq<T> {
    if history.len() < capacity {
        history.push(entry)
    } else {
        history.push(entry).skip(1)
    }
}

/// The log after a run of appends, in the order of `entries`.
pub open spec fn ring_extend<T>(history: Seq<T>, capacity: nat, entries: Seq<T>) -> Seq<T>
    decreases entries.len(),
{
    if entries.len() == 0 {
        history
    } else {
        ring_push(ring_extend(history, capacity, entries.drop_last()), capacity, entries.last())
    }
}

/// The most recent `capacity` items of `all`, or all of them if there are
/// fewer.
pub open spec fn recent<T>(all: Seq<T>, capacity: nat) -> Seq<T> {
    if all.len() <= capacity {
        all
    } else {
        all.skip(all.len() - capacity)
    }
}

/// The smaller of two counts.
pub open spec fn min_nat(a: nat, b: nat) -> nat {
    if a <= b {
        a
    } else {
        b
    }
}

/// What one append does, slot by slot. With room left the entry lands at the
/// first free index and nothing else moves. On a full log every entry moves
/// one slot towards the front, the entry at the front is dropped, and the new
/// entry lands in the last slot. The length never exceeds the capacity.
pub proof fn lemma_ring_push_slots<T>(history: Seq<T>, capacity: nat, entry: T)
    requires
        history.len() <= capacity,
    ensures
        ring_push(history, capacity, entry).len() == min_nat(history.len() + 1, capacity),
        history.len() < capacity ==> ring_push(history, capacity, entry).len() == history.len()
            + 1,
        history.len() < capacity ==> ring_push(history, capacity, entry)[history.len() as int]
            == entry,
        history.len() < capacity ==> forall|i: int|
            0 <= i < history.len() ==> ring_push(history, capacity, entry)[i] == history[i],
        history.len() == capacity && capacity > 0 ==> ring_push(history, capacity, entry).len()
            == capacity,
        history.len() == capacity && capacity > 0 ==> ring_push(history, capacity, entry)[capacity
            - 1] == entry,
        history.len() == capacity && capacity > 0 ==> forall|i: int|
            0 <= i < capacity - 1 ==> ring_push(history, capacity, entry)[i] == history[i + 1],
        ring_push(history, capacity, entry) == recent(history.push(entry), capacity),
{
}

/// A log that started within its capacity always holds exactly the most
/// recent entries, oldest first: after any run of appends it is the tail of
/// everything it was ever given, cut to the capacity.
pub proof fn lemma_ring_extend_recent<T>(history: Seq<T>, capacity: nat, entries: Seq<T>)
    requires
        history.len() <= capacity,
    ensures
        ring_extend(history, capacity, entries) == recent(history + entries, capacity),
        ring_extend(history, capacity, entries).len() == min_nat(
            history.len() + entries.len(),
            capacity,
        ),
    decreases entries.len(),
{
    if entries.len() > 0 {
        let earlier = entries.drop_last();
        lemma_ring_extend_recent(history, capacity, earlier);
        lemma_ring_push_slots(ring_extend(history, capacity, earlier), capacity, entries.last());
    }
}

/// Starting from an empty log, the length after every prefix of a run of
/// appends is the number of appends so far, capped at the capacity.
pub proof fn lemma_ring_length<T>(capacity: nat, entries: Seq<T>, count: int)
    requires
        0 <= count <= entries.len(),
    ensures
        ring_extend(Seq::<T>::empty(), capacity, entries.take(count)).len() == min_nat(
            count as nat,
            capacity,
        ),
{
    lemma_ring_extend_recent(Seq::<T>::empty(), capacity, entries.take(count));
}

/// Starting from an empty log, once at least `capacity` entries were appended
/// the log is a sliding window over them: its last slot holds the most recent
/// entry, its first slot the one that is `capacity` appends old, and slot `i`
/// holds the entry that came `capacity - i` appends ago.
pub proof fn lemma_ring_sliding_window<T>(capacity: nat, entries: Seq<T>)
    requires
        0 < capacity <= entries.len(),
    ensures
        ring_extend(Seq::<T>::empty(), capacity, entries).len() == capacity,
        ring_extend(Seq::<T>::empty(), capacity, entries)[capacity - 1] == entries.last(),
        ring_extend(Seq::<T>::empty(), capacity, entries)[0] == entries[entries.len() - capacity],
        forall|i: int|
            0 <= i < capacity ==> ring_extend(Seq::<T>::empty(), capacity, entries)[i]
                == entries[entries.len() - capacity + i],
{
    lemma_ring_extend_recent(Seq::<T>::empty(), capacity, entries);
}

/// Appends one entry to a log of at most `capacity` entries, evicting the
/// oldest entry if the log was full.
pub fn append(history: &mut Vec<MatchResult>, capacity: usize, entry: MatchResult)
    requires
        old(history)@.len() <= capacity,
    ensures
        final(history)@ == ring_push(old(history)@, capacity as nat, entry),
        final(history)@.len() == min_nat(old(history)@.len() + 1, capacity as nat),
{
    history.push(entry);
    if history.len() > capacity {
        history.remove(0);
    }
}

} // verus!
