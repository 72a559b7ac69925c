//! The queue as a mathematical object: a multiset of items and a capacity.
//!
//! The contracts of the executable queue are written with the functions of
//! this module, and the laws proved here therefore hold of every run of it.

use crate::item::Item;
use vstd::multiset::Multiset;
use vstd::prelude::*;

verus! {

/// `item` is among `items`, and none of `items` is older.
pub open spec fn earliest<T>(items: Multiset<Item<T>>, item: Item<T>) -> bool {
    &&& items.contains(item)
    &&& forall|other: Item<T>| items.contains(other) ==> !other.precedes(&item)
}

/// A queue holding `items` has no room left: a producer has to wait.
pub open spec fn full<T>(items: Multiset<Item<T>>, capacity: nat) -> bool {
    items.len() >= capacity
}

/// A queue holding `items` has nothing to hand out: a consumer has to wait.
pub open spec fn vacant<T>(items: Multiset<Item<T>>) -> bool {
    items.len() == 0
}

/// What a queue of the given capacity holds after an attempt to store
/// `item`: the item joins the others unless the queue is full.
pub open spec fn stored<T>(items: Multiset<Item<T>>, capacity: nat, item: Item<T>) -> Multiset<
    Item<T>,
> {
    if full(items, capacity) {
        items
    } else {
        items.insert(item)
    }
}

/// What the queue holds after attempts to store each of `incoming`, first
/// to last.
pub open spec fn stored_all<T>(
    items: Multiset<Item<T>>,
    capacity: nat,
    incoming: Seq<Item<T>>,
) -> Multiset<Item<T>>
    decreases incoming.len(),
{
    if incoming.len() == 0 {
        items
    } else {
        stored(stored_all(items, capacity, incoming.drop_last()), capacity, incoming.last())
    }
}

/// `out` is a possible result of extracting from `items` once for each of
/// its entries: each entry was an earliest item of what was left.
pub open spec fn extracted<T>(items: Multiset<Item<T>>, out: Seq<Item<T>>) -> bool
    decreases out.len(),
{
    out.len() == 0 || (earliest(items, out.first()) && extracted(
        items.remove(out.first()),
        out.drop_first(),
    ))
}

/// No two of `items` carry the same timestamp.
pub open spec fn distinct_timestamps<T>(items: Multiset<Item<T>>) -> bool {
    &&& forall|a: Item<T>| items.count(a) <= 1
    &&& forall|a: Item<T>, b: Item<T>|
        items.contains(a) && items.contains(b) && a.timestamp == b.timestamp ==> a == b
}

/// Taking an item away leaves timestamps as distinct as they were.
proof fn lemma_distinct_after_removal<T>(items: Multiset<Item<T>>, item: Item<T>)
    requires
        distinct_timestamps(items),
    ensures
        distinct_timestamps(items.remove(item)),
{
    let rest = items.remove(item);
    assert forall|a: Item<T>, b: Item<T>|
        rest.contains(a) && rest.contains(b) && a.timestamp == b.timestamp implies a == b by {
        assert(items.contains(a));
        assert(items.contains(b));
    }
}

/// What was extracted was held: the entries of `out` are among `items`, each
/// as often as it occurs in `out` at most, and an `out` as long as the
/// queue holds exactly `items`.
pub proof fn lemma_extracted_were_held<T>(items: Multiset<Item<T>>, out: Seq<Item<T>>)
    requires
        extracted(items, out),
    ensures
        out.to_multiset().subset_of(items),
        out.len() == items.len() ==> out.to_multiset() == items,
    decreases out.len(),
{
    vstd::seq_lib::to_multiset_len(out);
    if out.len() > 0 {
        let head = out.first();
        let tail = out.drop_first();
        lemma_extracted_were_held(items.remove(head), tail);
        vstd::seq_lib::to_multiset_insert(tail, 0, head);
        assert(out =~= tail.insert(0, head));
    }
}

/// A queue with room for all of `incoming` keeps every one of them: it then
/// holds what it held before together with the new items.
pub proof fn lemma_stored_all_kept<T>(
    items: Multiset<Item<T>>,
    capacity: nat,
    incoming: Seq<Item<T>>,
)
    requires
        items.len() + incoming.len() <= capacity,
    ensures
        stored_all(items, capacity, incoming) == items.add(incoming.to_multiset()),
        stored_all(items, capacity, incoming).len() == items.len() + incoming.len(),
    decreases incoming.len(),
{
    vstd::seq_lib::to_multiset_len(incoming);
    if incoming.len() > 0 {
        let init = incoming.drop_last();
        lemma_stored_all_kept(items, capacity, init);
        vstd::seq_lib::to_multiset_build(init, incoming.last());
        assert(incoming =~= init.push(incoming.last()));
    }
}

/// The length after inserts: a queue that starts empty and takes `n` items,
/// `n` being no more than its capacity, then has length `n`.
pub proof fn lemma_length_after_inserts<T>(capacity: nat, incoming: Seq<Item<T>>)
    requires
        incoming.len() <= capacity,
    ensures
        stored_all(Multiset::<Item<T>>::empty(), capacity, incoming).len() == incoming.len(),
{
    lemma_stored_all_kept(Multiset::<Item<T>>::empty(), capacity, incoming);
}

/// Oldest first: of two extractions, the earlier one returns the item with
/// the smaller timestamp, or one with the same timestamp where items share
/// one. Where no two items share a timestamp the order is strict.
pub proof fn lemma_extracted_in_order<T>(
    items: Multiset<Item<T>>,
    out: Seq<Item<T>>,
    i: int,
    j: int,
)
    requires
        extracted(items, out),
        0 <= i < j < out.len(),
    ensures
        out[i].timestamp <= out[j].timestamp,
        distinct_timestamps(items) ==> out[i].timestamp < out[j].timestamp,
    decreases out.len(),
{
    let head = out.first();
    let tail = out.drop_first();
    let rest = items.remove(head);
    if i == 0 {
        lemma_extracted_were_held(rest, tail);
        vstd::seq_lib::to_multiset_contains(tail, out[j]);
        assert(tail[j - 1] == out[j]);
        assert(items.contains(out[j]));
    } else {
        lemma_extracted_in_order(rest, tail, i - 1, j - 1);
        if distinct_timestamps(items) {
            lemma_distinct_after_removal(items, head);
        }
    }
}

/// Where no two items share a timestamp, what is extracted is decided by
/// what the queue holds alone: two runs of as many extractions return the
/// same items in the same order.
pub proof fn lemma_extraction_is_determined<T>(
    items: Multiset<Item<T>>,
    one: Seq<Item<T>>,
    other: Seq<Item<T>>,
)
    requires
        distinct_timestamps(items),
        extracted(items, one),
        extracted(items, other),
        one.len() == other.len(),
    ensures
        one == other,
    decreases one.len(),
{
    if one.len() > 0 {
        let head = one.first();
        lemma_distinct_after_removal(items, head);
        lemma_extraction_is_determined(items.remove(head), one.drop_first(), other.drop_first());
        assert(one =~= seq![head] + one.drop_first());
        assert(other =~= seq![head] + other.drop_first());
    }
}

/// Timestamp order whatever the insertion order: when the same items, no
/// two of them with the same timestamp, are inserted in two different
/// orders into queues with room for all of them, repeated extraction
/// returns them in the same order both times, each strictly older than the
/// next.
pub proof fn lemma_insertion_order_is_forgotten<T>(
    capacity: nat,
    one_order: Seq<Item<T>>,
    other_order: Seq<Item<T>>,
    one_out: Seq<Item<T>>,
    other_out: Seq<Item<T>>,
)
    requires
        one_order.to_multiset() == other_order.to_multiset(),
        one_order.len() <= capacity,
        distinct_timestamps(one_order.to_multiset()),
        extracted(stored_all(Multiset::<Item<T>>::empty(), capacity, one_order), one_out),
        extracted(stored_all(Multiset::<Item<T>>::empty(), capacity, other_order), other_out),
        one_out.len() == other_out.len(),
    ensures
        one_out == other_out,
        forall|i: int, j: int|
            0 <= i < j < one_out.len() ==> one_out[i].timestamp < one_out[j].timestamp,
{
    let empty = Multiset::<Item<T>>::empty();
    vstd::seq_lib::to_multiset_len(other_order);
    lemma_stored_all_kept(empty, capacity, one_order);
    lemma_stored_all_kept(empty, capacity, other_order);
    let held = stored_all(empty, capacity, one_order);
    assert(held =~= one_order.to_multiset());
    lemma_extraction_is_determined(held, one_out, other_out);
    assert forall|i: int, j: int| 0 <= i < j < one_out.len() implies one_out[i].timestamp
        < one_out[j].timestamp by {
        lemma_extracted_in_order(held, one_out, i, j);
    }
}

/// Round trip: when `k` items, `k` being no more than the capacity, are
/// inserted into an empty queue and `k` items are then extracted, the
/// extracted items are exactly the inserted ones, payloads included, and
/// they come out in the order of their timestamps.
pub proof fn lemma_round_trip<T>(capacity: nat, incoming: Seq<Item<T>>, out: Seq<Item<T>>)
    requires
        incoming.len() <= capacity,
        out.len() == incoming.len(),
        extracted(stored_all(Multiset::<Item<T>>::empty(), capacity, incoming), out),
    ensures
        out.to_multiset() == incoming.to_multiset(),
        forall|i: int, j: int| 0 <= i < j < out.len() ==> out[i].timestamp <= out[j].timestamp,
{
    let empty = Multiset::<Item<T>>::empty();
    lemma_stored_all_kept(empty, capacity, incoming);
    let held = stored_all(empty, capacity, incoming);
    lemma_extracted_were_held(held, out);
    assert forall|i: int, j: int| 0 <= i < j < out.len() implies out[i].timestamp
        <= out[j].timestamp by {
        lemma_extracted_in_order(held, out, i, j);
    }
}

/// A full queue stays full under inserts and gets room by an extraction:
/// an attempt to store an item leaves it as it is, while taking an item
/// out leaves it no longer full.
pub proof fn lemma_full_until_extraction<T>(items: Multiset<Item<T>>, capacity: nat)
    requires
        0 < capacity,
        items.len() <= capacity,
        full(items, capacity),
    ensures
        forall|item: Item<T>| #[trigger] stored(items, capacity, item) == items,
        forall|item: Item<T>| #[trigger]
            earliest(items, item) ==> !full(items.remove(item), capacity),
{
}

/// An empty queue stays empty under extractions and gets an item by an
/// insert: there is nothing that an extraction could return, while storing
/// an item leaves it no longer empty.
pub proof fn lemma_vacant_until_insertion<T>(items: Multiset<Item<T>>, capacity: nat)
    requires
        0 < capacity,
        vacant(items),
    ensures
        forall|item: Item<T>| !#[trigger] earliest(items, item),
        forall|item: Item<T>| !vacant(#[trigger] stored(items, capacity, item)),
{
}

} // verus!
