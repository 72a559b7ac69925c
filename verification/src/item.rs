//! The items that the queue holds, and the order in which they leave it.

use std::cmp::Ordering;
use vstd::prelude::*;

verus! {

/// A payload together with the time at which it was handed to the queue
/// and a number of the caller's own.
///
/// The timestamp is a count of ticks on a clock of the caller's choosing.
/// Only the timestamp takes part in comparisons: the payload and the label
/// are carried along and never looked at. A caller whose number is not an
/// integer keeps its bit pattern in the label.
#[derive(Debug)]
pub struct Item<T> {
    pub payload: T,
    pub timestamp: u64,
    pub label: u64,
}

impl<T> Item<T> {
    /// An item that carries `payload` and `label` and was stamped at
    /// `timestamp`.
    pub fn new(payload: T, timestamp: u64, label: u64) -> (item: Self)
        ensures
            item.payload == payload,
            item.timestamp == timestamp,
            item.label == label,
    {
        Item { payload, timestamp, label }
    }

    /// How `self` ranks against `other`: the earlier item is the greater
    /// one, so that a container that hands out its greatest item hands out
    /// the oldest.
    pub open spec fn priority_order(&self, other: &Self) -> Ordering {
        if other.timestamp < self.timestamp {
            Ordering::Less
        } else if other.timestamp == self.timestamp {
            Ordering::Equal
        } else {
            Ordering::Greater
        }
    }

    /// `self` has to leave the queue before `other`: it is the older one.
    pub open spec fn precedes(&self, other: &Self) -> bool {
        self.timestamp < other.timestamp
    }

    /// Compares two items by priority: the reverse of the order of their
    /// timestamps.
    pub fn cmp(&self, other: &Self) -> (o: Ordering)
        ensures
            o == self.priority_order(other),
    {
        if other.timestamp < self.timestamp {
            Ordering::Less
        } else if other.timestamp == self.timestamp {
            Ordering::Equal
        } else {
            Ordering::Greater
        }
    }

    /// Whether `self` has the greater priority of the two, that is, whether
    /// it is the older one.
    pub fn outranks(&self, other: &Self) -> (b: bool)
        ensures
            b == self.precedes(other),
    {
        match self.cmp(other) {
            Ordering::Greater => true,
            _ => false,
        }
    }
}

impl<T> PartialEq for Item<T> {
    /// Two items are equal when they were stamped at the same time.
    fn eq(&self, other: &Self) -> (r: bool) {
        self.timestamp == other.timestamp
    }
}

impl<T> vstd::std_specs::cmp::PartialEqSpecImpl for Item<T> {
    open spec fn obeys_eq_spec() -> bool {
        true
    }

    open spec fn eq_spec(&self, other: &Self) -> bool {
        self.timestamp == other.timestamp
    }
}

impl<T> Eq for Item<T> {

}

impl<T> PartialOrd for Item<T> {
    /// Always `Some`: any two items are comparable.
    fn partial_cmp(&self, other: &Self) -> (r: Option<Ordering>) {
        Some(self.cmp(other))
    }
}

impl<T> vstd::std_specs::cmp::PartialOrdSpecImpl for Item<T> {
    open spec fn obeys_partial_cmp_spec() -> bool {
        true
    }

    open spec fn partial_cmp_spec(&self, other: &Self) -> Option<Ordering> {
        Some(self.priority_order(other))
    }
}

/// The order of priorities is a total order that reverses the order of
/// timestamps: of two items exactly one of "greater", "equal" and "less"
/// holds, turning the comparison round turns the answer round, and the
/// item that is greater than a second, which is no less than a third, is
/// greater than the third.
pub proof fn lemma_priority_is_reversed_time<T>(a: Item<T>, b: Item<T>, c: Item<T>)
    ensures
        a.priority_order(&b) == Ordering::Greater <==> a.timestamp < b.timestamp,
        a.priority_order(&b) == Ordering::Equal <==> a.timestamp == b.timestamp,
        a.priority_order(&b) == Ordering::Less <==> a.timestamp > b.timestamp,
        a.priority_order(&b) == Ordering::Greater <==> b.priority_order(&a) == Ordering::Less,
        a.priority_order(&b) == Ordering::Equal <==> b.priority_order(&a) == Ordering::Equal,
        a.priority_order(&b) == Ordering::Greater && b.priority_order(&c) != Ordering::Less
            ==> a.priority_order(&c) == Ordering::Greater,
{
}

} // verus!
