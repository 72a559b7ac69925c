//! The container behind the queue: a binary heap of bounded size that
//! hands out its oldest item first.

use crate::error::{ErrorKind, MyError};
use crate::item::Item;
use crate::model::{earliest, full, stored, vacant};
use vstd::multiset::Multiset;
use vstd::prelude::*;

verus! {

/// `<[T]>::swap` of the standard library: the elements at `a` and `b` change
/// places and every other element stays where it is. It panics when an
/// index is out of bounds, which the precondition rules out.
pub assume_specification<V>[ <[V]>::swap ](slice: &mut [V], a: usize, b: usize)
    requires
        a < old(slice)@.len(),
        b < old(slice)@.len(),
    ensures
        final(slice)@ == exchanged(old(slice)@, a as int, b as int),
;

/// `s` with the elements at `a` and `b` exchanged.
pub open spec fn exchanged<A>(s: Seq<A>, a: int, b: int) -> Seq<A> {
    s.update(a, s[b]).update(b, s[a])
}

/// The slot above slot `i` in the tree that the slots of a heap form.
spec fn parent(i: int) -> int {
    (i - 1) / 2
}

/// The item in slot `a` is no younger than the one in slot `b`.
spec fn not_younger<T>(s: Seq<Item<T>>, a: int, b: int) -> bool {
    s[a].timestamp <= s[b].timestamp
}

/// The item in slot `i` is no older than the one in the slot above it.
spec fn settled<T>(s: Seq<Item<T>>, i: int) -> bool {
    not_younger(s, parent(i), i)
}

/// The heap order: every item but the one in the first slot is settled.
spec fn ordered<T>(s: Seq<Item<T>>) -> bool {
    forall|i: int| 0 < i < s.len() ==> #[trigger] settled(s, i)
}

/// The heap order but for slot `k`, whose item may be older than the one
/// above it; the items below `k` are settled even with respect to the slot
/// above `k`.
spec fn ordered_but_rising<T>(s: Seq<Item<T>>, k: int) -> bool {
    &&& forall|i: int| 0 < i < s.len() && i != k ==> #[trigger] settled(s, i)
    &&& forall|i: int|
        0 < k && 0 < i < s.len() && parent(i) == k ==> #[trigger] not_younger(s, parent(k), i)
}

/// The heap order but for slot `k`, whose item may be younger than the ones
/// below it; the items below `k` are settled with respect to the slot above
/// `k`.
spec fn ordered_but_sinking<T>(s: Seq<Item<T>>, k: int) -> bool {
    &&& forall|i: int| 0 < i < s.len() && parent(i) != k ==> #[trigger] settled(s, i)
    &&& forall|i: int|
        0 < k && 0 < i < s.len() && parent(i) == k ==> #[trigger] not_younger(s, parent(k), i)
}

/// Exchanging two elements keeps the same elements.
proof fn lemma_exchange_keeps_items<A>(s: Seq<A>, a: int, b: int)
    requires
        0 <= a < s.len(),
        0 <= b < s.len(),
    ensures
        exchanged(s, a, b).to_multiset() == s.to_multiset(),
        exchanged(s, a, b).len() == s.len(),
{
    let half = s.update(a, s[b]);
    vstd::seq_lib::to_multiset_update(s, a, s[b]);
    vstd::seq_lib::to_multiset_update(half, b, s[a]);
    vstd::seq_lib::to_multiset_contains(s, s[a]);
}

/// In a heap, nothing is older than the item in the first slot.
proof fn lemma_first_is_oldest<T>(s: Seq<Item<T>>, i: int)
    requires
        ordered(s),
        0 <= i < s.len(),
    ensures
        s[0].timestamp <= s[i].timestamp,
    decreases i,
{
    if i > 0 {
        assert(settled(s, i));
        lemma_first_is_oldest(s, parent(i));
    }
}

/// One step up: when the item in slot `k` is older than the one above it,
/// exchanging the two leaves only the slot above to be looked at.
proof fn lemma_rise<T>(s: Seq<Item<T>>, k: int)
    requires
        0 < k < s.len(),
        ordered_but_rising(s, k),
        s[k].timestamp < s[parent(k)].timestamp,
    ensures
        ordered_but_rising(exchanged(s, parent(k), k), parent(k)),
{
    let p = parent(k);
    let t = exchanged(s, p, k);
    assert forall|i: int| 0 < i < t.len() && i != p implies #[trigger] settled(t, i) by {
        if i == k {
        } else if parent(i) == k {
            assert(not_younger(s, p, i));
        } else {
            assert(settled(s, i));
        }
    }
    assert forall|i: int| 0 < p && 0 < i < t.len() && parent(i) == p implies #[trigger] not_younger(
        t,
        parent(p),
        i,
    ) by {
        assert(settled(s, p));
        if i != k {
            assert(settled(s, i));
        }
    }
}

/// One step down: when the younger of the items below slot `k` sits in slot
/// `c` and is older than the item in `k`, exchanging the two leaves only
/// slot `c` to be looked at.
proof fn lemma_sink<T>(s: Seq<Item<T>>, k: int, c: int)
    requires
        0 <= k < c < s.len(),
        parent(c) == k,
        ordered_but_sinking(s, k),
        s[c].timestamp < s[k].timestamp,
        forall|i: int| 0 < i < s.len() && parent(i) == k ==> #[trigger] not_younger(s, c, i),
    ensures
        ordered_but_sinking(exchanged(s, k, c), c),
{
    let t = exchanged(s, k, c);
    assert forall|i: int| 0 < i < t.len() && parent(i) != c implies #[trigger] settled(t, i) by {
        if i == c {
        } else if parent(i) == k {
            assert(not_younger(s, c, i));
        } else if i == k {
            assert(not_younger(s, parent(k), c));
        } else {
            assert(settled(s, i));
        }
    }
    assert forall|i: int| 0 < c && 0 < i < t.len() && parent(i) == c implies #[trigger] not_younger(
        t,
        parent(c),
        i,
    ) by {
        assert(settled(s, i));
    }
}

/// Moves the item in slot `start` up until the heap order holds again.
fn sift_up<T>(slots: &mut Vec<Item<T>>, start: usize)
    requires
        start < old(slots)@.len(),
        ordered_but_rising(old(slots)@, start as int),
    ensures
        ordered(final(slots)@),
        final(slots)@.to_multiset() == old(slots)@.to_multiset(),
        final(slots)@.len() == old(slots)@.len(),
{
    let mut k: usize = start;
    while k > 0 && slots[k].outranks(&slots[(k - 1) / 2])
        invariant
            k < slots@.len(),
            slots@.len() == old(slots)@.len(),
            slots@.to_multiset() == old(slots)@.to_multiset(),
            ordered_but_rising(slots@, k as int),
        decreases k,
    {
        let p: usize = (k - 1) / 2;
        proof {
            lemma_exchange_keeps_items(slots@, p as int, k as int);
            lemma_rise(slots@, k as int);
        }
        slots.swap(p, k);
        k = p;
    }
}

/// Moves the item in the first slot down until the heap order holds again.
fn sift_down<T>(slots: &mut Vec<Item<T>>)
    requires
        ordered_but_sinking(old(slots)@, 0),
    ensures
        ordered(final(slots)@),
        final(slots)@.to_multiset() == old(slots)@.to_multiset(),
        final(slots)@.len() == old(slots)@.len(),
{
    let n: usize = slots.len();
    let mut k: usize = 0;
    let mut done: bool = false;
    while !done && k < n / 2
        invariant
            n == slots@.len(),
            slots@.len() == old(slots)@.len(),
            slots@.to_multiset() == old(slots)@.to_multiset(),
            done ==> ordered(slots@),
            !done ==> ordered_but_sinking(slots@, k as int),
        decreases
            (if done {
                0
            } else {
                n - k
            }),
    {
        let left: usize = 2 * k + 1;
        let right: usize = left + 1;
        let mut c: usize = left;
        if right < n && slots[right].outranks(&slots[left]) {
            c = right;
        }
        if slots[c].outranks(&slots[k]) {
            proof {
                lemma_exchange_keeps_items(slots@, k as int, c as int);
                lemma_sink(slots@, k as int, c as int);
            }
            slots.swap(k, c);
            k = c;
        } else {
            done = true;
        }
    }
}

/// A binary heap of at most `capacity` items, ordered so that the item
/// with the smallest timestamp is the one that `pop` hands out.
///
/// Its view is the multiset of the items it holds.
#[derive(Debug)]
pub struct BoundedHeap<T> {
    slots: Vec<Item<T>>,
    capacity: usize,
}

impl<T> View for BoundedHeap<T> {
    type V = Multiset<Item<T>>;

    open spec fn view(&self) -> Multiset<Item<T>> {
        self.items()
    }
}

impl<T> BoundedHeap<T> {
    #[verifier::type_invariant]
    spec fn well_formed(self) -> bool {
        &&& 0 < self.capacity
        &&& self.slots@.len() <= self.capacity
        &&& ordered(self.slots@)
    }

    /// The items held, without regard to where they are stored.
    pub closed spec fn items(&self) -> Multiset<Item<T>> {
        self.slots@.to_multiset()
    }

    /// The number of items that the heap has room for.
    pub closed spec fn spec_capacity(&self) -> usize {
        self.capacity
    }

    /// An empty heap with room for `capacity` items. A heap without room
    /// for a single item is refused.
    pub fn new(capacity: usize) -> (r: Result<Self, MyError>)
        ensures
            capacity == 0 <==> r is Err,
            r matches Err(e) ==> e.kind == ErrorKind::InvalidCapacity,
            r matches Ok(heap) ==> heap@ == Multiset::<Item<T>>::empty() && heap.capacity()
                == capacity,
    {
        if capacity == 0 {
            return Err(MyError::new(ErrorKind::InvalidCapacity));
        }
        let heap = BoundedHeap { slots: Vec::new(), capacity };
        proof {
            vstd::seq_lib::to_multiset_len(heap.slots@);
        }
        Ok(heap)
    }

    /// The number of items that the heap has room for; never zero.
    #[verifier::when_used_as_spec(spec_capacity)]
    pub fn capacity(&self) -> (c: usize)
        ensures
            c == self.spec_capacity(),
            c > 0,
    {
        proof {
            use_type_invariant(self);
        }
        self.capacity
    }

    /// The number of items held; never more than the capacity.
    pub fn len(&self) -> (n: usize)
        ensures
            n == self@.len(),
            n <= self.capacity(),
    {
        proof {
            use_type_invariant(self);
            vstd::seq_lib::to_multiset_len(self.slots@);
        }
        self.slots.len()
    }

    /// Whether the heap holds nothing.
    pub fn is_empty(&self) -> (b: bool)
        ensures
            b == vacant(self@),
    {
        proof {
            vstd::seq_lib::to_multiset_len(self.slots@);
        }
        self.slots.len() == 0
    }

    /// Whether the heap holds as many items as it has room for.
    pub fn is_full(&self) -> (b: bool)
        ensures
            b == full(self@, self.capacity() as nat),
            b == (self@.len() == self.capacity()),
    {
        proof {
            use_type_invariant(self);
            vstd::seq_lib::to_multiset_len(self.slots@);
        }
        self.slots.len() == self.capacity
    }

    /// Stores `item` unless the heap is full. A full heap stays as it is
    /// and hands the item back.
    pub fn push(&mut self, item: Item<T>) -> (rejected: Option<Item<T>>)
        ensures
            final(self)@ == stored(old(self)@, old(self).capacity() as nat, item),
            final(self).capacity() == old(self).capacity(),
            rejected == if full(old(self)@, old(self).capacity() as nat) {
                Some(item)
            } else {
                None
            },
    {
        proof {
            use_type_invariant(&*self);
            vstd::seq_lib::to_multiset_len(self.slots@);
        }
        if self.slots.len() == self.capacity {
            return Some(item);
        }
        let mut slots: Vec<Item<T>> = Vec::new();
        std::mem::swap(&mut slots, &mut self.slots);
        let last: usize = slots.len();
        proof {
            vstd::seq_lib::to_multiset_build(slots@, item);
            let grown = slots@.push(item);
            assert forall|i: int| 0 < i < grown.len() && i != last implies #[trigger] settled(
                grown,
                i,
            ) by {
                assert(settled(slots@, i));
            }
        }
        slots.push(item);
        sift_up(&mut slots, last);
        self.slots = slots;
        None
    }

    /// Removes and returns an item that no other item is older than, or
    /// `None` when the heap is empty.
    pub fn pop(&mut self) -> (r: Option<Item<T>>)
        ensures
            final(self).capacity() == old(self).capacity(),
            r is Some <==> !vacant(old(self)@),
            r matches Some(item) ==> earliest(old(self)@, item) && final(self)@ == old(
                self,
            )@.remove(item),
            r is None ==> final(self)@ == old(self)@,
    {
        proof {
            use_type_invariant(&*self);
            vstd::seq_lib::to_multiset_len(self.slots@);
        }
        if self.slots.len() == 0 {
            return None;
        }
        let mut slots: Vec<Item<T>> = Vec::new();
        std::mem::swap(&mut slots, &mut self.slots);
        let ghost held = slots@;
        let item = slots.swap_remove(0);
        proof {
            lemma_leaves_first(held);
            assert forall|other: Item<T>| held.to_multiset().contains(other) implies item.timestamp
                <= other.timestamp by {
                vstd::seq_lib::to_multiset_contains(held, other);
                let i = choose|i: int| 0 <= i < held.len() && held[i] == other;
                lemma_first_is_oldest(held, i);
            }
            vstd::seq_lib::to_multiset_contains(held, item);
            assert forall|i: int| 0 < i < slots@.len() && parent(i) != 0 implies #[trigger] settled(
                slots@,
                i,
            ) by {
                assert(settled(held, i));
            }
        }
        sift_down(&mut slots);
        self.slots = slots;
        Some(item)
    }
}

/// Putting the last element in the place of the first and dropping the
/// last slot removes exactly the first element.
proof fn lemma_leaves_first<A>(s: Seq<A>)
    requires
        s.len() > 0,
    ensures
        s.update(0, s.last()).drop_last().to_multiset() == s.to_multiset().remove(s[0]),
{
    let moved = s.update(0, s.last());
    let n = s.len() as int;
    vstd::seq_lib::to_multiset_update(s, 0, s.last());
    vstd::seq_lib::to_multiset_remove(moved, n - 1);
}

} // verus!
