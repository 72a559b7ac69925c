//! The queue that threads share: a bounded heap behind a lock, with one
//! condition variable on which producers wait for room and consumers wait
//! for items.

use crate::error::{ErrorKind, MyError};
use crate::heap::BoundedHeap;
use crate::item::Item;
use crate::model::{earliest, full, stored, vacant};
use crate::sync::{protected, recovered, recovers};
use std::sync::{Condvar, Mutex, MutexGuard, PoisonError};
use vstd::prelude::*;

verus! {

/// The side of the queue that a thread is on.
#[derive(Clone, Copy, Debug, PartialEq, Eq, Structural)]
pub enum Role {
    /// A thread that inserts: it waits for room.
    Producer,
    /// A thread that extracts: it waits for an item.
    Consumer,
}

/// A priority queue of bounded size that any number of threads may share.
///
/// `insert` blocks while the queue is full, `extract` blocks while it is
/// empty, and neither polls: a blocked thread sleeps on the condition
/// variable until another thread has changed the queue.
#[derive(Debug)]
#[verifier::reject_recursive_types(T)]
pub struct MyStruct<T> {
    shared: Mutex<BoundedHeap<T>>,
    cv: Condvar,
    capacity: usize,
}

/// `Condvar::wait_while` of the standard library, with `MyStruct::must_wait`
/// for the given role as its condition: while the condition holds of the
/// heap it gives up the lock and sleeps, and each time it is woken (by a
/// notification or for no reason) it takes the lock again and looks anew.
/// It returns the guard once the condition is false, or inside an error as
/// soon as it finds the lock poisoned; it does not return for as long as no
/// other thread brings either about. The standard library may panic where
/// one condition variable is used with several locks: the queue uses its
/// own with its own lock alone. Nothing is claimed of the heap behind the
/// returned guard: the caller looks again.
#[verifier::external_body]
fn wait_while<'a, T>(cv: &Condvar, guard: MutexGuard<'a, BoundedHeap<T>>, role: Role) -> Result<
    MutexGuard<'a, BoundedHeap<T>>,
    PoisonError<MutexGuard<'a, BoundedHeap<T>>>,
> {
    cv.wait_while(guard, |heap| MyStruct::<T>::must_wait(heap, role))
}

/// What the fault-injection helper reports of a computation that ended as
/// `completed`: the sentinel where it ran to its end, whatever it returned,
/// and an error where it aborted.
pub open spec fn verdict<T, E>(completed: Result<T, E>, sentinel: T) -> Result<T, MyError> {
    match completed {
        Ok(_) => Ok(sentinel),
        Err(_) => Err(MyError { kind: ErrorKind::FaultInjectionAborted }),
    }
}

impl<T> MyStruct<T> {
    /// The capacity that the queue was made with.
    pub closed spec fn spec_capacity(&self) -> usize {
        self.capacity
    }

    /// `guard` is what a thread in the given role holds when its wait is
    /// over: it has asked for this queue's lock and has then waited on this
    /// queue's condition variable, with `must_wait` for its role as the
    /// condition. The guard is the outcome of those two calls, whatever
    /// they gave.
    pub closed spec fn acquired(&self, role: Role, guard: MutexGuard<BoundedHeap<T>>) -> bool {
        exists|
            locked: Result<
                MutexGuard<BoundedHeap<T>>,
                PoisonError<MutexGuard<BoundedHeap<T>>>,
            >,
            first: MutexGuard<BoundedHeap<T>>,
            woken: Result<MutexGuard<BoundedHeap<T>>, PoisonError<MutexGuard<BoundedHeap<T>>>>,
        |
            call_ensures(Mutex::<BoundedHeap<T>>::lock, (&self.shared,), locked) && recovers(
                locked,
                first,
            ) && call_ensures(wait_while::<T>, (&self.cv, first, role), woken) && recovers(
                woken,
                guard,
            )
    }

    /// `heap` is the heap that a thread in the given role finds behind this
    /// queue's lock when its wait is over, borrowed for the thread to work
    /// on: `*heap` is the heap as found, `*final(heap)` the heap as the
    /// thread leaves it to the others.
    pub closed spec fn found(&self, role: Role, heap: &mut BoundedHeap<T>) -> bool {
        exists|guard: MutexGuard<BoundedHeap<T>>, cell: &mut MutexGuard<BoundedHeap<T>>|
            self.acquired(role, guard) && *cell == guard && call_ensures(
                protected::<BoundedHeap<T>>,
                (cell,),
                heap,
            )
    }

    /// Asks for the lock and then waits on the condition variable in the
    /// given role; the guard that comes back is handed on, poisoned or not.
    fn acquire(&self, role: Role) -> (guard: MutexGuard<'_, BoundedHeap<T>>)
        ensures
            self.acquired(role, guard),
    {
        let first = recovered(self.shared.lock());
        recovered(wait_while(&self.cv, first, role))
    }

    /// An empty queue with room for `capacity` items. A capacity of zero is
    /// refused: every insert into such a queue would block for ever.
    pub fn new(capacity: usize) -> (r: Result<Self, MyError>)
        ensures
            capacity == 0 <==> r is Err,
            r matches Err(e) ==> e.kind == ErrorKind::InvalidCapacity,
            r matches Ok(queue) ==> queue.capacity() == capacity,
    {
        match BoundedHeap::new(capacity) {
            Ok(heap) => Ok(MyStruct { shared: Mutex::new(heap), cv: Condvar::new(), capacity }),
            Err(e) => Err(e),
        }
    }

    /// The capacity that the queue was made with.
    #[verifier::when_used_as_spec(spec_capacity)]
    pub fn capacity(&self) -> (c: usize)
        ensures
            c == self.spec_capacity(),
    {
        self.capacity
    }

    /// Whether a thread in the given role has to wait on a queue in the
    /// given state: a producer while the queue is full, a consumer while it
    /// is empty.
    pub fn must_wait(heap: &BoundedHeap<T>, role: Role) -> (wait: bool)
        ensures
            wait == match role {
                Role::Producer => full(heap@, heap.capacity() as nat),
                Role::Consumer => vacant(heap@),
            },
            wait == match role {
                Role::Producer => heap@.len() == heap.capacity(),
                Role::Consumer => heap@.len() == 0,
            },
    {
        match role {
            Role::Producer => heap.is_full(),
            Role::Consumer => heap.is_empty(),
        }
    }

    /// What a producer does once it holds the lock: it notes the length,
    /// stores the item, and succeeds if the length has grown by exactly one.
    /// On a full queue, where a producer is not supposed to get this far,
    /// nothing is stored, the length stays, and the result is an error.
    pub fn store(heap: &mut BoundedHeap<T>, item: Item<T>) -> (r: Result<(), MyError>)
        ensures
            final(heap)@ == stored(old(heap)@, old(heap).capacity() as nat, item),
            final(heap).capacity() == old(heap).capacity(),
            r is Err <==> full(old(heap)@, old(heap).capacity() as nat),
            r matches Err(e) ==> e.kind == ErrorKind::QueueInvariantViolation,
    {
        let before: usize = heap.len();
        let _ = heap.push(item);
        let after: usize = heap.len();
        if after > before && after - before == 1 {
            Ok(())
        } else {
            Err(MyError::new(ErrorKind::QueueInvariantViolation))
        }
    }

    /// What a consumer does once it holds the lock: it removes the oldest
    /// item. On an empty queue, where a consumer is not supposed to get
    /// this far, there is nothing to remove and the queue stays as it is.
    pub fn take(heap: &mut BoundedHeap<T>) -> (r: Result<Item<T>, MyError>)
        ensures
            final(heap).capacity() == old(heap).capacity(),
            r is Err <==> vacant(old(heap)@),
            r matches Ok(item) ==> earliest(old(heap)@, item) && final(heap)@ == old(
                heap,
            )@.remove(item),
            r matches Err(e) ==> e.kind == ErrorKind::QueueInvariantViolation && final(heap)@
                == old(heap)@,
    {
        match heap.pop() {
            Some(item) => Ok(item),
            None => Err(MyError::new(ErrorKind::QueueInvariantViolation)),
        }
    }

    /// Turns the way a computation ended into the helper's report.
    pub fn report<E>(completed: Result<T, E>, sentinel: T) -> (r: Result<T, MyError>)
        ensures
            r == verdict(completed, sentinel),
    {
        match completed {
            Ok(_) => Ok(sentinel),
            Err(_) => Err(MyError::new(ErrorKind::FaultInjectionAborted)),
        }
    }

    /// Runs the computation `f`, which says by an `Err` that it aborted,
    /// and reports how it ended: `t` where it completed, an error where it
    /// aborted. The queue plays no part in this.
    pub fn test_panic<E, F: FnOnce() -> Result<T, E>>(f: F, t: T) -> (r: Result<T, MyError>)
        requires
            f.requires(()),
        ensures
            exists|completed: Result<T, E>| f.ensures((), completed) && r == verdict(completed, t),
    {
        let completed = f();
        Self::report(completed, t)
    }

    /// Inserts `item`, waiting first for as long as the queue is full, and
    /// wakes every waiting thread afterwards.
    ///
    /// The insert works on the heap that it finds behind the lock when its
    /// wait as a producer is over, and does to it what `store` does: the
    /// item joins the others and the result is `Ok`, unless that heap is
    /// full, which leaves it as it is and gives the error.
    pub fn insert(&self, item: Item<T>) -> (r: Result<(), MyError>)
        ensures
            r matches Err(e) ==> e.kind == ErrorKind::QueueInvariantViolation,
            (exists|heap: &mut BoundedHeap<T>|
                {
                    &&& self.found(Role::Producer, heap)
                    &&& (*final(heap))@ == stored((*heap)@, (*heap).capacity() as nat, item)
                    &&& (*final(heap)).capacity() == (*heap).capacity()
                    &&& r is Err <==> full((*heap)@, (*heap).capacity() as nat)
                }),
    {
        let mut guard = self.acquire(Role::Producer);
        let heap = protected(&mut guard);
        let ghost heap_as = heap;
        assert(self.found(Role::Producer, heap_as));
        let r = Self::store(heap, item);
        self.cv.notify_all();
        r
    }

    /// Extracts the oldest item, waiting first for as long as the queue is
    /// empty, and wakes every waiting thread once an item has left.
    ///
    /// The extraction works on the heap that it finds behind the lock when
    /// its wait as a consumer is over, and does to it what `take` does: an
    /// item that none in that heap is older than leaves it and is returned,
    /// unless that heap is empty, which leaves it as it is and gives the
    /// error.
    pub fn extract(&self) -> (r: Result<Item<T>, MyError>)
        ensures
            r matches Err(e) ==> e.kind == ErrorKind::QueueInvariantViolation,
            (exists|heap: &mut BoundedHeap<T>|
                {
                    &&& self.found(Role::Consumer, heap)
                    &&& (*final(heap)).capacity() == (*heap).capacity()
                    &&& r is Err <==> vacant((*heap)@)
                    &&& r matches Ok(item) ==> earliest((*heap)@, item)
                    &&& r matches Ok(item) ==> (*final(heap))@ == (*heap)@.remove(item)
                    &&& r is Err ==> (*final(heap))@ == (*heap)@
                }),
    {
        let mut guard = self.acquire(Role::Consumer);
        let heap = protected(&mut guard);
        let ghost heap_as = heap;
        assert(self.found(Role::Consumer, heap_as));
        match Self::take(heap) {
            Ok(item) => {
                self.cv.notify_all();
                Ok(item)
            },
            Err(e) => Err(e),
        }
    }
}

} // verus!
