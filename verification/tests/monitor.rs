use monitor_queue::error::{ErrorKind, MyError};
use monitor_queue::heap::BoundedHeap;
use monitor_queue::item::Item;
use monitor_queue::monitor::{MyStruct, Role};

#[test]
fn queue_refuses_zero_capacity() {
    match MyStruct::<u8>::new(0) {
        Ok(_) => panic!("a queue without room was made"),
        Err(e) => assert_eq!(e, MyError::new(ErrorKind::InvalidCapacity)),
    }
}

#[test]
fn queue_keeps_its_capacity() {
    assert_eq!(MyStruct::<u8>::new(4).unwrap().capacity(), 4);
    assert_eq!(MyStruct::<u8>::new(1).unwrap().capacity(), 1);
}

#[test]
fn insert_succeeds_while_there_is_room() {
    let queue = MyStruct::new(4).unwrap();
    for k in 0..4u64 {
        assert_eq!(queue.insert(Item::new(k, k, 0)), Ok(()));
    }
}

#[test]
fn queue_of_four_returns_timestamp_order() {
    let (t1, t2, t3, t4) = (11u64, 12u64, 13u64, 14u64);
    let queue = MyStruct::new(4).unwrap();
    for stamp in [t3, t1, t4, t2] {
        assert!(queue.insert(Item::new(stamp + 100, stamp, 0)).is_ok());
    }
    for stamp in [t1, t2, t3, t4] {
        let item = queue.extract().unwrap();
        assert_eq!(item.timestamp, stamp);
        assert_eq!(item.payload, stamp + 100);
    }
}

#[test]
fn queue_round_trip_in_two_rounds() {
    let queue = MyStruct::new(3).unwrap();
    for round in 0..2u64 {
        for stamp in [30 + round, 10 + round, 20 + round] {
            assert!(queue.insert(Item::new(format!("r{}s{}", round, stamp), stamp, 0)).is_ok());
        }
        for stamp in [10 + round, 20 + round, 30 + round] {
            let item = queue.extract().unwrap();
            assert_eq!(item.timestamp, stamp);
            assert_eq!(item.payload, format!("r{}s{}", round, stamp));
        }
    }
}

#[test]
fn producer_waits_exactly_while_full() {
    let mut heap = BoundedHeap::new(2).unwrap();
    assert!(!MyStruct::must_wait(&heap, Role::Producer));
    assert!(heap.push(Item::new('a', 1, 0)).is_none());
    assert!(!MyStruct::must_wait(&heap, Role::Producer));
    assert!(heap.push(Item::new('b', 2, 0)).is_none());
    assert!(MyStruct::must_wait(&heap, Role::Producer));
    assert!(heap.pop().is_some());
    assert!(!MyStruct::must_wait(&heap, Role::Producer));
}

#[test]
fn consumer_waits_exactly_while_empty() {
    let mut heap = BoundedHeap::new(2).unwrap();
    assert!(MyStruct::must_wait(&heap, Role::Consumer));
    assert!(heap.push(Item::new('a', 1, 0)).is_none());
    assert!(!MyStruct::must_wait(&heap, Role::Consumer));
    assert!(heap.pop().is_some());
    assert!(MyStruct::must_wait(&heap, Role::Consumer));
}

#[test]
fn store_grows_the_heap_by_one() {
    let mut heap = BoundedHeap::new(2).unwrap();
    assert_eq!(MyStruct::store(&mut heap, Item::new("a", 8, 0)), Ok(()));
    assert_eq!(heap.len(), 1);
    assert_eq!(MyStruct::store(&mut heap, Item::new("b", 7, 0)), Ok(()));
    assert_eq!(heap.len(), 2);
}

#[test]
fn store_on_full_heap_is_a_violation() {
    let mut heap = BoundedHeap::new(1).unwrap();
    assert_eq!(MyStruct::store(&mut heap, Item::new("a", 8, 0)), Ok(()));
    assert_eq!(
        MyStruct::store(&mut heap, Item::new("b", 7, 0)),
        Err(MyError::new(ErrorKind::QueueInvariantViolation))
    );
    assert_eq!(heap.len(), 1);
    assert_eq!(heap.pop().unwrap().payload, "a");
}

#[test]
fn take_returns_the_oldest() {
    let mut heap = BoundedHeap::new(3).unwrap();
    for (payload, stamp) in [("c", 3u64), ("a", 1), ("b", 2)] {
        assert!(MyStruct::store(&mut heap, Item::new(payload, stamp, 0)).is_ok());
    }
    let item = MyStruct::take(&mut heap).unwrap();
    assert_eq!((item.payload, item.timestamp), ("a", 1));
    assert_eq!(heap.len(), 2);
}

#[test]
fn take_on_empty_heap_is_a_violation() {
    let mut heap = BoundedHeap::<u8>::new(3).unwrap();
    match MyStruct::take(&mut heap) {
        Ok(_) => panic!("an empty heap gave an item"),
        Err(e) => assert_eq!(e.kind(), ErrorKind::QueueInvariantViolation),
    }
    assert_eq!(heap.len(), 0);
}

#[test]
fn third_producer_has_to_wait_for_one_extraction() {
    let mut heap = BoundedHeap::new(2).unwrap();
    assert!(MyStruct::store(&mut heap, Item::new(1u8, 50, 0)).is_ok());
    assert!(MyStruct::store(&mut heap, Item::new(2u8, 40, 0)).is_ok());
    assert!(MyStruct::must_wait(&heap, Role::Producer));
    assert_eq!(MyStruct::take(&mut heap).unwrap().payload, 2);
    assert!(!MyStruct::must_wait(&heap, Role::Producer));
    assert_eq!(MyStruct::store(&mut heap, Item::new(3u8, 60, 0)), Ok(()));
    assert!(MyStruct::must_wait(&heap, Role::Producer));
}

#[test]
fn aborted_computation_is_reported() {
    let r = MyStruct::<u32>::test_panic(|| Err::<u32, &str>("aborted on purpose"), 7);
    assert_eq!(r, Err(MyError::new(ErrorKind::FaultInjectionAborted)));
}

#[test]
fn completed_computation_yields_the_sentinel() {
    let r = MyStruct::<u32>::test_panic(|| Ok::<u32, &str>(99), 7);
    assert_eq!(r, Ok(7));
}

#[test]
fn report_follows_the_way_the_computation_ended() {
    assert_eq!(MyStruct::<char>::report(Ok::<char, ()>('x'), 's'), Ok('s'));
    assert_eq!(
        MyStruct::<char>::report(Err::<char, u8>(3), 's'),
        Err(MyError::new(ErrorKind::FaultInjectionAborted))
    );
}
