use monitor_queue::error::ErrorKind;
use monitor_queue::heap::BoundedHeap;
use monitor_queue::item::Item;

fn heap_of(capacity: usize, stamps: &[u64]) -> BoundedHeap<String> {
    let mut heap = BoundedHeap::new(capacity).unwrap();
    for &stamp in stamps {
        assert!(heap.push(Item::new(format!("p{}", stamp), stamp, 0)).is_none());
    }
    heap
}

fn drain(heap: &mut BoundedHeap<String>) -> Vec<(u64, String)> {
    let mut out = Vec::new();
    while let Some(item) = heap.pop() {
        out.push((item.timestamp, item.payload));
    }
    out
}

#[test]
fn heap_refuses_zero_capacity() {
    match BoundedHeap::<u8>::new(0) {
        Ok(_) => panic!("a heap without room was made"),
        Err(e) => assert_eq!(e.kind(), ErrorKind::InvalidCapacity),
    }
}

#[test]
fn new_heap_is_empty_and_not_full() {
    let heap = BoundedHeap::<u8>::new(4).unwrap();
    assert_eq!(heap.len(), 0);
    assert_eq!(heap.capacity(), 4);
    assert!(heap.is_empty());
    assert!(!heap.is_full());
}

#[test]
fn heap_of_capacity_one_is_full_after_one_push() {
    let mut heap = BoundedHeap::new(1).unwrap();
    assert!(heap.push(Item::new('a', 9, 0)).is_none());
    assert!(heap.is_full());
    assert!(!heap.is_empty());
    assert_eq!(heap.len(), 1);
}

#[test]
fn length_after_n_pushes_is_n() {
    for n in 0..=4usize {
        let mut heap = BoundedHeap::new(4).unwrap();
        for k in 0..n {
            assert!(heap.push(Item::new(k, 100 - k as u64, 0)).is_none());
        }
        assert_eq!(heap.len(), n);
        assert_eq!(heap.is_full(), n == 4);
        assert_eq!(heap.is_empty(), n == 0);
    }
}

#[test]
fn push_on_full_heap_hands_the_item_back() {
    let mut heap = heap_of(2, &[5, 3]);
    let rejected = heap.push(Item::new(String::from("late"), 1, 0));
    let rejected = rejected.expect("a full heap took an item");
    assert_eq!(rejected.payload, "late");
    assert_eq!(rejected.timestamp, 1);
    assert_eq!(heap.len(), 2);
    assert_eq!(drain(&mut heap), vec![(3, String::from("p3")), (5, String::from("p5"))]);
}

#[test]
fn pop_on_empty_heap_is_none() {
    let mut heap = BoundedHeap::<u8>::new(3).unwrap();
    assert!(heap.pop().is_none());
    assert_eq!(heap.len(), 0);
}

#[test]
fn four_items_leave_in_timestamp_order() {
    let (t1, t2, t3, t4) = (10u64, 20u64, 30u64, 40u64);
    let mut heap = heap_of(4, &[t3, t1, t4, t2]);
    assert_eq!(heap.len(), 4);
    assert_eq!(
        drain(&mut heap),
        vec![
            (t1, String::from("p10")),
            (t2, String::from("p20")),
            (t3, String::from("p30")),
            (t4, String::from("p40")),
        ]
    );
    assert!(heap.is_empty());
}

#[test]
fn round_trip_returns_the_payloads_by_timestamp() {
    let mut heap = BoundedHeap::new(8).unwrap();
    let incoming = [(7u64, "g", 70u64), (2, "b", 20), (5, "e", 50), (1, "a", 10), (3, "c", 30)];
    for (stamp, payload, label) in incoming {
        assert!(heap.push(Item::new(payload, stamp, label)).is_none());
    }
    let mut out = Vec::new();
    for _ in 0..incoming.len() {
        let item = heap.pop().unwrap();
        out.push((item.timestamp, item.payload, item.label));
    }
    assert_eq!(out, vec![(1, "a", 10), (2, "b", 20), (3, "c", 30), (5, "e", 50), (7, "g", 70)]);
    assert!(heap.pop().is_none());
}

#[test]
fn many_items_leave_strictly_increasing() {
    let n: u64 = 257;
    let mut heap = BoundedHeap::new(n as usize).unwrap();
    for k in 0..n {
        let stamp = (k * 101) % n;
        assert!(heap.push(Item::new(stamp * 2, stamp, 0)).is_none());
    }
    assert!(heap.is_full());
    for expected in 0..n {
        let item = heap.pop().unwrap();
        assert_eq!(item.timestamp, expected);
        assert_eq!(item.payload, expected * 2);
    }
    assert!(heap.is_empty());
}

#[test]
fn insertion_order_does_not_show() {
    let orders: [[u64; 4]; 4] = [[1, 2, 3, 4], [4, 3, 2, 1], [2, 4, 1, 3], [3, 1, 4, 2]];
    for order in orders {
        let mut heap = heap_of(4, &order);
        let stamps: Vec<u64> = drain(&mut heap).into_iter().map(|(stamp, _)| stamp).collect();
        assert_eq!(stamps, vec![1, 2, 3, 4]);
    }
}

#[test]
fn items_with_one_timestamp_all_leave() {
    let mut heap = BoundedHeap::new(5).unwrap();
    for (payload, stamp) in [("x", 4u64), ("y", 2), ("z", 4), ("w", 2), ("v", 3)] {
        assert!(heap.push(Item::new(payload, stamp, 100 - stamp)).is_none());
    }
    let mut stamps = Vec::new();
    let mut payloads = Vec::new();
    while let Some(item) = heap.pop() {
        stamps.push(item.timestamp);
        payloads.push(item.payload);
    }
    assert_eq!(stamps, vec![2, 2, 3, 4, 4]);
    payloads.sort();
    assert_eq!(payloads, vec!["v", "w", "x", "y", "z"]);
}

#[test]
fn pushes_and_pops_may_alternate() {
    let mut heap = heap_of(3, &[9, 4]);
    assert_eq!(heap.pop().unwrap().timestamp, 4);
    assert!(heap.push(Item::new(String::from("n"), 1, 0)).is_none());
    assert!(heap.push(Item::new(String::from("m"), 6, 0)).is_none());
    assert!(heap.is_full());
    assert_eq!(heap.pop().unwrap().timestamp, 1);
    assert_eq!(heap.pop().unwrap().timestamp, 6);
    assert_eq!(heap.pop().unwrap().timestamp, 9);
    assert!(heap.pop().is_none());
}

#[test]
fn extreme_timestamps_are_ordered() {
    let mut heap = heap_of(3, &[u64::MAX, 0, u64::MAX - 1]);
    let stamps: Vec<u64> = drain(&mut heap).into_iter().map(|(stamp, _)| stamp).collect();
    assert_eq!(stamps, vec![0, u64::MAX - 1, u64::MAX]);
}

fn permutations(stamps: &mut Vec<u64>, from: usize, out: &mut Vec<Vec<u64>>) {
    if from == stamps.len() {
        out.push(stamps.clone());
        return;
    }
    for k in from..stamps.len() {
        stamps.swap(from, k);
        permutations(stamps, from + 1, out);
        stamps.swap(from, k);
    }
}

#[test]
fn every_order_of_six_items_leaves_sorted() {
    let mut orders = Vec::new();
    permutations(&mut vec![1, 2, 3, 4, 5, 6], 0, &mut orders);
    assert_eq!(orders.len(), 720);
    for order in orders {
        let mut heap = heap_of(6, &order);
        let left = drain(&mut heap);
        let expected: Vec<(u64, String)> = (1..=6u64).map(|s| (s, format!("p{}", s))).collect();
        assert_eq!(left, expected);
    }
}
