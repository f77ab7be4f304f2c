use handoff::{empty_queue, enqueue, poll};
use std::collections::VecDeque;

#[test]
fn fresh_queue_is_empty() {
    let queue: VecDeque<u8> = empty_queue();
    assert!(queue.is_empty());
}

#[test]
fn enqueue_appends_at_the_tail() {
    let mut queue = empty_queue();
    enqueue(&mut queue, 'a');
    enqueue(&mut queue, 'b');
    enqueue(&mut queue, 'c');
    assert_eq!(queue, VecDeque::from(vec!['a', 'b', 'c']));
}

#[test]
fn poll_takes_the_head() {
    let mut queue = VecDeque::from(vec![5, 6, 7]);
    let mut slot = None;
    assert!(!poll(&mut queue, &mut slot));
    assert_eq!(slot, Some(5));
    assert_eq!(queue, VecDeque::from(vec![6, 7]));
}

#[test]
fn poll_of_empty_queue_parks() {
    let mut queue: VecDeque<i32> = empty_queue();
    let mut slot = Some(99);
    assert!(poll(&mut queue, &mut slot));
    assert_eq!(slot, None);
    assert!(queue.is_empty());
}

#[test]
fn poll_drains_in_arrival_order_then_parks() {
    let mut queue = empty_queue();
    for v in 1..=4u64 {
        enqueue(&mut queue, v);
    }
    let mut slot = None;
    let mut got = Vec::new();
    while !poll(&mut queue, &mut slot) {
        got.push(slot.take().unwrap());
    }
    assert_eq!(got, vec![1, 2, 3, 4]);
    assert_eq!(slot, None);
}
