use handoff::channel;

#[test]
fn ping_pong() {
    let (mut tx, mut rx) = channel();
    tx.send(42);
    assert_eq!(rx.recv(), 42);
}

#[test]
fn single_producer_is_fifo() {
    let (mut tx, mut rx) = channel();
    for v in 0..100u32 {
        tx.send(v);
    }
    for v in 0..100u32 {
        assert_eq!(rx.recv(), v);
    }
}

#[test]
fn sends_and_receives_interleaved_keep_order() {
    let (mut tx, mut rx) = channel();
    tx.send(1);
    tx.send(2);
    assert_eq!(rx.recv(), 1);
    tx.send(3);
    assert_eq!(rx.recv(), 2);
    assert_eq!(rx.recv(), 3);
}

#[test]
fn three_producers_one_item_each() {
    let (mut first, mut rx) = channel();
    let mut second = first.clone();
    let mut third = first.clone();
    first.send(10);
    second.send(20);
    third.send(30);
    let mut got = vec![rx.recv(), rx.recv(), rx.recv()];
    got.sort();
    assert_eq!(got, vec![10, 20, 30]);
}

#[test]
fn clones_feed_the_same_queue_in_send_order() {
    let (mut tx, mut rx) = channel();
    let mut other = tx.clone();
    tx.send(1);
    other.send(2);
    tx.send(3);
    other.send(4);
    assert_eq!(rx.recv(), 1);
    assert_eq!(rx.recv(), 2);
    assert_eq!(rx.recv(), 3);
    assert_eq!(rx.recv(), 4);
}

#[test]
fn clone_still_sends_after_first_handle_is_dropped() {
    let (mut tx, mut rx) = channel();
    let mut other = tx.clone();
    tx.send(String::from("first"));
    drop(tx);
    other.send(String::from("second"));
    assert_eq!(rx.recv(), "first");
    assert_eq!(rx.recv(), "second");
}

#[test]
fn items_need_not_be_clonable() {
    struct Token(u8);
    let (mut tx, mut rx) = channel();
    tx.send(Token(7));
    let Token(n) = rx.recv();
    assert_eq!(n, 7);
}

#[test]
fn undelivered_items_are_dropped_with_the_last_handle() {
    let (mut tx, rx) = channel();
    tx.send(vec![1, 2, 3]);
    drop(rx);
    tx.send(vec![4]);
    drop(tx);
}

#[test]
fn rapid_send_recv_pairs_never_stall() {
    let (mut there, mut there_rx) = channel();
    let (mut back, mut back_rx) = channel();
    for v in 0..500u32 {
        there.send(v);
        let seen: u32 = there_rx.recv();
        back.send(seen + 1);
        assert_eq!(back_rx.recv(), v + 1);
    }
}

#[test]
fn many_producers_lose_nothing() {
    let (tx, mut rx) = channel();
    let mut producers = Vec::new();
    for _ in 0..4u32 {
        producers.push(tx.clone());
    }
    drop(tx);
    for i in 0..250u32 {
        for (p, producer) in producers.iter_mut().enumerate() {
            producer.send(p as u32 * 1000 + i);
        }
    }
    let mut got = Vec::new();
    for _ in 0..1000 {
        got.push(rx.recv());
    }
    let mut want = Vec::new();
    for i in 0..250u32 {
        for p in 0..4u32 {
            want.push(p * 1000 + i);
        }
    }
    assert_eq!(got, want);
    got.sort();
    got.dedup();
    assert_eq!(got.len(), 1000);
}
