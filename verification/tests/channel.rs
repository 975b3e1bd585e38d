use sync_primitives::channel::{channel, count_received, settle, Closed, Settled};

#[test]
fn messages_arrive_in_order() {
    let (tx, mut rx) = channel();
    assert_eq!(tx.send(1), Ok(()));
    assert_eq!(tx.send(2), Ok(()));
    assert_eq!(tx.send(3), Ok(()));
    assert_eq!(rx.receive(), Ok(1));
    assert_eq!(rx.receive(), Ok(2));
    assert_eq!(rx.receive(), Ok(3));
    assert!(!rx.is_closed());
}

#[test]
fn receive_reports_closure_when_senders_are_gone() {
    let (tx, mut rx) = channel();
    assert_eq!(tx.send(5), Ok(()));
    drop(tx);
    assert_eq!(rx.receive(), Ok(5));
    assert!(!rx.is_closed());
    assert_eq!(rx.receive(), Err(Closed));
    assert!(rx.is_closed());
}

#[test]
fn closure_is_reported_again_and_again() {
    let (tx, mut rx) = channel();
    drop(tx);
    for _ in 0..5 {
        assert_eq!(rx.receive(), Err(Closed));
        assert!(rx.is_closed());
    }
    assert_eq!(rx.consume(10), 0);
}

#[test]
fn channel_stays_open_while_a_clone_of_the_sender_lives() {
    let (tx, mut rx) = channel();
    let twin = tx.clone();
    drop(tx);
    assert_eq!(twin.send(9), Ok(()));
    assert_eq!(rx.receive(), Ok(9));
    drop(twin);
    assert_eq!(rx.receive(), Err(Closed));
}

#[test]
fn send_without_receiver_hands_item_back() {
    let (tx, rx) = channel();
    drop(rx);
    assert_eq!(tx.send(77), Err(77));
    assert_eq!(tx.produce(78, 10), 0);
}

#[test]
fn send_succeeds_while_a_clone_of_the_receiver_lives() {
    let (tx, rx) = channel();
    let mut twin = rx.clone();
    drop(rx);
    assert_eq!(tx.send(4), Ok(()));
    assert_eq!(twin.receive(), Ok(4));
}

#[test]
fn produce_sends_every_item() {
    let (tx, mut rx) = channel();
    assert_eq!(tx.produce(6, 1000), 1000);
    assert_eq!(tx.produce(6, 0), 0);
    drop(tx);
    assert_eq!(rx.consume(u64::MAX), 1000);
    assert!(rx.is_closed());
}

#[test]
fn consume_stops_at_its_limit() {
    let (tx, mut rx) = channel();
    assert_eq!(tx.produce(1, 10), 10);
    assert_eq!(rx.consume(4), 4);
    assert!(!rx.is_closed());
    assert_eq!(rx.consume(0), 0);
    drop(tx);
    assert_eq!(rx.consume(100), 6);
    assert!(rx.is_closed());
}

#[test]
fn settle_decides_each_case() {
    assert_eq!(settle(false, Some(3)).answer, Ok(3));
    assert!(!settle(false, Some(3)).closed);
    assert_eq!(settle(false, None).answer, Err(Closed));
    assert!(settle(false, None).closed);
    assert_eq!(settle(true, Some(3)).answer, Err(Closed));
    assert!(settle(true, Some(3)).closed);
    let last: Settled = settle(true, None);
    assert_eq!(last.answer, Err(Closed));
    assert!(last.closed);
}

#[test]
fn consumers_share_what_producers_send() {
    let (tx, rx) = channel();
    let mut total: u64 = 0;
    crossbeam::scope(|scope| {
        for num in 1..5u32 {
            let sender = tx.clone();
            scope.spawn(move |_| {
                assert_eq!(sender.produce(num, 1000), 1000);
            });
        }
        drop(tx);
        let mut consumers = Vec::new();
        for _ in 1..5u32 {
            let mut receiver = rx.clone();
            consumers.push(scope.spawn(move |_| {
                let received = receiver.consume(u64::MAX);
                assert!(receiver.is_closed());
                received
            }));
        }
        for worker in consumers {
            total += worker.join().expect("consumer failed");
        }
    })
    .expect("a worker panicked");
    assert_eq!(total, 4000);
}

#[test]
fn consume_counts_nothing_on_a_closed_empty_channel() {
    let (tx, mut rx) = channel();
    drop(tx);
    assert_eq!(rx.consume(u64::MAX), 0);
    assert!(rx.is_closed());
    assert_eq!(rx.consume(u64::MAX), 0);
    assert_eq!(rx.receive(), Err(Closed));
}

#[test]
fn consume_counts_three_messages_before_closure() {
    let (tx, mut rx) = channel();
    assert_eq!(tx.send(7), Ok(()));
    assert_eq!(tx.send(8), Ok(()));
    assert_eq!(tx.send(9), Ok(()));
    drop(tx);
    assert_eq!(rx.consume(u64::MAX), 3);
    assert!(rx.is_closed());
}

#[test]
fn consume_with_no_limit_left_leaves_the_receiver_alone() {
    let (tx, mut rx) = channel();
    drop(tx);
    assert_eq!(rx.consume(0), 0);
    assert!(!rx.is_closed());
    assert_eq!(rx.consume(1), 0);
    assert!(rx.is_closed());
    assert_eq!(rx.consume(0), 0);
    assert!(rx.is_closed());
}

#[test]
fn consume_at_its_limit_stays_open() {
    let (tx, mut rx) = channel();
    assert_eq!(tx.produce(2, 5), 5);
    drop(tx);
    assert_eq!(rx.consume(5), 5);
    assert!(!rx.is_closed());
    assert_eq!(rx.consume(5), 0);
    assert!(rx.is_closed());
}

#[test]
fn count_received_adds_one_for_a_message() {
    assert_eq!(count_received(0, Ok(7)), Some(1));
    assert_eq!(count_received(2, Ok(0)), Some(3));
    assert_eq!(count_received(u64::MAX - 1, Ok(1)), Some(u64::MAX));
}

#[test]
fn count_received_ends_the_run_on_closure() {
    assert_eq!(count_received(0, Err(Closed)), None);
    assert_eq!(count_received(3, Err(Closed)), None);
}

#[test]
fn fork_keeps_what_the_receiver_has_seen() {
    let (tx, mut rx) = channel();
    let mut early = rx.fork();
    assert!(!early.is_closed());
    assert_eq!(tx.send(1), Ok(()));
    assert_eq!(early.receive(), Ok(1));
    drop(tx);
    assert_eq!(rx.receive(), Err(Closed));
    let mut late = rx.fork();
    assert!(late.is_closed());
    assert_eq!(late.receive(), Err(Closed));
    assert!(!early.is_closed());
    assert_eq!(early.receive(), Err(Closed));
}
