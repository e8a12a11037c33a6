use response_channel::attempt::Attempt;
use response_channel::attempt::Progress;
use response_channel::error::Error;
use response_channel::error::SendError;
use response_channel::queue::MAX_CAPACITY;
use tokio::sync::mpsc::error::TryRecvError;
use tokio::sync::mpsc::error::TrySendError;

fn sent<M: std::fmt::Debug>(outcome: Attempt<Result<(), Error<M>>, M>) {
    match outcome {
        Attempt::Ready(Ok(())) => {}
        other => panic!("not sent: {:?}", other),
    }
}

fn reply<R>(outcome: Attempt<Option<R>, ()>) -> R {
    match outcome {
        Attempt::Ready(Some(reply)) => reply,
        Attempt::Ready(None) => panic!("the reply queue is closed"),
        Attempt::Pending(()) => panic!("no reply is there"),
    }
}

#[test]
fn the_largest_capacity_is_tokios() {
    assert_eq!(MAX_CAPACITY, tokio::sync::Semaphore::MAX_PERMITS);
}

#[test]
fn the_largest_capacity_makes_both_queues() {
    let (tx, _rx) = response_channel::channel::<u8, u8>(MAX_CAPACITY, None);
    assert_eq!(tx.forward().max_capacity(), MAX_CAPACITY);
    assert_eq!(tx.reply_capacity(), MAX_CAPACITY);
    assert_eq!(tx.clone().entry(0).1.max_capacity(), MAX_CAPACITY);
    let (tx, _rx) = response_channel::temporary::channel::<u8, u8>(MAX_CAPACITY);
    assert_eq!(tx.forward().max_capacity(), MAX_CAPACITY);
    assert_eq!(tx.forward_capacity(), MAX_CAPACITY);
}

#[test]
fn the_smallest_capacity_makes_both_queues() {
    let (tx, _rx) = response_channel::channel::<u8, u8>(1, Some(1));
    assert_eq!(tx.forward().max_capacity(), 1);
    assert_eq!(tx.reply_capacity(), 1);
}

#[test]
fn the_reply_queue_takes_the_forward_capacity_by_default() {
    let (tx, _rx) = response_channel::channel::<u8, u8>(10, None);
    assert_eq!(tx.reply_capacity(), 10);
    assert_eq!(tx.entry(0).1.max_capacity(), 10);
    assert_eq!(tx.forward_capacity(), 10);
    assert_eq!(tx.forward().max_capacity(), 10);
}

#[test]
fn the_reply_queue_takes_the_capacity_given() {
    let (tx, _rx) = response_channel::permanent::channel::<u8, u8>(10, Some(3));
    assert_eq!(tx.reply_capacity(), 3);
    assert_eq!(tx.entry(0).1.max_capacity(), 3);
    assert_eq!(tx.forward_capacity(), 10);
    assert_eq!(tx.forward().max_capacity(), 10);
}

#[test]
fn a_clone_keeps_both_capacities() {
    let (tx, _rx) = response_channel::channel::<u8, u8>(7, Some(2));
    let copy = tx.clone();
    assert_eq!(copy.reply_capacity(), 2);
    assert_eq!(copy.entry(0).1.max_capacity(), 2);
    assert_eq!(copy.forward_capacity(), 7);
    assert_eq!(copy.forward().max_capacity(), 7);
}

#[test]
fn a_clone_sends_into_the_same_forward_queue() {
    let (tx, mut rx) = response_channel::channel::<u8, u8>(4, None);
    let copy = tx.clone();
    assert!(copy.forward().same_channel(tx.forward()));
    sent(tx.send_await(1));
    sent(copy.send_await(2));
    sent(tx.send_await(3));
    assert_eq!(rx.try_recv().unwrap().0, 1);
    assert_eq!(rx.try_recv().unwrap().0, 2);
    assert_eq!(rx.try_recv().unwrap().0, 3);
}

#[test]
fn an_entry_carries_the_message_and_the_senders_own_reply_handle() {
    let (mut tx, _rx) = response_channel::channel::<&str, u8>(1, None);
    let (message, handle) = tx.entry("question");
    assert_eq!(message, "question");
    handle.try_send(42).unwrap();
    assert_eq!(reply(tx.recv()), 42);
}

#[test]
fn a_full_forward_queue_holds_the_next_message_back() {
    let n: u8 = 3;
    let (tx, mut rx) = response_channel::channel::<u8, u8>(3, None);
    for i in 0..n {
        sent(tx.send_await(i));
    }
    assert_eq!(tx.send_await(n), Attempt::Pending(n));
    assert_eq!(tx.send_await(n), Attempt::Pending(n));
    assert_eq!(rx.try_recv().unwrap().0, 0);
    sent(tx.send_await(n));
    for i in 1..=n {
        assert_eq!(rx.try_recv().unwrap().0, i);
    }
    assert!(matches!(rx.try_recv(), Err(TryRecvError::Empty)));
}

#[test]
fn a_full_forward_queue_holds_a_round_trip_back_unsent() {
    let (mut tx, mut rx) = response_channel::channel::<u8, u8>(1, None);
    sent(tx.send_await(1));
    assert_eq!(
        tx.send_await_automatic(2),
        Attempt::Pending(Progress::Unsent(2))
    );
    assert_eq!(rx.try_recv().unwrap().0, 1);
    assert!(matches!(rx.try_recv(), Err(TryRecvError::Empty)));
}

#[test]
fn a_full_reply_queue_holds_the_receiver_back() {
    let (mut tx, mut rx) = response_channel::channel::<u8, u8>(4, Some(1));
    sent(tx.send_await(1));
    sent(tx.send_await(2));
    let (first, handle) = rx.try_recv().unwrap();
    handle.try_send(first + 1).unwrap();
    let (second, handle) = rx.try_recv().unwrap();
    assert!(matches!(
        handle.try_send(second + 1),
        Err(TrySendError::Full(3))
    ));
    assert_eq!(reply(tx.recv()), 2);
    handle.try_send(second + 1).unwrap();
    assert_eq!(reply(tx.recv()), 3);
}

#[test]
fn a_dropped_receiver_hands_the_message_back() {
    let (tx, rx) = response_channel::channel::<String, u8>(10, None);
    drop(rx);
    let message = String::from("byte for byte");
    assert_eq!(
        tx.send_await(message.clone()),
        Attempt::Ready(Err(Error::SendError(SendError(message))))
    );
}

#[test]
fn a_dropped_receiver_fails_a_round_trip_with_the_message() {
    let (mut tx, rx) = response_channel::channel::<u8, u8>(10, None);
    drop(rx);
    assert_eq!(
        tx.send_await_automatic(10),
        Attempt::Ready(Err(Error::SendError(SendError(10))))
    );
}

#[test]
fn a_receiver_dropped_while_the_queue_is_full_fails_the_next_send() {
    let (tx, rx) = response_channel::channel::<u8, u8>(1, None);
    sent(tx.send_await(1));
    assert_eq!(tx.send_await(2), Attempt::Pending(2));
    drop(rx);
    assert_eq!(
        tx.send_await(2),
        Attempt::Ready(Err(Error::SendError(SendError(2))))
    );
}

#[test]
fn dropped_senders_end_the_stream_after_what_they_sent() {
    let (tx, mut rx) = response_channel::channel::<u8, u8>(10, None);
    let copy = tx.clone();
    sent(tx.send_await(1));
    sent(copy.send_await(2));
    sent(tx.send_await(3));
    drop(tx);
    assert_eq!(rx.blocking_recv().unwrap().0, 1);
    assert!(matches!(rx.try_recv(), Ok((2, _))));
    drop(copy);
    assert_eq!(rx.blocking_recv().unwrap().0, 3);
    assert!(rx.blocking_recv().is_none());
    assert!(matches!(rx.try_recv(), Err(TryRecvError::Disconnected)));
}

#[test]
fn one_living_clone_keeps_the_stream_open() {
    let (tx, mut rx) = response_channel::channel::<u8, u8>(10, None);
    let copy = tx.clone();
    drop(tx);
    assert!(matches!(rx.try_recv(), Err(TryRecvError::Empty)));
    sent(copy.send_await(5));
    assert_eq!(rx.try_recv().unwrap().0, 5);
}

#[test]
fn no_reply_yet_is_pending() {
    let (mut tx, mut rx) = response_channel::channel::<u8, u8>(10, None);
    sent(tx.send_await(1));
    assert_eq!(tx.recv(), Attempt::Pending(()));
    let (_, handle) = rx.try_recv().unwrap();
    assert_eq!(tx.recv(), Attempt::Pending(()));
    handle.try_send(2).unwrap();
    assert_eq!(tx.recv(), Attempt::Ready(Some(2)));
    assert_eq!(tx.recv(), Attempt::Pending(()));
}

#[test]
fn nothing_asked_is_the_end_of_the_replies() {
    let (mut tx, _rx) = response_channel::channel::<u8, u8>(10, None);
    assert_eq!(tx.recv(), Attempt::Ready(None));
    sent(tx.send_await(1));
    assert_eq!(tx.recv(), Attempt::Pending(()));
}

#[test]
fn the_replies_end_once_the_receiving_side_let_go() {
    let (mut tx, mut rx) = response_channel::channel::<u8, u8>(10, None);
    sent(tx.send_await(1));
    sent(tx.send_await(2));
    let (_, handle) = rx.try_recv().unwrap();
    assert_eq!(tx.recv(), Attempt::Pending(()));
    drop(handle);
    assert_eq!(tx.recv(), Attempt::Pending(()));
    drop(rx);
    assert_eq!(tx.recv(), Attempt::Ready(None));
    assert_eq!(tx.recv(), Attempt::Ready(None));
}

#[test]
fn replies_given_before_the_receiving_side_let_go_come_first() {
    let (mut tx, mut rx) = response_channel::channel::<u8, u8>(10, None);
    sent(tx.send_await(1));
    sent(tx.send_await(2));
    while let Ok((message, handle)) = rx.try_recv() {
        handle.try_send(message + 1).unwrap();
    }
    drop(rx);
    assert_eq!(tx.recv(), Attempt::Ready(Some(2)));
    assert_eq!(tx.recv(), Attempt::Ready(Some(3)));
    assert_eq!(tx.recv(), Attempt::Ready(None));
}

#[test]
fn a_round_trip_that_nobody_answers_ends_in_none_and_no_error() {
    let (mut tx, rx) = response_channel::channel::<u8, u8>(10, None);
    assert_eq!(
        tx.send_await_automatic(1),
        Attempt::Pending(Progress::Sent(()))
    );
    drop(rx);
    assert_eq!(tx.recv(), Attempt::Ready(None));
    assert_eq!(
        tx.send_await_automatic(2),
        Attempt::Ready(Err(Error::SendError(SendError(2))))
    );
}

#[test]
fn a_round_trip_held_back_leaves_the_replies_alone() {
    let (mut tx, mut rx) = response_channel::channel::<u8, u8>(1, None);
    sent(tx.send_await(1));
    let (message, handle) = rx.try_recv().unwrap();
    handle.try_send(message + 1).unwrap();
    sent(tx.send_await(2));
    assert_eq!(
        tx.send_await_automatic(3),
        Attempt::Pending(Progress::Unsent(3))
    );
    assert_eq!(tx.recv(), Attempt::Ready(Some(2)));
}

#[test]
fn a_round_trip_that_cannot_send_leaves_the_replies_alone() {
    let (mut tx, mut rx) = response_channel::channel::<u8, u8>(1, None);
    sent(tx.send_await(1));
    let (message, handle) = rx.try_recv().unwrap();
    handle.try_send(message + 1).unwrap();
    drop(rx);
    assert_eq!(
        tx.send_await_automatic(3),
        Attempt::Ready(Err(Error::SendError(SendError(3))))
    );
    assert_eq!(tx.recv(), Attempt::Ready(Some(2)));
}

#[test]
fn replies_come_in_the_order_the_receiver_gave_them() {
    let (mut tx, mut rx) = response_channel::channel::<u8, u8>(10, None);
    for i in 0..5 {
        sent(tx.send_await(i));
    }
    let mut entries = Vec::new();
    while let Ok(entry) = rx.try_recv() {
        entries.push(entry);
    }
    entries.reverse();
    for (message, handle) in entries {
        handle.try_send(message * 10).unwrap();
    }
    for i in (0..5).rev() {
        assert_eq!(reply(tx.recv()), i * 10);
    }
}

#[test]
fn a_receiver_may_answer_one_message_more_than_once() {
    let (mut tx, mut rx) = response_channel::channel::<u8, u8>(10, None);
    sent(tx.send_await(7));
    let (message, handle) = rx.try_recv().unwrap();
    handle.try_send(message).unwrap();
    handle.try_send(message + 1).unwrap();
    assert_eq!(reply(tx.recv()), 7);
    assert_eq!(reply(tx.recv()), 8);
    assert_eq!(tx.recv(), Attempt::Pending(()));
}

#[test]
fn a_reply_reaches_the_clone_that_asked_and_no_other() {
    let (mut a, mut rx) = response_channel::channel::<&str, &str>(10, None);
    let mut b = a.clone();
    sent(a.send_await("from a"));
    let (message, handle) = rx.try_recv().unwrap();
    assert_eq!(message, "from a");
    handle.try_send("to a").unwrap();
    assert_eq!(b.recv(), Attempt::Ready(None));
    assert_eq!(reply(a.recv()), "to a");
    assert_eq!(a.recv(), Attempt::Pending(()));

    sent(b.send_await("from b"));
    let (message, handle) = rx.try_recv().unwrap();
    assert_eq!(message, "from b");
    handle.try_send("to b").unwrap();
    assert_eq!(a.recv(), Attempt::Pending(()));
    assert_eq!(reply(b.recv()), "to b");
    assert_eq!(b.recv(), Attempt::Pending(()));
}

#[test]
fn a_clone_starts_with_an_empty_reply_queue() {
    let (mut a, mut rx) = response_channel::channel::<u8, u8>(10, None);
    sent(a.send_await(1));
    let (message, handle) = rx.try_recv().unwrap();
    handle.try_send(message + 1).unwrap();
    let mut b = a.clone();
    assert!(!b.entry(0).1.same_channel(&a.entry(0).1));
    assert_eq!(b.recv(), Attempt::Ready(None));
    assert_eq!(reply(a.recv()), 2);
}

#[test]
fn every_clone_reads_its_own_round_trips_in_order() {
    let n: u32 = 20;
    let f = |m: u32| m * m + 1;
    let (first, mut rx) = response_channel::channel::<u32, u32>(4, Some(2));
    let mut senders = vec![first.clone(), first.clone(), first];
    for m in 0..n {
        for tx in senders.iter_mut() {
            assert_eq!(
                tx.send_await_automatic(m),
                Attempt::Pending(Progress::Sent(()))
            );
        }
        while let Ok((message, handle)) = rx.try_recv() {
            handle.try_send(f(message)).unwrap();
        }
        for tx in senders.iter_mut() {
            assert_eq!(tx.recv(), Attempt::Ready(Some(f(m))));
            assert_eq!(tx.recv(), Attempt::Ready(None));
        }
    }
}

#[test]
fn a_round_trip_finds_a_reply_that_is_already_there() {
    let (mut tx, mut rx) = response_channel::channel::<u8, u8>(10, None);
    sent(tx.send_await(1));
    let (message, handle) = rx.try_recv().unwrap();
    handle.try_send(message + 1).unwrap();
    assert_eq!(tx.send_await_automatic(5), Attempt::Ready(Ok(Some(2))));
    assert_eq!(rx.try_recv().unwrap().0, 5);
}

#[test]
fn the_handles_of_a_sender_reach_its_queues() {
    let (mut tx, mut rx) = response_channel::channel::<u8, u8>(2, None);
    let entry = tx.entry(9);
    tx.forward().try_send(entry).unwrap();
    let (message, handle) = rx.try_recv().unwrap();
    assert_eq!(message, 9);
    handle.try_send(10).unwrap();
    assert_eq!(tx.replies_mut().try_recv(), Ok(10));
    assert_eq!(tx.recv(), Attempt::Pending(()));
}

#[test]
fn a_clone_hands_out_a_reply_handle_of_its_own() {
    let (a, _rx) = response_channel::channel::<u8, u8>(10, Some(4));
    let b = a.clone();
    let c = b.clone();
    let (to_a, to_b, to_c) = (a.entry(0).1, b.entry(0).1, c.entry(0).1);
    assert!(to_a.same_channel(&a.entry(1).1));
    assert!(!to_a.same_channel(&to_b));
    assert!(!to_a.same_channel(&to_c));
    assert!(!to_b.same_channel(&to_c));
}

#[test]
fn the_consumer_returned_reads_what_the_sender_sends() {
    let (tx, mut rx) = response_channel::channel::<u8, u8>(10, None);
    let (other, mut other_rx) = response_channel::channel::<u8, u8>(10, None);
    sent(tx.send_await(1));
    assert!(matches!(other_rx.try_recv(), Err(TryRecvError::Empty)));
    assert_eq!(rx.try_recv().unwrap().0, 1);
    sent(other.send_await(2));
    assert!(matches!(rx.try_recv(), Err(TryRecvError::Empty)));
    assert_eq!(other_rx.try_recv().unwrap().0, 2);
}
