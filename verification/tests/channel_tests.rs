//! End-to-end exercises of the channel through its public interface, with
//! the real queue core linked in. The consumer-side tests play the hosting
//! loop themselves where a wakeup is called for.

use std::sync::mpsc::TryRecvError;

use evented_channel::{channel, sync_channel, PollOutcome, SendError, TrySendError};

#[test]
fn unbounded_send_then_drain_then_end() {
    let (tx, mut rx) = channel::<i32>();
    tx.send(1).unwrap();
    tx.send(2).unwrap();
    tx.send(3).unwrap();
    drop(tx);
    assert!(matches!(rx.poll(), PollOutcome::Item(1)));
    assert!(matches!(rx.poll(), PollOutcome::Item(2)));
    assert!(matches!(rx.poll(), PollOutcome::Item(3)));
    assert!(matches!(rx.poll(), PollOutcome::Ended));
    assert!(matches!(rx.poll(), PollOutcome::Ended));
}

#[test]
fn fifo_per_producer() {
    let (tx, mut rx) = channel::<i32>();
    for v in 0..100 {
        tx.send(v).unwrap();
    }
    for v in 0..100 {
        match rx.poll() {
            PollOutcome::Item(got) => assert_eq!(got, v),
            _ => panic!("expected a value"),
        }
    }
}

#[test]
fn interleaved_clones_deliver_exactly_once() {
    let (tx_a, mut rx) = channel::<(u8, i32)>();
    let tx_b = tx_a.clone();
    tx_a.send((0, 10)).unwrap();
    tx_b.send((1, 20)).unwrap();
    tx_a.send((0, 11)).unwrap();
    tx_b.send((1, 21)).unwrap();
    tx_b.send((1, 22)).unwrap();
    tx_a.send((0, 12)).unwrap();
    let mut seen: Vec<(u8, i32)> = Vec::new();
    for _ in 0..6 {
        match rx.poll() {
            PollOutcome::Item(p) => seen.push(p),
            _ => panic!("expected a value"),
        }
    }
    assert!(matches!(rx.poll(), PollOutcome::NotReady));
    let from_a: Vec<i32> = seen.iter().filter(|p| p.0 == 0).map(|p| p.1).collect();
    let from_b: Vec<i32> = seen.iter().filter(|p| p.0 == 1).map(|p| p.1).collect();
    assert_eq!(from_a, vec![10, 11, 12]);
    assert_eq!(from_b, vec![20, 21, 22]);
    assert_eq!(seen.len(), 6);
}

#[test]
fn end_after_last_sender_dropped() {
    let (tx, mut rx) = channel::<i32>();
    let tx2 = tx.clone();
    drop(tx);
    drop(tx2);
    assert!(matches!(rx.poll(), PollOutcome::Ended));
}

#[test]
fn end_reaches_a_suspended_consumer_after_wakeup() {
    let (tx, mut rx) = channel::<i32>();
    assert!(matches!(rx.poll(), PollOutcome::NotReady));
    drop(tx);
    rx.on_wakeup();
    assert!(matches!(rx.poll(), PollOutcome::Ended));
}

#[test]
fn send_after_receiver_dropped_fails_disconnected() {
    let (tx, rx) = channel::<i32>();
    drop(rx);
    assert!(matches!(tx.send(7), Err(SendError::Disconnected)));
}

#[test]
fn sync_send_after_receiver_dropped_fails_disconnected() {
    let (tx, rx) = sync_channel::<i32>(4);
    drop(rx);
    assert!(matches!(tx.send(7), Err(SendError::Disconnected)));
    assert!(matches!(tx.try_send(8), Err(TrySendError::Disconnected(8))));
}

#[test]
fn bounded_full_returns_value_then_retry_succeeds() {
    let (tx, mut rx) = sync_channel::<char>(1);
    assert!(tx.try_send('A').is_ok());
    match tx.try_send('B') {
        Err(TrySendError::Full(v)) => assert_eq!(v, 'B'),
        _ => panic!("expected the queue to be full"),
    }
    assert!(matches!(rx.poll(), PollOutcome::Item('A')));
    assert!(tx.try_send('B').is_ok());
    assert!(matches!(rx.poll(), PollOutcome::Item('B')));
}

#[test]
fn zero_capacity_rejects_nonblocking_send() {
    let (tx, _rx) = sync_channel::<i32>(0);
    match tx.try_send(5) {
        Err(TrySendError::Full(v)) => assert_eq!(v, 5),
        _ => panic!("expected the queue to be full"),
    }
}

#[test]
fn suspend_is_idempotent_while_empty() {
    let (tx, mut rx) = channel::<i32>();
    assert!(matches!(rx.poll(), PollOutcome::NotReady));
    assert!(matches!(rx.poll(), PollOutcome::NotReady));
    assert!(matches!(rx.poll(), PollOutcome::NotReady));
    tx.send(9).unwrap();
    rx.on_wakeup();
    assert!(matches!(rx.poll(), PollOutcome::Item(9)));
}

#[test]
fn wakeup_after_suspend_delivers_the_sent_value() {
    let (tx, mut rx) = channel::<i32>();
    assert!(matches!(rx.poll(), PollOutcome::NotReady));
    tx.send(42).unwrap();
    rx.on_wakeup();
    assert!(matches!(rx.poll(), PollOutcome::Item(42)));
    assert!(matches!(rx.poll(), PollOutcome::NotReady));
}

#[test]
fn bounded_channel_drains_in_order_and_ends() {
    let (tx, mut rx) = sync_channel::<i32>(3);
    tx.send(1).unwrap();
    tx.send(2).unwrap();
    drop(tx);
    assert!(matches!(rx.poll(), PollOutcome::Item(1)));
    assert!(matches!(rx.poll(), PollOutcome::Item(2)));
    assert!(matches!(rx.poll(), PollOutcome::Ended));
}

#[test]
fn cloned_sync_sender_feeds_the_same_queue() {
    let (tx, mut rx) = sync_channel::<i32>(4);
    let tx2 = tx.clone();
    tx.send(1).unwrap();
    tx2.send(2).unwrap();
    drop(tx);
    drop(tx2);
    assert!(matches!(rx.poll(), PollOutcome::Item(1)));
    assert!(matches!(rx.poll(), PollOutcome::Item(2)));
    assert!(matches!(rx.poll(), PollOutcome::Ended));
}

#[test]
fn produce_table_folds_each_dequeue_outcome() {
    let (_tx, mut rx) = channel::<i32>();
    assert!(matches!(rx.fold_dequeue(Ok(3)), PollOutcome::Item(3)));
    assert!(matches!(
        rx.fold_dequeue(Err(TryRecvError::Empty)),
        PollOutcome::NotReady
    ));
    assert!(matches!(rx.poll(), PollOutcome::NotReady));
    rx.on_wakeup();
    assert!(matches!(
        rx.fold_dequeue(Err(TryRecvError::Disconnected)),
        PollOutcome::Ended
    ));
    assert!(matches!(rx.poll(), PollOutcome::Ended));
}
