use crust_of_rust::channels::channel;
use crust_of_rust::channels::RecvError;

#[test]
fn test_chan_ping_pong() {
    let (tx, mut rx) = channel();
    tx.send(42);
    assert_eq!(rx.recv().unwrap(), 42)
}

#[test]
fn test_chan_closed_tx() {
    // Drop the `Sender` immediately.
    let (_, mut rx) = channel::<()>();

    // Ensure this does not block the thread indefinitely.
    assert!(rx.recv().is_err());
}

#[test]
fn test_chan_closed_rx() {
    // Drop the `Receiver` immediately.
    let (tx, _) = channel();

    // This implementation does not notify Senders when the channel is
    // effectively closed.
    tx.send(42);
}

#[test]
fn test_chan_fifo_order() {
    // Bulk-enqueue, then drain one at a time: the first slow-path receive
    // swaps the remainder into the private buffer, and the order must be
    // unaffected.
    let (tx, mut rx) = channel();
    tx.send(1);
    tx.send(2);
    tx.send(3);
    tx.send(4);
    assert_eq!(rx.recv().unwrap(), 1);
    assert_eq!(rx.recv().unwrap(), 2);
    assert_eq!(rx.recv().unwrap(), 3);
    assert_eq!(rx.recv().unwrap(), 4);
}

#[test]
fn test_chan_buffered_then_disconnected() {
    // Values sent before the last sender departs are still delivered;
    // disconnection is reported only once the queue has drained.
    let (tx, mut rx) = channel();
    tx.send(10);
    tx.send(20);
    drop(tx);
    assert_eq!(rx.recv().unwrap(), 10);
    assert_eq!(rx.recv().unwrap(), 20);
    assert_eq!(rx.recv(), Err(RecvError {}));
    // Terminal: asking again reports the same.
    assert_eq!(rx.recv(), Err(RecvError {}));
}

#[test]
fn test_chan_multi_sender_counts() {
    // Two senders interleaving: every value arrives exactly once, and each
    // sender's own values arrive in its send order.
    let (tx1, mut rx) = channel();
    let tx2 = tx1.clone();
    tx1.send(1);
    tx2.send(-1);
    tx1.send(2);
    tx2.send(-2);
    drop(tx1);
    drop(tx2);
    let mut got = Vec::new();
    while let Ok(v) = rx.recv() {
        got.push(v);
    }
    assert_eq!(got.len(), 4);
    let firsts: Vec<i32> = got.iter().copied().filter(|v| *v > 0).collect();
    let seconds: Vec<i32> = got.iter().copied().filter(|v| *v < 0).collect();
    assert_eq!(firsts, vec![1, 2]);
    assert_eq!(seconds, vec![-1, -2]);
}

#[test]
fn test_chan_clone_keeps_channel_open() {
    // Dropping one of two senders must not look like disconnection.
    let (tx1, mut rx) = channel();
    let tx2 = tx1.clone();
    drop(tx1);
    tx2.send(7);
    assert_eq!(rx.recv().unwrap(), 7);
    drop(tx2);
    assert!(rx.recv().is_err());
}

#[test]
fn test_chan_error_message() {
    let (_, mut rx) = channel::<u8>();
    let err = rx.recv().unwrap_err();
    assert_eq!(err.message(), "channel disconnected");
}
