use pipeline::handle::{absorb, channel, Consumer, Pipechannel};
use pipeline::pipeline::{ChannelError, ConsumerStatus, Pipeline, Received, SendError};
use std::time::Duration;

fn open(capacity: usize) -> (Pipechannel, Consumer) {
    match channel(capacity) {
        Ok(ends) => ends,
        Err(e) => panic!("no channel: {:?}", e),
    }
}

fn poll(rx: &mut Consumer) -> Received<String> {
    let mut sink = Vec::new();
    match rx.take_ready(&mut sink, 1) {
        None => {
            assert_eq!(sink.len(), 1);
            Received::Message(sink.remove(0))
        }
        Some(ConsumerStatus::Waiting) => {
            assert!(sink.is_empty());
            Received::Pending
        }
        Some(ConsumerStatus::Finished) => {
            assert!(sink.is_empty());
            Received::Closed
        }
    }
}

fn runtime() -> tokio::runtime::Runtime {
    tokio::runtime::Builder::new_multi_thread()
        .worker_threads(2)
        .enable_all()
        .build()
        .unwrap()
}

#[test]
fn live_zero_capacity_is_invalid() {
    assert!(matches!(channel(0), Err(ChannelError::InvalidCapacity)));
}

#[test]
fn live_huge_capacity_is_too_large() {
    assert!(matches!(channel(usize::MAX), Err(ChannelError::CapacityTooLarge)));
    assert!(matches!(channel(usize::MAX / 8 + 1), Err(ChannelError::CapacityTooLarge)));
    assert!(channel(usize::MAX / 8).is_ok());
}

#[test]
fn live_handles_know_the_capacity() {
    let (tx, _rx) = open(7);
    assert_eq!(tx.capacity(), 7);
    assert_eq!(tx.offer("a".to_string()), Ok(()));
    assert_eq!(tx.capacity(), 7);
    assert_eq!(tx.clone().capacity(), 7);
}

#[test]
fn live_offer_and_poll_in_order() {
    let (tx, mut rx) = open(10);
    assert_eq!(poll(&mut rx), Received::Pending);
    assert_eq!(tx.offer("a".to_string()), Ok(()));
    assert_eq!(tx.offer("b".to_string()), Ok(()));
    assert_eq!(poll(&mut rx), Received::Message("a".to_string()));
    assert_eq!(poll(&mut rx), Received::Message("b".to_string()));
    assert_eq!(poll(&mut rx), Received::Pending);
}

#[test]
fn live_full_hands_back_then_takes_after_a_poll() {
    let (tx, mut rx) = open(2);
    assert_eq!(tx.offer("a".to_string()), Ok(()));
    assert_eq!(tx.offer("b".to_string()), Ok(()));
    assert_eq!(tx.offer("c".to_string()), Err(SendError::Full("c".to_string())));
    assert_eq!(poll(&mut rx), Received::Message("a".to_string()));
    assert_eq!(tx.offer("c".to_string()), Ok(()));
    assert_eq!(poll(&mut rx), Received::Message("b".to_string()));
    assert_eq!(poll(&mut rx), Received::Message("c".to_string()));
}

#[test]
fn live_clone_feeds_the_same_channel() {
    let (tx, mut rx) = open(4);
    let other = tx.clone();
    let built = Pipechannel::build(other.sender.clone());
    assert_eq!(tx.offer("first".to_string()), Ok(()));
    assert_eq!(other.offer("second".to_string()), Ok(()));
    assert_eq!(built.offer("third".to_string()), Ok(()));
    assert!(tx.sender.same_channel(&built.sender));
    let mut sink = Vec::new();
    assert_eq!(rx.take_ready(&mut sink, 10), Some(ConsumerStatus::Waiting));
    assert_eq!(sink, vec!["first".to_string(), "second".to_string(), "third".to_string()]);
}

#[test]
fn live_closed_is_terminal() {
    let (tx, mut rx) = open(2);
    let other = tx.clone();
    assert_eq!(tx.offer("last".to_string()), Ok(()));
    drop(tx);
    assert_eq!(poll(&mut rx), Received::Message("last".to_string()));
    assert_eq!(poll(&mut rx), Received::Pending);
    drop(other);
    for _ in 0..4 {
        assert_eq!(poll(&mut rx), Received::Closed);
    }
}

#[test]
fn live_offer_without_consumer_is_closed() {
    let (tx, rx) = open(2);
    drop(rx);
    assert_eq!(tx.offer("x".to_string()), Err(SendError::Closed("x".to_string())));
}

#[test]
fn live_take_ready_stops_at_the_limit() {
    let (tx, mut rx) = open(5);
    for m in ["a", "b", "c"] {
        assert_eq!(tx.offer(m.to_string()), Ok(()));
    }
    let mut sink = vec!["kept".to_string()];
    assert_eq!(rx.take_ready(&mut sink, 2), None);
    assert_eq!(sink, vec!["kept".to_string(), "a".to_string(), "b".to_string()]);
    assert_eq!(rx.take_ready(&mut sink, 0), None);
    drop(tx);
    assert_eq!(rx.take_ready(&mut sink, 2), Some(ConsumerStatus::Finished));
    assert_eq!(sink.len(), 4);
    assert_eq!(sink[3], "c");
}

#[test]
fn absorb_appends_only_messages() {
    let mut sink = vec!["a".to_string()];
    assert_eq!(absorb(&mut sink, Received::Message("b".to_string())), None);
    assert_eq!(sink, vec!["a".to_string(), "b".to_string()]);
    assert_eq!(absorb(&mut sink, Received::Pending), Some(ConsumerStatus::Waiting));
    assert_eq!(absorb(&mut sink, Received::Closed), Some(ConsumerStatus::Finished));
    assert_eq!(sink.len(), 2);
}

#[test]
fn live_channel_agrees_with_the_state_machine() {
    let (tx, mut rx) = open(2);
    let mut model = match Pipeline::<String>::create(2) {
        Ok(p) => p,
        Err(e) => panic!("no channel: {:?}", e),
    };
    let script = ["s1", "s2", "s3", "r", "s4", "r", "r", "r", "s5", "r"];
    for op in script {
        if op == "r" {
            assert_eq!(poll(&mut rx), model.receive());
        } else {
            assert_eq!(tx.offer(op.to_string()), model.send(op.to_string()));
        }
    }
    drop(tx);
    model.drop_handle();
    assert_eq!(poll(&mut rx), model.receive());
    assert_eq!(poll(&mut rx), Received::Closed);
}

#[test]
fn live_send_suspends_until_a_receive() {
    let rt = runtime();
    rt.block_on(async {
        let (tx, mut rx) = open(2);
        tx.sender.send("a".to_string()).await.unwrap();
        tx.sender.send("b".to_string()).await.unwrap();
        let blocked =
            tokio::time::timeout(Duration::from_millis(50), tx.sender.send("c".to_string())).await;
        assert!(blocked.is_err());
        let handle = tx.clone();
        let late = tokio::spawn(async move { handle.sender.send("c".to_string()).await });
        assert_eq!(rx.receiver.recv().await, Some("a".to_string()));
        assert!(late.await.unwrap().is_ok());
        assert_eq!(rx.receiver.recv().await, Some("b".to_string()));
        assert_eq!(rx.receiver.recv().await, Some("c".to_string()));
    });
}

#[test]
fn live_three_handles_capacity_two() {
    let rt = runtime();
    rt.block_on(async {
        let (tx, mut rx) = open(2);
        let mut tasks = Vec::new();
        for m in ["a", "b", "c"] {
            let handle = tx.clone();
            tasks.push(tokio::spawn(async move { handle.sender.send(m.to_string()).await }));
        }
        drop(tx);
        let mut got = Vec::new();
        for _ in 0..3 {
            got.push(rx.receiver.recv().await.unwrap());
        }
        for t in tasks {
            assert!(t.await.unwrap().is_ok());
        }
        got.sort();
        assert_eq!(got, vec!["a".to_string(), "b".to_string(), "c".to_string()]);
        assert_eq!(rx.receiver.recv().await, None);
        assert_eq!(rx.receiver.recv().await, None);
    });
}
