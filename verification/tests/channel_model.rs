use pipeline::pipeline::{ChannelError, ConsumerStatus, Pipeline, Received, SendError};

fn open(capacity: usize) -> Pipeline<String> {
    match Pipeline::create(capacity) {
        Ok(p) => p,
        Err(e) => panic!("no channel: {:?}", e),
    }
}

#[test]
fn zero_capacity_is_refused() {
    let r = Pipeline::<String>::create(0);
    assert!(matches!(r, Err(ChannelError::InvalidCapacity)));
}

#[test]
fn new_channel_is_empty_with_one_handle() {
    let p = open(10);
    assert_eq!(p.capacity(), 10);
    assert_eq!(p.len(), 0);
    assert_eq!(p.producers(), 1);
    assert!(!p.is_closed());
}

#[test]
fn single_handle_is_first_in_first_out() {
    let mut p = open(4);
    for m in ["one", "two", "three", "four"] {
        assert_eq!(p.send(m.to_string()), Ok(()));
    }
    assert_eq!(p.receive(), Received::Message("one".to_string()));
    assert_eq!(p.receive(), Received::Message("two".to_string()));
    assert_eq!(p.send("five".to_string()), Ok(()));
    assert_eq!(p.receive(), Received::Message("three".to_string()));
    assert_eq!(p.receive(), Received::Message("four".to_string()));
    assert_eq!(p.receive(), Received::Message("five".to_string()));
    assert_eq!(p.receive(), Received::Pending);
}

#[test]
fn fan_in_loses_and_repeats_nothing() {
    let handles: usize = 3;
    let each: usize = 4;
    let mut p = match Pipeline::<(usize, usize)>::create(2) {
        Ok(p) => p,
        Err(e) => panic!("no channel: {:?}", e),
    };
    assert!(p.clone_handle());
    assert!(p.clone_handle());
    assert_eq!(p.producers(), handles);
    let mut next = vec![0usize; handles];
    let mut got: Vec<(usize, usize)> = Vec::new();
    let mut turn = 0usize;
    while next.iter().any(|n| *n < each) {
        let h = turn % handles;
        turn += 1;
        if next[h] == each {
            continue;
        }
        match p.send((h, next[h])) {
            Ok(()) => next[h] += 1,
            Err(SendError::Full(back)) => {
                assert_eq!(back, (h, next[h]));
                match p.receive() {
                    Received::Message(m) => got.push(m),
                    other => panic!("a full channel delivered {:?}", other),
                }
            }
            Err(SendError::Closed(_)) => panic!("closed while the consumer lives"),
        }
    }
    let mut rest = Vec::new();
    assert_eq!(p.consume_ready(&mut rest), ConsumerStatus::Waiting);
    got.extend(rest);
    assert_eq!(got.len(), handles * each);
    for h in 0..handles {
        let from_h: Vec<usize> = got.iter().filter(|m| m.0 == h).map(|m| m.1).collect();
        assert_eq!(from_h, vec![0, 1, 2, 3]);
    }
}

#[test]
fn a_full_channel_hands_the_message_back() {
    let capacity = 3;
    let mut p = open(capacity);
    for i in 0..capacity {
        assert_eq!(p.send(format!("m{}", i)), Ok(()));
    }
    assert_eq!(p.len(), capacity);
    assert_eq!(p.send("late".to_string()), Err(SendError::Full("late".to_string())));
    assert_eq!(p.send("late".to_string()), Err(SendError::Full("late".to_string())));
    assert_eq!(p.len(), capacity);
    assert_eq!(p.receive(), Received::Message("m0".to_string()));
    assert_eq!(p.send("late".to_string()), Ok(()));
    assert_eq!(p.receive(), Received::Message("m1".to_string()));
    assert_eq!(p.receive(), Received::Message("m2".to_string()));
    assert_eq!(p.receive(), Received::Message("late".to_string()));
}

#[test]
fn closed_and_drained_stays_closed() {
    let mut p = open(2);
    assert_eq!(p.send("last".to_string()), Ok(()));
    p.drop_handle();
    assert_eq!(p.producers(), 0);
    assert_eq!(p.receive(), Received::Message("last".to_string()));
    for _ in 0..5 {
        assert_eq!(p.receive(), Received::Closed);
    }
    assert_eq!(p.len(), 0);
}

#[test]
fn pending_while_a_handle_lives() {
    let mut p = open(2);
    assert!(p.clone_handle());
    p.drop_handle();
    assert_eq!(p.receive(), Received::Pending);
    p.drop_handle();
    assert_eq!(p.receive(), Received::Closed);
}

#[test]
fn send_after_the_consumer_is_gone_is_closed() {
    let mut p = open(2);
    assert_eq!(p.send("lost".to_string()), Ok(()));
    p.drop_consumer();
    assert!(p.is_closed());
    assert_eq!(p.len(), 0);
    assert_eq!(p.send("x".to_string()), Err(SendError::Closed("x".to_string())));
    assert_eq!(p.len(), 0);
}

#[test]
fn closed_wins_over_full() {
    let mut p = open(1);
    assert_eq!(p.send("a".to_string()), Ok(()));
    p.drop_consumer();
    assert_eq!(p.send("b".to_string()), Err(SendError::Closed("b".to_string())));
}

#[test]
fn three_handles_capacity_two() {
    let mut p = open(2);
    assert!(p.clone_handle());
    assert!(p.clone_handle());
    let mut blocked = 0;
    let mut got = Vec::new();
    for m in ["a", "b", "c"] {
        let mut offer = m.to_string();
        loop {
            match p.send(offer) {
                Ok(()) => break,
                Err(SendError::Full(back)) => {
                    blocked += 1;
                    offer = back;
                    match p.receive() {
                        Received::Message(x) => got.push(x),
                        other => panic!("a full channel delivered {:?}", other),
                    }
                }
                Err(SendError::Closed(_)) => panic!("closed while the consumer lives"),
            }
        }
    }
    assert_eq!(blocked, 1);
    while got.len() < 3 {
        match p.receive() {
            Received::Message(x) => got.push(x),
            other => panic!("expected a message, got {:?}", other),
        }
    }
    assert_eq!(got, vec!["a".to_string(), "b".to_string(), "c".to_string()]);
    let mut sorted = got.clone();
    sorted.sort();
    sorted.dedup();
    assert_eq!(sorted.len(), 3);
}

#[test]
fn consumer_turn_takes_all_in_order() {
    let mut p = open(3);
    let mut sink = vec!["earlier".to_string()];
    assert_eq!(p.send("x".to_string()), Ok(()));
    assert_eq!(p.send("y".to_string()), Ok(()));
    assert_eq!(p.consume_ready(&mut sink), ConsumerStatus::Waiting);
    assert_eq!(sink, vec!["earlier".to_string(), "x".to_string(), "y".to_string()]);
    assert_eq!(p.len(), 0);
    assert_eq!(p.send("z".to_string()), Ok(()));
    p.drop_handle();
    assert_eq!(p.consume_ready(&mut sink), ConsumerStatus::Finished);
    assert_eq!(sink.len(), 4);
    assert_eq!(sink[3], "z");
    assert_eq!(p.consume_ready(&mut sink), ConsumerStatus::Finished);
    assert_eq!(sink.len(), 4);
}

#[test]
fn dropping_a_handle_keeps_its_messages() {
    let mut p = open(2);
    assert!(p.clone_handle());
    assert_eq!(p.send("kept".to_string()), Ok(()));
    p.drop_handle();
    assert_eq!(p.producers(), 1);
    assert_eq!(p.len(), 1);
    assert_eq!(p.receive(), Received::Message("kept".to_string()));
}
