use pipeline::consumer::{next_action, Action, Tally};

#[test]
fn a_message_is_processed_and_closure_finishes() {
    assert_eq!(next_action(Some("m".to_string())), Action::Process("m".to_string()));
    assert_eq!(next_action(None::<String>), Action::Finish);
}

#[test]
fn a_failure_does_not_end_the_loop() {
    let mut tally = Tally::new();
    assert_eq!(tally, Tally { processed: 0, failed: 0 });
    let ok: Result<(), String> = Ok(());
    let bad: Result<(), String> = Err("sink".to_string());
    assert!(tally.record(&ok));
    assert!(tally.record(&bad));
    assert!(tally.record(&ok));
    assert_eq!(tally, Tally { processed: 2, failed: 1 });
}

#[test]
fn a_full_counter_stays() {
    let mut tally = Tally { processed: u64::MAX, failed: u64::MAX - 1 };
    let ok: Result<(), String> = Ok(());
    let bad: Result<(), String> = Err("sink".to_string());
    assert!(tally.record(&ok));
    assert!(tally.record(&bad));
    assert!(tally.record(&bad));
    assert_eq!(tally, Tally { processed: u64::MAX, failed: u64::MAX });
}

#[test]
fn messages_are_processed_one_at_a_time_in_order() {
    let feed = vec![Some("a"), Some("b"), Some("c"), None, Some("late")];
    let mut seen = Vec::new();
    let mut tally = Tally::new();
    for received in feed {
        match next_action(received) {
            Action::Process(msg) => {
                let done: Result<(), String> =
                    if msg == "b" { Err("rejected".to_string()) } else { Ok(()) };
                seen.push(msg);
                assert!(tally.record(&done));
            }
            Action::Finish => break,
        }
    }
    assert_eq!(seen, vec!["a", "b", "c"]);
    assert_eq!(tally, Tally { processed: 2, failed: 1 });
}
