use chatbox::history::HistoryBuffer;
use chatbox::record::ChatMessage;
use chatbox::wire::encode;

fn numbered(n: usize) -> ChatMessage {
    ChatMessage::user("nova", &format!("message {}", n), "12:00:00")
}

#[test]
fn new_history_is_empty() {
    let history = HistoryBuffer::new(20);
    assert_eq!(history.len(), 0);
    assert_eq!(history.capacity(), 20);
    assert_eq!(history.snapshot(), Vec::new());
    assert_eq!(history.replay(), "");
}

#[test]
fn snapshot_keeps_append_order_below_capacity() {
    let mut history = HistoryBuffer::new(20);
    for n in 0..5 {
        history.append(numbered(n));
    }
    let expected: Vec<ChatMessage> = (0..5).map(numbered).collect();
    assert_eq!(history.snapshot(), expected);
    assert_eq!(history.len(), 5);
}

#[test]
fn twenty_first_append_evicts_the_oldest() {
    let mut history = HistoryBuffer::new(20);
    for n in 0..20 {
        history.append(numbered(n));
    }
    assert_eq!(history.len(), 20);
    assert_eq!(history.snapshot()[0], numbered(0));

    history.append(numbered(20));

    let snapshot = history.snapshot();
    assert_eq!(snapshot.len(), 20);
    assert!(!snapshot.contains(&numbered(0)));
    let expected: Vec<ChatMessage> = (1..21).map(numbered).collect();
    assert_eq!(snapshot, expected);
}

#[test]
fn history_holds_the_last_records_of_any_run() {
    for capacity in 0..6usize {
        for run in 0..15usize {
            let mut history = HistoryBuffer::new(capacity);
            for n in 0..run {
                history.append(numbered(n));
                assert!(history.len() <= capacity);
            }
            let first = run.saturating_sub(capacity);
            let expected: Vec<ChatMessage> = (first..run).map(numbered).collect();
            assert_eq!(history.snapshot(), expected);
        }
    }
}

#[test]
fn history_without_room_stays_empty() {
    let mut history = HistoryBuffer::new(0);
    history.append(numbered(1));
    assert_eq!(history.len(), 0);
    assert_eq!(history.snapshot(), Vec::new());
}

#[test]
fn history_of_one_keeps_the_newest() {
    let mut history = HistoryBuffer::new(1);
    history.append(numbered(1));
    history.append(numbered(2));
    assert_eq!(history.snapshot(), vec![numbered(2)]);
}

#[test]
fn snapshot_does_not_change_the_history() {
    let mut history = HistoryBuffer::new(3);
    history.append(numbered(1));
    history.append(numbered(2));
    let first = history.snapshot();
    let second = history.snapshot();
    assert_eq!(first, second);
    assert_eq!(history.len(), 2);
}

#[test]
fn replay_is_one_line_per_record_in_order() {
    let mut history = HistoryBuffer::new(3);
    for n in 0..4 {
        history.append(numbered(n));
    }
    let expected = format!(
        "{}\n{}\n{}\n",
        encode(&numbered(1)).unwrap(),
        encode(&numbered(2)).unwrap(),
        encode(&numbered(3)).unwrap()
    );
    assert_eq!(history.replay(), expected);
    assert_eq!(
        history.replay().lines().next(),
        Some("{\"username\":\"nova\",\"content\":\"message 1\",\"timestamp\":\"12:00:00\",\"message_type\":\"UserMessage\"}")
    );
}

#[test]
fn server_capacities_are_twenty_and_two_hundred() {
    assert_eq!(chatbox::history::HISTORY_CAPACITY, 20);
    assert_eq!(chatbox::hub::HUB_CAPACITY, 200);
    let history = HistoryBuffer::new(chatbox::history::HISTORY_CAPACITY);
    assert_eq!(history.capacity(), 20);
}
