use chatbox::clock::Moment;
use chatbox::connection::{
    plan_broadcast, plan_publication, Connection, Effect, Event, Incident, Phase, ReadOutcome,
    WriteOutcome,
};
use chatbox::history::HistoryBuffer;
use chatbox::hub::Delivery;
use chatbox::record::{ChatMessage, EncodeError, MessageType};
use chatbox::wire::{decode, encode};

fn noon() -> Moment {
    Moment::new("12:00:00", "01/02/26:12:00:00")
}

fn line(text: &str) -> Event {
    Event::Read(ReadOutcome::Line(text.to_string()))
}

fn active(name: &str) -> Connection {
    let mut connection = Connection::new();
    connection.step(line(name), &noon());
    connection.step(Event::Written(WriteOutcome::Done), &noon());
    assert_eq!(connection.phase(), Phase::Active);
    connection
}

fn leave_line(name: &str) -> String {
    encode(&ChatMessage::departed(name, "01/02/26:12:00:00")).unwrap()
}

#[test]
fn new_connection_waits_for_the_handshake() {
    let connection = Connection::new();
    assert_eq!(connection.phase(), Phase::Handshake);
    assert_eq!(connection.username(), "");
    assert!(!connection.is_over());
}

#[test]
fn handshake_announces_the_trimmed_name_then_replays() {
    let mut connection = Connection::new();
    let effects = connection.step(line("  nova \r\n"), &noon());
    assert_eq!(
        effects,
        vec![
            Effect::Publish(
                "{\"username\":\"nova\",\"content\":\"has landed\",\"timestamp\":\"12:00:00\",\"message_type\":\"SystemNotification\"}"
                    .to_string()
            ),
            Effect::Replay,
        ]
    );
    assert_eq!(connection.phase(), Phase::Replay);
    assert_eq!(connection.username(), "nova");
}

#[test]
fn handshake_that_fails_ends_the_connection_without_a_notice() {
    for outcome in [ReadOutcome::Eof, ReadOutcome::Failed] {
        let mut connection = Connection::new();
        let effects = connection.step(Event::Read(outcome), &noon());
        assert_eq!(effects, vec![Effect::Report(Incident::HandshakeFailed)]);
        assert_eq!(connection.phase(), Phase::Aborted);
        assert!(connection.is_over());
        assert_eq!(connection.step(line("nova"), &noon()), Vec::new());
        assert_eq!(connection.phase(), Phase::Aborted);
    }
}

#[test]
fn replay_that_succeeds_makes_the_connection_active() {
    let mut connection = Connection::new();
    connection.step(line("nova\n"), &noon());
    let effects = connection.step(Event::Written(WriteOutcome::Done), &noon());
    assert_eq!(effects, Vec::new());
    assert_eq!(connection.phase(), Phase::Active);
}

#[test]
fn replay_that_fails_departs() {
    let mut connection = Connection::new();
    connection.step(line("nova\n"), &noon());
    let effects = connection.step(Event::Written(WriteOutcome::Failed), &noon());
    assert_eq!(
        effects,
        vec![Effect::Report(Incident::WriteFailed), Effect::Publish(leave_line("nova"))]
    );
    assert_eq!(connection.phase(), Phase::Departed);
}

#[test]
fn replay_phase_waits_for_the_write_alone() {
    let mut connection = Connection::new();
    connection.step(line("nova\n"), &noon());
    assert_eq!(connection.step(line("early\n"), &noon()), Vec::new());
    assert_eq!(
        connection.step(Event::Hub(Delivery::Message("x".to_string())), &noon()),
        Vec::new()
    );
    assert_eq!(connection.phase(), Phase::Replay);
    assert_eq!(connection.username(), "nova");
}

#[test]
fn user_line_is_appended_then_published() {
    let mut connection = active("nova");
    let effects = connection.step(line("  hello there \n"), &noon());
    let record = ChatMessage::user("nova", "hello there", "01/02/26:12:00:00");
    assert_eq!(
        effects,
        vec![
            Effect::Append(record),
            Effect::Publish(
                "{\"username\":\"nova\",\"content\":\"hello there\",\"timestamp\":\"01/02/26:12:00:00\",\"message_type\":\"UserMessage\"}"
                    .to_string()
            ),
        ]
    );
    assert_eq!(connection.phase(), Phase::Active);
}

#[test]
fn whitespace_only_line_is_dropped() {
    let mut connection = active("nova");
    let mut history = HistoryBuffer::new(20);
    for blank in ["  ", "\n", " \t\r\n", ""] {
        let effects = connection.step(line(blank), &noon());
        assert_eq!(effects, Vec::new());
        for effect in effects {
            if let Effect::Append(record) = effect {
                history.append(record);
            }
        }
        assert_eq!(connection.phase(), Phase::Active);
    }
    assert_eq!(history.len(), 0);
}

#[test]
fn end_of_stream_departs() {
    let mut connection = active("nova");
    let effects = connection.step(Event::Read(ReadOutcome::Eof), &noon());
    assert_eq!(
        effects,
        vec![Effect::Publish(
            "{\"username\":\"nova\",\"content\":\"has blasted off\",\"timestamp\":\"01/02/26:12:00:00\",\"message_type\":\"SystemNotification\"}"
                .to_string()
        )]
    );
    assert_eq!(connection.phase(), Phase::Departed);
    assert!(connection.is_over());
}

#[test]
fn read_failure_is_logged_and_departs() {
    let mut connection = active("nova");
    let effects = connection.step(Event::Read(ReadOutcome::Failed), &noon());
    assert_eq!(
        effects,
        vec![Effect::Report(Incident::ReadFailed), Effect::Publish(leave_line("nova"))]
    );
    assert_eq!(connection.phase(), Phase::Departed);
}

#[test]
fn broadcast_is_relayed_with_a_line_terminator() {
    let mut connection = active("nova");
    let effects = connection.step(Event::Hub(Delivery::Message("{\"raw\":1}".to_string())), &noon());
    assert_eq!(effects, vec![Effect::Write("{\"raw\":1}\n".to_string())]);
    assert_eq!(connection.phase(), Phase::Active);
    assert_eq!(connection.step(Event::Written(WriteOutcome::Done), &noon()), Vec::new());
    assert_eq!(connection.phase(), Phase::Active);
}

#[test]
fn relay_that_fails_departs() {
    let mut connection = active("nova");
    connection.step(Event::Hub(Delivery::Message("x".to_string())), &noon());
    let effects = connection.step(Event::Written(WriteOutcome::Failed), &noon());
    assert_eq!(
        effects,
        vec![Effect::Report(Incident::WriteFailed), Effect::Publish(leave_line("nova"))]
    );
    assert_eq!(connection.phase(), Phase::Departed);
}

#[test]
fn lag_is_logged_and_the_connection_goes_on() {
    let mut connection = active("nova");
    let effects = connection.step(Event::Hub(Delivery::Lagged(7)), &noon());
    assert_eq!(effects, vec![Effect::Report(Incident::Lagged(7))]);
    assert_eq!(connection.phase(), Phase::Active);
    let effects = connection.step(Event::Hub(Delivery::Message("next".to_string())), &noon());
    assert_eq!(effects, vec![Effect::Write("next\n".to_string())]);
}

#[test]
fn closed_hub_departs() {
    let mut connection = active("nova");
    let effects = connection.step(Event::Hub(Delivery::Closed), &noon());
    assert_eq!(effects, vec![Effect::Publish(leave_line("nova"))]);
    assert_eq!(connection.phase(), Phase::Departed);
}

#[test]
fn departed_connection_ignores_everything() {
    let mut connection = active("nova");
    connection.step(Event::Read(ReadOutcome::Eof), &noon());
    for event in [
        line("hello"),
        Event::Read(ReadOutcome::Eof),
        Event::Read(ReadOutcome::Failed),
        Event::Written(WriteOutcome::Failed),
        Event::Hub(Delivery::Closed),
        Event::Hub(Delivery::Message("x".to_string())),
    ] {
        assert_eq!(connection.step(event, &noon()), Vec::new());
        assert_eq!(connection.phase(), Phase::Departed);
        assert_eq!(connection.username(), "nova");
    }
}

#[test]
fn handshake_ignores_the_hub_and_writes() {
    let mut connection = Connection::new();
    assert_eq!(connection.step(Event::Hub(Delivery::Closed), &noon()), Vec::new());
    assert_eq!(connection.step(Event::Written(WriteOutcome::Failed), &noon()), Vec::new());
    assert_eq!(connection.phase(), Phase::Handshake);
}

#[test]
fn empty_name_is_taken_as_it_is() {
    let mut connection = Connection::new();
    let effects = connection.step(line("\n"), &noon());
    assert_eq!(
        effects,
        vec![Effect::Publish(encode(&ChatMessage::joined("", "12:00:00")).unwrap()), Effect::Replay]
    );
    assert_eq!(connection.username(), "");
    assert_eq!(connection.phase(), Phase::Replay);
}

#[test]
fn plan_publication_publishes_or_reports() {
    assert_eq!(
        plan_publication(Ok("line".to_string())),
        vec![Effect::Publish("line".to_string())]
    );
    assert_eq!(
        plan_publication(Err(EncodeError::Content)),
        vec![Effect::Report(Incident::EncodeFailed(EncodeError::Content))]
    );
}

#[test]
fn plan_broadcast_appends_only_what_can_be_published() {
    let record = ChatMessage::user("nova", "hi", "t");
    assert_eq!(
        plan_broadcast(record.clone(), Ok("line".to_string())),
        vec![Effect::Append(record.clone()), Effect::Publish("line".to_string())]
    );
    assert_eq!(
        plan_broadcast(record, Err(EncodeError::Username)),
        vec![Effect::Report(Incident::EncodeFailed(EncodeError::Username))]
    );
}

#[test]
fn joiner_is_replayed_what_the_history_holds_before_it_is_active() {
    let mut history = HistoryBuffer::new(20);
    let mut published: Vec<String> = Vec::new();

    let mut a = Connection::new();
    for effect in a.step(line("nova\n"), &noon()) {
        match effect {
            Effect::Append(record) => history.append(record),
            Effect::Publish(text) => published.push(text),
            _ => {}
        }
    }
    let notice = decode(&published[0]).unwrap();
    assert_eq!(notice.message_type(), MessageType::SystemNotification);
    assert_eq!(notice.content(), "has landed");
    assert_eq!(notice.username(), "nova");
    a.step(Event::Written(WriteOutcome::Done), &noon());
    for effect in a.step(line("hello\n"), &noon()) {
        match effect {
            Effect::Append(record) => history.append(record),
            Effect::Publish(text) => published.push(text),
            _ => {}
        }
    }

    let mut b = Connection::new();
    let effects = b.step(line("orion\n"), &noon());
    assert_eq!(effects.last(), Some(&Effect::Replay));
    assert_eq!(b.phase(), Phase::Replay);
    let replay = history.replay();
    let replayed: Vec<ChatMessage> = replay.lines().map(|l| decode(l).unwrap()).collect();
    assert_eq!(replayed, history.snapshot());
    assert_eq!(replayed, vec![ChatMessage::user("nova", "hello", "01/02/26:12:00:00")]);
    assert_eq!(b.phase(), Phase::Replay);
    b.step(Event::Written(WriteOutcome::Done), &noon());
    assert_eq!(b.phase(), Phase::Active);
}

#[test]
fn handle_stamps_with_the_clock() {
    let mut connection = Connection::new();
    let effects = connection.handle(line("nova\n"));
    assert_eq!(effects.len(), 2);
    let joined = match &effects[0] {
        Effect::Publish(text) => decode(text).unwrap(),
        other => panic!("unexpected effect {:?}", other),
    };
    assert_eq!(joined.username(), "nova");
    assert_eq!(joined.content(), "has landed");
    assert_eq!(joined.timestamp().len(), 8);
    assert_eq!(effects[1], Effect::Replay);

    connection.handle(Event::Written(WriteOutcome::Done));
    let effects = connection.handle(line("hi\n"));
    let record = match &effects[0] {
        Effect::Append(record) => record.clone(),
        other => panic!("unexpected effect {:?}", other),
    };
    assert_eq!(record.username(), "nova");
    assert_eq!(record.content(), "hi");
    assert_eq!(record.message_type(), MessageType::UserMessage);
    assert_eq!(record.timestamp().len(), 17);
    assert_eq!(effects[1], Effect::Publish(encode(&record).unwrap()));
}

#[test]
fn moment_now_reads_both_stamps() {
    let now = Moment::now();
    assert_eq!(now.time.len(), 8);
    assert_eq!(now.date_time.len(), 17);
    assert_eq!(now.time.matches(':').count(), 2);
    assert_eq!(now.date_time.matches('/').count(), 2);
    assert_eq!(now.date_time.matches(':').count(), 3);
    assert!(now.time.chars().all(|c| c.is_ascii_digit() || c == ':'));
    assert!(now.date_time.chars().all(|c| c.is_ascii_digit() || c == ':' || c == '/'));
}

#[test]
fn history_holds_the_last_messages_of_a_session() {
    let mut connection = active("nova");
    let mut history = HistoryBuffer::new(20);
    let mut sent: Vec<ChatMessage> = Vec::new();
    for n in 0..30 {
        let text = if n % 7 == 3 { "   \n".to_string() } else { format!(" message {} \n", n) };
        for effect in connection.step(line(&text), &noon()) {
            if let Effect::Append(record) = effect {
                history.append(record);
            }
        }
        if n % 7 != 3 {
            sent.push(ChatMessage::user("nova", &format!("message {}", n), "01/02/26:12:00:00"));
        }
    }
    assert_eq!(sent.len(), 26);
    assert_eq!(history.snapshot(), sent[6..].to_vec());
    assert_eq!(connection.phase(), Phase::Active);
}

#[test]
fn deliveries_are_relayed_once_each_in_order() {
    let mut connection = active("nova");
    let mut written = String::new();
    for n in 0..10 {
        let delivery = Delivery::Message(format!("line {}", n));
        let effects = connection.step(Event::Hub(delivery), &noon());
        assert_eq!(effects.len(), 1);
        for effect in effects {
            match effect {
                Effect::Write(text) => written.push_str(&text),
                other => panic!("unexpected effect {:?}", other),
            }
        }
        assert_eq!(connection.step(Event::Written(WriteOutcome::Done), &noon()), Vec::new());
    }
    let lines: Vec<String> = written.lines().map(|l| l.to_string()).collect();
    let expected: Vec<String> = (0..10).map(|n| format!("line {}", n)).collect();
    assert_eq!(lines, expected);
    assert_eq!(connection.phase(), Phase::Active);
}

#[test]
fn published_lines_never_hold_a_line_feed() {
    let mut connection = Connection::new();
    let mut published: Vec<String> = Vec::new();
    let mut events = vec![line("no\u{b}va\r\n"), Event::Written(WriteOutcome::Done)];
    events.push(line("first\u{c}second \"quoted\" \\ \u{1}\n"));
    events.push(Event::Read(ReadOutcome::Eof));
    for event in events {
        for effect in connection.step(event, &noon()) {
            if let Effect::Publish(text) = effect {
                published.push(text);
            }
        }
    }
    assert_eq!(published.len(), 3);
    for text in published {
        assert!(!text.contains('\n'));
        assert!(decode(&text).is_some());
    }
}

#[test]
fn moment_now_has_the_shape_of_its_patterns() {
    let now = Moment::now();
    let time: Vec<char> = now.time.chars().collect();
    let date_time: Vec<char> = now.date_time.chars().collect();
    assert_eq!(time.len(), 8);
    assert_eq!(date_time.len(), 17);
    for (at, c) in time.iter().enumerate() {
        if at == 2 || at == 5 {
            assert_eq!(*c, ':');
        } else {
            assert!(c.is_ascii_digit());
        }
    }
    for (at, c) in date_time.iter().enumerate() {
        if at == 2 || at == 5 {
            assert_eq!(*c, '/');
        } else if at == 8 || at == 11 || at == 14 {
            assert_eq!(*c, ':');
        } else {
            assert!(c.is_ascii_digit());
        }
    }
}

#[test]
fn only_an_active_connection_awaits_the_hub() {
    let mut connection = Connection::new();
    assert!(!connection.awaits_hub());
    connection.step(line("nova\n"), &noon());
    assert_eq!(connection.phase(), Phase::Replay);
    assert!(!connection.awaits_hub());
    connection.step(Event::Written(WriteOutcome::Done), &noon());
    assert!(connection.awaits_hub());
    connection.step(Event::Hub(Delivery::Lagged(3)), &noon());
    assert!(connection.awaits_hub());
    connection.step(Event::Read(ReadOutcome::Eof), &noon());
    assert!(!connection.awaits_hub());

    let mut aborted = Connection::new();
    aborted.step(Event::Read(ReadOutcome::Failed), &noon());
    assert!(!aborted.awaits_hub());
}
