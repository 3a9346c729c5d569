use chatbox::record::{ChatMessage, EncodeError, MessageType};
use chatbox::wire::{decode, encode, find_text, frame, parse_kind, record_from_members};

fn member(name: &str, text: Option<&str>) -> (String, Option<String>) {
    (name.to_string(), text.map(|t| t.to_string()))
}

#[test]
fn encode_user_message_gives_the_exact_line() {
    let record = ChatMessage::user("nova", "hello", "12:00:00");
    assert_eq!(
        encode(&record),
        Ok("{\"username\":\"nova\",\"content\":\"hello\",\"timestamp\":\"12:00:00\",\"message_type\":\"UserMessage\"}".to_string())
    );
}

#[test]
fn encode_system_notification_gives_the_exact_line() {
    let record = ChatMessage::joined("nova", "12:00:00");
    assert_eq!(
        encode(&record),
        Ok("{\"username\":\"nova\",\"content\":\"has landed\",\"timestamp\":\"12:00:00\",\"message_type\":\"SystemNotification\"}".to_string())
    );
}

#[test]
fn round_trip_user_message() {
    let record = ChatMessage::new("nova", "hello", "12:00:00", MessageType::UserMessage);
    let line = encode(&record).unwrap();
    let back = decode(&line).unwrap();
    assert_eq!(back, record);
    assert_eq!(back.username(), "nova");
    assert_eq!(back.content(), "hello");
    assert_eq!(back.timestamp(), "12:00:00");
    assert_eq!(back.message_type(), MessageType::UserMessage);
    assert_eq!(encode(&back).unwrap(), line);
}

#[test]
fn round_trip_system_notification_with_empty_content() {
    let record = ChatMessage::new("nova", "", "12:00:00", MessageType::SystemNotification);
    let line = encode(&record).unwrap();
    assert_eq!(decode(&line), Some(record));
}

#[test]
fn round_trip_text_that_needs_escaping() {
    let record = ChatMessage::user("no\"va", "a\\b\n\tc \u{1}\u{1f680} é", "01/02/26:12:00:00");
    let line = encode(&record).unwrap();
    assert_eq!(decode(&line), Some(record));
}

#[test]
fn encode_escapes_what_json_cannot_hold_raw() {
    let record = ChatMessage::user("nova", "say \"hi\"\nbye\\", "12:00:00");
    let line = encode(&record).unwrap();
    assert_eq!(
        line,
        "{\"username\":\"nova\",\"content\":\"say \\\"hi\\\"\\nbye\\\\\",\"timestamp\":\"12:00:00\",\"message_type\":\"UserMessage\"}"
    );
    assert!(!line.contains('\n'));
}

#[test]
fn encoded_line_is_read_by_serde_json_as_the_same_fields() {
    let record = ChatMessage::user("nova", "hello \"there\"", "12:00:00");
    let line = encode(&record).unwrap();
    let value: serde_json::Value = serde_json::from_str(&line).unwrap();
    let object = value.as_object().unwrap();
    assert_eq!(object.len(), 4);
    assert_eq!(object.get("username").and_then(|v| v.as_str()), Some("nova"));
    assert_eq!(object.get("content").and_then(|v| v.as_str()), Some("hello \"there\""));
    assert_eq!(object.get("timestamp").and_then(|v| v.as_str()), Some("12:00:00"));
    assert_eq!(object.get("message_type").and_then(|v| v.as_str()), Some("UserMessage"));
}

#[test]
fn frame_puts_the_literals_in_order() {
    assert_eq!(
        frame(MessageType::SystemNotification, "\"a\"", "\"b\"", "\"c\""),
        "{\"username\":\"a\",\"content\":\"b\",\"timestamp\":\"c\",\"message_type\":\"SystemNotification\"}"
    );
    assert_eq!(
        frame(MessageType::UserMessage, "1", "2", "3"),
        "{\"username\":1,\"content\":2,\"timestamp\":3,\"message_type\":\"UserMessage\"}"
    );
}

#[test]
fn decode_takes_members_in_any_order() {
    let line = "{\"message_type\":\"SystemNotification\",\"timestamp\":\"t\",\"content\":\"has landed\",\"username\":\"nova\"}";
    assert_eq!(decode(line), Some(ChatMessage::joined("nova", "t")));
}

#[test]
fn decode_passes_over_other_members() {
    let line = "{\"username\":\"nova\",\"content\":\"hi\",\"timestamp\":\"t\",\"message_type\":\"UserMessage\",\"extra\":[1,2],\"more\":null}";
    assert_eq!(decode(line), Some(ChatMessage::user("nova", "hi", "t")));
}

#[test]
fn decode_turns_down_what_is_no_record() {
    assert_eq!(decode(""), None);
    assert_eq!(decode("hello"), None);
    assert_eq!(decode("[\"nova\",\"hi\",\"t\",\"UserMessage\"]"), None);
    assert_eq!(decode("{\"username\":\"nova\",\"content\":\"hi\",\"timestamp\":\"t\"}"), None);
    assert_eq!(
        decode("{\"username\":\"nova\",\"content\":\"hi\",\"timestamp\":\"t\",\"message_type\":\"Whisper\"}"),
        None
    );
    assert_eq!(
        decode("{\"username\":\"nova\",\"content\":7,\"timestamp\":\"t\",\"message_type\":\"UserMessage\"}"),
        None
    );
    assert_eq!(
        decode("{\"username\":\"nova\",\"content\":\"hi\",\"timestamp\":\"t\",\"message_type\":\"UserMessage\"} x"),
        None
    );
}

#[test]
fn record_from_members_needs_all_four_fields_as_text() {
    let full = vec![
        member("content", Some("hi")),
        member("message_type", Some("UserMessage")),
        member("timestamp", Some("t")),
        member("username", Some("nova")),
    ];
    assert_eq!(record_from_members(&full), Some(ChatMessage::user("nova", "hi", "t")));

    let mut no_name = full.clone();
    no_name.remove(3);
    assert_eq!(record_from_members(&no_name), None);

    let mut not_text = full.clone();
    not_text[2] = member("timestamp", None);
    assert_eq!(record_from_members(&not_text), None);

    let mut odd_kind = full.clone();
    odd_kind[1] = member("message_type", Some("usermessage"));
    assert_eq!(record_from_members(&odd_kind), None);

    assert_eq!(record_from_members(&Vec::new()), None);
}

#[test]
fn find_text_takes_the_first_member_of_that_name() {
    let members = vec![
        member("a", Some("1")),
        member("b", None),
        member("a", Some("2")),
        member("b", Some("3")),
    ];
    assert_eq!(find_text(&members, "a"), Some("1".to_string()));
    assert_eq!(find_text(&members, "b"), None);
    assert_eq!(find_text(&members, "c"), None);
}

#[test]
fn parse_kind_knows_two_words() {
    assert_eq!(parse_kind("UserMessage"), Some(MessageType::UserMessage));
    assert_eq!(parse_kind("SystemNotification"), Some(MessageType::SystemNotification));
    assert_eq!(parse_kind(""), None);
    assert_eq!(parse_kind("UserMessage "), None);
}

#[test]
fn encode_error_names_a_field() {
    assert_ne!(EncodeError::Username, EncodeError::Content);
    assert_ne!(EncodeError::Content, EncodeError::Timestamp);
}

#[test]
fn notices_carry_their_fixed_texts() {
    let left = ChatMessage::departed("nova", "t");
    assert_eq!(left.username(), "nova");
    assert_eq!(left.content(), "has blasted off");
    assert_eq!(left.message_type(), MessageType::SystemNotification);
    let stop = ChatMessage::shutdown("t");
    assert_eq!(stop.username(), "System");
    assert_eq!(stop.content(), "Server is shutting down...");
    assert_eq!(stop.timestamp(), "t");
    assert_eq!(stop.message_type(), MessageType::SystemNotification);
    let joined = ChatMessage::joined("nova", "t");
    assert_eq!(joined.content(), "has landed");
    assert_eq!(joined.clone(), joined);
}
