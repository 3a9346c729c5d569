//! The wire form of a record: one JSON object on one line, with the fields
//! `username`, `content`, `timestamp` and `message_type`, in that order.
//!
//! The object is framed here; JSON string literals are written and JSON text
//! is read by `serde_json`.

use crate::record::{ChatMessage, EncodeError, MessageType, RecordView};
use vstd::prelude::*;
use vstd::string::*;

verus! {

/// The error of `serde_json`. It is told apart from success and not read.
#[verifier::external_type_specification]
#[verifier::external_body]
pub struct ExJsonError(serde_json::Error);

/// The JSON string literal that `serde_json` writes for `text`, quotes
/// included, or `None` where it writes none.
pub uninterp spec fn json_text(text: Seq<char>) -> Option<Seq<char>>;

/// What `serde_json` reads from `text` when it is asked for an object: the
/// members in the order of their names, each with its value where that value
/// is a JSON string and with `None` where it is anything else. `None` where
/// it reads no object from `text`.
pub uninterp spec fn json_object(text: Seq<char>) -> Option<Seq<(Seq<char>, Option<Seq<char>>)>>;

/// A member of a JSON object as plain text.
pub open spec fn member_view(member: (String, Option<String>)) -> (Seq<char>, Option<Seq<char>>) {
    (
        member.0@,
        match member.1 {
            Some(text) => Some(text@),
            None => None,
        },
    )
}

/// The members of a JSON object as plain text.
pub open spec fn members_view(members: Seq<(String, Option<String>)>) -> Seq<
    (Seq<char>, Option<Seq<char>>),
> {
    members.map_values(|member: (String, Option<String>)| member_view(member))
}

/// Whether `text` fits on one line: it holds no line feed.
pub open spec fn single_line(text: Seq<char>) -> bool {
    forall|i: int| 0 <= i < text.len() ==> text[i] != '\n'
}

/// Calls `serde_json::to_string` on a string slice. Trusted: the outcome
/// depends on the text alone, so it is the value that `json_text` names; and
/// the literal holds no line feed, because serde_json writes every control
/// character as an escape.
#[verifier::external_body]
fn json_escape(text: &str) -> (out: Result<String, serde_json::Error>)
    ensures
        match out {
            Ok(literal) => json_text(text@) == Some(literal@),
            Err(_) => json_text(text@) is None,
        },
        out matches Ok(literal) ==> single_line(literal@),
{
    serde_json::to_string(text)
}

/// Calls `serde_json::from_str` for a map from member names to JSON values
/// and hands the members out in the map's order, keeping the text of each
/// value that is a JSON string. Trusted: the outcome depends on the text
/// alone, so it is the value that `json_object` names.
#[verifier::external_body]
fn json_parse_object(text: &str) -> (out: Result<Vec<(String, Option<String>)>, serde_json::Error>)
    ensures
        match out {
            Ok(members) => json_object(text@) == Some(members_view(members@)),
            Err(_) => json_object(text@) is None,
        },
{
    let parsed: std::collections::BTreeMap<String, serde_json::Value> = serde_json::from_str(text)?;
    Ok(parsed.into_iter().map(|(name, value)| (name, match value {
        serde_json::Value::String(string) => Some(string),
        serde_json::Value::Null => None,
        serde_json::Value::Bool(_) => None,
        serde_json::Value::Number(_) => None,
        serde_json::Value::Array(_) => None,
        serde_json::Value::Object(_) => None,
    })).collect())
}

/// The word that stands for a message type on the wire.
pub open spec fn kind_word(kind: MessageType) -> Seq<char> {
    match kind {
        MessageType::UserMessage => "UserMessage"@,
        MessageType::SystemNotification => "SystemNotification"@,
    }
}

/// The message type that a word on the wire stands for.
pub open spec fn kind_of_word(word: Seq<char>) -> Option<MessageType> {
    if word == "UserMessage"@ {
        Some(MessageType::UserMessage)
    } else if word == "SystemNotification"@ {
        Some(MessageType::SystemNotification)
    } else {
        None
    }
}

/// The line for a record of type `kind` whose three texts are already JSON
/// string literals.
pub open spec fn framed(
    kind: MessageType,
    username: Seq<char>,
    content: Seq<char>,
    timestamp: Seq<char>,
) -> Seq<char> {
    "{\"username\":"@ + username + ",\"content\":"@ + content + ",\"timestamp\":"@ + timestamp
        + ",\"message_type\":\""@ + kind_word(kind) + "\"}"@
}

/// The wire form of a record, or the first field that has no JSON literal.
pub open spec fn encoded(record: RecordView) -> Result<Seq<char>, EncodeError> {
    match json_text(record.username) {
        None => Err(EncodeError::Username),
        Some(username) => match json_text(record.content) {
            None => Err(EncodeError::Content),
            Some(content) => match json_text(record.timestamp) {
                None => Err(EncodeError::Timestamp),
                Some(timestamp) => Ok(framed(record.message_type, username, content, timestamp)),
            },
        },
    }
}

/// The view of an encoding outcome.
pub open spec fn line_view(out: Result<String, EncodeError>) -> Result<Seq<char>, EncodeError> {
    match out {
        Ok(line) => Ok(line@),
        Err(e) => Err(e),
    }
}

/// Two texts in a row fit on one line exactly when each of them does.
pub proof fn lemma_single_line_concat(a: Seq<char>, b: Seq<char>)
    ensures
        single_line(a + b) <==> single_line(a) && single_line(b),
{
    if single_line(a + b) {
        assert forall|i: int| 0 <= i < a.len() implies a[i] != '\n' by {
            assert((a + b)[i] == a[i]);
        }
        assert forall|i: int| 0 <= i < b.len() implies b[i] != '\n' by {
            assert((a + b)[a.len() + i] == b[i]);
        }
    }
}

/// The frame adds no line feed: a record whose three literals fit on one
/// line is framed on one line.
pub proof fn lemma_framed_single_line(
    kind: MessageType,
    username: Seq<char>,
    content: Seq<char>,
    timestamp: Seq<char>,
)
    requires
        single_line(username),
        single_line(content),
        single_line(timestamp),
    ensures
        single_line(framed(kind, username, content, timestamp)),
{
    reveal_strlit("{\"username\":");
    reveal_strlit(",\"content\":");
    reveal_strlit(",\"timestamp\":");
    reveal_strlit(",\"message_type\":\"");
    reveal_strlit("UserMessage");
    reveal_strlit("SystemNotification");
    reveal_strlit("\"}");
    let a = "{\"username\":"@;
    let b = a + username;
    let c = b + ",\"content\":"@;
    let d = c + content;
    let e = d + ",\"timestamp\":"@;
    let f = e + timestamp;
    let g = f + ",\"message_type\":\""@;
    let h = g + kind_word(kind);
    assert(single_line(a));
    assert(single_line(",\"content\":"@));
    assert(single_line(",\"timestamp\":"@));
    assert(single_line(",\"message_type\":\""@));
    assert(single_line(kind_word(kind)));
    assert(single_line("\"}"@));
    lemma_single_line_concat(a, username);
    lemma_single_line_concat(b, ",\"content\":"@);
    lemma_single_line_concat(c, content);
    lemma_single_line_concat(d, ",\"timestamp\":"@);
    lemma_single_line_concat(e, timestamp);
    lemma_single_line_concat(f, ",\"message_type\":\""@);
    lemma_single_line_concat(g, kind_word(kind));
    lemma_single_line_concat(h, "\"}"@);
}

/// Frames the line for a record of type `kind` from three JSON string
/// literals.
pub fn frame(kind: MessageType, username: &str, content: &str, timestamp: &str) -> (line: String)
    ensures
        line@ == framed(kind, username@, content@, timestamp@),
{
    let mut line = String::from_str("{\"username\":");
    line.append(username);
    line.append(",\"content\":");
    line.append(content);
    line.append(",\"timestamp\":");
    line.append(timestamp);
    line.append(",\"message_type\":\"");
    match kind {
        MessageType::UserMessage => line.append("UserMessage"),
        MessageType::SystemNotification => line.append("SystemNotification"),
    }
    line.append("\"}");
    line
}

/// Puts a record into its wire form, which is always a single line.
pub fn encode(record: &ChatMessage) -> (out: Result<String, EncodeError>)
    ensures
        line_view(out) == encoded(record@),
        out matches Ok(line) ==> single_line(line@),
{
    let username = match json_escape(record.username()) {
        Ok(literal) => literal,
        Err(_) => {
            return Err(EncodeError::Username);
        },
    };
    let content = match json_escape(record.content()) {
        Ok(literal) => literal,
        Err(_) => {
            return Err(EncodeError::Content);
        },
    };
    let timestamp = match json_escape(record.timestamp()) {
        Ok(literal) => literal,
        Err(_) => {
            return Err(EncodeError::Timestamp);
        },
    };
    proof {
        lemma_framed_single_line(record@.message_type, username@, content@, timestamp@);
    }
    Ok(frame(record.message_type(), username.as_str(), content.as_str(), timestamp.as_str()))
}

/// The text of the first member called `name`, if that member holds text.
pub open spec fn member_text(
    members: Seq<(Seq<char>, Option<Seq<char>>)>,
    name: Seq<char>,
) -> Option<Seq<char>>
    decreases members.len(),
{
    if members.len() == 0 {
        None
    } else if members.first().0 == name {
        members.first().1
    } else {
        member_text(members.drop_first(), name)
    }
}

/// The record that the members of an object describe: all four fields must
/// be there as text, and the message type must be one of the two words.
/// Other members are passed over.
pub open spec fn record_of(members: Seq<(Seq<char>, Option<Seq<char>>)>) -> Option<RecordView> {
    match (
        member_text(members, "username"@),
        member_text(members, "content"@),
        member_text(members, "timestamp"@),
        member_text(members, "message_type"@),
    ) {
        (Some(username), Some(content), Some(timestamp), Some(word)) => match kind_of_word(word) {
            Some(message_type) => Some(RecordView { username, content, timestamp, message_type }),
            None => None,
        },
        _ => None,
    }
}

/// The record that a line carries, if it carries one.
pub open spec fn decoded(line: Seq<char>) -> Option<RecordView> {
    match json_object(line) {
        Some(members) => record_of(members),
        None => None,
    }
}

/// The view of an optional text.
pub open spec fn text_view(text: Option<String>) -> Option<Seq<char>> {
    match text {
        Some(t) => Some(t@),
        None => None,
    }
}

/// The view of an optional record.
pub open spec fn record_view(record: Option<ChatMessage>) -> Option<RecordView> {
    match record {
        Some(r) => Some(r@),
        None => None,
    }
}

/// Looks up the text of the first member called `name`.
pub fn find_text(members: &Vec<(String, Option<String>)>, name: &str) -> (out: Option<String>)
    ensures
        text_view(out) == member_text(members_view(members@), name@),
{
    let key = String::from_str(name);
    let ghost all = members_view(members@);
    let mut i: usize = 0;
    assert(all.subrange(0, all.len() as int) =~= all);
    while i < members.len()
        invariant
            i <= members.len(),
            key@ == name@,
            all == members_view(members@),
            member_text(all, name@) == member_text(all.subrange(i as int, all.len() as int), name@),
        decreases members.len() - i,
    {
        let ghost rest = all.subrange(i as int, all.len() as int);
        assert(rest.first() == member_view(members@[i as int]));
        assert(rest.drop_first() =~= all.subrange(i + 1, all.len() as int));
        if members[i].0 == key {
            return match &members[i].1 {
                Some(text) => Some(text.clone()),
                None => None,
            };
        }
        i += 1;
    }
    None
}

/// The message type that `word` stands for.
pub fn parse_kind(word: &str) -> (out: Option<MessageType>)
    ensures
        out == kind_of_word(word@),
{
    let owned = String::from_str(word);
    if owned == String::from_str("UserMessage") {
        Some(MessageType::UserMessage)
    } else if owned == String::from_str("SystemNotification") {
        Some(MessageType::SystemNotification)
    } else {
        None
    }
}

/// Builds the record that the members of an object describe.
pub fn record_from_members(members: &Vec<(String, Option<String>)>) -> (out: Option<ChatMessage>)
    ensures
        record_view(out) == record_of(members_view(members@)),
{
    let username = find_text(members, "username");
    let content = find_text(members, "content");
    let timestamp = find_text(members, "timestamp");
    let word = find_text(members, "message_type");
    match (username, content, timestamp, word) {
        (Some(username), Some(content), Some(timestamp), Some(word)) => {
            match parse_kind(word.as_str()) {
                Some(kind) => Some(
                    ChatMessage::new(username.as_str(), content.as_str(), timestamp.as_str(), kind),
                ),
                None => None,
            }
        },
        _ => None,
    }
}

/// Reads the record that a line carries. A line that is not a JSON object,
/// or whose object does not describe a record, carries none.
pub fn decode(line: &str) -> (out: Option<ChatMessage>)
    ensures
        record_view(out) == decoded(line@),
{
    match json_parse_object(line) {
        Ok(members) => record_from_members(&members),
        Err(_) => None,
    }
}

} // verus!
