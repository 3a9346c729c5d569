//! Message records and their wire form: one JSON object per line.

use vstd::prelude::*;
use vstd::string::*;

verus! {

/// Who authored a record: a connected client, or the server itself.
#[derive(Clone, Copy, Debug, PartialEq, Eq, Structural)]
pub enum MessageType {
    UserMessage,
    SystemNotification,
}

/// The unit of communication. A record is built once and never changed.
#[derive(Debug, PartialEq, Eq)]
pub struct ChatMessage {
    username: String,
    content: String,
    timestamp: String,
    message_type: MessageType,
}

/// What a record says, as plain text.
pub struct RecordView {
    pub username: Seq<char>,
    pub content: Seq<char>,
    pub timestamp: Seq<char>,
    pub message_type: MessageType,
}

impl View for ChatMessage {
    type V = RecordView;

    closed spec fn view(&self) -> RecordView {
        RecordView {
            username: self.username@,
            content: self.content@,
            timestamp: self.timestamp@,
            message_type: self.message_type,
        }
    }
}

/// Why a record could not be put into its wire form: the field that the JSON
/// encoder turned down.
#[derive(Clone, Copy, Debug, PartialEq, Eq, Structural)]
pub enum EncodeError {
    Username,
    Content,
    Timestamp,
}

/// The text of the notice that announces a client.
pub open spec fn joined_text() -> Seq<char> {
    "has landed"@
}

/// The text of the notice that says a client has gone.
pub open spec fn departed_text() -> Seq<char> {
    "has blasted off"@
}

/// The text of the notice that says the server is stopping.
pub open spec fn shutdown_text() -> Seq<char> {
    "Server is shutting down..."@
}

/// The name under which the server speaks for itself.
pub open spec fn system_name() -> Seq<char> {
    "System"@
}

/// A message that the client `username` wrote.
pub open spec fn user_record(
    username: Seq<char>,
    content: Seq<char>,
    timestamp: Seq<char>,
) -> RecordView {
    RecordView { username, content, timestamp, message_type: MessageType::UserMessage }
}

/// A notice from the server about `username`.
pub open spec fn notice_record(
    username: Seq<char>,
    content: Seq<char>,
    timestamp: Seq<char>,
) -> RecordView {
    RecordView { username, content, timestamp, message_type: MessageType::SystemNotification }
}

impl Clone for ChatMessage {
    fn clone(&self) -> (copy: Self)
        ensures
            copy == *self,
    {
        ChatMessage {
            username: self.username.clone(),
            content: self.content.clone(),
            timestamp: self.timestamp.clone(),
            message_type: self.message_type,
        }
    }
}

impl ChatMessage {
    /// A record with the given fields.
    pub fn new(username: &str, content: &str, timestamp: &str, message_type: MessageType) -> (record:
        ChatMessage)
        ensures
            record@ == (RecordView {
                username: username@,
                content: content@,
                timestamp: timestamp@,
                message_type,
            }),
    {
        ChatMessage {
            username: String::from_str(username),
            content: String::from_str(content),
            timestamp: String::from_str(timestamp),
            message_type,
        }
    }

    /// A message that the client `username` wrote.
    pub fn user(username: &str, content: &str, timestamp: &str) -> (record: ChatMessage)
        ensures
            record@ == user_record(username@, content@, timestamp@),
    {
        ChatMessage::new(username, content, timestamp, MessageType::UserMessage)
    }

    /// The notice that `username` has joined.
    pub fn joined(username: &str, timestamp: &str) -> (record: ChatMessage)
        ensures
            record@ == notice_record(username@, joined_text(), timestamp@),
    {
        ChatMessage::new(username, "has landed", timestamp, MessageType::SystemNotification)
    }

    /// The notice that `username` has left.
    pub fn departed(username: &str, timestamp: &str) -> (record: ChatMessage)
        ensures
            record@ == notice_record(username@, departed_text(), timestamp@),
    {
        ChatMessage::new(username, "has blasted off", timestamp, MessageType::SystemNotification)
    }

    /// The notice that the server is shutting down.
    pub fn shutdown(timestamp: &str) -> (record: ChatMessage)
        ensures
            record@ == notice_record(system_name(), shutdown_text(), timestamp@),
    {
        ChatMessage::new(
            "System",
            "Server is shutting down...",
            timestamp,
            MessageType::SystemNotification,
        )
    }

    /// The name of the client that the record is about.
    pub fn username(&self) -> (text: &str)
        ensures
            text@ == self@.username,
    {
        self.username.as_str()
    }

    /// The text of the record.
    pub fn content(&self) -> (text: &str)
        ensures
            text@ == self@.content,
    {
        self.content.as_str()
    }

    /// When the record was made.
    pub fn timestamp(&self) -> (text: &str)
        ensures
            text@ == self@.timestamp,
    {
        self.timestamp.as_str()
    }

    /// Who authored the record.
    pub fn message_type(&self) -> (kind: MessageType)
        ensures
            kind == self@.message_type,
    {
        self.message_type
    }
}

} // verus!
