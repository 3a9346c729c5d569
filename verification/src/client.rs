//! What the terminal client decides: what a typed line means, what goes to
//! the server, and how a record from the server is laid out.

use crate::record::{ChatMessage, MessageType, RecordView};
use vstd::prelude::*;
use vstd::string::*;
use vstd::utf8::encode_utf8;

verus! {

/// Whether `text` begins with `pattern`.
pub open spec fn begins_with(text: Seq<char>, pattern: Seq<char>) -> bool {
    pattern.len() <= text.len() && text.subrange(0, pattern.len() as int) == pattern
}

/// `text` with `to` put for every match of `from`, where `from` is not
/// empty. The matches are taken from the left and do not overlap: after a
/// match the search goes on behind it.
pub open spec fn replaced(text: Seq<char>, from: Seq<char>, to: Seq<char>) -> Seq<char>
    decreases text.len(),
{
    if from.len() == 0 || text.len() == 0 {
        text
    } else if begins_with(text, from) {
        to + replaced(text.subrange(from.len() as int, text.len() as int), from, to)
    } else {
        seq![text.first()] + replaced(text.drop_first(), from, to)
    }
}

/// Calls `str::replace`. Trusted: for a pattern that is not empty the result
/// is the text with every match replaced, the matches taken from the left
/// and not overlapping.
#[verifier::external_body]
fn replace_all(text: &str, from: &str, to: &str) -> (out: String)
    requires
        from@.len() > 0,
    ensures
        out@ == replaced(text@, from@, to@),
{
    text.replace(from, to)
}

/// `text` with its emoticons turned into emoji, one kind after the other.
pub open spec fn emojified(text: Seq<char>) -> Seq<char> {
    let t = replaced(text, ":)"@, "\u{1f60a}"@);
    let t = replaced(t, ":("@, "\u{1f622}"@);
    let t = replaced(t, ":D"@, "\u{1f604}"@);
    let t = replaced(t, "<3"@, "\u{2764}\u{fe0f}"@);
    let t = replaced(t, ":/"@, "\u{1f615}"@);
    let t = replaced(t, "XD"@, "\u{1f602}"@);
    let t = replaced(t, "!?"@, "\u{2753}\u{2757}"@);
    let t = replaced(t, "..."@, "\u{1f636}"@);
    let t = replaced(t, ":-)"@, "\u{1f60a}"@);
    let t = replaced(t, ":-("@, "\u{1f622}"@);
    let t = replaced(t, "wtf"@, "\u{1f92c}"@);
    let t = replaced(t, "brb"@, "\u{1f3c3}\u{200d}\u{2642}\u{fe0f}"@);
    replaced(t, ";)"@, "\u{1f609}"@)
}

/// Whether `pattern` stands somewhere in `text`.
pub open spec fn occurs(text: Seq<char>, pattern: Seq<char>) -> bool {
    exists|at: int|
        0 <= at && at + pattern.len() <= text.len() && #[trigger] text.subrange(
            at,
            at + pattern.len(),
        ) == pattern
}

/// Whether one of the emoticons stands somewhere in `text`.
pub open spec fn has_emoticon(text: Seq<char>) -> bool {
    ||| occurs(text, ":)"@)
    ||| occurs(text, ":("@)
    ||| occurs(text, ":D"@)
    ||| occurs(text, "<3"@)
    ||| occurs(text, ":/"@)
    ||| occurs(text, "XD"@)
    ||| occurs(text, "!?"@)
    ||| occurs(text, "..."@)
    ||| occurs(text, ":-)"@)
    ||| occurs(text, ":-("@)
    ||| occurs(text, "wtf"@)
    ||| occurs(text, "brb"@)
    ||| occurs(text, ";)"@)
}

/// Replacing a pattern that stands nowhere in the text changes nothing.
pub proof fn lemma_replaced_without_match(text: Seq<char>, from: Seq<char>, to: Seq<char>)
    requires
        from.len() > 0,
        !occurs(text, from),
    ensures
        replaced(text, from, to) == text,
    decreases text.len(),
{
    if text.len() > 0 {
        if begins_with(text, from) {
            assert(text.subrange(0int, 0int + from.len()) == from);
        }
        let rest = text.drop_first();
        if occurs(rest, from) {
            let at = choose|at: int|
                0 <= at && at + from.len() <= rest.len() && #[trigger] rest.subrange(
                    at,
                    at + from.len(),
                ) == from;
            assert(text.subrange(at + 1, at + 1 + from.len()) =~= rest.subrange(
                at,
                at + from.len(),
            ));
        }
        lemma_replaced_without_match(rest, from, to);
        assert(seq![text.first()] + rest =~= text);
    }
}

/// A text without emoticons stays as it is.
pub proof fn lemma_emojified_without_emoticon(text: Seq<char>)
    requires
        !has_emoticon(text),
    ensures
        emojified(text) == text,
{
    reveal_strlit(":)");
    reveal_strlit(":(");
    reveal_strlit(":D");
    reveal_strlit("<3");
    reveal_strlit(":/");
    reveal_strlit("XD");
    reveal_strlit("!?");
    reveal_strlit("...");
    reveal_strlit(":-)");
    reveal_strlit(":-(");
    reveal_strlit("wtf");
    reveal_strlit("brb");
    reveal_strlit(";)");
    lemma_replaced_without_match(text, ":)"@, "\u{1f60a}"@);
    lemma_replaced_without_match(text, ":("@, "\u{1f622}"@);
    lemma_replaced_without_match(text, ":D"@, "\u{1f604}"@);
    lemma_replaced_without_match(text, "<3"@, "\u{2764}\u{fe0f}"@);
    lemma_replaced_without_match(text, ":/"@, "\u{1f615}"@);
    lemma_replaced_without_match(text, "XD"@, "\u{1f602}"@);
    lemma_replaced_without_match(text, "!?"@, "\u{2753}\u{2757}"@);
    lemma_replaced_without_match(text, "..."@, "\u{1f636}"@);
    lemma_replaced_without_match(text, ":-)"@, "\u{1f60a}"@);
    lemma_replaced_without_match(text, ":-("@, "\u{1f622}"@);
    lemma_replaced_without_match(text, "wtf"@, "\u{1f92c}"@);
    lemma_replaced_without_match(text, "brb"@, "\u{1f3c3}\u{200d}\u{2642}\u{fe0f}"@);
    lemma_replaced_without_match(text, ";)"@, "\u{1f609}"@);
}

/// Turns the emoticons of `text` into emoji.
pub fn emojify(text: &str) -> (out: String)
    ensures
        out@ == emojified(text@),
{
    proof {
        reveal_strlit(":)");
        reveal_strlit(":(");
        reveal_strlit(":D");
        reveal_strlit("<3");
        reveal_strlit(":/");
        reveal_strlit("XD");
        reveal_strlit("!?");
        reveal_strlit("...");
        reveal_strlit(":-)");
        reveal_strlit(":-(");
        reveal_strlit("wtf");
        reveal_strlit("brb");
        reveal_strlit(";)");
    }
    let t = replace_all(text, ":)", "\u{1f60a}");
    let t = replace_all(t.as_str(), ":(", "\u{1f622}");
    let t = replace_all(t.as_str(), ":D", "\u{1f604}");
    let t = replace_all(t.as_str(), "<3", "\u{2764}\u{fe0f}");
    let t = replace_all(t.as_str(), ":/", "\u{1f615}");
    let t = replace_all(t.as_str(), "XD", "\u{1f602}");
    let t = replace_all(t.as_str(), "!?", "\u{2753}\u{2757}");
    let t = replace_all(t.as_str(), "...", "\u{1f636}");
    let t = replace_all(t.as_str(), ":-)", "\u{1f60a}");
    let t = replace_all(t.as_str(), ":-(", "\u{1f622}");
    let t = replace_all(t.as_str(), "wtf", "\u{1f92c}");
    let t = replace_all(t.as_str(), "brb", "\u{1f3c3}\u{200d}\u{2642}\u{fe0f}");
    replace_all(t.as_str(), ";)", "\u{1f609}")
}

/// The six colours in which names are shown.
#[derive(Clone, Copy, Debug, PartialEq, Eq, Structural)]
pub enum NameColor {
    Red,
    Green,
    Yellow,
    Blue,
    Magenta,
    Cyan,
}

/// The sum of the bytes, kept within one byte by wrapping.
pub open spec fn byte_sum(bytes: Seq<u8>) -> int
    decreases bytes.len(),
{
    if bytes.len() == 0 {
        0
    } else {
        (byte_sum(bytes.drop_last()) + bytes.last()) % 256
    }
}

/// The colour with the given place among the six.
pub open spec fn color_at(place: int) -> NameColor {
    if place == 0 {
        NameColor::Red
    } else if place == 1 {
        NameColor::Green
    } else if place == 2 {
        NameColor::Yellow
    } else if place == 3 {
        NameColor::Blue
    } else if place == 4 {
        NameColor::Magenta
    } else {
        NameColor::Cyan
    }
}

/// The colour of a name: the wrapped sum of the bytes of its UTF-8 form
/// picks one of the six.
pub open spec fn name_color(username: Seq<char>) -> NameColor {
    color_at(byte_sum(encode_utf8(username)) % 6)
}

/// The colour in which `username` is shown. The same name always has the
/// same colour.
pub fn color_for_username(username: &str) -> (color: NameColor)
    ensures
        color == name_color(username@),
{
    let bytes = username.as_bytes();
    let mut sum: u8 = 0;
    let mut i: usize = 0;
    assert(bytes@.subrange(0, 0) =~= Seq::<u8>::empty());
    while i < bytes.len()
        invariant
            i <= bytes@.len(),
            sum == byte_sum(bytes@.subrange(0, i as int)),
        decreases bytes@.len() - i,
    {
        assert(bytes@.subrange(0, i + 1).drop_last() =~= bytes@.subrange(0, i as int));
        sum = sum.wrapping_add(bytes[i]);
        i += 1;
    }
    assert(bytes@.subrange(0, i as int) =~= bytes@);
    let place = sum % 6;
    if place == 0 {
        NameColor::Red
    } else if place == 1 {
        NameColor::Green
    } else if place == 2 {
        NameColor::Yellow
    } else if place == 3 {
        NameColor::Blue
    } else if place == 4 {
        NameColor::Magenta
    } else {
        NameColor::Cyan
    }
}

/// What the client does with a line that its user has entered.
#[derive(Debug, PartialEq, Eq)]
pub enum InputAction {
    /// Nothing at all; the input stays as it is.
    Ignore,
    /// Show the list of commands and clear the input.
    ShowHelp,
    /// Clear the messages and the input.
    ClearMessages,
    /// Leave the program.
    Quit,
    /// Show the picture, send the text to the server, clear the input.
    ShowArtAndSend(String),
    /// Send the text to the server and clear the input.
    Send(String),
}

pub enum InputActionView {
    Ignore,
    ShowHelp,
    ClearMessages,
    Quit,
    ShowArtAndSend(Seq<char>),
    Send(Seq<char>),
}

impl View for InputAction {
    type V = InputActionView;

    open spec fn view(&self) -> InputActionView {
        match self {
            InputAction::Ignore => InputActionView::Ignore,
            InputAction::ShowHelp => InputActionView::ShowHelp,
            InputAction::ClearMessages => InputActionView::ClearMessages,
            InputAction::Quit => InputActionView::Quit,
            InputAction::ShowArtAndSend(text) => InputActionView::ShowArtAndSend(text@),
            InputAction::Send(text) => InputActionView::Send(text@),
        }
    }
}

/// What goes to the server for an entered line: the line with its emoticons
/// turned into emoji, and a line feed.
pub open spec fn outgoing(entered: Seq<char>) -> Seq<char> {
    emojified(entered).push('\n')
}

/// The meaning of an entered line. An empty line means nothing; four words
/// are commands, of which only the picture also goes to the server; all else
/// is sent.
pub open spec fn input_action(entered: Seq<char>) -> InputActionView {
    if entered.len() == 0 {
        InputActionView::Ignore
    } else if entered == "/help"@ {
        InputActionView::ShowHelp
    } else if entered == "/clear"@ {
        InputActionView::ClearMessages
    } else if entered == "/quit"@ {
        InputActionView::Quit
    } else if entered == "/funface"@ {
        InputActionView::ShowArtAndSend(outgoing(entered))
    } else {
        InputActionView::Send(outgoing(entered))
    }
}

/// The text that goes to the server for an entered line.
pub fn outgoing_line(entered: &str) -> (text: String)
    ensures
        text@ == outgoing(entered@),
{
    let mut text = emojify(entered);
    text.append("\n");
    proof {
        reveal_strlit("\n");
        assert(text@ =~= outgoing(entered@));
    }
    text
}

/// Decides what to do with an entered line.
pub fn interpret(entered: &str) -> (action: InputAction)
    ensures
        action@ == input_action(entered@),
{
    let owned = String::from_str(entered);
    if entered.is_empty() {
        InputAction::Ignore
    } else if owned == String::from_str("/help") {
        InputAction::ShowHelp
    } else if owned == String::from_str("/clear") {
        InputAction::ClearMessages
    } else if owned == String::from_str("/quit") {
        InputAction::Quit
    } else if owned == String::from_str("/funface") {
        InputAction::ShowArtAndSend(outgoing_line(entered))
    } else {
        InputAction::Send(outgoing_line(entered))
    }
}

/// The first line that a client sends: its name, and a line feed.
pub fn handshake_line(username: &str) -> (text: String)
    ensures
        text@ == username@.push('\n'),
{
    let mut text = String::from_str(username);
    text.append("\n");
    proof {
        reveal_strlit("\n");
        assert(text@ =~= username@.push('\n'));
    }
    text
}

/// A record laid out for the screen: plain text, the name in its colour,
/// plain text.
#[derive(Debug, PartialEq, Eq)]
pub struct Rendered {
    pub before: String,
    pub name: String,
    pub color: NameColor,
    pub after: String,
}

pub struct RenderedView {
    pub before: Seq<char>,
    pub name: Seq<char>,
    pub color: NameColor,
    pub after: Seq<char>,
}

impl View for Rendered {
    type V = RenderedView;

    open spec fn view(&self) -> RenderedView {
        RenderedView {
            before: self.before@,
            name: self.name@,
            color: self.color,
            after: self.after@,
        }
    }
}

/// How a record is laid out: a client's message under its time stamp, a
/// notice in square brackets.
pub open spec fn rendered(record: RecordView) -> RenderedView {
    match record.message_type {
        MessageType::UserMessage => RenderedView {
            before: "\u{250c}\u{2500}["@ + record.timestamp + "]\n\u{2514}\u{2500} "@,
            name: record.username,
            color: name_color(record.username),
            after: " --> "@ + record.content + "\n"@,
        },
        MessageType::SystemNotification => RenderedView {
            before: "\n["@,
            name: record.username,
            color: name_color(record.username),
            after: " "@ + record.content + "]\n"@,
        },
    }
}

/// Lays a record out for the screen.
pub fn render(record: &ChatMessage) -> (out: Rendered)
    ensures
        out@ == rendered(record@),
{
    let name = String::from_str(record.username());
    let color = color_for_username(record.username());
    match record.message_type() {
        MessageType::UserMessage => {
            let mut before = String::from_str("\u{250c}\u{2500}[");
            before.append(record.timestamp());
            before.append("]\n\u{2514}\u{2500} ");
            let mut after = String::from_str(" --> ");
            after.append(record.content());
            after.append("\n");
            Rendered { before, name, color, after }
        },
        MessageType::SystemNotification => {
            let before = String::from_str("\n[");
            let mut after = String::from_str(" ");
            after.append(record.content());
            after.append("]\n");
            Rendered { before, name, color, after }
        },
    }
}

} // verus!
