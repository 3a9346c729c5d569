//! The protocol of one connection, as a machine that is told what happened
//! on the socket and on the hub and answers with what to do next.
//!
//! The machine never touches a socket. Its caller reads and writes, waits on
//! the socket and the subscription at once, and reports each outcome as an
//! [`Event`]; the machine answers with the [`Effect`]s to carry out, in order.
//!
//! A connection starts in the handshake, is replayed the history, and is
//! then active until either side ends it. Announcing a client and announcing
//! its departure take no time of their own: they are the effects of the step
//! that leaves the handshake and of the step that ends the connection.

use crate::clock::{is_stamped, Moment, MomentView};
use crate::hub::{Delivery, DeliveryView};
use crate::record::{
    departed_text, joined_text, notice_record, user_record, ChatMessage, EncodeError, RecordView,
};
use crate::text::{is_blank, lemma_trimmed_empty_iff_blank, trim, trimmed};
use crate::wire::{encode, encoded, line_view, single_line};
use vstd::prelude::*;
use vstd::string::*;

verus! {

/// Where a connection stands in the protocol.
#[derive(Clone, Copy, Debug, PartialEq, Eq, Structural)]
pub enum Phase {
    /// Waiting for the first line, which names the client.
    Handshake,
    /// Announced; the history is being written to the client.
    Replay,
    /// Relaying in both directions.
    Active,
    /// Over, after the client was announced: its departure has been
    /// published.
    Departed,
    /// Over before the client gave a name; nothing was published.
    Aborted,
}

/// How a read of one line from the socket ended.
#[derive(Debug, PartialEq, Eq)]
pub enum ReadOutcome {
    /// A line arrived, with or without its terminator.
    Line(String),
    /// The client closed the stream.
    Eof,
    /// The read failed.
    Failed,
}

/// How a write to the socket, flush included, ended.
#[derive(Clone, Copy, Debug, PartialEq, Eq, Structural)]
pub enum WriteOutcome {
    Done,
    Failed,
}

/// Something that happened to a connection.
#[derive(Debug, PartialEq, Eq)]
pub enum Event {
    /// A read from the socket ended.
    Read(ReadOutcome),
    /// The write that the machine asked for ended.
    Written(WriteOutcome),
    /// The subscription handed something over.
    Hub(Delivery),
}

/// Something worth a line in the server's log.
#[derive(Clone, Copy, Debug, PartialEq, Eq, Structural)]
pub enum Incident {
    /// No name arrived: the read failed or the client closed first.
    HandshakeFailed,
    /// A read from the client failed.
    ReadFailed,
    /// A write to the client failed.
    WriteFailed,
    /// A socket could not be accepted.
    AcceptFailed,
    /// A record had no wire form; it was not published.
    EncodeFailed(EncodeError),
    /// The subscription skipped this many lines.
    Lagged(u64),
}

/// Something for the caller to do.
#[derive(Debug, PartialEq, Eq)]
pub enum Effect {
    /// Append the record to the shared history.
    Append(ChatMessage),
    /// Publish the line on the hub.
    Publish(String),
    /// Write the replay of the shared history to the socket, flush, and
    /// report how it went.
    Replay,
    /// Write the text to the socket, flush, and report how it went.
    Write(String),
    /// Log the incident.
    Report(Incident),
}

pub enum ReadView {
    Line(Seq<char>),
    Eof,
    Failed,
}

pub enum EventView {
    Read(ReadView),
    Written(WriteOutcome),
    Hub(DeliveryView),
}

pub enum EffectView {
    Append(RecordView),
    Publish(Seq<char>),
    Replay,
    Write(Seq<char>),
    Report(Incident),
}

impl View for ReadOutcome {
    type V = ReadView;

    open spec fn view(&self) -> ReadView {
        match self {
            ReadOutcome::Line(line) => ReadView::Line(line@),
            ReadOutcome::Eof => ReadView::Eof,
            ReadOutcome::Failed => ReadView::Failed,
        }
    }
}

impl View for Event {
    type V = EventView;

    open spec fn view(&self) -> EventView {
        match self {
            Event::Read(outcome) => EventView::Read(outcome@),
            Event::Written(outcome) => EventView::Written(*outcome),
            Event::Hub(delivery) => EventView::Hub(delivery@),
        }
    }
}

impl View for Effect {
    type V = EffectView;

    open spec fn view(&self) -> EffectView {
        match self {
            Effect::Append(record) => EffectView::Append(record@),
            Effect::Publish(line) => EffectView::Publish(line@),
            Effect::Replay => EffectView::Replay,
            Effect::Write(text) => EffectView::Write(text@),
            Effect::Report(incident) => EffectView::Report(*incident),
        }
    }
}

/// A list of effects as plain values.
pub open spec fn effects_view(effects: Seq<Effect>) -> Seq<EffectView> {
    effects.map_values(|effect: Effect| effect@)
}

/// The state of one connection.
pub struct Connection {
    phase: Phase,
    username: String,
}

/// A connection as plain values.
pub struct ConnectionView {
    pub phase: Phase,
    /// The trimmed name that the client gave; empty until it has given one.
    pub username: Seq<char>,
}

impl View for Connection {
    type V = ConnectionView;

    closed spec fn view(&self) -> ConnectionView {
        ConnectionView { phase: self.phase, username: self.username@ }
    }
}

/// A line as it goes out on the socket: followed by a line feed.
pub open spec fn terminated(line: Seq<char>) -> Seq<char> {
    line.push('\n')
}

/// What to do with a notice once its encoding is known: publish the line, or
/// log that there is none.
pub open spec fn publication(line: Result<Seq<char>, EncodeError>) -> Seq<EffectView> {
    match line {
        Ok(text) => seq![EffectView::Publish(text)],
        Err(error) => seq![EffectView::Report(Incident::EncodeFailed(error))],
    }
}

/// What to do with a client's message once its encoding is known: append the
/// record to the history and publish its line. A record without a wire form
/// goes nowhere; that it has none is logged.
pub open spec fn broadcast(record: RecordView, line: Result<Seq<char>, EncodeError>) -> Seq<
    EffectView,
> {
    match line {
        Ok(text) => seq![EffectView::Append(record), EffectView::Publish(text)],
        Err(error) => seq![EffectView::Report(Incident::EncodeFailed(error))],
    }
}

/// What to do when a connection that has announced itself ends: log the
/// cause if there is one, then publish the departure notice.
pub open spec fn departure(username: Seq<char>, now: MomentView, cause: Option<Incident>) -> Seq<
    EffectView,
> {
    let notice = publication(encoded(notice_record(username, departed_text(), now.date_time)));
    match cause {
        Some(incident) => seq![EffectView::Report(incident)] + notice,
        None => notice,
    }
}

/// Whether everything that the effects publish fits on one line each, as the
/// wire asks.
pub open spec fn publishes_lines(effects: Seq<EffectView>) -> bool {
    forall|i: int|
        0 <= i < effects.len() ==> (#[trigger] effects[i] matches EffectView::Publish(line)
            ==> single_line(line))
}

/// The connection after it has departed.
pub open spec fn departed(c: ConnectionView) -> ConnectionView {
    ConnectionView { phase: Phase::Departed, username: c.username }
}

/// The protocol: the state after `event`, and what the caller has to do.
/// An event that the phase does not expect changes nothing.
pub open spec fn step_spec(c: ConnectionView, event: EventView, now: MomentView) -> (
    ConnectionView,
    Seq<EffectView>,
) {
    match c.phase {
        Phase::Handshake => match event {
            EventView::Read(ReadView::Line(line)) => {
                let username = trimmed(line);
                (
                    ConnectionView { phase: Phase::Replay, username },
                    publication(encoded(notice_record(username, joined_text(), now.time)))
                        + seq![EffectView::Replay],
                )
            },
            EventView::Read(_) => (
                ConnectionView { phase: Phase::Aborted, username: c.username },
                seq![EffectView::Report(Incident::HandshakeFailed)],
            ),
            _ => (c, seq![]),
        },
        Phase::Replay => match event {
            EventView::Written(WriteOutcome::Done) => (
                ConnectionView { phase: Phase::Active, username: c.username },
                seq![],
            ),
            EventView::Written(WriteOutcome::Failed) => (
                departed(c),
                departure(c.username, now, Some(Incident::WriteFailed)),
            ),
            _ => (c, seq![]),
        },
        Phase::Active => match event {
            EventView::Read(ReadView::Line(line)) => {
                let content = trimmed(line);
                if content.len() == 0 {
                    (c, seq![])
                } else {
                    let record = user_record(c.username, content, now.date_time);
                    (c, broadcast(record, encoded(record)))
                }
            },
            EventView::Read(ReadView::Eof) => (departed(c), departure(c.username, now, None)),
            EventView::Read(ReadView::Failed) => (
                departed(c),
                departure(c.username, now, Some(Incident::ReadFailed)),
            ),
            EventView::Hub(DeliveryView::Message(line)) => (
                c,
                seq![EffectView::Write(terminated(line))],
            ),
            EventView::Hub(DeliveryView::Lagged(skipped)) => (
                c,
                seq![EffectView::Report(Incident::Lagged(skipped))],
            ),
            EventView::Hub(DeliveryView::Closed) => (departed(c), departure(c.username, now, None)),
            EventView::Written(WriteOutcome::Done) => (c, seq![]),
            EventView::Written(WriteOutcome::Failed) => (
                departed(c),
                departure(c.username, now, Some(Incident::WriteFailed)),
            ),
        },
        Phase::Departed => (c, seq![]),
        Phase::Aborted => (c, seq![]),
    }
}

/// Decides what to do with a notice once its encoding is known.
pub fn plan_publication(line: Result<String, EncodeError>) -> (effects: Vec<Effect>)
    ensures
        effects_view(effects@) == publication(line_view(line)),
        (line matches Ok(text) ==> single_line(text@)) ==> publishes_lines(effects_view(effects@)),
{
    let mut effects: Vec<Effect> = Vec::new();
    match line {
        Ok(text) => effects.push(Effect::Publish(text)),
        Err(error) => effects.push(Effect::Report(Incident::EncodeFailed(error))),
    }
    assert(effects_view(effects@) =~= publication(line_view(line)));
    effects
}

/// Decides what to do with a client's message once its encoding is known.
pub fn plan_broadcast(record: ChatMessage, line: Result<String, EncodeError>) -> (effects: Vec<
    Effect,
>)
    ensures
        effects_view(effects@) == broadcast(record@, line_view(line)),
        (line matches Ok(text) ==> single_line(text@)) ==> publishes_lines(effects_view(effects@)),
{
    let mut effects: Vec<Effect> = Vec::new();
    match line {
        Ok(text) => {
            effects.push(Effect::Append(record));
            effects.push(Effect::Publish(text));
        },
        Err(error) => effects.push(Effect::Report(Incident::EncodeFailed(error))),
    }
    assert(effects_view(effects@) =~= broadcast(record@, line_view(line)));
    effects
}

impl Connection {
    /// A connection that has just been accepted.
    pub fn new() -> (connection: Connection)
        ensures
            connection@ == (ConnectionView { phase: Phase::Handshake, username: Seq::empty() }),
    {
        Connection { phase: Phase::Handshake, username: String::new() }
    }

    /// Where the connection stands.
    pub fn phase(&self) -> (phase: Phase)
        ensures
            phase == self@.phase,
    {
        self.phase
    }

    /// The name that the client gave.
    pub fn username(&self) -> (name: &str)
        ensures
            name@ == self@.username,
    {
        self.username.as_str()
    }

    /// Whether the connection takes deliveries from the hub. Only an active
    /// connection does: before that a delivery would be dropped, so the
    /// caller waits on the socket alone.
    pub fn awaits_hub(&self) -> (b: bool)
        ensures
            b == (self@.phase == Phase::Active),
    {
        match self.phase {
            Phase::Active => true,
            _ => false,
        }
    }

    /// Whether the connection is over.
    pub fn is_over(&self) -> (over: bool)
        ensures
            over == (self@.phase == Phase::Departed || self@.phase == Phase::Aborted),
    {
        match self.phase {
            Phase::Departed => true,
            Phase::Aborted => true,
            _ => false,
        }
    }

    /// Ends the connection and plans its departure.
    fn depart(&mut self, now: &Moment, cause: Option<Incident>) -> (effects: Vec<Effect>)
        ensures
            final(self)@ == departed(old(self)@),
            effects_view(effects@) == departure(old(self)@.username, now@, cause),
            publishes_lines(effects_view(effects@)),
    {
        let notice = ChatMessage::departed(self.username.as_str(), now.date_time.as_str());
        let planned = plan_publication(encode(&notice));
        self.phase = Phase::Departed;
        match cause {
            Some(incident) => {
                let mut effects: Vec<Effect> = Vec::new();
                effects.push(Effect::Report(incident));
                let ghost head = effects@;
                let mut planned = planned;
                let ghost tail = planned@;
                effects.append(&mut planned);
                assert(effects_view(head + tail) =~= effects_view(head) + effects_view(tail));
                assert(effects_view(head) =~= seq![EffectView::Report(incident)]);
                effects
            },
            None => planned,
        }
    }

    /// Takes one event, with the time at which it happened, and answers with
    /// what to do about it.
    pub fn step(&mut self, event: Event, now: &Moment) -> (effects: Vec<Effect>)
        ensures
            final(self)@ == step_spec(old(self)@, event@, now@).0,
            effects_view(effects@) == step_spec(old(self)@, event@, now@).1,
            publishes_lines(effects_view(effects@)),
    {
        let phase = self.phase;
        match phase {
            Phase::Handshake => match event {
                Event::Read(ReadOutcome::Line(line)) => {
                    let username = trim(line.as_str());
                    let notice = ChatMessage::joined(username.as_str(), now.time.as_str());
                    let mut effects = plan_publication(encode(&notice));
                    let ghost head = effects@;
                    effects.push(Effect::Replay);
                    assert(effects_view(head.push(Effect::Replay)) =~= effects_view(head)
                        + seq![EffectView::Replay]);
                    self.phase = Phase::Replay;
                    self.username = username;
                    effects
                },
                Event::Read(_) => {
                    self.phase = Phase::Aborted;
                    let mut effects: Vec<Effect> = Vec::new();
                    effects.push(Effect::Report(Incident::HandshakeFailed));
                    assert(effects_view(effects@) =~= seq![
                        EffectView::Report(Incident::HandshakeFailed),
                    ]);
                    effects
                },
                _ => Connection::nothing(),
            },
            Phase::Replay => match event {
                Event::Written(WriteOutcome::Done) => {
                    self.phase = Phase::Active;
                    Connection::nothing()
                },
                Event::Written(WriteOutcome::Failed) => self.depart(
                    now,
                    Some(Incident::WriteFailed),
                ),
                _ => Connection::nothing(),
            },
            Phase::Active => match event {
                Event::Read(ReadOutcome::Line(line)) => {
                    let content = trim(line.as_str());
                    if content.as_str().is_empty() {
                        Connection::nothing()
                    } else {
                        let record = ChatMessage::user(
                            self.username.as_str(),
                            content.as_str(),
                            now.date_time.as_str(),
                        );
                        let line = encode(&record);
                        plan_broadcast(record, line)
                    }
                },
                Event::Read(ReadOutcome::Eof) => self.depart(now, None),
                Event::Read(ReadOutcome::Failed) => self.depart(now, Some(Incident::ReadFailed)),
                Event::Hub(Delivery::Message(line)) => {
                    let mut text = line;
                    text.append("\n");
                    proof {
                        reveal_strlit("\n");
                        assert(text@ =~= terminated(line@));
                    }
                    let mut effects: Vec<Effect> = Vec::new();
                    effects.push(Effect::Write(text));
                    assert(effects_view(effects@) =~= seq![EffectView::Write(terminated(line@))]);
                    effects
                },
                Event::Hub(Delivery::Lagged(skipped)) => {
                    let mut effects: Vec<Effect> = Vec::new();
                    effects.push(Effect::Report(Incident::Lagged(skipped)));
                    assert(effects_view(effects@) =~= seq![
                        EffectView::Report(Incident::Lagged(skipped)),
                    ]);
                    effects
                },
                Event::Hub(Delivery::Closed) => self.depart(now, None),
                Event::Written(WriteOutcome::Done) => Connection::nothing(),
                Event::Written(WriteOutcome::Failed) => self.depart(
                    now,
                    Some(Incident::WriteFailed),
                ),
            },
            Phase::Departed => Connection::nothing(),
            Phase::Aborted => Connection::nothing(),
        }
    }

    /// Takes one event that has just happened: reads the clock and steps
    /// with the moment that the clock gave.
    pub fn handle(&mut self, event: Event) -> (effects: Vec<Effect>)
        ensures
            exists|now: MomentView|
                is_stamped(now) && final(self)@ == (#[trigger] step_spec(
                    old(self)@,
                    event@,
                    now,
                )).0 && effects_view(effects@) == step_spec(old(self)@, event@, now).1,
            publishes_lines(effects_view(effects@)),
    {
        let now = Moment::now();
        let effects = self.step(event, &now);
        assert(final(self)@ == step_spec(old(self)@, event@, now@).0);
        effects
    }

    /// No effects.
    fn nothing() -> (effects: Vec<Effect>)
        ensures
            effects_view(effects@) == Seq::<EffectView>::empty(),
    {
        let effects: Vec<Effect> = Vec::new();
        assert(effects_view(effects@) =~= Seq::<EffectView>::empty());
        effects
    }
}

/// Whether an effect appends to the history.
pub open spec fn is_append(effect: EffectView) -> bool {
    effect is Append
}

/// Whether an effect publishes on the hub.
pub open spec fn is_publish(effect: EffectView) -> bool {
    effect is Publish
}

/// A line of nothing but white space from an active client is dropped: no
/// record reaches the history, nothing is published, and the connection
/// stays as it was.
pub proof fn lemma_blank_line_is_dropped(c: ConnectionView, line: Seq<char>, now: MomentView)
    requires
        c.phase == Phase::Active,
        is_blank(line),
    ensures
        step_spec(c, EventView::Read(ReadView::Line(line)), now) == (c, Seq::<EffectView>::empty()),
{
    lemma_trimmed_empty_iff_blank(line);
}

/// A line with anything else in it becomes a message of this client, with
/// its white space trimmed and so never empty. The message is appended to
/// the history and then published in its wire form; if it has none, that is
/// logged and nothing else happens.
pub proof fn lemma_user_line_is_broadcast(c: ConnectionView, line: Seq<char>, now: MomentView)
    requires
        c.phase == Phase::Active,
        !is_blank(line),
    ensures
        ({
            let record = user_record(c.username, trimmed(line), now.date_time);
            let (after, effects) = step_spec(c, EventView::Read(ReadView::Line(line)), now);
            &&& record.content.len() > 0
            &&& after == c
            &&& effects == match encoded(record) {
                Ok(text) => seq![EffectView::Append(record), EffectView::Publish(text)],
                Err(error) => seq![EffectView::Report(Incident::EncodeFailed(error))],
            }
        }),
{
    lemma_trimmed_empty_iff_blank(line);
}

/// Whatever enters the history has a wire form, and that form is published
/// right after: an append is always followed by the line of its record.
pub proof fn lemma_append_is_published(c: ConnectionView, event: EventView, now: MomentView, i: int)
    requires
        0 <= i < step_spec(c, event, now).1.len(),
        step_spec(c, event, now).1[i] is Append,
    ensures
        ({
            let effects = step_spec(c, event, now).1;
            &&& i + 1 < effects.len()
            &&& encoded(effects[i]->Append_0) is Ok
            &&& effects[i + 1] == EffectView::Publish(encoded(effects[i]->Append_0)->Ok_0)
        }),
{
}

/// Only a line from an active client ever reaches the history.
pub proof fn lemma_append_needs_a_user_line(c: ConnectionView, event: EventView, now: MomentView)
    ensures
        (exists|i: int|
            0 <= i < step_spec(c, event, now).1.len() && is_append(
                #[trigger] step_spec(c, event, now).1[i],
            )) ==> c.phase == Phase::Active && event is Read && event->Read_0 is Line,
{
}

/// A lag does not end a connection: it is logged with its count and the
/// connection stays active.
pub proof fn lemma_lag_is_not_terminal(c: ConnectionView, skipped: u64, now: MomentView)
    requires
        c.phase == Phase::Active,
    ensures
        step_spec(c, EventView::Hub(DeliveryView::Lagged(skipped)), now) == (
            c,
            seq![EffectView::Report(Incident::Lagged(skipped))],
        ),
{
}

/// A connection that is over stays over, and asks for nothing more.
pub proof fn lemma_over_is_final(c: ConnectionView, event: EventView, now: MomentView)
    requires
        c.phase == Phase::Departed || c.phase == Phase::Aborted,
    ensures
        step_spec(c, event, now) == (c, Seq::<EffectView>::empty()),
{
}

/// Once the handshake is done the name never changes, and the handshake is
/// never entered again.
pub proof fn lemma_name_is_fixed(c: ConnectionView, event: EventView, now: MomentView)
    requires
        c.phase != Phase::Handshake,
    ensures
        step_spec(c, event, now).0.username == c.username,
        step_spec(c, event, now).0.phase != Phase::Handshake,
{
}

/// A connection that has announced itself departs exactly when it moves to
/// `Departed`, and that step ends with the departure notice: the last effect
/// publishes it, or reports that it has no wire form.
pub proof fn lemma_departure_is_announced(c: ConnectionView, event: EventView, now: MomentView)
    requires
        c.phase == Phase::Replay || c.phase == Phase::Active,
        step_spec(c, event, now).0.phase == Phase::Departed,
    ensures
        ({
            let effects = step_spec(c, event, now).1;
            let notice = notice_record(c.username, departed_text(), now.date_time);
            &&& effects.len() >= 1
            &&& effects.last() == match encoded(notice) {
                Ok(text) => EffectView::Publish(text),
                Err(error) => EffectView::Report(Incident::EncodeFailed(error)),
            }
        }),
{
}

/// A handshake that fails publishes nothing: the client was never
/// announced, so its leaving is not announced either.
pub proof fn lemma_failed_handshake_is_silent(c: ConnectionView, event: EventView, now: MomentView)
    requires
        c.phase == Phase::Handshake,
        step_spec(c, event, now).0.phase == Phase::Aborted,
    ensures
        forall|i: int|
            0 <= i < step_spec(c, event, now).1.len() ==> !is_publish(
                #[trigger] step_spec(c, event, now).1[i],
            ),
{
}

} // verus!
