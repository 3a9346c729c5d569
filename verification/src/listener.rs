//! The decisions of the accept loop: whom to serve, and how to stop.
//!
//! As with a connection, the caller does the waiting: it accepts sockets and
//! watches for the shutdown trigger, reports what happened, and carries out
//! the answer.

use crate::clock::{is_stamped, Moment, MomentView};
use crate::connection::Incident;
use crate::record::{notice_record, shutdown_text, system_name, ChatMessage, EncodeError};
use crate::wire::{encode, encoded, line_view, single_line};
use vstd::prelude::*;

verus! {

/// Something that happened to the accept loop.
#[derive(Clone, Copy, Debug, PartialEq, Eq, Structural)]
pub enum ListenerEvent {
    /// A socket was accepted.
    Accepted,
    /// An accept failed.
    AcceptFailed,
    /// The shutdown trigger fired.
    Shutdown,
}

/// Something for the accept loop to do.
#[derive(Debug, PartialEq, Eq)]
pub enum ListenerEffect {
    /// Serve the accepted socket: subscribe it to the hub and run a
    /// connection for it.
    Serve,
    /// Publish the line on the hub.
    Publish(String),
    /// Log the incident.
    Report(Incident),
}

pub enum ListenerEffectView {
    Serve,
    Publish(Seq<char>),
    Report(Incident),
}

impl View for ListenerEffect {
    type V = ListenerEffectView;

    open spec fn view(&self) -> ListenerEffectView {
        match self {
            ListenerEffect::Serve => ListenerEffectView::Serve,
            ListenerEffect::Publish(line) => ListenerEffectView::Publish(line@),
            ListenerEffect::Report(incident) => ListenerEffectView::Report(*incident),
        }
    }
}

/// A list of effects as plain values.
pub open spec fn listener_effects_view(effects: Seq<ListenerEffect>) -> Seq<ListenerEffectView> {
    effects.map_values(|effect: ListenerEffect| effect@)
}

/// Whether everything that the effects publish fits on one line each, as the
/// wire asks.
pub open spec fn publishes_lines(effects: Seq<ListenerEffectView>) -> bool {
    forall|i: int|
        0 <= i < effects.len() ==> (#[trigger] effects[i] matches ListenerEffectView::Publish(line)
            ==> single_line(line))
}

/// The accept loop: it runs until the shutdown trigger fires.
pub struct Listener {
    running: bool,
}

/// What to do with the shutdown notice once its encoding is known: publish
/// the line, or log that there is none.
pub open spec fn shutdown_notice(line: Result<Seq<char>, EncodeError>) -> Seq<ListenerEffectView> {
    match line {
        Ok(text) => seq![ListenerEffectView::Publish(text)],
        Err(error) => seq![ListenerEffectView::Report(Incident::EncodeFailed(error))],
    }
}

/// The accept loop's rule: whether it runs after `event`, and what the
/// caller has to do. Once stopped, nothing starts it again.
pub open spec fn listen_spec(running: bool, event: ListenerEvent, now: MomentView) -> (
    bool,
    Seq<ListenerEffectView>,
) {
    if !running {
        (false, seq![])
    } else {
        match event {
            ListenerEvent::Accepted => (true, seq![ListenerEffectView::Serve]),
            ListenerEvent::AcceptFailed => (
                true,
                seq![ListenerEffectView::Report(Incident::AcceptFailed)],
            ),
            ListenerEvent::Shutdown => (
                false,
                shutdown_notice(
                    encoded(notice_record(system_name(), shutdown_text(), now.date_time)),
                ),
            ),
        }
    }
}

/// Decides what to do with the shutdown notice once its encoding is known.
pub fn plan_shutdown(line: Result<String, EncodeError>) -> (effects: Vec<ListenerEffect>)
    ensures
        listener_effects_view(effects@) == shutdown_notice(line_view(line)),
        (line matches Ok(text) ==> single_line(text@)) ==> publishes_lines(
            listener_effects_view(effects@),
        ),
{
    let mut effects: Vec<ListenerEffect> = Vec::new();
    match line {
        Ok(text) => effects.push(ListenerEffect::Publish(text)),
        Err(error) => effects.push(ListenerEffect::Report(Incident::EncodeFailed(error))),
    }
    assert(listener_effects_view(effects@) =~= shutdown_notice(line_view(line)));
    effects
}

impl Listener {
    /// Whether the loop is still accepting.
    pub closed spec fn running(&self) -> bool {
        self.running
    }

    /// A loop that is accepting.
    pub fn new() -> (listener: Listener)
        ensures
            listener.running(),
    {
        Listener { running: true }
    }

    /// Whether the loop is still accepting.
    pub fn is_running(&self) -> (running: bool)
        ensures
            running == self.running(),
    {
        self.running
    }

    /// Takes one event, with the time at which it happened, and answers with
    /// what to do about it.
    pub fn step(&mut self, event: ListenerEvent, now: &Moment) -> (effects: Vec<ListenerEffect>)
        ensures
            final(self).running() == listen_spec(old(self).running(), event, now@).0,
            listener_effects_view(effects@) == listen_spec(old(self).running(), event, now@).1,
            publishes_lines(listener_effects_view(effects@)),
    {
        let mut effects: Vec<ListenerEffect> = Vec::new();
        if !self.running {
            assert(listener_effects_view(effects@) =~= Seq::<ListenerEffectView>::empty());
            return effects;
        }
        match event {
            ListenerEvent::Accepted => {
                effects.push(ListenerEffect::Serve);
                assert(listener_effects_view(effects@) =~= seq![ListenerEffectView::Serve]);
                effects
            },
            ListenerEvent::AcceptFailed => {
                effects.push(ListenerEffect::Report(Incident::AcceptFailed));
                assert(listener_effects_view(effects@) =~= seq![
                    ListenerEffectView::Report(Incident::AcceptFailed),
                ]);
                effects
            },
            ListenerEvent::Shutdown => {
                self.running = false;
                let notice = ChatMessage::shutdown(now.date_time.as_str());
                plan_shutdown(encode(&notice))
            },
        }
    }

    /// Takes one event that has just happened: reads the clock and steps
    /// with the moment that the clock gave.
    pub fn handle(&mut self, event: ListenerEvent) -> (effects: Vec<ListenerEffect>)
        ensures
            exists|now: MomentView|
                is_stamped(now) && final(self).running() == (#[trigger] listen_spec(
                    old(self).running(),
                    event,
                    now,
                )).0 && listener_effects_view(effects@) == listen_spec(
                    old(self).running(),
                    event,
                    now,
                ).1,
            publishes_lines(listener_effects_view(effects@)),
    {
        let now = Moment::now();
        let effects = self.step(event, &now);
        assert(final(self).running() == listen_spec(old(self).running(), event, now@).0);
        effects
    }
}

} // verus!
