//! Whole sessions: what a connection does over a run of events, and what
//! that leaves in the history.

use crate::clock::MomentView;
use crate::connection::{
    lemma_user_line_is_broadcast, step_spec, terminated, ConnectionView, EffectView, EventView,
    Incident, Phase, ReadView, WriteOutcome,
};
use crate::history::{after_appends, lemma_appends_retain_last, retained};
use crate::hub::DeliveryView;
use crate::record::{user_record, RecordView};
use crate::text::{is_blank, lemma_trimmed_empty_iff_blank, trimmed};
use crate::wire::encoded;
use vstd::prelude::*;

verus! {

/// The state after a run of events, each with the moment at which it
/// happened, and everything the caller was asked to do on the way.
pub open spec fn run_spec(c: ConnectionView, events: Seq<(EventView, MomentView)>) -> (
    ConnectionView,
    Seq<EffectView>,
)
    decreases events.len(),
{
    if events.len() == 0 {
        (c, Seq::empty())
    } else {
        let (before, effects) = run_spec(c, events.drop_last());
        let (after, more) = step_spec(before, events.last().0, events.last().1);
        (after, effects + more)
    }
}

/// A run of deliveries: the hub hands over each line in turn, and each
/// relay to the client succeeds before the next line arrives.
pub open spec fn deliveries(lines: Seq<(Seq<char>, MomentView)>) -> Seq<(EventView, MomentView)>
    decreases lines.len(),
{
    if lines.len() == 0 {
        Seq::empty()
    } else {
        deliveries(lines.drop_last()) + seq![
            (EventView::Hub(DeliveryView::Message(lines.last().0)), lines.last().1),
            (EventView::Written(WriteOutcome::Done), lines.last().1),
        ]
    }
}

/// The writes that relay `lines`: one for each line, in order.
pub open spec fn relays(lines: Seq<(Seq<char>, MomentView)>) -> Seq<EffectView> {
    lines.map_values(|line: (Seq<char>, MomentView)| EffectView::Write(terminated(line.0)))
}

/// A run of one event is one step.
pub proof fn lemma_run_of_one(c: ConnectionView, event: EventView, now: MomentView)
    ensures
        run_spec(c, seq![(event, now)]).0 == step_spec(c, event, now).0,
        run_spec(c, seq![(event, now)]).1 == step_spec(c, event, now).1,
{
    let one = seq![(event, now)];
    assert(one.drop_last().len() == 0);
    assert(one.last() == (event, now));
    assert(run_spec(c, one.drop_last()) == (c, Seq::<EffectView>::empty()));
    assert(Seq::<EffectView>::empty() + step_spec(c, event, now).1 =~= step_spec(c, event, now).1);
}

/// A run in two parts is the first part, then the second from where the
/// first ended.
pub proof fn lemma_run_in_parts(
    c: ConnectionView,
    first: Seq<(EventView, MomentView)>,
    second: Seq<(EventView, MomentView)>,
)
    ensures
        run_spec(c, first + second).0 == run_spec(run_spec(c, first).0, second).0,
        run_spec(c, first + second).1 == run_spec(c, first).1 + run_spec(
            run_spec(c, first).0,
            second,
        ).1,
    decreases second.len(),
{
    if second.len() == 0 {
        assert(first + second =~= first);
        assert(run_spec(c, first).1 + Seq::<EffectView>::empty() =~= run_spec(c, first).1);
    } else {
        let all = first + second;
        assert(all.drop_last() =~= first + second.drop_last());
        assert(all.last() == second.last());
        lemma_run_in_parts(c, first, second.drop_last());
        let middle = run_spec(c, first).0;
        let (before, effects) = run_spec(middle, second.drop_last());
        let (after, more) = step_spec(before, second.last().0, second.last().1);
        assert((run_spec(c, first).1 + effects) + more =~= run_spec(c, first).1 + (effects + more));
    }
}

/// An active connection relays what the hub delivers exactly once each,
/// unchanged but for the line feed, in the order of delivery, and stays
/// active throughout.
pub proof fn lemma_deliveries_are_relayed_in_order(
    c: ConnectionView,
    lines: Seq<(Seq<char>, MomentView)>,
)
    requires
        c.phase == Phase::Active,
    ensures
        run_spec(c, deliveries(lines)) == (c, relays(lines)),
    decreases lines.len(),
{
    if lines.len() == 0 {
        assert(relays(lines) =~= Seq::<EffectView>::empty());
    } else {
        let earlier = lines.drop_last();
        lemma_deliveries_are_relayed_in_order(c, earlier);
        let message = (EventView::Hub(DeliveryView::Message(lines.last().0)), lines.last().1);
        let done = (EventView::Written(WriteOutcome::Done), lines.last().1);
        let pair = seq![message, done];
        lemma_run_in_parts(c, deliveries(earlier), pair);
        assert(pair =~= seq![message] + seq![done]);
        lemma_run_in_parts(c, seq![message], seq![done]);
        lemma_run_of_one(c, message.0, message.1);
        lemma_run_of_one(c, done.0, done.1);
        assert(run_spec(c, pair).1 =~= seq![EffectView::Write(terminated(lines.last().0))]);
        assert(relays(lines) =~= relays(earlier) + seq![
            EffectView::Write(terminated(lines.last().0)),
        ]);
    }
}

/// A run of lines from the client, each read at its moment.
pub open spec fn lines_read(lines: Seq<(Seq<char>, MomentView)>) -> Seq<(EventView, MomentView)> {
    lines.map_values(
        |line: (Seq<char>, MomentView)| (EventView::Read(ReadView::Line(line.0)), line.1),
    )
}

/// The messages that a client called `username` sends with `lines`: one for
/// each line that is not blank and has a wire form, in order.
pub open spec fn messages(username: Seq<char>, lines: Seq<(Seq<char>, MomentView)>) -> Seq<
    RecordView,
>
    decreases lines.len(),
{
    if lines.len() == 0 {
        Seq::empty()
    } else {
        let before = messages(username, lines.drop_last());
        let record = user_record(username, trimmed(lines.last().0), lines.last().1.date_time);
        if is_blank(lines.last().0) || encoded(record) is Err {
            before
        } else {
            before.push(record)
        }
    }
}

/// The records that the effects append to the history, in order.
pub open spec fn appended(effects: Seq<EffectView>) -> Seq<RecordView>
    decreases effects.len(),
{
    if effects.len() == 0 {
        Seq::empty()
    } else {
        let before = appended(effects.drop_last());
        match effects.last() {
            EffectView::Append(record) => before.push(record),
            _ => before,
        }
    }
}

/// A single effect appends its record if it is an append, and nothing
/// otherwise.
pub proof fn lemma_appended_of_one(effect: EffectView)
    ensures
        appended(seq![effect]) == match effect {
            EffectView::Append(record) => seq![record],
            _ => Seq::<RecordView>::empty(),
        },
{
    let one = seq![effect];
    assert(one.drop_last().len() == 0);
    assert(one.last() == effect);
    assert(appended(one.drop_last()) == Seq::<RecordView>::empty());
    match effect {
        EffectView::Append(record) => {
            assert(Seq::<RecordView>::empty().push(record) =~= seq![record]);
        },
        _ => {},
    }
}

/// What two lists of effects append is what the first appends, then what
/// the second appends.
pub proof fn lemma_appended_in_parts(first: Seq<EffectView>, second: Seq<EffectView>)
    ensures
        appended(first + second) == appended(first) + appended(second),
    decreases second.len(),
{
    if second.len() == 0 {
        assert(first + second =~= first);
        assert(appended(first) + Seq::<RecordView>::empty() =~= appended(first));
    } else {
        let all = first + second;
        assert(all.drop_last() =~= first + second.drop_last());
        assert(all.last() == second.last());
        lemma_appended_in_parts(first, second.drop_last());
        match second.last() {
            EffectView::Append(record) => {
                assert((appended(first) + appended(second.drop_last())).push(record) =~= appended(
                    first,
                ) + appended(second.drop_last()).push(record));
            },
            _ => {},
        }
    }
}

/// An active connection appends exactly the messages of its client to the
/// history, in the order in which the lines came, and stays active.
pub proof fn lemma_lines_become_messages(c: ConnectionView, lines: Seq<(Seq<char>, MomentView)>)
    requires
        c.phase == Phase::Active,
    ensures
        run_spec(c, lines_read(lines)).0 == c,
        appended(run_spec(c, lines_read(lines)).1) == messages(c.username, lines),
    decreases lines.len(),
{
    if lines.len() > 0 {
        let earlier = lines.drop_last();
        let last = lines.last();
        lemma_lines_become_messages(c, earlier);
        assert(lines_read(lines).drop_last() =~= lines_read(earlier));
        assert(lines_read(lines).last() == (EventView::Read(ReadView::Line(last.0)), last.1));
        let before = run_spec(c, lines_read(earlier)).1;
        let more = step_spec(c, EventView::Read(ReadView::Line(last.0)), last.1).1;
        lemma_appended_in_parts(before, more);
        lemma_trimmed_empty_iff_blank(last.0);
        let record = user_record(c.username, trimmed(last.0), last.1.date_time);
        if is_blank(last.0) {
            assert(appended(more) =~= Seq::<RecordView>::empty());
        } else {
            lemma_user_line_is_broadcast(c, last.0, last.1);
            match encoded(record) {
                Ok(text) => {
                    let pair = seq![EffectView::Append(record), EffectView::Publish(text)];
                    assert(pair =~= seq![EffectView::Append(record)] + seq![
                        EffectView::Publish(text),
                    ]);
                    lemma_appended_in_parts(
                        seq![EffectView::Append(record)],
                        seq![EffectView::Publish(text)],
                    );
                    lemma_appended_of_one(EffectView::Append(record));
                    lemma_appended_of_one(EffectView::Publish(text));
                    assert(appended(pair) =~= seq![record]);
                },
                Err(error) => {
                    lemma_appended_of_one(EffectView::Report(Incident::EncodeFailed(error)));
                },
            }
        }
        assert(messages(c.username, earlier) + Seq::<RecordView>::empty() =~= messages(
            c.username,
            earlier,
        ));
        assert(messages(c.username, earlier) + seq![record] =~= messages(c.username, earlier).push(
            record,
        ));
    }
}

/// After a run of lines from an active client, a history that carries out
/// the appends holds the last `capacity` of what it held and the client's
/// messages, in order.
pub proof fn lemma_history_holds_last_messages(
    held: Seq<RecordView>,
    c: ConnectionView,
    lines: Seq<(Seq<char>, MomentView)>,
    capacity: nat,
)
    requires
        c.phase == Phase::Active,
        held.len() <= capacity,
    ensures
        after_appends(held, appended(run_spec(c, lines_read(lines)).1), capacity) == retained(
            held + messages(c.username, lines),
            capacity,
        ),
{
    lemma_lines_become_messages(c, lines);
    lemma_appends_retain_last(held, messages(c.username, lines), capacity);
}

} // verus!
