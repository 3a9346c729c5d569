//! The bounded history of recent records, which is replayed to a client that
//! joins.
//!
//! The buffer is a plain value. Whoever shares it between connections keeps
//! it behind a lock, so that an append and a snapshot never interleave.

use crate::record::{ChatMessage, RecordView};
use crate::wire::{encode, encoded};
use std::collections::VecDeque;
use vstd::prelude::*;
use vstd::string::*;

verus! {

/// The number of records that the server keeps for replay.
pub const HISTORY_CAPACITY: usize = 20;

/// The last `capacity` items of `all`, in their order.
pub open spec fn retained<T>(all: Seq<T>, capacity: nat) -> Seq<T> {
    if all.len() <= capacity {
        all
    } else {
        all.subrange(all.len() - capacity, all.len() as int)
    }
}

/// What a buffer that holds `held` holds after `added` were appended one by
/// one.
pub open spec fn after_appends<T>(held: Seq<T>, added: Seq<T>, capacity: nat) -> Seq<T>
    decreases added.len(),
{
    if added.len() == 0 {
        held
    } else {
        after_appends(retained(held.push(added.first()), capacity), added.drop_first(), capacity)
    }
}

/// The records as plain values.
pub open spec fn records_view(records: Seq<ChatMessage>) -> Seq<RecordView> {
    records.map_values(|record: ChatMessage| record@)
}

/// What goes out on the socket for the replay of `records`: the line of each
/// record that has a wire form, in order, each followed by a line feed.
pub open spec fn replay_of(records: Seq<RecordView>) -> Seq<char>
    decreases records.len(),
{
    if records.len() == 0 {
        Seq::empty()
    } else {
        let before = replay_of(records.drop_last());
        match encoded(records.last()) {
            Ok(line) => before + line.push('\n'),
            Err(_) => before,
        }
    }
}

/// A first-in, first-out store of the most recent records.
pub struct HistoryBuffer {
    records: VecDeque<ChatMessage>,
    capacity: usize,
}

impl View for HistoryBuffer {
    type V = Seq<RecordView>;

    closed spec fn view(&self) -> Seq<RecordView> {
        records_view(self.records@)
    }
}

impl HistoryBuffer {
    #[verifier::type_invariant]
    spec fn within_capacity(self) -> bool {
        self.records@.len() <= self.capacity
    }

    /// The largest number of records that the buffer holds.
    pub closed spec fn spec_capacity(&self) -> usize {
        self.capacity
    }

    /// An empty buffer that holds at most `capacity` records.
    pub fn new(capacity: usize) -> (history: HistoryBuffer)
        ensures
            history@ == Seq::<RecordView>::empty(),
            history.spec_capacity() == capacity,
    {
        let history = HistoryBuffer { records: VecDeque::new(), capacity };
        assert(history@ =~= Seq::<RecordView>::empty());
        history
    }

    /// The largest number of records that the buffer holds.
    #[verifier::when_used_as_spec(spec_capacity)]
    pub fn capacity(&self) -> (capacity: usize)
        ensures
            capacity == self.spec_capacity(),
    {
        self.capacity
    }

    /// The number of records held, which never exceeds the capacity.
    pub fn len(&self) -> (len: usize)
        ensures
            len == self@.len(),
            len <= self.spec_capacity(),
    {
        proof {
            use_type_invariant(self);
        }
        self.records.len()
    }

    /// Appends a record at the tail. A full buffer lets its oldest record
    /// go first.
    pub fn append(&mut self, record: ChatMessage)
        ensures
            final(self)@ == retained(old(self)@.push(record@), old(self).spec_capacity() as nat),
            final(self).spec_capacity() == old(self).spec_capacity(),
            final(self)@.len() <= final(self).spec_capacity(),
    {
        proof {
            use_type_invariant(&*self);
        }
        let ghost before = self.records@;
        if self.capacity == 0 {
            assert(self@ =~= retained(self@.push(record@), 0));
            return ;
        }
        let mut records: VecDeque<ChatMessage> = VecDeque::new();
        core::mem::swap(&mut self.records, &mut records);
        if records.len() == self.capacity {
            let _ = records.pop_front();
        }
        records.push_back(record);
        core::mem::swap(&mut self.records, &mut records);
        assert(records_view(self.records@) =~= retained(
            records_view(before).push(record@),
            self.capacity as nat,
        ));
    }

    /// The records held, oldest first.
    pub fn snapshot(&self) -> (records: Vec<ChatMessage>)
        ensures
            records_view(records@) == self@,
            records@.len() <= self.spec_capacity(),
    {
        proof {
            use_type_invariant(self);
        }
        let mut records: Vec<ChatMessage> = Vec::new();
        let mut i: usize = 0;
        while i < self.records.len()
            invariant
                i <= self.records@.len(),
                records@ == self.records@.subrange(0, i as int),
            decreases self.records@.len() - i,
        {
            records.push(self.records[i].clone());
            assert(records@ =~= self.records@.subrange(0, i + 1));
            i += 1;
        }
        assert(records@ =~= self.records@);
        records
    }

    /// The text that replays the history to a client that has just joined.
    pub fn replay(&self) -> (text: String)
        ensures
            text@ == replay_of(self@),
    {
        let mut text = String::new();
        let mut i: usize = 0;
        assert(records_view(self.records@).subrange(0, 0) =~= Seq::<RecordView>::empty());
        while i < self.records.len()
            invariant
                i <= self.records@.len(),
                text@ == replay_of(records_view(self.records@).subrange(0, i as int)),
            decreases self.records@.len() - i,
        {
            let ghost all = records_view(self.records@);
            let ghost next = all.subrange(0, i + 1);
            assert(next.drop_last() =~= all.subrange(0, i as int));
            assert(next.last() == self.records@[i as int]@);
            match encode(&self.records[i]) {
                Ok(line) => {
                    text.append(line.as_str());
                    text.append("\n");
                    proof {
                        reveal_strlit("\n");
                        assert(text@ =~= replay_of(all.subrange(0, i as int)) + line@.push('\n'));
                    }
                },
                Err(_) => {},
            }
            i += 1;
        }
        assert(records_view(self.records@).subrange(0, i as int) =~= self@);
        text
    }
}

/// Appending to a buffer that is within its capacity leaves the last
/// `capacity` of everything it has held and been given.
pub proof fn lemma_appends_retain_last<T>(held: Seq<T>, added: Seq<T>, capacity: nat)
    requires
        held.len() <= capacity,
    ensures
        after_appends(held, added, capacity) == retained(held + added, capacity),
        after_appends(held, added, capacity).len() <= capacity,
    decreases added.len(),
{
    if added.len() == 0 {
        assert(held + added =~= held);
    } else {
        let next = retained(held.push(added.first()), capacity);
        let rest = added.drop_first();
        lemma_appends_retain_last(next, rest, capacity);
        assert(retained(next + rest, capacity) =~= retained(held + added, capacity)) by {
            assert(held.push(added.first()) + rest =~= held + added);
            if held.len() + 1 <= capacity {
                assert(next == held.push(added.first()));
            } else {
                // the head of `held` left; it is more than `capacity` from the end
                assert(next =~= held.push(added.first()).subrange(1, held.len() as int + 1));
            }
        }
    }
}

/// First in, first out: after any run of appends to an empty buffer it
/// holds the last `capacity` records of the run, in the order of the run,
/// and never more than `capacity`.
pub proof fn lemma_fifo_eviction<T>(added: Seq<T>, capacity: nat)
    ensures
        after_appends(Seq::<T>::empty(), added, capacity) == retained(added, capacity),
        after_appends(Seq::<T>::empty(), added, capacity).len() <= capacity,
        added.len() <= capacity ==> after_appends(Seq::<T>::empty(), added, capacity) == added,
{
    lemma_appends_retain_last(Seq::<T>::empty(), added, capacity);
    assert(Seq::<T>::empty() + added =~= added);
}

/// An append to a full buffer evicts exactly the oldest record: the rest
/// moves up by one and the new record is last.
pub proof fn lemma_append_when_full<T>(held: Seq<T>, record: T, capacity: nat)
    requires
        held.len() == capacity,
        capacity > 0,
    ensures
        retained(held.push(record), capacity) == held.drop_first().push(record),
        retained(held.push(record), capacity).len() == capacity,
{
    assert(retained(held.push(record), capacity) =~= held.drop_first().push(record));
}

} // verus!
