//! The broadcast hub: one sending side shared by all connections and one
//! subscription per connection, on top of tokio's broadcast channel.

use tokio::sync::broadcast::{Receiver, Sender};
use vstd::prelude::*;

verus! {

/// The sending half of tokio's broadcast channel, held and never looked into.
#[verifier::external_type_specification]
#[verifier::external_body]
#[verifier::reject_recursive_types(T)]
pub struct ExSender<T>(Sender<T>);

/// A receiving half of tokio's broadcast channel, held and never looked into.
#[verifier::external_type_specification]
#[verifier::external_body]
#[verifier::reject_recursive_types(T)]
pub struct ExReceiver<T>(Receiver<T>);

/// The number of lines that the server's hub is asked to hold.
pub const HUB_CAPACITY: usize = 200;

/// The sending side of the hub. It carries lines that are already encoded.
pub struct BroadcastHub {
    sender: Sender<String>,
}

/// One consumer of the hub. It sees what is published after it was made.
pub struct Subscription {
    /// tokio's receiver, open to the caller that has to wait on it.
    pub receiver: Receiver<String>,
}

/// What became of a published line.
#[derive(Debug, PartialEq, Eq)]
pub enum Published {
    /// The line was handed to this many subscriptions, at least one.
    Reached(usize),
    /// No subscription was alive. Nothing happened, and this is the line.
    Unheard(String),
}

/// The outcome of a publication as plain values.
pub enum PublishedView {
    Reached(usize),
    Unheard(Seq<char>),
}

impl View for Published {
    type V = PublishedView;

    open spec fn view(&self) -> PublishedView {
        match self {
            Published::Reached(subscriptions) => PublishedView::Reached(*subscriptions),
            Published::Unheard(line) => PublishedView::Unheard(line@),
        }
    }
}

impl Published {
    /// The number of subscriptions that the line was handed to: none where
    /// it went unheard.
    pub fn reached(&self) -> (count: usize)
        ensures
            count == match self@ {
                PublishedView::Reached(subscriptions) => subscriptions,
                PublishedView::Unheard(_) => 0,
            },
    {
        match self {
            Published::Reached(subscriptions) => *subscriptions,
            Published::Unheard(_) => 0,
        }
    }
}

/// What a subscription hands over when it is asked for the next line.
#[derive(Debug, PartialEq, Eq)]
pub enum Delivery {
    /// The next line, in the order of publication.
    Message(String),
    /// The subscription fell behind and this many lines were skipped. It
    /// goes on with the oldest line that the hub still holds.
    Lagged(u64),
    /// The hub is gone and nothing is left to deliver.
    Closed,
}

/// A delivery as plain text.
pub enum DeliveryView {
    Message(Seq<char>),
    Lagged(u64),
    Closed,
}

impl View for Delivery {
    type V = DeliveryView;

    open spec fn view(&self) -> DeliveryView {
        match self {
            Delivery::Message(line) => DeliveryView::Message(line@),
            Delivery::Lagged(skipped) => DeliveryView::Lagged(*skipped),
            Delivery::Closed => DeliveryView::Closed,
        }
    }
}

/// The channel that a sender sends on. Two handles have the same channel
/// exactly when what one sends the other can receive.
pub uninterp spec fn sender_channel(sender: Sender<String>) -> int;

/// The channel that a receiver receives from.
pub uninterp spec fn receiver_channel(receiver: Receiver<String>) -> int;

/// The number of lines that a sender's channel was asked to hold when it
/// was made. tokio rounds it up to a power of two for the slots it keeps;
/// this is the number asked for.
pub uninterp spec fn sender_capacity(sender: Sender<String>) -> usize;

/// The largest number of lines that a hub can be asked to hold.
pub open spec fn max_capacity() -> int {
    (usize::MAX as int) / 2
}

/// Calls `tokio::sync::broadcast::channel` and lets the first receiver go.
/// Trusted: the channel is made with the capacity that is handed over.
/// tokio panics on a capacity of zero or above half of `usize::MAX`, which
/// `requires` leaves out.
#[verifier::external_body]
fn channel_open(capacity: usize) -> (sender: Sender<String>)
    requires
        0 < capacity <= max_capacity(),
    ensures
        sender_capacity(sender) == capacity,
{
    tokio::sync::broadcast::channel::<String>(capacity).0
}

/// Calls `Sender::send`. Trusted: a send that succeeds counted at least one
/// receiver, and one that fails hands the line back. Which of the two
/// happens depends on the receivers that are alive at that moment.
#[verifier::external_body]
fn channel_send(sender: &Sender<String>, line: String) -> (out: Result<usize, String>)
    ensures
        out matches Ok(receivers) ==> receivers >= 1,
        out matches Err(back) ==> back@ == line@,
{
    match sender.send(line) {
        Ok(receivers) => Ok(receivers),
        Err(tokio::sync::broadcast::error::SendError(back)) => Err(back),
    }
}

/// Calls `Sender::subscribe`. Trusted: the receiver is on the sender's own
/// channel, because tokio builds it on the state that the sender shares.
/// tokio panics when a quarter of `usize::MAX` receivers are alive at once,
/// which no process can hold.
#[verifier::external_body]
fn channel_subscribe(sender: &Sender<String>) -> (receiver: Receiver<String>)
    ensures
        receiver_channel(receiver) == sender_channel(*sender),
{
    sender.subscribe()
}

/// Calls `Receiver::try_recv`. Trusted: a lag is reported only when at least
/// one line was skipped, and the receiver stays on its channel, because
/// tokio moves its place in the channel and nothing else. What comes back
/// depends on what other holders of the channel have sent and dropped.
#[verifier::external_body]
fn channel_poll(receiver: &mut Receiver<String>) -> (out: Option<Delivery>)
    ensures
        out matches Some(Delivery::Lagged(skipped)) ==> skipped >= 1,
        receiver_channel(*final(receiver)) == receiver_channel(*old(receiver)),
{
    match receiver.try_recv() {
        Ok(line) => Some(Delivery::Message(line)),
        Err(tokio::sync::broadcast::error::TryRecvError::Empty) => None,
        Err(tokio::sync::broadcast::error::TryRecvError::Closed) => Some(Delivery::Closed),
        Err(tokio::sync::broadcast::error::TryRecvError::Lagged(skipped)) => Some(
            Delivery::Lagged(skipped),
        ),
    }
}

impl BroadcastHub {
    /// The channel that the hub publishes on.
    pub closed spec fn channel(&self) -> int {
        sender_channel(self.sender)
    }

    /// The number of lines that the hub was asked to hold for a
    /// subscription that falls behind.
    pub closed spec fn asked_capacity(&self) -> usize {
        sender_capacity(self.sender)
    }

    /// A hub whose subscriptions may fall `capacity` lines behind before
    /// they lag. tokio rounds the capacity up to a power of two.
    pub fn new(capacity: usize) -> (hub: BroadcastHub)
        requires
            0 < capacity <= max_capacity(),
        ensures
            hub.asked_capacity() == capacity,
    {
        BroadcastHub { sender: channel_open(capacity) }
    }

    /// Hands `line` to every subscription that is alive. With at least one,
    /// the answer counts them; with none, nothing happens and the line comes
    /// back as it was given. Which of the two it is depends on the
    /// subscriptions that are alive at that moment.
    pub fn publish(&self, line: String) -> (out: Published)
        ensures
            out matches Published::Reached(subscriptions) ==> subscriptions >= 1,
            out matches Published::Unheard(back) ==> back@ == line@,
    {
        match channel_send(&self.sender, line) {
            Ok(receivers) => Published::Reached(receivers),
            Err(back) => Published::Unheard(back),
        }
    }

    /// A new subscription to this hub, which will see every line published
    /// from now on and none that was published before.
    pub fn subscribe(&self) -> (subscription: Subscription)
        ensures
            subscription.channel() == self.channel(),
    {
        Subscription { receiver: channel_subscribe(&self.sender) }
    }
}

impl Subscription {
    /// The channel that the subscription receives from.
    pub open spec fn channel(&self) -> int {
        receiver_channel(self.receiver)
    }

    /// The next delivery if one is due, without waiting; `None` when the
    /// subscription has seen everything published so far. The subscription
    /// stays with its hub whatever comes.
    pub fn try_receive(&mut self) -> (out: Option<Delivery>)
        ensures
            out matches Some(Delivery::Lagged(skipped)) ==> skipped >= 1,
            final(self).channel() == old(self).channel(),
    {
        channel_poll(&mut self.receiver)
    }
}

} // verus!
