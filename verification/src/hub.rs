//! The broadcast hub: a single topic that the change detector publishes to
//! and that any number of subscribers read from, each at its own pace.
//!
//! The hub is tokio's broadcast channel. Publishing never waits for a
//! subscriber; one that falls too far behind loses the oldest events.

use crate::state::ChangeEvent;
use tokio::sync::broadcast::error::TryRecvError;
use tokio::sync::broadcast::{Receiver, Sender};
use vstd::prelude::*;

verus! {

/// tokio's `broadcast::Sender`, carried as it is: nothing is known of what it holds.
#[verifier::external_type_specification]
#[verifier::external_body]
#[verifier::reject_recursive_types(T)]
pub struct ExSender<T>(tokio::sync::broadcast::Sender<T>);

/// tokio's `broadcast::Receiver`, carried as it is: nothing is known of what it holds.
#[verifier::external_type_specification]
#[verifier::external_body]
#[verifier::reject_recursive_types(T)]
pub struct ExReceiver<T>(tokio::sync::broadcast::Receiver<T>);

/// The number of events that the hub is asked to buffer.
pub const HUB_CAPACITY: usize = 100;

/// The most events that a hub can be asked to buffer.
pub const MAX_HUB_CAPACITY: usize = 65536;

/// The publishing side of the topic.
pub struct Hub {
    sender: Sender<ChangeEvent>,
    capacity: usize,
}

/// A [`Hub`] as contracts see it.
pub struct HubView {
    /// The number of events that the hub was asked to buffer. The channel
    /// holds that many at least: tokio rounds the number up to a power of two.
    pub capacity: nat,
}

impl View for Hub {
    type V = HubView;

    closed spec fn view(&self) -> HubView {
        HubView { capacity: self.capacity as nat }
    }
}

/// One subscriber's place in the stream of events.
pub struct Subscription {
    receiver: Receiver<ChangeEvent>,
}

impl View for Subscription {
    /// The channel's own handle, which the subscription holds.
    type V = Receiver<ChangeEvent>;

    closed spec fn view(&self) -> Receiver<ChangeEvent> {
        self.receiver
    }
}

/// What a subscriber finds when it looks for the next event.
#[derive(Debug, PartialEq, Eq)]
pub enum Delivery {
    /// The next event, in the order of publishing.
    Event(ChangeEvent),
    /// Nothing new yet.
    Empty,
    /// The subscriber fell behind and this many events are lost to it.
    Lagged(u64),
    /// The hub is gone and every event that was left has been read.
    Closed,
}

/// Whether a delivery is the end of the stream: the hub is gone. A subscriber
/// that fell behind has lost the oldest events and goes on with the rest.
pub open spec fn ends_stream(delivery: Delivery) -> bool {
    delivery is Closed
}

impl Delivery {
    /// Whether this delivery is the end of the stream, after which a
    /// subscriber stops listening.
    pub fn ends(&self) -> (ended: bool)
        ensures
            ended == ends_stream(*self),
    {
        match self {
            Delivery::Closed => true,
            _ => false,
        }
    }
}

/// `tokio::sync::broadcast::channel`, keeping the sender only. The call
/// panics on a capacity of zero and on one above half of `usize::MAX`, and it
/// allocates the whole buffer at once, so the capacity is kept within bounds.
/// Nothing is said of the channel that comes back.
#[verifier::external_body]
fn open_channel(capacity: usize) -> (sender: Sender<ChangeEvent>)
    requires
        0 < capacity <= MAX_HUB_CAPACITY,
{
    tokio::sync::broadcast::channel(capacity).0
}

/// `Sender::send`. Which way the call goes depends on the receivers that the
/// rest of the process holds, so nothing is said of that. When it succeeds it
/// reports at least one receiver, and when it fails it hands the value back.
#[verifier::external_body]
fn send(sender: &Sender<ChangeEvent>, event: ChangeEvent) -> (sent: Result<usize, ChangeEvent>)
    ensures
        match sent {
            Ok(receivers) => receivers >= 1,
            Err(back) => back == event,
        },
{
    match sender.send(event) {
        Ok(receivers) => Ok(receivers),
        Err(refused) => Err(refused.0),
    }
}

/// `Sender::subscribe`. Where the new receiver starts to read depends on what
/// was published before, so nothing is said of it.
#[verifier::external_body]
fn receiver_of(sender: &Sender<ChangeEvent>) -> (receiver: Receiver<ChangeEvent>) {
    sender.subscribe()
}

/// `Receiver::try_recv`, its answer read one for one. What it finds depends
/// on what was published in the meantime, so nothing is said of which answer
/// comes. When it reports a lag, at least one event was lost.
#[verifier::external_body]
fn try_receive(receiver: &mut Receiver<ChangeEvent>) -> (delivery: Delivery)
    ensures
        delivery matches Delivery::Lagged(missed) ==> missed >= 1,
{
    match receiver.try_recv() {
        Ok(event) => Delivery::Event(event),
        Err(TryRecvError::Empty) => Delivery::Empty,
        Err(TryRecvError::Lagged(missed)) => Delivery::Lagged(missed),
        Err(TryRecvError::Closed) => Delivery::Closed,
    }
}

impl Hub {
    /// A hub of the usual capacity, [`HUB_CAPACITY`].
    pub fn new() -> (hub: Hub)
        ensures
            hub@.capacity == HUB_CAPACITY,
    {
        Hub { sender: open_channel(HUB_CAPACITY), capacity: HUB_CAPACITY }
    }

    /// A hub that is asked to buffer `capacity` events, or `None` where that
    /// is none at all or more than [`MAX_HUB_CAPACITY`].
    pub fn with_capacity(capacity: usize) -> (hub: Option<Hub>)
        ensures
            hub is Some <==> 0 < capacity <= MAX_HUB_CAPACITY,
            hub matches Some(made) ==> made@.capacity == capacity,
    {
        if 0 < capacity && capacity <= MAX_HUB_CAPACITY {
            Some(Hub { sender: open_channel(capacity), capacity })
        } else {
            None
        }
    }

    /// The number of events that the hub was asked to buffer.
    pub fn capacity(&self) -> (capacity: usize)
        ensures
            capacity == self@.capacity,
    {
        self.capacity
    }

    /// Hands `event` to every subscriber there is at this moment and returns
    /// at once. `Ok` holds their number. `Err` gives the event back: nobody
    /// was subscribed, and nobody will ever see it.
    ///
    /// Which of the two it is lies with the subscriptions that are alive at
    /// this moment, anywhere in the process, and with nothing that is handed
    /// to this call. So the contract says what holds of either answer, and
    /// not which one comes.
    pub fn publish(&self, event: ChangeEvent) -> (sent: Result<usize, ChangeEvent>)
        ensures
            match sent {
                Ok(receivers) => receivers >= 1,
                Err(back) => back@ == event@,
            },
    {
        send(&self.sender, event)
    }

    /// A new subscriber, which will see the events published from now on.
    /// Where it starts to read is a state of the channel that every publish
    /// moves, so the contract holds nothing of it.
    pub fn subscribe(&self) -> (subscription: Subscription) {
        Subscription { receiver: receiver_of(&self.sender) }
    }
}

impl Subscription {
    /// Looks for the next event without waiting. Which delivery comes lies
    /// with what was published since the last look. A lag is one of at least
    /// one event.
    pub fn try_next(&mut self) -> (delivery: Delivery)
        ensures
            delivery matches Delivery::Lagged(missed) ==> missed >= 1,
    {
        try_receive(&mut self.receiver)
    }

    /// Gives up the subscription for the channel's own handle, for a caller
    /// that waits for events instead of polling.
    pub fn into_receiver(self) -> (receiver: Receiver<ChangeEvent>)
        ensures
            receiver == self@,
    {
        self.receiver
    }
}

} // verus!
