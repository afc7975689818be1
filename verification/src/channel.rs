//! The event channel: an ordered, unbounded queue that carries fire events
//! from the oscillators' timers to the one consumer that dispatches them.

use crate::note::Note;
use crate::oscillator::FireEvent;
use std::collections::VecDeque;
use vstd::prelude::*;

verus! {

/// The events of `identity` among `events`, in their order.
pub open spec fn stream_of(events: Seq<FireEvent>, identity: Note) -> Seq<FireEvent> {
    events.filter(|event: FireEvent| event.identity == identity)
}

/// What is done to a channel: a producer sends an event, or the consumer
/// tries to receive one.
pub enum ChannelOp {
    Send(FireEvent),
    Receive,
}

/// The course of a channel since it was made.
pub struct ChannelHistory {
    /// Every event sent so far, in the order of arrival.
    pub sent: Seq<FireEvent>,
    /// Every event handed to the consumer so far, in the order of delivery.
    pub delivered: Seq<FireEvent>,
    /// The events that wait in the channel, the oldest first.
    pub pending: Seq<FireEvent>,
}

impl ChannelHistory {
    /// The history of a channel that has just been made.
    pub open spec fn start() -> ChannelHistory {
        ChannelHistory { sent: Seq::empty(), delivered: Seq::empty(), pending: Seq::empty() }
    }

    /// The history after `op`. A send puts the event behind all that wait. A
    /// receive hands out the oldest event that waits, and does nothing where
    /// none waits.
    pub open spec fn after(self, op: ChannelOp) -> ChannelHistory {
        match op {
            ChannelOp::Send(event) => ChannelHistory {
                sent: self.sent.push(event),
                delivered: self.delivered,
                pending: self.pending.push(event),
            },
            ChannelOp::Receive => if self.pending.len() > 0 {
                ChannelHistory {
                    sent: self.sent,
                    delivered: self.delivered.push(self.pending.first()),
                    pending: self.pending.drop_first(),
                }
            } else {
                self
            },
        }
    }

    /// The history after each of `ops`, in order, on a channel that has just
    /// been made.
    pub open spec fn of(ops: Seq<ChannelOp>) -> ChannelHistory
        decreases ops.len(),
    {
        if ops.len() == 0 {
            ChannelHistory::start()
        } else {
            ChannelHistory::of(ops.drop_last()).after(ops.last())
        }
    }
}

/// Whatever the producers and the consumer do, and in whatever order, no event
/// is lost, none is made up, and none overtakes another: what was delivered,
/// followed by what still waits, is what was sent.
pub proof fn lemma_channel_keeps_order(ops: Seq<ChannelOp>)
    ensures
        ChannelHistory::of(ops).sent == ChannelHistory::of(ops).delivered + ChannelHistory::of(
            ops,
        ).pending,
    decreases ops.len(),
{
    if ops.len() > 0 {
        lemma_channel_keeps_order(ops.drop_last());
    }
}

/// The events of one producer reach the consumer in the order in which that
/// producer sent them, whatever other producers send in between: the events
/// of `identity` that were delivered, followed by those that still wait, are
/// the events of `identity` that were sent.
pub proof fn lemma_producer_order_kept(ops: Seq<ChannelOp>, identity: Note)
    ensures
        stream_of(ChannelHistory::of(ops).sent, identity) == stream_of(
            ChannelHistory::of(ops).delivered,
            identity,
        ) + stream_of(ChannelHistory::of(ops).pending, identity),
        stream_of(ChannelHistory::of(ops).delivered, identity).is_prefix_of(
            stream_of(ChannelHistory::of(ops).sent, identity),
        ),
{
    let history = ChannelHistory::of(ops);
    lemma_channel_keeps_order(ops);
    Seq::filter_distributes_over_add(
        history.delivered,
        history.pending,
        |event: FireEvent| event.identity == identity,
    );
}

/// The event channel.
#[derive(Debug)]
pub struct EventChannel {
    queue: VecDeque<FireEvent>,
}

impl View for EventChannel {
    type V = Seq<FireEvent>;

    /// The events that wait in the channel, the oldest first.
    closed spec fn view(&self) -> Seq<FireEvent> {
        self.queue@
    }
}

impl EventChannel {
    /// A channel in which no event waits.
    pub fn new() -> (channel: EventChannel)
        ensures
            channel@ == Seq::<FireEvent>::empty(),
    {
        EventChannel { queue: VecDeque::new() }
    }

    /// Puts `event` behind all events that wait. The channel takes any number
    /// of events.
    pub fn send(&mut self, event: FireEvent)
        ensures
            final(self)@ == old(self)@.push(event),
    {
        self.queue.push_back(event);
    }

    /// Hands out the oldest event that waits, if any does.
    pub fn try_recv(&mut self) -> (received: Option<FireEvent>)
        ensures
            old(self)@.len() == 0 ==> received is None && final(self)@ == old(self)@,
            old(self)@.len() > 0 ==> received == Some(old(self)@.first()) && final(self)@ == old(
                self,
            )@.drop_first(),
    {
        self.queue.pop_front()
    }

    /// How many events wait.
    pub fn len(&self) -> (n: usize)
        ensures
            n == self@.len(),
    {
        self.queue.len()
    }

    /// Whether no event waits.
    pub fn is_empty(&self) -> (empty: bool)
        ensures
            empty == (self@.len() == 0),
    {
        self.queue.len() == 0
    }
}

} // verus!
