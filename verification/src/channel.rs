//! The bounded event channel: the single coordination primitive of the
//! broker.
//!
//! Lifecycle events flow from any number of concurrent publisher and session
//! tasks to the one registry loop through a multi-producer, single-consumer,
//! finite-capacity, first-in-first-out queue.  A send on a full channel does
//! not enqueue: the caller stays pending until the consumer drains an event
//! (backpressure), and once the consumer endpoint is dropped every pending
//! and future send fails permanently rather than blocking forever.
//!
//! [`ChannelState`] is the mathematical state of the queue; [`send_model`]
//! and [`recv_model`] say exactly what one send or receive does to it, and
//! every executable operation is proved to follow them.

use vstd::prelude::*;
use crate::session::Session;

verus! {

/// Everything the registry can observe: a newly published session, or the
/// terminal signal that a session's underlying connection has closed.
#[derive(Clone, Copy, PartialEq, Eq, Structural, Debug)]
pub enum ServiceEvent {
    /// A publish call handed this freshly built adapter to the registry.
    NewSession(Session),
    /// The session with this identifier is gone and its record must go.
    SessionClosed(u64),
}

/// What one non-blocking send attempt came to.
#[derive(Clone, Copy, PartialEq, Eq, Structural, Debug)]
pub enum SendResult {
    /// The event is in the queue; the consumer will observe it in order.
    Sent,
    /// The queue is at capacity; nothing was enqueued.  The sender should
    /// stay pending and retry once the consumer drains an event.
    Full,
    /// The consumer endpoint is gone; nothing was enqueued and no later
    /// send on this channel can ever succeed.
    Closed,
}

/// The mathematical state of the channel: the queued events front first,
/// the fixed capacity, and whether the consumer endpoint has been dropped.
#[verifier::ext_equal]
pub struct ChannelState {
    pub events: Seq<ServiceEvent>,
    pub capacity: int,
    pub closed: bool,
}

impl ChannelState {
    /// The queue never holds more than its capacity, and a capacity of at
    /// least one is what makes the channel usable at all.
    pub open spec fn well_formed(self) -> bool {
        1 <= self.capacity && self.events.len() <= self.capacity
    }

    /// At capacity: a send would not enqueue.
    pub open spec fn is_full(self) -> bool {
        self.events.len() == self.capacity
    }
}

/// What a non-blocking send does: fail without effect when the consumer is
/// gone, leave a full queue untouched, and otherwise append the event at
/// the back.
pub open spec fn send_model(s: ChannelState, event: ServiceEvent) -> (ChannelState, SendResult) {
    if s.closed {
        (s, SendResult::Closed)
    } else if s.is_full() {
        (s, SendResult::Full)
    } else {
        (ChannelState { events: s.events.push(event), ..s }, SendResult::Sent)
    }
}

/// What a receive does: nothing on an empty queue, otherwise take the event
/// at the front — strictly in arrival order.
pub open spec fn recv_model(s: ChannelState) -> (ChannelState, Option<ServiceEvent>) {
    if s.events.len() == 0 {
        (s, None::<ServiceEvent>)
    } else {
        (ChannelState { events: s.events.skip(1), ..s }, Some(s.events[0]))
    }
}

/// The bounded event channel itself.
pub struct EventChannel {
    queue: Vec<ServiceEvent>,
    capacity: usize,
    closed: bool,
}

impl EventChannel {
    /// The channel as its mathematical state.
    pub closed spec fn state(self) -> ChannelState {
        ChannelState {
            events: self.queue@,
            capacity: self.capacity as int,
            closed: self.closed,
        }
    }

    pub open spec fn well_formed(self) -> bool {
        self.state().well_formed()
    }

    /// A fresh, open, empty channel of the given capacity.
    pub fn new(capacity: usize) -> (c: EventChannel)
        requires
            1 <= capacity,
        ensures
            c.state() == (ChannelState {
                events: Seq::<ServiceEvent>::empty(),
                capacity: capacity as int,
                closed: false,
            }),
    {
        EventChannel { queue: Vec::new(), capacity, closed: false }
    }

    /// One non-blocking send attempt, exactly as [`send_model`] says.  A
    /// caller that gets [`SendResult::Full`] models a suspended sender: it
    /// holds on to the event and retries after the consumer drains.
    pub fn try_send(&mut self, event: ServiceEvent) -> (r: SendResult)
        requires
            old(self).well_formed(),
        ensures
            final(self).well_formed(),
            (final(self).state(), r) == send_model(old(self).state(), event),
    {
        if self.closed {
            SendResult::Closed
        } else if self.queue.len() == self.capacity {
            SendResult::Full
        } else {
            self.queue.push(event);
            proof {
                assert(self.state() =~= send_model(old(self).state(), event).0);
            }
            SendResult::Sent
        }
    }

    /// One receive by the single consumer, exactly as [`recv_model`] says:
    /// the front event, or nothing when the queue is empty.
    pub fn try_recv(&mut self) -> (r: Option<ServiceEvent>)
        requires
            old(self).well_formed(),
        ensures
            final(self).well_formed(),
            (final(self).state(), r) == recv_model(old(self).state()),
    {
        if self.queue.len() == 0 {
            None
        } else {
            let ev = self.queue.remove(0);
            proof {
                assert(self.state() =~= recv_model(old(self).state()).0);
            }
            Some(ev)
        }
    }

    /// Drop the consumer endpoint: the terminal signal that tears down all
    /// publishing.  Queued events stay readable to nobody; every pending and
    /// future send now fails rather than blocking forever.
    pub fn close(&mut self)
        requires
            old(self).well_formed(),
        ensures
            final(self).well_formed(),
            final(self).state() == (ChannelState { closed: true, ..old(self).state() }),
    {
        self.closed = true;
    }

    /// How many events are queued right now.
    pub fn queued(&self) -> (n: usize)
        ensures
            n == self.state().events.len(),
    {
        self.queue.len()
    }

    /// Whether the consumer endpoint has been dropped.
    pub fn is_closed(&self) -> (b: bool)
        ensures
            b == self.state().closed,
    {
        self.closed
    }
}

impl Session {
    /// The adapter's own path onto the shared channel: when it detects that
    /// its underlying connection has dropped, it translates that closure
    /// into the terminal event for its identifier, reusing the channel's
    /// single-consumer ordering guarantee.
    pub fn emit_closed(&self, chan: &mut EventChannel) -> (r: SendResult)
        requires
            old(chan).well_formed(),
        ensures
            final(chan).well_formed(),
            (final(chan).state(), r) == send_model(
                old(chan).state(),
                ServiceEvent::SessionClosed(self.id),
            ),
    {
        chan.try_send(ServiceEvent::SessionClosed(self.id))
    }
}

} // verus!
