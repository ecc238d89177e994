//! The publisher front end.
//!
//! One `Publisher` terminates one client connection to the publishing
//! interface and services its publish requests strictly in the order they
//! arrive, while any number of connections run concurrently, each with its
//! own `Publisher`.  A publish call allocates a fresh 64-bit identifier,
//! converts the capability handle into a control proxy, wraps both in a
//! session adapter, and hands the adapter to the registry through the
//! shared bounded channel.  The identifier is reported back only after the
//! event is durably enqueued; a full channel leaves the call pending, and a
//! closed channel fails it.
//!
//! The transport that carries requests and replies is the caller's
//! business: the caller reads a request, hands the plain values here, and
//! writes the outcome back.  [`publish_model`] and [`serve_model`] state
//! exactly what each step does to the channel, and the executable functions
//! are proved to follow them.

use vstd::prelude::*;
use crate::channel::{ChannelState, EventChannel, SendResult, ServiceEvent, send_model};
use crate::session::{CapabilityHandle, Session, proxy_for};

verus! {

/// One publish request as read off a connection: the identifier allocated
/// for it and the capability handle the client transferred.  Identifiers
/// are passed in rather than drawn inside, so a caller may supply a
/// deterministic or seeded source; [`Publisher::publish`] draws one from
/// the process-wide random source instead.
#[derive(Clone, Copy, PartialEq, Eq, Structural, Debug)]
pub struct PublishRequest {
    pub id: u64,
    pub controller: CapabilityHandle,
}

/// What one publish call came to.
#[derive(Clone, Copy, PartialEq, Eq, Structural, Debug)]
pub enum PublishOutcome {
    /// The `NewSession` event is enqueued; this identifier is the reply to
    /// the client.  The registry will observe the event before the client
    /// can act on the identifier.
    Replied(u64),
    /// The channel is full: the call is suspended, its session adapter is
    /// retained, and [`Publisher::resume`] retries once the consumer has
    /// drained an event.  No reply reaches the client yet.
    Pending,
    /// The capability handle could not be converted into a control proxy.
    /// Only this one call fails; the connection keeps serving.
    ConversionFailed,
    /// The registry is gone.  Every current and future publish on every
    /// connection fails this way; the connection should shut down.
    ChannelClosed,
}

/// What one publish call does: a handle that fails conversion aborts just
/// this call with the channel untouched; otherwise the session adapter is
/// built and sent, and the send's outcome decides between a reply, a
/// suspension (the adapter retained for a retry), and the terminal failure.
/// Returns the channel afterwards, the retained adapter if any, and the
/// outcome.
pub open spec fn publish_model(
    chan: ChannelState,
    id: u64,
    controller: CapabilityHandle,
) -> (ChannelState, Option<Session>, PublishOutcome) {
    if !controller.convertible {
        (chan, None::<Session>, PublishOutcome::ConversionFailed)
    } else {
        let session = Session { id, proxy: proxy_for(controller) };
        let (chan2, sent) = send_model(chan, ServiceEvent::NewSession(session));
        match sent {
            SendResult::Sent => (chan2, None::<Session>, PublishOutcome::Replied(id)),
            SendResult::Full => (chan2, Some(session), PublishOutcome::Pending),
            SendResult::Closed => (chan2, None::<Session>, PublishOutcome::ChannelClosed),
        }
    }
}

/// What retrying a suspended send does: the retained adapter is sent again,
/// and the send's outcome decides as in [`publish_model`].
pub open spec fn resume_model(
    chan: ChannelState,
    session: Session,
) -> (ChannelState, Option<Session>, PublishOutcome) {
    let (chan2, sent) = send_model(chan, ServiceEvent::NewSession(session));
    match sent {
        SendResult::Sent => (chan2, None::<Session>, PublishOutcome::Replied(session.id)),
        SendResult::Full => (chan2, Some(session), PublishOutcome::Pending),
        SendResult::Closed => (chan2, None::<Session>, PublishOutcome::ChannelClosed),
    }
}

/// What serving one connection comes to, request by request, from index
/// `i` on: the channel afterwards, the replies issued (in request order),
/// how many requests were fully handled, and the adapter left suspended if
/// the last send found the channel full.  A conversion failure is reported
/// and serving continues; the terminal channel failure is reported and the
/// connection stops; a full channel suspends the in-flight request without
/// a reply until the caller resumes it.
#[verifier::ext_equal]
pub struct ServeModel {
    pub chan: ChannelState,
    pub replies: Seq<PublishOutcome>,
    pub consumed: int,
    pub pending: Option<Session>,
}

pub open spec fn serve_model(
    chan: ChannelState,
    requests: Seq<PublishRequest>,
    i: int,
) -> ServeModel
    decreases requests.len() - i,
{
    if i < 0 || i >= requests.len() {
        ServeModel { chan, replies: Seq::<PublishOutcome>::empty(), consumed: 0, pending: None }
    } else {
        let req = requests[i];
        let (chan2, pend, outcome) = publish_model(chan, req.id, req.controller);
        match outcome {
            PublishOutcome::Replied(id) => {
                let rest = serve_model(chan2, requests, i + 1);
                ServeModel {
                    chan: rest.chan,
                    replies: seq![outcome] + rest.replies,
                    consumed: 1 + rest.consumed,
                    pending: rest.pending,
                }
            },
            PublishOutcome::ConversionFailed => {
                let rest = serve_model(chan2, requests, i + 1);
                ServeModel {
                    chan: rest.chan,
                    replies: seq![outcome] + rest.replies,
                    consumed: 1 + rest.consumed,
                    pending: rest.pending,
                }
            },
            PublishOutcome::ChannelClosed => ServeModel {
                chan: chan2,
                replies: seq![outcome],
                consumed: 1,
                pending: None,
            },
            PublishOutcome::Pending => ServeModel {
                chan: chan2,
                replies: Seq::<PublishOutcome>::empty(),
                consumed: 0,
                pending: pend,
            },
        }
    }
}

/// The publisher front end for one client connection.  It holds the
/// adapter of a suspended in-flight publish, if any; the shared channel is
/// borrowed for the duration of each step, which is how many concurrent
/// front ends share one delivery path.
pub struct Publisher {
    pending: Option<Session>,
}

impl Publisher {
    /// The adapter of the suspended in-flight publish call, if any.
    pub closed spec fn pending_session(self) -> Option<Session> {
        self.pending
    }

    /// Build the server instance for one newly accepted connection: no
    /// publish is in flight yet.
    pub fn factory() -> (p: Publisher)
        ensures
            p.pending_session() is None,
    {
        Publisher { pending: None }
    }

    /// Whether a publish call on this connection is suspended on a full
    /// channel, awaiting [`Publisher::resume`].
    pub fn has_pending(&self) -> (b: bool)
        ensures
            b == (self.pending_session() is Some),
    {
        self.pending.is_some()
    }

    /// Service one publish request with the given identifier, exactly as
    /// [`publish_model`] says: convert the handle, build the adapter, send
    /// the `NewSession` event, and reply with the identifier only once the
    /// event is enqueued.
    pub fn publish_with_id(
        &mut self,
        chan: &mut EventChannel,
        id: u64,
        controller: CapabilityHandle,
    ) -> (r: PublishOutcome)
        requires
            old(self).pending_session() is None,
            old(chan).well_formed(),
        ensures
            final(chan).well_formed(),
            ({
                let (chan2, pend, outcome) = publish_model(old(chan).state(), id, controller);
                &&& final(chan).state() == chan2
                &&& final(self).pending_session() == pend
                &&& r == outcome
            }),
    {
        match controller.into_proxy() {
            Err(_) => PublishOutcome::ConversionFailed,
            Ok(proxy) => {
                let session = Session::new(id, proxy);
                match chan.try_send(ServiceEvent::NewSession(session)) {
                    SendResult::Sent => PublishOutcome::Replied(id),
                    SendResult::Full => {
                        self.pending = Some(session);
                        PublishOutcome::Pending
                    },
                    SendResult::Closed => PublishOutcome::ChannelClosed,
                }
            },
        }
    }

    /// Service one publish request with a freshly drawn random identifier.
    /// The channel's fate is pinned for every outcome; which identifier was
    /// drawn is not, so the reply itself carries it.
    pub fn publish(&mut self, chan: &mut EventChannel, controller: CapabilityHandle) -> (r:
        PublishOutcome)
        requires
            old(self).pending_session() is None,
            old(chan).well_formed(),
        ensures
            final(chan).well_formed(),
            final(chan).state().capacity == old(chan).state().capacity,
            final(chan).state().closed == old(chan).state().closed,
            !controller.convertible ==> r == PublishOutcome::ConversionFailed
                && final(chan).state() == old(chan).state()
                && final(self).pending_session() is None,
            controller.convertible && old(chan).state().closed ==> r
                == PublishOutcome::ChannelClosed && final(chan).state() == old(chan).state()
                && final(self).pending_session() is None,
            controller.convertible && !old(chan).state().closed && old(chan).state().is_full()
                ==> r == PublishOutcome::Pending && final(chan).state() == old(chan).state()
                && (final(self).pending_session() matches Some(s) && s.proxy == proxy_for(
                controller,
            )),
            r matches PublishOutcome::Replied(id) ==> controller.convertible && !old(
                chan,
            ).state().closed && !old(chan).state().is_full() && final(chan).state() == (
            ChannelState {
                events: old(chan).state().events.push(
                    ServiceEvent::NewSession(Session { id, proxy: proxy_for(controller) }),
                ),
                ..old(chan).state()
            }) && final(self).pending_session() is None,
            controller.convertible && !old(chan).state().closed && !old(chan).state().is_full()
                ==> r is Replied,
    {
        let id = draw_id();
        self.publish_with_id(chan, id, controller)
    }

    /// Retry the suspended send after the consumer has drained an event,
    /// exactly as [`resume_model`] says: a successful send finally replies
    /// with the suspended call's identifier, a still-full channel keeps it
    /// pending, and a closed channel fails it terminally.
    pub fn resume(&mut self, chan: &mut EventChannel) -> (r: PublishOutcome)
        requires
            old(self).pending_session() is Some,
            old(chan).well_formed(),
        ensures
            final(chan).well_formed(),
            ({
                let (chan2, pend, outcome) = resume_model(
                    old(chan).state(),
                    old(self).pending_session()->Some_0,
                );
                &&& final(chan).state() == chan2
                &&& final(self).pending_session() == pend
                &&& r == outcome
            }),
    {
        let session = self.pending.take().unwrap();
        match chan.try_send(ServiceEvent::NewSession(session)) {
            SendResult::Sent => PublishOutcome::Replied(session.id),
            SendResult::Full => {
                self.pending = Some(session);
                PublishOutcome::Pending
            },
            SendResult::Closed => PublishOutcome::ChannelClosed,
        }
    }

    /// Serve one connection's requests strictly in the order received,
    /// exactly as [`serve_model`] says.  Returns the replies issued and how
    /// many requests were fully handled; serving stops at the terminal
    /// channel failure, and a full channel leaves the in-flight adapter
    /// suspended for [`Publisher::resume`].
    pub fn serve(&mut self, chan: &mut EventChannel, requests: &Vec<PublishRequest>) -> (r: (
        Vec<PublishOutcome>,
        usize,
    ))
        requires
            old(self).pending_session() is None,
            old(chan).well_formed(),
        ensures
            final(chan).well_formed(),
            ({
                let m = serve_model(old(chan).state(), requests@, 0);
                &&& final(chan).state() == m.chan
                &&& r.0@ == m.replies
                &&& r.1 == m.consumed
                &&& final(self).pending_session() == m.pending
            }),
    {
        let ghost m0 = serve_model(old(chan).state(), requests@, 0);
        let mut replies: Vec<PublishOutcome> = Vec::new();
        let mut i: usize = 0;
        loop
            invariant
                i <= requests@.len(),
                self.pending_session() is None,
                chan.well_formed(),
                m0 == serve_model(old(chan).state(), requests@, 0),
                ({
                    let rest = serve_model(chan.state(), requests@, i as int);
                    &&& m0.chan == rest.chan
                    &&& m0.replies == replies@ + rest.replies
                    &&& m0.consumed == i + rest.consumed
                    &&& m0.pending == rest.pending
                }),
            decreases requests@.len() - i,
        {
            if i == requests.len() {
                proof {
                    let rest = serve_model(chan.state(), requests@, i as int);
                    assert(m0.replies =~= replies@);
                }
                return (replies, i);
            }
            let req = requests[i];
            let ghost pre = chan.state();
            let outcome = self.publish_with_id(chan, req.id, req.controller);
            match outcome {
                PublishOutcome::Replied(_) => {
                    replies.push(outcome);
                    proof {
                        let rest = serve_model(chan.state(), requests@, i + 1);
                        assert(serve_model(pre, requests@, i as int).replies =~= seq![outcome]
                            + rest.replies);
                        assert(m0.replies =~= replies@ + rest.replies);
                    }
                    i = i + 1;
                },
                PublishOutcome::ConversionFailed => {
                    replies.push(outcome);
                    proof {
                        let rest = serve_model(chan.state(), requests@, i + 1);
                        assert(serve_model(pre, requests@, i as int).replies =~= seq![outcome]
                            + rest.replies);
                        assert(m0.replies =~= replies@ + rest.replies);
                    }
                    i = i + 1;
                },
                PublishOutcome::ChannelClosed => {
                    replies.push(outcome);
                    proof {
                        assert(serve_model(pre, requests@, i as int).replies =~= seq![outcome]);
                        assert(m0.replies =~= replies@);
                    }
                    return (replies, i + 1);
                },
                PublishOutcome::Pending => {
                    proof {
                        assert(m0.replies =~= replies@);
                    }
                    return (replies, i);
                },
            }
        }
    }
}

/// Relies on `rand::random`: draws one identifier uniformly at random from
/// the full 64-bit space using the process-wide generator.  Nothing is
/// promised of the value; uniqueness is only probabilistic.
#[verifier::external_body]
fn draw_id() -> u64 {
    rand::random::<u64>()
}

} // verus!
