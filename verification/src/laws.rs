//! The broker's system-wide guarantees, each proved from the component
//! models alone: ordering within a connection, backpressure on a full
//! channel, terminal failure once the consumer is gone, isolation of a
//! conversion failure, preservation of identifier uniqueness, and the
//! end-to-end visibility of a published session in the registry.

use vstd::prelude::*;
use crate::channel::{ChannelState, ServiceEvent, recv_model};
use crate::publisher::{
    PublishOutcome, PublishRequest, publish_model, resume_model, serve_model,
};
use crate::registry::{
    RegistryOutcome, apply_event, handle_model, lemma_remove_keeps_unique_ids, registry_model,
    seq_contains_id, seq_index_of_id, unique_ids,
};
use crate::session::{CapabilityHandle, Session, proxy_for};

verus! {

/// The single consumer observes events strictly in arrival order: one
/// receive yields the oldest queued event and keeps the rest, still in
/// order, behind it.
pub proof fn lemma_fifo_observation(s: ChannelState)
    requires
        s.events.len() > 0,
    ensures
        recv_model(s).1 == Some(s.events[0]),
        recv_model(s).0.events == s.events.skip(1),
{
}

/// Two publish calls issued sequentially on the same connection put their
/// `NewSession` events on the channel in that same order: serving the two
/// requests replies to each with its own identifier and appends the two
/// events back to back, first request first.
pub proof fn lemma_per_connection_order(chan: ChannelState, r1: PublishRequest, r2: PublishRequest)
    requires
        chan.well_formed(),
        !chan.closed,
        chan.events.len() + 2 <= chan.capacity,
        r1.controller.convertible,
        r2.controller.convertible,
    ensures
        ({
            let m = serve_model(chan, seq![r1, r2], 0);
            let e1 = ServiceEvent::NewSession(Session { id: r1.id, proxy: proxy_for(r1.controller) });
            let e2 = ServiceEvent::NewSession(Session { id: r2.id, proxy: proxy_for(r2.controller) });
            &&& m.replies == seq![
                PublishOutcome::Replied(r1.id),
                PublishOutcome::Replied(r2.id),
            ]
            &&& m.chan.events == chan.events + seq![e1, e2]
            &&& m.consumed == 2
            &&& m.pending is None
        }),
{
    let reqs = seq![r1, r2];
    let e1 = ServiceEvent::NewSession(Session { id: r1.id, proxy: proxy_for(r1.controller) });
    let e2 = ServiceEvent::NewSession(Session { id: r2.id, proxy: proxy_for(r2.controller) });
    let c1 = ChannelState { events: chan.events.push(e1), ..chan };
    let c2 = ChannelState { events: c1.events.push(e2), ..c1 };
    assert(reqs[0] == r1 && reqs[1] == r2);
    assert(publish_model(chan, r1.id, r1.controller) == (
        c1,
        None::<Session>,
        PublishOutcome::Replied(r1.id),
    ));
    assert(publish_model(c1, r2.id, r2.controller) == (
        c2,
        None::<Session>,
        PublishOutcome::Replied(r2.id),
    ));
    // Naming each suffix of the recursion brings its definition into scope.
    let m2 = serve_model(c2, reqs, 2);
    let m1 = serve_model(c1, reqs, 1);
    let m0 = serve_model(chan, reqs, 0);
    assert(m1.replies =~= seq![PublishOutcome::Replied(r2.id)]);
    assert(m0.replies =~= seq![PublishOutcome::Replied(r1.id), PublishOutcome::Replied(r2.id)]);
    assert(m0.chan.events =~= chan.events + seq![e1, e2]);
}

/// Backpressure with a channel of capacity one: the first publish fills
/// the channel and replies; while nothing is drained, a second publish —
/// and every retry of it — stays pending, neither erring nor completing,
/// with the channel untouched.  Draining one event unblocks exactly one
/// pending publish: the first retry after the drain replies, and the
/// channel is full again, so another pending call stays pending.
pub proof fn lemma_backpressure(
    chan: ChannelState,
    r1: PublishRequest,
    r2: PublishRequest,
    r3: PublishRequest,
)
    requires
        chan.capacity == 1,
        chan.events.len() == 0,
        !chan.closed,
        r1.controller.convertible,
        r2.controller.convertible,
        r3.controller.convertible,
    ensures
        ({
            let s1 = Session { id: r1.id, proxy: proxy_for(r1.controller) };
            let s2 = Session { id: r2.id, proxy: proxy_for(r2.controller) };
            let s3 = Session { id: r3.id, proxy: proxy_for(r3.controller) };
            let full = publish_model(chan, r1.id, r1.controller).0;
            let drained = recv_model(full).0;
            let refilled = resume_model(drained, s2).0;
            &&& publish_model(chan, r1.id, r1.controller) == (
                full,
                None::<Session>,
                PublishOutcome::Replied(r1.id),
            )
            &&& full.is_full()
            &&& publish_model(full, r2.id, r2.controller) == (
                full,
                Some(s2),
                PublishOutcome::Pending,
            )
            &&& resume_model(full, s2) == (full, Some(s2), PublishOutcome::Pending)
            &&& recv_model(full).1 == Some(ServiceEvent::NewSession(s1))
            &&& drained.events.len() == 0
            &&& resume_model(drained, s2) == (
                refilled,
                None::<Session>,
                PublishOutcome::Replied(r2.id),
            )
            &&& refilled.events == seq![ServiceEvent::NewSession(s2)]
            &&& resume_model(refilled, s3) == (refilled, Some(s3), PublishOutcome::Pending)
        }),
{
    let s1 = Session { id: r1.id, proxy: proxy_for(r1.controller) };
    let s2 = Session { id: r2.id, proxy: proxy_for(r2.controller) };
    let full = publish_model(chan, r1.id, r1.controller).0;
    assert(full.events =~= seq![ServiceEvent::NewSession(s1)]);
    let drained = recv_model(full).0;
    assert(drained.events =~= Seq::<ServiceEvent>::empty());
    let refilled = resume_model(drained, s2).0;
    assert(refilled.events =~= seq![ServiceEvent::NewSession(s2)]);
}

/// Once the consumer endpoint is dropped, every publish call on every
/// connection — fresh or suspended — fails with the terminal error, the
/// channel untouched, and nothing retained: the failure is observable to
/// the caller instead of crashing anything.
pub proof fn lemma_closed_channel_fails_all(
    chan: ChannelState,
    id: u64,
    controller: CapabilityHandle,
    session: Session,
)
    requires
        chan.closed,
        controller.convertible,
    ensures
        publish_model(chan, id, controller) == (
            chan,
            None::<Session>,
            PublishOutcome::ChannelClosed,
        ),
        resume_model(chan, session) == (chan, None::<Session>, PublishOutcome::ChannelClosed),
{
}

/// A conversion failure is isolated to its own call: serving a request
/// whose handle fails conversion and then a valid one reports the failure
/// for the first, leaves the channel untouched by it, and still publishes
/// the second with a fresh reply.
pub proof fn lemma_conversion_failure_isolated(
    chan: ChannelState,
    bad: PublishRequest,
    good: PublishRequest,
)
    requires
        chan.well_formed(),
        !chan.closed,
        chan.events.len() < chan.capacity,
        !bad.controller.convertible,
        good.controller.convertible,
    ensures
        ({
            let m = serve_model(chan, seq![bad, good], 0);
            let e = ServiceEvent::NewSession(
                Session { id: good.id, proxy: proxy_for(good.controller) },
            );
            &&& m.replies == seq![
                PublishOutcome::ConversionFailed,
                PublishOutcome::Replied(good.id),
            ]
            &&& m.chan.events == chan.events.push(e)
            &&& m.consumed == 2
            &&& m.pending is None
        }),
{
    let reqs = seq![bad, good];
    let e = ServiceEvent::NewSession(Session { id: good.id, proxy: proxy_for(good.controller) });
    let c1 = ChannelState { events: chan.events.push(e), ..chan };
    assert(reqs[0] == bad && reqs[1] == good);
    assert(publish_model(chan, bad.id, bad.controller) == (
        chan,
        None::<Session>,
        PublishOutcome::ConversionFailed,
    ));
    assert(publish_model(chan, good.id, good.controller) == (
        c1,
        None::<Session>,
        PublishOutcome::Replied(good.id),
    ));
    // Naming each suffix of the recursion brings its definition into scope.
    let m2 = serve_model(c1, reqs, 2);
    let m1 = serve_model(chan, reqs, 1);
    let m0 = serve_model(chan, reqs, 0);
    assert(m1.replies =~= seq![PublishOutcome::Replied(good.id)]);
    assert(m0.replies =~= seq![
        PublishOutcome::ConversionFailed,
        PublishOutcome::Replied(good.id),
    ]);
}

/// One event keeps the registry's identifiers unique.
pub proof fn lemma_apply_event_keeps_unique(sessions: Seq<Session>, event: ServiceEvent)
    requires
        unique_ids(sessions),
    ensures
        unique_ids(apply_event(sessions, event)),
{
    match event {
        ServiceEvent::NewSession(s) => {
            if !seq_contains_id(sessions, s.id) {
                let pushed = sessions.push(s);
                assert forall|i: int, j: int| 0 <= i < j < pushed.len() implies pushed[i].id
                    != pushed[j].id by {
                    if j == sessions.len() {
                        assert(pushed[i] == sessions[i]);
                        if pushed[i].id == s.id {
                            assert(seq_contains_id(sessions, s.id));
                        }
                    }
                }
            }
        },
        ServiceEvent::SessionClosed(id) => {
            if seq_contains_id(sessions, id) {
                let k = seq_index_of_id(sessions, id);
                assert(0 <= k < sessions.len() && sessions[k].id == id);
                lemma_remove_keeps_unique_ids(sessions, k);
            }
        },
    }
}

/// The registry's standing invariant: however many events it drains, in
/// whatever order they arrived, no two live records ever carry the same
/// identifier — the identifier remains an unambiguous lookup key.
pub proof fn lemma_registry_keeps_ids_unique(sessions: Seq<Session>, events: Seq<ServiceEvent>)
    requires
        unique_ids(sessions),
    ensures
        unique_ids(registry_model(sessions, events)),
    decreases events.len(),
{
    if events.len() > 0 {
        lemma_apply_event_keeps_unique(sessions, events[0]);
        lemma_registry_keeps_ids_unique(apply_event(sessions, events[0]), events.skip(1));
    }
}

/// The documented collision handling, forced: when a second `NewSession`
/// event carries an identifier that already names a live record, the
/// registry deterministically keeps the established record, rejects the
/// newer session, and reports the anomaly rather than crashing.
pub proof fn lemma_collision_handling(sessions: Seq<Session>, s_new: Session)
    requires
        seq_contains_id(sessions, s_new.id),
    ensures
        handle_model(sessions, ServiceEvent::NewSession(s_new)) == (
            sessions,
            RegistryOutcome::CollisionRejected(s_new.id),
        ),
{
}

/// The end-to-end guarantee: connection A publishes one handle and
/// connection B another, each getting its own identifier back; after the
/// registry drains, it holds exactly the two records, in send order, each
/// identifier mapped to the proxy converted from its own handle — so an
/// observer acting on a freshly returned identifier finds its record.
pub proof fn lemma_end_to_end(capacity: int, ra: PublishRequest, rb: PublishRequest)
    requires
        capacity >= 2,
        ra.id != rb.id,
        ra.controller.convertible,
        rb.controller.convertible,
    ensures
        ({
            let chan0 = ChannelState {
                events: Seq::<ServiceEvent>::empty(),
                capacity,
                closed: false,
            };
            let ma = serve_model(chan0, seq![ra], 0);
            let mb = serve_model(ma.chan, seq![rb], 0);
            let sa = Session { id: ra.id, proxy: proxy_for(ra.controller) };
            let sb = Session { id: rb.id, proxy: proxy_for(rb.controller) };
            let recorded = registry_model(Seq::<Session>::empty(), mb.chan.events);
            &&& ma.replies == seq![PublishOutcome::Replied(ra.id)]
            &&& mb.replies == seq![PublishOutcome::Replied(rb.id)]
            &&& recorded == seq![sa, sb]
            &&& unique_ids(recorded)
            &&& seq_index_of_id(recorded, ra.id) == 0
            &&& seq_index_of_id(recorded, rb.id) == 1
            &&& recorded[seq_index_of_id(recorded, ra.id)].proxy == proxy_for(ra.controller)
            &&& recorded[seq_index_of_id(recorded, rb.id)].proxy == proxy_for(rb.controller)
        }),
{
    let chan0 = ChannelState { events: Seq::<ServiceEvent>::empty(), capacity, closed: false };
    let sa = Session { id: ra.id, proxy: proxy_for(ra.controller) };
    let sb = Session { id: rb.id, proxy: proxy_for(rb.controller) };
    let ea = ServiceEvent::NewSession(sa);
    let eb = ServiceEvent::NewSession(sb);
    let reqs_a = seq![ra];
    let reqs_b = seq![rb];
    assert(reqs_a[0] == ra && reqs_b[0] == rb);

    let ca = ChannelState { events: chan0.events.push(ea), ..chan0 };
    assert(publish_model(chan0, ra.id, ra.controller) == (
        ca,
        None::<Session>,
        PublishOutcome::Replied(ra.id),
    ));
    let ma1 = serve_model(ca, reqs_a, 1);
    assert(ma1.replies =~= Seq::<PublishOutcome>::empty());
    let ma = serve_model(chan0, reqs_a, 0);
    assert(ma.replies =~= seq![PublishOutcome::Replied(ra.id)]);
    assert(ma.chan == ca);

    let cb = ChannelState { events: ca.events.push(eb), ..ca };
    assert(ca.events.len() == 1);
    assert(publish_model(ca, rb.id, rb.controller) == (
        cb,
        None::<Session>,
        PublishOutcome::Replied(rb.id),
    ));
    let mb1 = serve_model(cb, reqs_b, 1);
    assert(mb1.replies =~= Seq::<PublishOutcome>::empty());
    let mb = serve_model(ca, reqs_b, 0);
    assert(mb.replies =~= seq![PublishOutcome::Replied(rb.id)]);
    assert(mb.chan == cb);
    assert(cb.events =~= seq![ea, eb]);

    // The registry drains the two events in send order.
    let empty_records = Seq::<Session>::empty();
    assert(!seq_contains_id(empty_records, sa.id));
    let one = apply_event(empty_records, ea);
    assert(one =~= seq![sa]);
    assert(!seq_contains_id(one, sb.id)) by {
        assert forall|k: int| 0 <= k < one.len() implies one[k].id != sb.id by {
            assert(one[k] == sa);
        }
    }
    let two = apply_event(one, eb);
    assert(two =~= seq![sa, sb]);
    assert(cb.events.skip(1) =~= seq![eb]);
    assert(seq![eb].skip(1) =~= Seq::<ServiceEvent>::empty());
    assert(registry_model(two, seq![eb].skip(1)) == two);
    assert(registry_model(one, seq![eb]) == two);
    assert(registry_model(empty_records, cb.events) == two);

    let recorded = registry_model(empty_records, mb.chan.events);
    assert(recorded == two);
    assert(unique_ids(recorded));
    assert(seq_index_of_id(recorded, ra.id) == 0) by {
        assert(recorded[0].id == ra.id);
        let w = seq_index_of_id(recorded, ra.id);
        assert(0 <= w < recorded.len() && recorded[w].id == ra.id);
        if w == 1 {
            assert(recorded[1].id == rb.id);
        }
    }
    assert(seq_index_of_id(recorded, rb.id) == 1) by {
        assert(recorded[1].id == rb.id);
        let w = seq_index_of_id(recorded, rb.id);
        assert(0 <= w < recorded.len() && recorded[w].id == rb.id);
        if w == 0 {
            assert(recorded[0].id == ra.id);
        }
    }
}

} // verus!
