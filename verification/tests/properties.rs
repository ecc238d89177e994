//! Scenario tests for the broker's system-wide guarantees, on concrete
//! values: identifier uniqueness and the forced-collision path, ordering
//! within a connection, backpressure, closed-channel failure, conversion
//! failure isolation, and the end-to-end publish-then-observe flow.

use mediasession::channel::{EventChannel, ServiceEvent};
use mediasession::publisher::{PublishOutcome, PublishRequest, Publisher};
use mediasession::registry::{Registry, RegistryOutcome};
use mediasession::session::{CapabilityHandle, ControlProxy, Session};

#[test]
fn ten_thousand_publishes_yield_distinct_ids() {
    let mut chan = EventChannel::new(1);
    let mut registry = Registry::new();
    let mut publisher = Publisher::factory();
    let mut ids: Vec<u64> = Vec::new();
    for k in 0..10_000u64 {
        let outcome = publisher.publish(&mut chan, CapabilityHandle::new(k));
        match outcome {
            PublishOutcome::Replied(id) => ids.push(id),
            other => panic!("publish failed: {:?}", other),
        }
        assert_eq!(registry.drain(&mut chan), 1);
    }
    assert_eq!(ids.len(), 10_000);
    assert_eq!(registry.count(), 10_000);
    let mut sorted = ids.clone();
    sorted.sort();
    for pair in sorted.windows(2) {
        assert_ne!(pair[0], pair[1], "identifier collision within one run");
    }
}

#[test]
fn forced_collision_is_rejected_deterministically() {
    let mut chan = EventChannel::new(4);
    let mut registry = Registry::new();
    let mut publisher = Publisher::factory();
    let first = publisher.publish_with_id(&mut chan, 77, CapabilityHandle::new(1));
    let second = publisher.publish_with_id(&mut chan, 77, CapabilityHandle::new(2));
    assert_eq!(first, PublishOutcome::Replied(77));
    assert_eq!(second, PublishOutcome::Replied(77));
    assert_eq!(registry.drain_one(&mut chan), Some(RegistryOutcome::Inserted(77)));
    assert_eq!(
        registry.drain_one(&mut chan),
        Some(RegistryOutcome::CollisionRejected(77))
    );
    // The established record wins: the proxy is the first handle's.
    assert_eq!(registry.lookup(77), Some(ControlProxy { handle: 1 }));
    assert_eq!(registry.count(), 1);
}

#[test]
fn same_connection_publishes_are_observed_in_order() {
    let mut chan = EventChannel::new(8);
    let mut publisher = Publisher::factory();
    let r1 = publisher.publish_with_id(&mut chan, 10, CapabilityHandle::new(100));
    let r2 = publisher.publish_with_id(&mut chan, 20, CapabilityHandle::new(200));
    assert_eq!(r1, PublishOutcome::Replied(10));
    assert_eq!(r2, PublishOutcome::Replied(20));
    assert_eq!(
        chan.try_recv(),
        Some(ServiceEvent::NewSession(Session {
            id: 10,
            proxy: ControlProxy { handle: 100 },
        }))
    );
    assert_eq!(
        chan.try_recv(),
        Some(ServiceEvent::NewSession(Session {
            id: 20,
            proxy: ControlProxy { handle: 200 },
        }))
    );
    assert_eq!(chan.try_recv(), None);
}

#[test]
fn backpressure_pends_second_publish_until_one_drain() {
    let mut chan = EventChannel::new(1);
    let mut registry = Registry::new();
    let mut first = Publisher::factory();
    let mut second = Publisher::factory();
    let mut third = Publisher::factory();

    assert_eq!(
        first.publish_with_id(&mut chan, 1, CapabilityHandle::new(11)),
        PublishOutcome::Replied(1)
    );
    // The channel is full: the next publish stays pending, neither erring
    // nor completing, however often it retries.
    assert_eq!(
        second.publish_with_id(&mut chan, 2, CapabilityHandle::new(22)),
        PublishOutcome::Pending
    );
    assert_eq!(second.resume(&mut chan), PublishOutcome::Pending);
    assert_eq!(
        third.publish_with_id(&mut chan, 3, CapabilityHandle::new(33)),
        PublishOutcome::Pending
    );

    // Draining one event unblocks exactly one pending publish.
    assert_eq!(registry.drain_one(&mut chan), Some(RegistryOutcome::Inserted(1)));
    assert_eq!(second.resume(&mut chan), PublishOutcome::Replied(2));
    assert_eq!(third.resume(&mut chan), PublishOutcome::Pending);

    assert_eq!(registry.drain_one(&mut chan), Some(RegistryOutcome::Inserted(2)));
    assert_eq!(third.resume(&mut chan), PublishOutcome::Replied(3));
}

#[test]
fn closed_channel_fails_every_later_publish() {
    let mut chan = EventChannel::new(2);
    let mut publisher = Publisher::factory();
    let mut suspended = Publisher::factory();
    let mut other_connection = Publisher::factory();

    assert_eq!(
        publisher.publish_with_id(&mut chan, 5, CapabilityHandle::new(50)),
        PublishOutcome::Replied(5)
    );
    assert_eq!(
        suspended.publish_with_id(&mut chan, 6, CapabilityHandle::new(60)),
        PublishOutcome::Replied(6)
    );
    assert_eq!(
        publisher.publish_with_id(&mut chan, 7, CapabilityHandle::new(70)),
        PublishOutcome::Pending
    );

    // The consumer endpoint is dropped: pending and future sends fail, on
    // every connection, without a crash.
    chan.close();
    assert_eq!(publisher.resume(&mut chan), PublishOutcome::ChannelClosed);
    assert_eq!(
        other_connection.publish_with_id(&mut chan, 8, CapabilityHandle::new(80)),
        PublishOutcome::ChannelClosed
    );
    assert_eq!(
        other_connection.publish(&mut chan, CapabilityHandle::new(81)),
        PublishOutcome::ChannelClosed
    );
}

#[test]
fn conversion_failure_fails_only_its_own_call() {
    let mut chan = EventChannel::new(4);
    let mut publisher = Publisher::factory();
    assert_eq!(
        publisher.publish_with_id(&mut chan, 30, CapabilityHandle::defective(300)),
        PublishOutcome::ConversionFailed
    );
    // Nothing reached the channel for the failed call.
    assert_eq!(chan.queued(), 0);
    // The connection still serves a following, valid publish.
    assert_eq!(
        publisher.publish_with_id(&mut chan, 31, CapabilityHandle::new(301)),
        PublishOutcome::Replied(31)
    );
    assert_eq!(chan.queued(), 1);
}

#[test]
fn end_to_end_two_connections_reach_the_registry() {
    let mut chan = EventChannel::new(4);
    let mut registry = Registry::new();
    let mut connection_a = Publisher::factory();
    let mut connection_b = Publisher::factory();

    let x = match connection_a.publish(&mut chan, CapabilityHandle::new(1000)) {
        PublishOutcome::Replied(id) => id,
        other => panic!("publish on connection A failed: {:?}", other),
    };
    let y = match connection_b.publish(&mut chan, CapabilityHandle::new(2000)) {
        PublishOutcome::Replied(id) => id,
        other => panic!("publish on connection B failed: {:?}", other),
    };
    assert_ne!(x, y);

    assert_eq!(registry.drain(&mut chan), 2);
    assert_eq!(registry.count(), 2);
    assert_eq!(registry.lookup(x), Some(ControlProxy { handle: 1000 }));
    assert_eq!(registry.lookup(y), Some(ControlProxy { handle: 2000 }));
    // Recorded in the order the sends were observed.
    assert_eq!(registry.snapshot_ids(), vec![x, y]);
}

#[test]
fn serve_handles_a_connections_requests_in_order() {
    let mut chan = EventChannel::new(8);
    let mut publisher = Publisher::factory();
    let requests = vec![
        PublishRequest { id: 1, controller: CapabilityHandle::new(10) },
        PublishRequest { id: 2, controller: CapabilityHandle::defective(20) },
        PublishRequest { id: 3, controller: CapabilityHandle::new(30) },
    ];
    let (replies, consumed) = publisher.serve(&mut chan, &requests);
    assert_eq!(consumed, 3);
    assert_eq!(
        replies,
        vec![
            PublishOutcome::Replied(1),
            PublishOutcome::ConversionFailed,
            PublishOutcome::Replied(3),
        ]
    );
    assert_eq!(chan.queued(), 2);
}

#[test]
fn serve_suspends_on_a_full_channel_and_resumes() {
    let mut chan = EventChannel::new(1);
    let mut registry = Registry::new();
    let mut publisher = Publisher::factory();
    let requests = vec![
        PublishRequest { id: 4, controller: CapabilityHandle::new(40) },
        PublishRequest { id: 5, controller: CapabilityHandle::new(50) },
    ];
    let (replies, consumed) = publisher.serve(&mut chan, &requests);
    assert_eq!(replies, vec![PublishOutcome::Replied(4)]);
    assert_eq!(consumed, 1);

    assert_eq!(registry.drain_one(&mut chan), Some(RegistryOutcome::Inserted(4)));
    assert_eq!(publisher.resume(&mut chan), PublishOutcome::Replied(5));
    assert_eq!(registry.drain_one(&mut chan), Some(RegistryOutcome::Inserted(5)));
    assert_eq!(registry.snapshot_ids(), vec![4, 5]);
}

#[test]
fn serve_stops_once_the_registry_is_gone() {
    let mut chan = EventChannel::new(8);
    let mut publisher = Publisher::factory();
    chan.close();
    let requests = vec![
        PublishRequest { id: 6, controller: CapabilityHandle::new(60) },
        PublishRequest { id: 7, controller: CapabilityHandle::new(70) },
    ];
    let (replies, consumed) = publisher.serve(&mut chan, &requests);
    assert_eq!(replies, vec![PublishOutcome::ChannelClosed]);
    assert_eq!(consumed, 1);
}
