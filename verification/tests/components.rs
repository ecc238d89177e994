//! Component-level tests: the capability handle's fallible conversion, the
//! bounded channel's queue discipline, the session adapter's terminal
//! event, and the registry's reactions to each event variant.

use mediasession::channel::{EventChannel, SendResult, ServiceEvent};
use mediasession::registry::{Registry, RegistryOutcome};
use mediasession::session::{CapabilityHandle, ControlProxy, ConversionError, Session};

#[test]
fn handle_conversion_succeeds_and_fails_as_built() {
    assert_eq!(
        CapabilityHandle::new(9).into_proxy(),
        Ok(ControlProxy { handle: 9 })
    );
    assert_eq!(
        CapabilityHandle::defective(9).into_proxy(),
        Err(ConversionError)
    );
}

#[test]
fn channel_is_first_in_first_out_within_capacity() {
    let mut chan = EventChannel::new(2);
    assert_eq!(chan.try_recv(), None);
    assert_eq!(chan.try_send(ServiceEvent::SessionClosed(1)), SendResult::Sent);
    assert_eq!(chan.try_send(ServiceEvent::SessionClosed(2)), SendResult::Sent);
    assert_eq!(chan.try_send(ServiceEvent::SessionClosed(3)), SendResult::Full);
    assert_eq!(chan.queued(), 2);
    assert_eq!(chan.try_recv(), Some(ServiceEvent::SessionClosed(1)));
    assert_eq!(chan.try_send(ServiceEvent::SessionClosed(3)), SendResult::Sent);
    assert_eq!(chan.try_recv(), Some(ServiceEvent::SessionClosed(2)));
    assert_eq!(chan.try_recv(), Some(ServiceEvent::SessionClosed(3)));
    assert_eq!(chan.try_recv(), None);
}

#[test]
fn closed_channel_refuses_sends_without_blocking() {
    let mut chan = EventChannel::new(2);
    assert!(!chan.is_closed());
    chan.close();
    assert!(chan.is_closed());
    assert_eq!(chan.try_send(ServiceEvent::SessionClosed(1)), SendResult::Closed);
    assert_eq!(chan.queued(), 0);
}

#[test]
fn session_adapter_emits_its_terminal_event() {
    let mut chan = EventChannel::new(2);
    let mut registry = Registry::new();
    let session = Session::new(12, ControlProxy { handle: 120 });
    assert_eq!(
        chan.try_send(ServiceEvent::NewSession(session)),
        SendResult::Sent
    );
    assert_eq!(session.emit_closed(&mut chan), SendResult::Sent);
    assert_eq!(registry.drain(&mut chan), 2);
    // The terminal event removed the record the first event created.
    assert_eq!(registry.count(), 0);
    assert_eq!(registry.lookup(12), None);
}

#[test]
fn registry_reacts_to_each_event_variant() {
    let mut registry = Registry::new();
    let s1 = Session::new(1, ControlProxy { handle: 10 });
    let s1_again = Session::new(1, ControlProxy { handle: 11 });
    let s2 = Session::new(2, ControlProxy { handle: 20 });

    assert_eq!(
        registry.handle_event(ServiceEvent::NewSession(s1)),
        RegistryOutcome::Inserted(1)
    );
    assert_eq!(
        registry.handle_event(ServiceEvent::NewSession(s1_again)),
        RegistryOutcome::CollisionRejected(1)
    );
    assert_eq!(
        registry.handle_event(ServiceEvent::NewSession(s2)),
        RegistryOutcome::Inserted(2)
    );
    assert_eq!(registry.lookup(1), Some(ControlProxy { handle: 10 }));
    assert_eq!(registry.snapshot_ids(), vec![1, 2]);

    assert_eq!(
        registry.handle_event(ServiceEvent::SessionClosed(3)),
        RegistryOutcome::UnknownSession(3)
    );
    assert_eq!(registry.count(), 2);
    assert_eq!(
        registry.handle_event(ServiceEvent::SessionClosed(1)),
        RegistryOutcome::Removed(1)
    );
    assert_eq!(registry.lookup(1), None);
    assert_eq!(registry.snapshot_ids(), vec![2]);
}

#[test]
fn drain_on_an_empty_channel_does_nothing() {
    let mut chan = EventChannel::new(3);
    let mut registry = Registry::new();
    assert_eq!(registry.drain_one(&mut chan), None);
    assert_eq!(registry.drain(&mut chan), 0);
    assert_eq!(registry.count(), 0);
}
