//! The registry core: the single authority over live sessions.
//!
//! One loop owns the channel's consumer endpoint, pulls events strictly in
//! delivery order, and maintains the authoritative records of live
//! sessions, keyed by identifier.  A `NewSession` event inserts a record;
//! an identifier collision is a reported anomaly, handled deterministically
//! by rejecting the newer session and keeping the established one.  A
//! `SessionClosed` event removes the record of the named session.
//!
//! [`handle_model`] says exactly what one event does to the records, and
//! [`registry_model`] folds it over a whole event sequence; the executable
//! functions are proved to follow them.

use vstd::prelude::*;
use crate::channel::{ChannelState, EventChannel, ServiceEvent};
use crate::session::{ControlProxy, Session};

verus! {

/// What the registry did with one event.  Nothing here crashes the
/// process: anomalies are reported to the caller, who logs them.
#[derive(Clone, Copy, PartialEq, Eq, Structural, Debug)]
pub enum RegistryOutcome {
    /// A record for this fresh identifier now exists.
    Inserted(u64),
    /// A `NewSession` event carried an identifier that already names a live
    /// session: the newer session was rejected and the established record
    /// kept — the deterministic handling of this rare, tolerated anomaly.
    CollisionRejected(u64),
    /// The record of this identifier was removed.
    Removed(u64),
    /// A `SessionClosed` event named an identifier with no live record;
    /// nothing changed.
    UnknownSession(u64),
}

/// Whether some record in `sessions` carries this identifier.
pub open spec fn seq_contains_id(sessions: Seq<Session>, id: u64) -> bool {
    exists|k: int| 0 <= k < sessions.len() && sessions[k].id == id
}

/// The position of the record carrying this identifier.  Meaningful only
/// where the identifier is present and identifiers are unique, which the
/// registry's well-formedness guarantees.
pub open spec fn seq_index_of_id(sessions: Seq<Session>, id: u64) -> int {
    choose|k: int| 0 <= k < sessions.len() && sessions[k].id == id
}

/// No two records carry the same identifier.
pub open spec fn unique_ids(sessions: Seq<Session>) -> bool {
    forall|i: int, j: int|
        0 <= i < j < sessions.len() ==> sessions[i].id != sessions[j].id
}

/// What one event does to the records, and what the registry reports of
/// it: a fresh session is appended (the single consumer's arrival order is
/// the record order), a colliding one is rejected, and a closure removes
/// exactly the record it names.
pub open spec fn handle_model(sessions: Seq<Session>, event: ServiceEvent) -> (
    Seq<Session>,
    RegistryOutcome,
) {
    match event {
        ServiceEvent::NewSession(s) => {
            if seq_contains_id(sessions, s.id) {
                (sessions, RegistryOutcome::CollisionRejected(s.id))
            } else {
                (sessions.push(s), RegistryOutcome::Inserted(s.id))
            }
        },
        ServiceEvent::SessionClosed(id) => {
            if seq_contains_id(sessions, id) {
                (sessions.remove(seq_index_of_id(sessions, id)), RegistryOutcome::Removed(id))
            } else {
                (sessions, RegistryOutcome::UnknownSession(id))
            }
        },
    }
}

/// The records alone after one event.
pub open spec fn apply_event(sessions: Seq<Session>, event: ServiceEvent) -> Seq<Session> {
    handle_model(sessions, event).0
}

/// The records after a whole event sequence, oldest event first.
pub open spec fn registry_model(sessions: Seq<Session>, events: Seq<ServiceEvent>) -> Seq<Session>
    decreases events.len(),
{
    if events.len() == 0 {
        sessions
    } else {
        registry_model(apply_event(sessions, events[0]), events.skip(1))
    }
}

/// The registry core.  It exclusively owns the live-session records; every
/// other component only ever writes into the channel.
pub struct Registry {
    entries: Vec<Session>,
}

impl Registry {
    /// The live records, in the order their sessions were admitted.
    pub closed spec fn sessions(self) -> Seq<Session> {
        self.entries@
    }

    /// Identifiers are the registry's lookup keys: no two records share one.
    pub open spec fn well_formed(self) -> bool {
        unique_ids(self.sessions())
    }

    pub open spec fn contains_id(self, id: u64) -> bool {
        seq_contains_id(self.sessions(), id)
    }

    /// A registry with no live sessions.
    pub fn new() -> (r: Registry)
        ensures
            r.sessions() == Seq::<Session>::empty(),
            r.well_formed(),
    {
        Registry { entries: Vec::new() }
    }

    /// The position of the record carrying `id`, if any.
    fn find_index(&self, id: u64) -> (r: Option<usize>)
        requires
            self.well_formed(),
        ensures
            r is Some <==> self.contains_id(id),
            r matches Some(k) ==> k == seq_index_of_id(self.sessions(), id)
                && 0 <= k < self.sessions().len() && self.sessions()[k as int].id == id,
    {
        let mut k: usize = 0;
        while k < self.entries.len()
            invariant
                k <= self.sessions().len(),
                self.well_formed(),
                forall|j: int| 0 <= j < k ==> self.sessions()[j].id != id,
            decreases self.sessions().len() - k,
        {
            if self.entries[k].id == id {
                proof {
                    let w = seq_index_of_id(self.sessions(), id);
                    assert(0 <= w < self.sessions().len() && self.sessions()[w].id == id);
                    assert(w == k) by {
                        if w < k {
                            assert(self.sessions()[w].id != id);
                        }
                        if w > k {
                            assert(self.sessions()[k as int].id != self.sessions()[w].id);
                        }
                    }
                }
                return Some(k);
            }
            k = k + 1;
        }
        None
    }

    /// React to one event, exactly as [`handle_model`] says, and keep the
    /// identifiers unique.
    pub fn handle_event(&mut self, event: ServiceEvent) -> (r: RegistryOutcome)
        requires
            old(self).well_formed(),
        ensures
            final(self).well_formed(),
            (final(self).sessions(), r) == handle_model(old(self).sessions(), event),
    {
        match event {
            ServiceEvent::NewSession(session) => {
                match self.find_index(session.id) {
                    Some(_) => RegistryOutcome::CollisionRejected(session.id),
                    None => {
                        self.entries.push(session);
                        RegistryOutcome::Inserted(session.id)
                    },
                }
            },
            ServiceEvent::SessionClosed(id) => {
                match self.find_index(id) {
                    Some(k) => {
                        self.entries.remove(k);
                        proof {
                            lemma_remove_keeps_unique_ids(old(self).sessions(), k as int);
                        }
                        RegistryOutcome::Removed(id)
                    },
                    None => RegistryOutcome::UnknownSession(id),
                }
            },
        }
    }

    /// Process the one event at the channel's front, if any: the single
    /// step of the registry loop.
    pub fn drain_one(&mut self, chan: &mut EventChannel) -> (r: Option<RegistryOutcome>)
        requires
            old(self).well_formed(),
            old(chan).well_formed(),
        ensures
            final(self).well_formed(),
            final(chan).well_formed(),
            old(chan).state().events.len() == 0 ==> r is None && final(self).sessions() == old(
                self,
            ).sessions() && final(chan).state() == old(chan).state(),
            old(chan).state().events.len() > 0 ==> ({
                let (sessions2, outcome) = handle_model(
                    old(self).sessions(),
                    old(chan).state().events[0],
                );
                &&& r == Some(outcome)
                &&& final(self).sessions() == sessions2
                &&& final(chan).state() == (ChannelState {
                    events: old(chan).state().events.skip(1),
                    ..old(chan).state()
                })
            }),
    {
        match chan.try_recv() {
            None => None,
            Some(event) => Some(self.handle_event(event)),
        }
    }

    /// Drain every queued event in delivery order, exactly as
    /// [`registry_model`] says, and report how many were processed.  The
    /// loop never blocks on anything but the channel itself, so a stalled
    /// observer cannot stall publishers through it.
    pub fn drain(&mut self, chan: &mut EventChannel) -> (n: usize)
        requires
            old(self).well_formed(),
            old(chan).well_formed(),
        ensures
            final(self).well_formed(),
            final(chan).well_formed(),
            final(self).sessions() == registry_model(old(self).sessions(), old(chan).state().events),
            final(chan).state() == (ChannelState {
                events: Seq::<ServiceEvent>::empty(),
                ..old(chan).state()
            }),
            n == old(chan).state().events.len(),
    {
        let total = chan.queued();
        let mut n: usize = 0;
        loop
            invariant
                self.well_formed(),
                chan.well_formed(),
                chan.state().capacity == old(chan).state().capacity,
                chan.state().closed == old(chan).state().closed,
                registry_model(old(self).sessions(), old(chan).state().events) == registry_model(
                    self.sessions(),
                    chan.state().events,
                ),
                total == old(chan).state().events.len(),
                n + chan.state().events.len() == total,
            decreases chan.state().events.len(),
        {
            match self.drain_one(chan) {
                Some(_) => {
                    n = n + 1;
                },
                None => {
                    proof {
                        assert(chan.state() =~= (ChannelState {
                            events: Seq::<ServiceEvent>::empty(),
                            ..old(chan).state()
                        }));
                    }
                    return n;
                },
            }
        }
    }

    /// The control proxy of the live session with this identifier, if any:
    /// how the registry issues commands to a session it recorded.
    pub fn lookup(&self, id: u64) -> (r: Option<ControlProxy>)
        requires
            self.well_formed(),
        ensures
            self.contains_id(id) ==> r == Some(
                self.sessions()[seq_index_of_id(self.sessions(), id)].proxy,
            ),
            !self.contains_id(id) ==> r is None,
    {
        match self.find_index(id) {
            Some(k) => Some(self.entries[k].proxy),
            None => None,
        }
    }

    /// How many sessions are live.
    pub fn count(&self) -> (n: usize)
        ensures
            n == self.sessions().len(),
    {
        self.entries.len()
    }

    /// A snapshot of the live identifiers for an observer, in admission
    /// order.
    pub fn snapshot_ids(&self) -> (r: Vec<u64>)
        ensures
            r@ == self.sessions().map_values(|s: Session| s.id),
    {
        let mut ids: Vec<u64> = Vec::new();
        let mut k: usize = 0;
        while k < self.entries.len()
            invariant
                k <= self.sessions().len(),
                ids@ == self.sessions().take(k as int).map_values(|s: Session| s.id),
            decreases self.sessions().len() - k,
        {
            ids.push(self.entries[k].id);
            proof {
                assert(ids@ =~= self.sessions().take(k + 1).map_values(|s: Session| s.id));
            }
            k = k + 1;
        }
        proof {
            assert(self.sessions().take(self.sessions().len() as int) =~= self.sessions());
        }
        ids
    }
}

/// Removing one record keeps the remaining identifiers unique.
pub proof fn lemma_remove_keeps_unique_ids(sessions: Seq<Session>, k: int)
    requires
        unique_ids(sessions),
        0 <= k < sessions.len(),
    ensures
        unique_ids(sessions.remove(k)),
{
    let shorter = sessions.remove(k);
    assert forall|i: int, j: int| 0 <= i < j < shorter.len() implies shorter[i].id
        != shorter[j].id by {
        let i0 = if i < k { i } else { i + 1 };
        let j0 = if j < k { j } else { j + 1 };
        assert(shorter[i] == sessions[i0]);
        assert(shorter[j] == sessions[j0]);
    }
}

} // verus!
