//! The protocol watcher's state machine: it turns low-level "surface created
//! or updated" notifications into at most one emission per actual change of
//! the active surface, and decides when its dispatch loop must stop.
//!
//! The blocking protocol session itself (connecting, binding the
//! toplevel-tracking extension, the round-trip dispatch calls) lives with the
//! surrounding runtime on a dedicated thread; that thread feeds each
//! notification's identity, app id, title and activation flag into
//! [`ToplevelTracker::handle_update`] and steers its loop by
//! [`ToplevelTracker::next_dispatch_step`].

use crate::relay::relay_send;
use crate::snapshot::ActiveWindowSnapshot;
use crate::snapshot::SnapshotView;
use vstd::prelude::*;

verus! {

/// The error that ends startup when the windowing session lacks the
/// toplevel-tracking extension.
#[derive(Debug)]
pub enum StartupError {
    CapabilityMissing,
}

/// The toplevel-tracking extension is a hard requirement: there is no other
/// source of focused-window identity, so a session without it fails startup
/// fatally.
pub fn require_toplevel_capability(available: bool) -> (r: Result<(), StartupError>)
    ensures
        r is Ok <==> available,
        !available ==> r == Err::<(), StartupError>(StartupError::CapabilityMissing),
{
    if available {
        Ok(())
    } else {
        Err(StartupError::CapabilityMissing)
    }
}

/// One "surface created" or "surface updated" notification, as mathematical
/// values: the surface's protocol-assigned identity, its current app id and
/// title, and whether its state set contains the "activated" flag.
pub struct SurfaceUpdate {
    pub identifier: Seq<char>,
    pub app_id: Seq<char>,
    pub title: Seq<char>,
    pub activated: bool,
}

/// Whether a notification is an activation transition: the surface is
/// activated and is not the one already believed active.
pub open spec fn is_transition(active: Option<Seq<char>>, ev: SurfaceUpdate) -> bool {
    ev.activated && active != Some(ev.identifier)
}

/// The identity believed active after one notification: the notifying
/// surface's on a transition, the previous one otherwise.
pub open spec fn step_active(active: Option<Seq<char>>, ev: SurfaceUpdate) -> Option<Seq<char>> {
    if is_transition(active, ev) {
        Some(ev.identifier)
    } else {
        active
    }
}

/// The snapshot a transition emits: the surface's current app id and title.
pub open spec fn emitted_snapshot(ev: SurfaceUpdate) -> SnapshotView {
    SnapshotView { app_id: ev.app_id, title: ev.title }
}

/// Every snapshot emitted over a sequence of notifications, in order, when
/// the identity believed active starts as `active`.
pub open spec fn emissions(active: Option<Seq<char>>, evs: Seq<SurfaceUpdate>) -> Seq<SnapshotView>
    decreases evs.len(),
{
    if evs.len() == 0 {
        Seq::empty()
    } else {
        let rest = emissions(step_active(active, evs[0]), evs.drop_first());
        if is_transition(active, evs[0]) {
            seq![emitted_snapshot(evs[0])] + rest
        } else {
            rest
        }
    }
}

/// What the watcher's dispatch loop does after one round-trip.
#[derive(Debug)]
pub enum DispatchStep {
    /// Idle briefly, then run the next round-trip.
    Continue,
    /// The reporter dropped its end of the relay: exit the loop quietly, as a
    /// normal shutdown, not an error.
    StopShutdown,
    /// The round-trip returned a protocol error: exit the loop fatally; no
    /// reconnection is attempted.
    StopProtocolFailure,
}

/// What [`ToplevelTracker::handle_update`] did with one notification.
#[derive(Debug)]
pub enum UpdateOutcome {
    /// No activation transition: nothing was emitted.
    NoEmission,
    /// A transition: this snapshot was emitted onto the relay.
    Emitted(ActiveWindowSnapshot),
    /// A transition, but the relay refused the snapshot because the reporter
    /// is gone: the watcher should shut down.
    RelayClosed,
}

/// The producer half of the bridge. Owns the sending end of the relay, the
/// identity of the surface currently believed active, and whether the relay
/// has been seen closed.
pub struct ToplevelTracker {
    sender: tokio::sync::mpsc::Sender<ActiveWindowSnapshot>,
    active_identifier: Option<String>,
    relay_closed: bool,
}

impl ToplevelTracker {
    /// The identity of the surface currently believed active, if any.
    pub closed spec fn active(&self) -> Option<Seq<char>> {
        match self.active_identifier {
            Some(identifier) => Some(identifier@),
            None => None,
        }
    }

    /// Whether a relay push has failed because the reporter dropped its end.
    pub closed spec fn relay_closed(&self) -> bool {
        self.relay_closed
    }

    /// Takes ownership of the relay's sending end. No surface is believed
    /// active yet, so the very first activated surface seen — including one
    /// that existed before the watcher started — produces an emission.
    pub fn new(sender: tokio::sync::mpsc::Sender<ActiveWindowSnapshot>) -> (r: Self)
        ensures
            r.active() is None,
            !r.relay_closed(),
    {
        ToplevelTracker { sender, active_identifier: None, relay_closed: false }
    }

    /// Handles one "surface updated" notification. On an activation
    /// transition it records the new identity and emits a snapshot of the
    /// surface onto the relay; a surface that is not activated, or whose
    /// identity is already the active one, produces nothing, which coalesces
    /// repeated notifications for one activation. A push refused because the
    /// reporter is gone marks the relay closed; it is a shutdown signal, not
    /// an error.
    pub fn handle_update(
        &mut self,
        identifier: &String,
        app_id: &String,
        title: &String,
        activated: bool,
    ) -> (r: UpdateOutcome)
        ensures
            ({
                let ev = SurfaceUpdate {
                    identifier: identifier@,
                    app_id: app_id@,
                    title: title@,
                    activated,
                };
                &&& final(self).active() == step_active(old(self).active(), ev)
                &&& (r is NoEmission <==> !is_transition(old(self).active(), ev))
                &&& (r matches UpdateOutcome::Emitted(snapshot) ==> snapshot@ == emitted_snapshot(
                    ev,
                ))
                &&& final(self).relay_closed() == (old(self).relay_closed() || r is RelayClosed)
            }),
    {
        let same_surface = match &self.active_identifier {
            Some(current) => *current == *identifier,
            None => false,
        };
        if activated && !same_surface {
            self.active_identifier = Some(identifier.clone());
            let snapshot = ActiveWindowSnapshot { app_id: app_id.clone(), title: title.clone() };
            if relay_send(&self.sender, snapshot.clone()) {
                UpdateOutcome::Emitted(snapshot)
            } else {
                self.relay_closed = true;
                UpdateOutcome::RelayClosed
            }
        } else {
            UpdateOutcome::NoEmission
        }
    }

    /// Handles one "surface created" notification: the protocol announces a
    /// new surface with its initial state, which is treated exactly like an
    /// update of that surface.
    pub fn handle_new(
        &mut self,
        identifier: &String,
        app_id: &String,
        title: &String,
        activated: bool,
    ) -> (r: UpdateOutcome)
        ensures
            ({
                let ev = SurfaceUpdate {
                    identifier: identifier@,
                    app_id: app_id@,
                    title: title@,
                    activated,
                };
                &&& final(self).active() == step_active(old(self).active(), ev)
                &&& (r is NoEmission <==> !is_transition(old(self).active(), ev))
                &&& (r matches UpdateOutcome::Emitted(snapshot) ==> snapshot@ == emitted_snapshot(
                    ev,
                ))
                &&& final(self).relay_closed() == (old(self).relay_closed() || r is RelayClosed)
            }),
    {
        self.handle_update(identifier, app_id, title, activated)
    }

    /// Handles one "surface closed" notification: deliberately a no-op. When
    /// the active surface closes without a new activation arriving first, the
    /// right behaviour (no active window? keep the last value?) is an open
    /// question, so the state is left untouched.
    pub fn handle_closed(&mut self, _identifier: &String)
        ensures
            *final(self) == *old(self),
    {
    }

    /// Decides what the dispatch loop does after one round-trip: a closed
    /// relay ends it as a normal shutdown, a failed round-trip ends it as a
    /// fatal protocol failure, and otherwise it idles briefly and goes round
    /// again.
    pub fn next_dispatch_step(&self, roundtrip_ok: bool) -> (r: DispatchStep)
        ensures
            r is StopShutdown <==> self.relay_closed(),
            r is StopProtocolFailure <==> (!self.relay_closed() && !roundtrip_ok),
            r is Continue <==> (!self.relay_closed() && roundtrip_ok),
    {
        if self.relay_closed {
            DispatchStep::StopShutdown
        } else if roundtrip_ok {
            DispatchStep::Continue
        } else {
            DispatchStep::StopProtocolFailure
        }
    }
}

/// Coalescing: over any run of notifications that all carry the same
/// activated surface, at most one snapshot is emitted — none when that
/// surface was already active, and exactly the first notification's snapshot
/// otherwise.
pub proof fn lemma_coalescing(active: Option<Seq<char>>, evs: Seq<SurfaceUpdate>, id: Seq<char>)
    requires
        forall|i: int|
            0 <= i < evs.len() ==> (#[trigger] evs[i]).activated && evs[i].identifier == id,
    ensures
        active == Some(id) ==> emissions(active, evs) == Seq::<SnapshotView>::empty(),
        active != Some(id) && evs.len() > 0 ==> emissions(active, evs) == seq![
            emitted_snapshot(evs[0]),
        ],
        emissions(active, evs).len() <= 1,
    decreases evs.len(),
{
    if evs.len() > 0 {
        let rest = evs.drop_first();
        assert(forall|i: int|
            0 <= i < rest.len() ==> (#[trigger] rest[i]).activated && rest[i].identifier == id);
        lemma_coalescing(step_active(active, evs[0]), rest, id);
        if active == Some(id) {
            assert(emissions(active, evs) =~= Seq::<SnapshotView>::empty());
        } else {
            assert(emissions(active, evs) =~= seq![emitted_snapshot(evs[0])]);
        }
    }
}

/// Transition detection: when activation alternates from surface A to B and
/// back to A, starting with A not active, exactly three snapshots are
/// emitted, each carrying the app id and title the surface had at that
/// moment.
pub proof fn lemma_transition_detection(
    active: Option<Seq<char>>,
    first_a: SurfaceUpdate,
    then_b: SurfaceUpdate,
    back_a: SurfaceUpdate,
)
    requires
        first_a.activated && then_b.activated && back_a.activated,
        back_a.identifier == first_a.identifier,
        then_b.identifier != first_a.identifier,
        active != Some(first_a.identifier),
    ensures
        emissions(active, seq![first_a, then_b, back_a]) == seq![
            emitted_snapshot(first_a),
            emitted_snapshot(then_b),
            emitted_snapshot(back_a),
        ],
{
    let evs = seq![first_a, then_b, back_a];
    assert(evs.drop_first() =~= seq![then_b, back_a]);
    assert(seq![then_b, back_a].drop_first() =~= seq![back_a]);
    assert(seq![back_a].drop_first() =~= Seq::<SurfaceUpdate>::empty());
    assert(emissions(Some(back_a.identifier), Seq::<SurfaceUpdate>::empty())
        =~= Seq::<SnapshotView>::empty());
    assert(emissions(Some(then_b.identifier), seq![back_a]) =~= seq![emitted_snapshot(back_a)]);
    assert(emissions(Some(first_a.identifier), seq![then_b, back_a]) =~= seq![
        emitted_snapshot(then_b),
        emitted_snapshot(back_a),
    ]);
    assert(emissions(active, evs) =~= seq![
        emitted_snapshot(first_a),
        emitted_snapshot(then_b),
        emitted_snapshot(back_a),
    ]);
}

} // verus!

