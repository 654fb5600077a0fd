//! The polling reporter: drains the relay without blocking, keeps only the
//! most recent snapshot, and classifies the outcome of each delivery attempt
//! to the external sink.
//!
//! The reporter never makes the delivery call itself — that call is
//! asynchronous and bounded by a timeout, so it belongs to the surrounding
//! runtime. Each tick is: [`WindowWatcher::drain`], then
//! [`WindowWatcher::current`] to see whether anything is worth delivering,
//! then [`WindowWatcher::finish_tick`] with the outcome of the delivery
//! attempt, if one was made.

use crate::relay::relay_try_recv;
use crate::RELAY_CAPACITY;
use crate::snapshot::ActiveWindowSnapshot;
use vstd::prelude::*;

verus! {

/// How a delivery attempt to the external sink ended.
#[derive(Debug)]
pub enum DeliveryOutcome {
    /// The sink accepted the snapshot within the timeout.
    Delivered,
    /// The call did not resolve within the timeout. A soft failure: the
    /// snapshot is kept for the next tick and the tick still succeeds.
    TimedOut,
    /// The sink answered with an error, whose message this carries. A hard
    /// failure for the tick, propagated to the caller.
    Rejected(String),
}

/// The one error a tick can end with: the sink rejected the delivery.
#[derive(Debug)]
pub enum IterationError {
    SinkRejected(String),
}

/// What `last_known` holds after draining `drained` on top of `prev`: the
/// most recently drained snapshot, or the prior one when nothing was queued.
pub open spec fn latest_of(
    prev: Option<ActiveWindowSnapshot>,
    drained: Seq<ActiveWindowSnapshot>,
) -> Option<ActiveWindowSnapshot> {
    if drained.len() == 0 {
        prev
    } else {
        Some(drained.last())
    }
}

/// The consumer half of the bridge. Owns the receiving end of the relay and
/// the most recent snapshot ever drained from it, which persists across ticks
/// until a newer one arrives.
pub struct WindowWatcher {
    receiver: tokio::sync::mpsc::Receiver<ActiveWindowSnapshot>,
    last_known: Option<ActiveWindowSnapshot>,
}

impl WindowWatcher {
    /// The most recently drained snapshot, or none if none has ever arrived.
    pub closed spec fn last_known(&self) -> Option<ActiveWindowSnapshot> {
        self.last_known
    }

    /// Takes ownership of the relay's receiving end. Dropping this watcher
    /// later drops the receiver, which is the shutdown signal to the
    /// producing thread.
    pub fn new(receiver: tokio::sync::mpsc::Receiver<ActiveWindowSnapshot>) -> (r: Self)
        ensures
            r.last_known() is None,
    {
        WindowWatcher { receiver, last_known: None }
    }

    /// Drains the snapshots queued on the relay, never blocking, and keeps
    /// the most recent one as `last_known`. Returns the drained snapshots,
    /// oldest first; intermediate ones are superseded, not reported. At most
    /// [`RELAY_CAPACITY`](crate::RELAY_CAPACITY) snapshots are taken, which
    /// covers everything that can be queued when the tick starts; anything
    /// the producer adds meanwhile waits for the next tick.
    pub fn drain(&mut self) -> (drained: Vec<ActiveWindowSnapshot>)
        ensures
            final(self).last_known() == latest_of(old(self).last_known(), drained@),
    {
        let mut drained: Vec<ActiveWindowSnapshot> = Vec::new();
        let mut budget: usize = RELAY_CAPACITY;
        while budget > 0
            invariant
                self.last_known() == latest_of(old(self).last_known(), drained@),
            decreases budget,
        {
            match relay_try_recv(&mut self.receiver) {
                Some(snapshot) => {
                    drained.push(snapshot.clone());
                    self.last_known = Some(snapshot);
                    budget = budget - 1;
                },
                None => {
                    break ;
                },
            }
        }
        drained
    }

    /// The snapshot a tick should try to deliver: a copy of `last_known`, or
    /// nothing when no snapshot has ever arrived — in which case the tick
    /// makes no delivery call at all.
    pub fn current(&self) -> (r: Option<ActiveWindowSnapshot>)
        ensures
            r == self.last_known(),
    {
        match &self.last_known {
            Some(snapshot) => Some(snapshot.clone()),
            None => None,
        }
    }

    /// Closes a tick, given the outcome of the delivery attempt, or `None`
    /// when no delivery was attempted. The state is never changed: a timeout
    /// or a rejection keeps `last_known` for the next tick. Only an explicit
    /// rejection by the sink fails the tick; a timeout, a completed delivery
    /// and an idle tick all succeed.
    pub fn finish_tick(&mut self, outcome: Option<DeliveryOutcome>) -> (r: Result<
        (),
        IterationError,
    >)
        ensures
            *final(self) == *old(self),
            r is Ok <==> !(outcome matches Some(DeliveryOutcome::Rejected(_))),
            outcome matches Some(DeliveryOutcome::Rejected(message)) ==> r == Err::<
                (),
                IterationError,
            >(IterationError::SinkRejected(message)),
    {
        match outcome {
            Some(DeliveryOutcome::Rejected(message)) => Err(
                IterationError::SinkRejected(message),
            ),
            _ => Ok(()),
        }
    }
}

/// Bulk drain keeps the latest: when at least one snapshot was queued, the
/// state after the drain is the most recent of them, whatever was held
/// before.
pub proof fn lemma_drain_keeps_latest(
    prev: Option<ActiveWindowSnapshot>,
    drained: Seq<ActiveWindowSnapshot>,
)
    requires
        drained.len() > 0,
    ensures
        latest_of(prev, drained) == Some(drained[drained.len() - 1]),
{
}

/// A tick with nothing queued and no prior snapshot has nothing to deliver:
/// the drain leaves the state empty, so no delivery call is made, and closing
/// the tick without an outcome succeeds.
pub proof fn lemma_empty_tick_is_success(drained: Seq<ActiveWindowSnapshot>)
    requires
        drained.len() == 0,
    ensures
        latest_of(None::<ActiveWindowSnapshot>, drained) is None,
{
}

} // verus!
