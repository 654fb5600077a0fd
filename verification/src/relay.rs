//! The bounded single-producer/single-consumer relay that carries snapshots
//! from the protocol watcher's thread to the reporter.
//!
//! The channel itself comes from an outside crate; the items below only
//! declare its two endpoint types and wrap the three calls the library makes.
//! Both ends are shared with another thread, so nothing can be promised about
//! what one call returns: the verified callers state what holds of every
//! outcome.

use crate::snapshot::ActiveWindowSnapshot;
use crate::RELAY_CAPACITY;
use vstd::prelude::*;

verus! {

#[verifier::external_type_specification]
#[verifier::external_body]
#[verifier::reject_recursive_types(T)]
pub struct ExSender<T>(tokio::sync::mpsc::Sender<T>);

#[verifier::external_type_specification]
#[verifier::external_body]
#[verifier::reject_recursive_types(T)]
pub struct ExReceiver<T>(tokio::sync::mpsc::Receiver<T>);

/// Relies on tokio::sync::mpsc::channel: creates a bounded channel with the
/// given capacity. It panics on a capacity of zero, and on one above its
/// semaphore's permit cap (`usize::MAX >> 3`); the precondition rules out
/// both, staying at or below the cap's value on 32-bit platforms so that it
/// is sufficient whatever the platform.
#[verifier::external_body]
fn bounded_channel(
    capacity: usize,
) -> (r: (
    tokio::sync::mpsc::Sender<ActiveWindowSnapshot>,
    tokio::sync::mpsc::Receiver<ActiveWindowSnapshot>,
))
    requires
        1 <= capacity <= 0x1fff_ffff,
{
    tokio::sync::mpsc::channel(capacity)
}

/// Creates the relay between the watcher and the reporter, at the fixed
/// capacity the design calls for. The sender end goes to the watcher thread,
/// the receiver end to the reporter; dropping the receiver is the shutdown
/// signal to the watcher.
pub fn create_relay() -> (
    tokio::sync::mpsc::Sender<ActiveWindowSnapshot>,
    tokio::sync::mpsc::Receiver<ActiveWindowSnapshot>,
) {
    bounded_channel(RELAY_CAPACITY)
}

/// Relies on tokio::sync::mpsc::Sender::blocking_send: queues the value in
/// FIFO order, blocking while the channel is full, and fails exactly when the
/// receiver has been dropped. Returns whether the value was accepted. tokio
/// panics if this is called from inside an asynchronous runtime; the only
/// caller runs on the watcher's dedicated thread.
#[verifier::external_body]
pub(crate) fn relay_send(
    sender: &tokio::sync::mpsc::Sender<ActiveWindowSnapshot>,
    snapshot: ActiveWindowSnapshot,
) -> (accepted: bool) {
    sender.blocking_send(snapshot).is_ok()
}

/// Relies on tokio::sync::mpsc::Receiver::try_recv: returns the next queued
/// value without ever blocking, or nothing when the queue is currently empty
/// or the sender is gone.
#[verifier::external_body]
pub(crate) fn relay_try_recv(
    receiver: &mut tokio::sync::mpsc::Receiver<ActiveWindowSnapshot>,
) -> (r: Option<ActiveWindowSnapshot>) {
    receiver.try_recv().ok()
}

} // verus!
