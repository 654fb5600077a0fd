//! Bridge between a blocking windowing-protocol watcher and a non-blocking
//! polling reporter.
//!
//! A dedicated thread owns the protocol session and turns low-level surface
//! notifications into "active window changed" snapshots ([`tracker`]). The
//! snapshots travel over a bounded single-producer/single-consumer relay
//! ([`relay`]) to a reporter that drains them without blocking, keeps only the
//! most recent one, and delivers it to an external sink under a hard timeout
//! ([`reporter`]).

use vstd::prelude::*;

pub mod relay;
pub mod reporter;
pub mod snapshot;
pub mod tracker;

verus! {

/// Capacity of the relay between the protocol watcher and the reporter.
pub const RELAY_CAPACITY: usize = 32;

/// Budget for one delivery to the external sink, strictly below the caller's
/// one-second per-iteration deadline to leave margin for scheduling overhead.
pub const DELIVERY_TIMEOUT_MILLIS: u64 = 800;

/// Pause between protocol round-trips, to avoid a busy loop when no events
/// are pending.
pub const DISPATCH_IDLE_MILLIS: u64 = 10;

} // verus!
