//! The phases shared by the three loops: the probe generator, the relay and
//! the collector.
use vstd::prelude::*;

verus! {

/// Where a loop stands.
#[derive(PartialEq, Eq, Structural, Clone, Copy, Debug)]
pub enum LoopPhase {
    /// Not yet attached to its timer or stream.
    Idle,
    /// Waiting for the next tick or delivery.
    AwaitingEvent,
    /// A publish was issued and its outcome is awaited.
    Processing,
    /// Stopped for good; a new subscription starts from scratch.
    Terminated,
}

/// Why a loop stopped.
#[derive(PartialEq, Eq, Structural, Clone, Copy, Debug)]
pub enum StopCause {
    /// The stream it consumed was closed.
    StreamClosed,
    /// A publish failed; going on would leave a gap in the measurement.
    PublishFailed,
    /// The process is shutting down.
    Shutdown,
}

} // verus!
