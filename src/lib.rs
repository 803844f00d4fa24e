//! Latency probing over a relay chain of message streams: the probe body
//! codec, relay tagging, delay collection and the decisions of the loops that
//! drive them.
use vstd::prelude::*;

pub mod bumper;
pub mod catcher;
pub mod chain;
pub mod message;
pub mod period;
pub mod phase;
pub mod timestamp;

verus! {

} // verus!
