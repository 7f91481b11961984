//! How often a connected peer is pinged.
use vstd::prelude::*;
use std::time::Duration;

verus! {

/// The span `Duration::from_millis` gives for a number of milliseconds.
pub uninterp spec fn duration_of_millis(ms: u64) -> Duration;

/// `Duration::from_millis`: the span of `ms` milliseconds.
#[verifier::external_body]
fn duration_from_millis(ms: u64) -> (d: Duration)
    ensures
        d == duration_of_millis(ms),
{
    Duration::from_millis(ms)
}

/// The interval between heartbeats: one second.
pub fn default_heartbeat_interval() -> (interval: Duration)
    ensures
        interval == duration_of_millis(1000),
{
    duration_from_millis(1000)
}

} // verus!
