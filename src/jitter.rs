use vstd::prelude::*;
use rand::Rng;

verus! {

/// Shortest pause between two heartbeats of a leader, in seconds.
pub const HEARTBEAT_PAUSE_MIN_SECS: u64 = 1;

/// Longest pause between two heartbeats of a leader, in seconds.
pub const HEARTBEAT_PAUSE_MAX_SECS: u64 = 6;

/// Relies on rand's `thread_rng().gen_range(lo..hi)`: a value drawn from
/// `lo..hi`, which must not be empty (it panics on an empty range).
#[verifier::external_body]
fn random_in_range(lo: u64, hi: u64) -> (r: u64)
    requires
        lo < hi,
    ensures
        lo <= r < hi,
{
    rand::thread_rng().gen_range(lo..hi)
}

/// A randomized pause between two heartbeats, so that other nodes get a
/// chance to time out and hold elections.
pub fn heartbeat_pause_secs() -> (r: u64)
    ensures
        HEARTBEAT_PAUSE_MIN_SECS <= r <= HEARTBEAT_PAUSE_MAX_SECS,
{
    random_in_range(HEARTBEAT_PAUSE_MIN_SECS, HEARTBEAT_PAUSE_MAX_SECS + 1)
}

} // verus!
