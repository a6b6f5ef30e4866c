//! The freshness check: a delivery is accepted only while its publish
//! timestamp is within a fixed window of the current wall-clock time.

use vstd::prelude::*;

verus! {

/// The freshness window in seconds: anything older is rejected as stale.
pub const FRESHNESS_WINDOW_SECONDS: u32 = 60;

/// A publish timestamp is fresh at `now_ms` when it is less than
/// `threshold_seconds` old. A timestamp in the future (negative age) is
/// fresh.
pub open spec fn fresh_at(published_ms: i64, now_ms: u64, threshold_seconds: u32) -> bool {
    now_ms - published_ms < threshold_seconds * 1000
}

/// Relies on std::time::SystemTime: the wall clock now, as whole milliseconds
/// since the Unix epoch. Nothing is assumed of the value; a clock reading
/// before the epoch comes out as zero.
#[verifier::external_body]
pub fn now_unix_millis() -> u64 {
    std::time::SystemTime::now()
        .duration_since(std::time::UNIX_EPOCH)
        .map(|d| d.as_millis() as u64)
        .unwrap_or(0)
}

/// Decides freshness against an explicit clock reading. The subtraction is
/// done in a wide signed type, so a future timestamp cannot underflow: its
/// age is negative and it counts as fresh.
pub fn is_fresh_at(published_ms: i64, now_ms: u64, threshold_seconds: u32) -> (r: bool)
    ensures
        r == fresh_at(published_ms, now_ms, threshold_seconds),
{
    (now_ms as i128) - (published_ms as i128) < (threshold_seconds as i128) * 1000
}

/// Whether the received payload's publish time is within the freshness
/// window of the wall clock now. Anything older than
/// `FRESHNESS_WINDOW_SECONDS` is rejected.
pub fn is_request_new_enough(published: i64) -> (r: bool)
    ensures
        exists|now_ms: u64| r == fresh_at(published, now_ms, FRESHNESS_WINDOW_SECONDS),
{
    let now = now_unix_millis();
    let r = is_fresh_at(published, now, FRESHNESS_WINDOW_SECONDS);
    proof {
        assert(r == fresh_at(published, now, FRESHNESS_WINDOW_SECONDS));
    }
    r
}

} // verus!
