//! The wall clock, read where a rule depends on the current time.
use vstd::prelude::*;

verus! {

/// Seconds since the Unix epoch now, by `SystemTime::now`; 0 if the clock
/// reads before the epoch. Nothing is promised about the value: it is the time.
#[verifier::external_body]
pub fn unix_now_secs() -> u64 {
    std::time::SystemTime::now()
        .duration_since(std::time::UNIX_EPOCH)
        .map(|d| d.as_secs())
        .unwrap_or(0)
}

} // verus!
