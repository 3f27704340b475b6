//! The wall clock, read through `chrono`.
use vstd::prelude::*;

verus! {

/// A point in time: whole seconds since the Unix epoch (UTC) and the
/// nanoseconds past that second.
#[derive(Clone, Copy, Debug, PartialEq, Eq, Structural)]
pub struct Timestamp {
    pub secs: i64,
    pub nanos: u32,
}

/// Calls `chrono::Utc::now`, the current time, and hands back its seconds
/// (`timestamp`) and nanoseconds (`timestamp_subsec_nanos`). Nothing is
/// claimed of the result: it is the time of the call. The call panics if the
/// system clock is set before 1970.
#[verifier::external_body]
pub fn utc_now() -> Timestamp {
    let now = chrono::Utc::now();
    Timestamp { secs: now.timestamp(), nanos: now.timestamp_subsec_nanos() }
}

} // verus!
