//! Access to the wall clock.
//!
//! Timestamps in this crate are plain integers: milliseconds since the Unix
//! epoch for wall-clock times, and milliseconds of an arbitrary monotonic
//! reference for pacing and throttling. Every time-dependent operation takes
//! the current time as an argument, so its contract pins the result for every
//! clock reading; this function is the one place the wall clock is read.

use vstd::prelude::*;

verus! {

/// Relies on `chrono::Utc::now`, read out via `DateTime::timestamp_millis` as
/// milliseconds since the Unix epoch. The result depends on the wall clock,
/// so nothing is promised of it.
#[verifier::external_body]
pub fn current_time_millis() -> i64 {
    chrono::Utc::now().timestamp_millis()
}

} // verus!
