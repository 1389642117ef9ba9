//! The throttle gate for on-demand screenshot capture.
//!
//! Viewers polling for the latest screenshot must not each trigger a fresh
//! capture: at most one capture per interval is allowed through, and callers
//! turned away fall back to the cached screenshot. Times are milliseconds of
//! a monotonic reference clock supplied by the caller.

use vstd::prelude::*;

verus! {

/// Minimum spacing between granted on-demand captures, in milliseconds.
pub const CAPTURE_INTERVAL_MS: u64 = 500;

/// Whether a call at `now` wins a fresh capture, given the instant of the
/// last winning call.
pub open spec fn spec_grants(last_capture_ms: u64, now_ms: u64) -> bool {
    now_ms >= last_capture_ms + CAPTURE_INTERVAL_MS
}

/// The stored instant after a call at `now`: a winning call moves it to
/// `now`, a refused call leaves it alone.
pub open spec fn spec_after_call(last_capture_ms: u64, now_ms: u64) -> u64 {
    if spec_grants(last_capture_ms, now_ms) {
        now_ms
    } else {
        last_capture_ms
    }
}

/// Rate limiter for ad-hoc caller-triggered captures, independent of the
/// monitor loop's own cadence.
pub struct CaptureThrottleGate {
    /// When the last granted capture happened, on the caller's monotonic
    /// reference clock.
    pub last_capture_ms: u64,
}

impl CaptureThrottleGate {
    /// Creates a gate that behaves as if a capture had just been granted at
    /// `now_ms`: the next grant comes a full interval later.
    pub fn new(now_ms: u64) -> (g: CaptureThrottleGate)
        ensures
            g.last_capture_ms == now_ms,
    {
        CaptureThrottleGate { last_capture_ms: now_ms }
    }

    /// Allows a fresh capture, remembering `now` as the new reference point,
    /// iff a full interval has passed since the last allowed capture;
    /// otherwise refuses without mutating anything. A call from before the
    /// stored instant (which a monotonic clock never yields) is refused.
    pub fn should_capture(&mut self, now_ms: u64) -> (granted: bool)
        ensures
            granted == spec_grants(old(self).last_capture_ms, now_ms),
            final(self).last_capture_ms == spec_after_call(old(self).last_capture_ms, now_ms),
    {
        if now_ms >= self.last_capture_ms && now_ms - self.last_capture_ms
            >= CAPTURE_INTERVAL_MS {
            self.last_capture_ms = now_ms;
            true
        } else {
            false
        }
    }
}

/// Law: with a fixed reference clock, calls at times `t`, `t + 100` and
/// `t + 600` against a gate due at `t` are granted, refused and granted in
/// turn — exactly the first and third win a capture for the 500 ms window.
pub proof fn lemma_throttle_window(last: u64, t: u64)
    requires
        last + CAPTURE_INTERVAL_MS <= t,
        t + 600 <= u64::MAX,
    ensures
        spec_grants(last, t),
        !spec_grants(spec_after_call(last, t), (t + 100) as u64),
        spec_grants(
            spec_after_call(spec_after_call(last, t), (t + 100) as u64),
            (t + 600) as u64,
        ),
{
}

} // verus!
