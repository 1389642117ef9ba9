//! The on-demand screenshot path.
//!
//! Viewers may poll for the latest screenshot directly, independent of the
//! monitor loop's cadence. The throttle gate bounds how often such a poll
//! triggers a fresh capture; callers it turns away — and captures that fail
//! — fall back to the cached screenshot, and a reader goes away empty-handed
//! only if no image was ever captured.

use vstd::prelude::*;

use crate::monitor::CaptureOutcome;
use crate::region::Region;
use crate::state::{AppState, StateModel};
use crate::throttle::{spec_after_call, spec_grants, CaptureThrottleGate};

verus! {

/// What an on-demand screenshot request does next.
#[derive(Clone, Copy, Debug, PartialEq, Eq, Structural)]
pub enum ScreenshotPlan {
    /// Serve the cached screenshot as it is.
    ServeCached,
    /// Capture the region afresh; on failure fall back to the cache.
    CaptureFresh(Region),
    /// No screenshot was ever captured and none can be: report no content.
    NoContent,
}

/// The plan for a request, given the state and whether the throttle gate
/// granted a fresh capture: an existing screenshot is served as long as the
/// gate refuses; a granted capture — or an empty cache — captures afresh
/// when monitoring is active on a selected region, and otherwise falls back
/// to whatever the cache holds.
pub open spec fn spec_screenshot_plan(sm: StateModel, granted: bool) -> ScreenshotPlan {
    if sm.screenshot is Some && !granted {
        ScreenshotPlan::ServeCached
    } else if sm.monitoring && sm.region is Some {
        ScreenshotPlan::CaptureFresh(sm.region->0)
    } else if sm.screenshot is Some {
        ScreenshotPlan::ServeCached
    } else {
        ScreenshotPlan::NoContent
    }
}

/// Decides how to answer an on-demand screenshot request at `now_ms`,
/// consulting (and, when due, advancing) the throttle gate.
pub fn plan_latest_screenshot(gate: &mut CaptureThrottleGate, state: &AppState, now_ms: u64) -> (p:
    ScreenshotPlan)
    ensures
        final(gate).last_capture_ms == spec_after_call(old(gate).last_capture_ms, now_ms),
        p == spec_screenshot_plan(state@, spec_grants(old(gate).last_capture_ms, now_ms)),
{
    let granted = gate.should_capture(now_ms);
    let has_cached = state.latest_screenshot.is_some();
    if has_cached && !granted {
        ScreenshotPlan::ServeCached
    } else if state.is_monitoring {
        match state.get_region() {
            Some(region) => ScreenshotPlan::CaptureFresh(region),
            None => if has_cached {
                ScreenshotPlan::ServeCached
            } else {
                ScreenshotPlan::NoContent
            },
        }
    } else if has_cached {
        ScreenshotPlan::ServeCached
    } else {
        ScreenshotPlan::NoContent
    }
}

/// Applies the outcome of a fresh on-demand capture: a captured frame is
/// stored for future requests and served; a failed capture leaves the state
/// untouched and serves the cached screenshot if one exists. `None` means
/// there is no content to serve.
pub fn finish_fresh_capture(state: &mut AppState, outcome: CaptureOutcome) -> (r: Option<Vec<u8>>)
    ensures
        outcome matches CaptureOutcome::Captured(png) ==> {
            &&& final(state)@ == (StateModel { screenshot: Some(png@), ..old(state)@ })
            &&& r is Some
            &&& r->0@ == png@
        },
        outcome is CaptureFailed ==> {
            &&& final(state)@ == old(state)@
            &&& (r is Some <==> old(state)@.screenshot is Some)
            &&& (r is Some ==> r->0@ == old(state)@.screenshot->0)
        },
{
    match outcome {
        CaptureOutcome::Captured(png) => {
            let out = png.clone();
            state.publish_screenshot(png);
            Some(out)
        },
        CaptureOutcome::CaptureFailed => state.cached_screenshot(),
    }
}

} // verus!
