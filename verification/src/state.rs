//! The shared monitor state and its lifecycle operations.
//!
//! This is the single source of truth the background monitor loop and
//! concurrent readers coordinate through: the selected region, the
//! monitoring flag, the last recognition result, the latest screenshot and
//! the engine-readiness flag. The surrounding process wraps one value of
//! [`AppState`] in a concurrency-safe cell; every operation here is a plain
//! sequential transition, specified against the abstract [`StateModel`].

use vstd::prelude::*;

use crate::errors::MonitorError;
use crate::ocr::{OcrResult, StatusResponse};
use crate::region::Region;

verus! {

/// Application state shared between request handlers and the monitor loop.
pub struct AppState {
    /// Currently selected region (if any).
    pub region: Option<Region>,
    /// Most recent recognition result.
    pub ocr_result: OcrResult,
    /// Whether the monitor loop is actively capturing.
    pub is_monitoring: bool,
    /// Whether the recognition engine initialized successfully.
    pub ocr_ready: bool,
    /// Latest screenshot in PNG format, for readers to display.
    pub latest_screenshot: Option<Vec<u8>>,
}

/// The abstract value of an [`AppState`]: what contracts and laws speak of.
#[verifier::ext_equal]
pub ghost struct StateModel {
    pub region: Option<Region>,
    pub text: Seq<char>,
    pub last_update: i64,
    pub monitoring: bool,
    pub ready: bool,
    pub screenshot: Option<Seq<u8>>,
}

impl View for AppState {
    type V = StateModel;

    open spec fn view(&self) -> StateModel {
        StateModel {
            region: self.region,
            text: self.ocr_result.text@,
            last_update: self.ocr_result.timestamp_ms,
            monitoring: self.is_monitoring,
            ready: self.ocr_ready,
            screenshot: match self.latest_screenshot {
                Some(v) => Some(v@),
                None => None,
            },
        }
    }
}

/// Well-formedness: monitoring is only ever active with a region selected,
/// and only valid regions are ever stored.
pub open spec fn state_wf(s: StateModel) -> bool {
    &&& (s.monitoring ==> s.region is Some)
    &&& (s.region is Some ==> s.region->0.spec_valid())
}

/// Outcome of a start request. A start on an already-active monitor is a
/// benign no-op, reported as success with a distinguishing value.
#[derive(Clone, Copy, Debug, PartialEq, Eq, Structural)]
pub enum StartOutcome {
    /// Monitoring was switched on; the contained region is the one to scan
    /// immediately, so the caller does not wait a full poll interval.
    Started(Region),
    /// Monitoring was already active; nothing changed.
    AlreadyActive,
}

/// Outcome of a stop request. Stopping an inactive monitor is a benign no-op.
#[derive(Clone, Copy, Debug, PartialEq, Eq, Structural)]
pub enum StopOutcome {
    /// Monitoring was switched off and the published text cleared.
    Stopped,
    /// Monitoring was already inactive; nothing changed.
    AlreadyInactive,
}

/// The transition a region request makes: a valid region replaces the stored
/// one wholesale; an invalid one is rejected and changes nothing.
pub open spec fn spec_set_region(s: StateModel, r: Region) -> (StateModel, Result<
    Region,
    MonitorError,
>) {
    if r.spec_valid() {
        (StateModel { region: Some(r), ..s }, Ok(r))
    } else {
        (s, Err(MonitorError::InvalidRegion))
    }
}

/// The transition a start request makes.
pub open spec fn spec_start(s: StateModel) -> (StateModel, Result<StartOutcome, MonitorError>) {
    if s.monitoring {
        (s, Ok(StartOutcome::AlreadyActive))
    } else if s.region is None {
        (s, Err(MonitorError::NoRegionSelected))
    } else {
        (StateModel { monitoring: true, ..s }, Ok(StartOutcome::Started(s.region->0)))
    }
}

/// The transition a stop request makes: an active monitor is switched off and
/// its published text cleared with a fresh timestamp; an inactive one is left
/// untouched.
pub open spec fn spec_stop(s: StateModel, now_ms: i64) -> (StateModel, StopOutcome) {
    if s.monitoring {
        (
            StateModel {
                monitoring: false,
                text: Seq::<char>::empty(),
                last_update: now_ms,
                ..s
            },
            StopOutcome::Stopped,
        )
    } else {
        (s, StopOutcome::AlreadyInactive)
    }
}

impl AppState {
    /// Creates the initial state: no region, empty result, monitoring off,
    /// engine not ready, no screenshot. The result timestamp is the current
    /// wall-clock time, as every published result's is.
    pub fn new() -> (r: AppState)
        ensures
            r@.region is None,
            r@.text == Seq::<char>::empty(),
            !r@.monitoring,
            !r@.ready,
            r@.screenshot is None,
            state_wf(r@),
    {
        AppState {
            region: None,
            ocr_result: OcrResult::empty(),
            is_monitoring: false,
            ocr_ready: false,
            latest_screenshot: None,
        }
    }

    /// Whether this state is well-formed; what the lifecycle operations
    /// require and preserve. Callers outside verified code test this before
    /// handing the state to them.
    pub fn check_wf(&self) -> (b: bool)
        ensures
            b == state_wf(self@),
    {
        let region_ok = match self.region {
            Some(r) => r.is_valid(),
            None => true,
        };
        let monitoring_ok = !self.is_monitoring || self.region.is_some();
        region_ok && monitoring_ok
    }

    /// Replaces the stored region, rejecting invalid dimensions.
    /// Accepting a region has no side effect on the monitoring state.
    pub fn set_region(&mut self, region: Region) -> (r: Result<Region, MonitorError>)
        requires
            state_wf(old(self)@),
        ensures
            final(self)@ == spec_set_region(old(self)@, region).0,
            r == spec_set_region(old(self)@, region).1,
            state_wf(final(self)@),
    {
        if region.is_valid() {
            self.region = Some(region);
            Ok(region)
        } else {
            Err(MonitorError::InvalidRegion)
        }
    }

    /// Returns a copy of the current region, if one is set.
    pub fn get_region(&self) -> (r: Option<Region>)
        ensures
            r == self@.region,
    {
        self.region
    }

    /// Switches monitoring on. Fails when no region is set; reports a benign
    /// no-op when already active. On a genuine start, the returned region is
    /// the one to scan immediately.
    pub fn start_monitoring(&mut self) -> (r: Result<StartOutcome, MonitorError>)
        requires
            state_wf(old(self)@),
        ensures
            final(self)@ == spec_start(old(self)@).0,
            r == spec_start(old(self)@).1,
            state_wf(final(self)@),
    {
        if self.is_monitoring {
            Ok(StartOutcome::AlreadyActive)
        } else {
            match self.region {
                None => Err(MonitorError::NoRegionSelected),
                Some(region) => {
                    self.is_monitoring = true;
                    Ok(StartOutcome::Started(region))
                },
            }
        }
    }

    /// Switches monitoring off, clearing the published text while keeping a
    /// fresh timestamp so readers see when monitoring stopped. Idempotent:
    /// stopping an inactive monitor changes nothing.
    pub fn stop_monitoring(&mut self, now_ms: i64) -> (r: StopOutcome)
        requires
            state_wf(old(self)@),
        ensures
            final(self)@ == spec_stop(old(self)@, now_ms).0,
            r == spec_stop(old(self)@, now_ms).1,
            state_wf(final(self)@),
    {
        if self.is_monitoring {
            self.is_monitoring = false;
            self.clear_current_result(now_ms);
            StopOutcome::Stopped
        } else {
            StopOutcome::AlreadyInactive
        }
    }

    /// Clears the published text to communicate that monitoring stopped,
    /// keeping the record itself with a fresh timestamp.
    pub fn clear_current_result(&mut self, now_ms: i64)
        ensures
            final(self)@ == (StateModel {
                text: Seq::<char>::empty(),
                last_update: now_ms,
                ..old(self)@
            }),
    {
        self.ocr_result = OcrResult::empty_at(now_ms);
    }

    /// Assembles the status snapshot a reader receives.
    pub fn get_status(&self) -> (st: StatusResponse)
        ensures
            st.is_monitoring == self@.monitoring,
            st.region == self@.region,
            st.last_text@ == self@.text,
            st.last_update_ms == self@.last_update,
            st.ocr_ready == self@.ready,
            st.has_screenshot == (self@.screenshot is Some),
    {
        StatusResponse {
            is_monitoring: self.is_monitoring,
            region: self.region,
            last_text: self.ocr_result.text.clone(),
            last_update_ms: self.ocr_result.timestamp_ms,
            ocr_ready: self.ocr_ready,
            has_screenshot: self.latest_screenshot.is_some(),
        }
    }

    /// Overwrites the published recognition result unconditionally.
    /// Monitor-loop only.
    pub fn publish_result(&mut self, result: OcrResult)
        ensures
            final(self)@ == (StateModel {
                text: result.text@,
                last_update: result.timestamp_ms,
                ..old(self)@
            }),
    {
        self.ocr_result = result;
    }

    /// Overwrites the latest screenshot unconditionally; last writer wins.
    pub fn publish_screenshot(&mut self, bytes: Vec<u8>)
        ensures
            final(self)@ == (StateModel { screenshot: Some(bytes@), ..old(self)@ }),
    {
        self.latest_screenshot = Some(bytes);
    }

    /// Returns a copy of the latest screenshot, if any was ever captured.
    pub fn cached_screenshot(&self) -> (r: Option<Vec<u8>>)
        ensures
            r is Some <==> self@.screenshot is Some,
            r is Some ==> r->0@ == self@.screenshot->0,
    {
        match &self.latest_screenshot {
            Some(v) => Some(v.clone()),
            None => None,
        }
    }

    /// Records whether the recognition engine initialized. A failed
    /// initialization is fatal for this process run and is reported as such.
    pub fn on_engine_init(&mut self, init_ok: bool) -> (r: Result<(), MonitorError>)
        ensures
            final(self)@ == (StateModel { ready: init_ok, ..old(self)@ }),
            r is Ok <==> init_ok,
            !init_ok ==> r == Err::<(), MonitorError>(MonitorError::EngineInitFailure),
    {
        self.ocr_ready = init_ok;
        if init_ok {
            Ok(())
        } else {
            Err(MonitorError::EngineInitFailure)
        }
    }

    /// Publishes the result of the immediate out-of-band scan a start request
    /// triggers — unless monitoring was switched off again before the scan
    /// finished, in which case the late result is discarded so stale text
    /// cannot reappear after an intentional stop.
    pub fn apply_immediate_scan(&mut self, result: OcrResult) -> (published: bool)
        ensures
            old(self)@.monitoring ==> published && final(self)@ == (StateModel {
                text: result.text@,
                last_update: result.timestamp_ms,
                ..old(self)@
            }),
            !old(self)@.monitoring ==> !published && final(self)@ == old(self)@,
    {
        if self.is_monitoring {
            self.ocr_result = result;
            true
        } else {
            false
        }
    }
}

impl Clone for AppState {
    /// A defensive copy: readers never receive the shared value itself.
    fn clone(&self) -> (r: AppState)
        ensures
            r@ == self@,
    {
        AppState {
            region: self.region,
            ocr_result: self.ocr_result.clone(),
            is_monitoring: self.is_monitoring,
            ocr_ready: self.ocr_ready,
            latest_screenshot: match &self.latest_screenshot {
                Some(v) => Some(v.clone()),
                None => None,
            },
        }
    }
}

/// Law: a region request succeeds exactly when both dimensions are positive;
/// acceptance stores the region wholesale and touches nothing else, and
/// rejection changes nothing.
pub proof fn lemma_set_region_accepts_iff_valid(s: StateModel, r: Region)
    ensures
        spec_set_region(s, r).1 is Ok <==> (r.width > 0 && r.height > 0),
        spec_set_region(s, r).1 is Ok ==> spec_set_region(s, r) == (
            StateModel { region: Some(r), ..s },
            Ok::<Region, MonitorError>(r),
        ),
        !(spec_set_region(s, r).1 is Ok) ==> spec_set_region(s, r) == (
            s,
            Err::<Region, MonitorError>(MonitorError::InvalidRegion),
        ),
{
}

/// Law: a start request fails with `NoRegionSelected` exactly when no region
/// is currently set, regardless of call order — in a well-formed state the
/// monitoring flag can be set only while a region is.
pub proof fn lemma_start_fails_iff_no_region(s: StateModel)
    requires
        state_wf(s),
    ensures
        spec_start(s).1 == Err::<StartOutcome, MonitorError>(MonitorError::NoRegionSelected)
            <==> s.region is None,
{
}

/// Law: stopping twice in a row is idempotent. The second stop reports the
/// monitor was already inactive and changes nothing; whatever the first stop
/// cleared stays exactly as the first stop left it.
pub proof fn lemma_stop_idempotent(s: StateModel, t1: i64, t2: i64)
    ensures
        spec_stop(spec_stop(s, t1).0, t2).0 == spec_stop(s, t1).0,
        spec_stop(spec_stop(s, t1).0, t2).1 == StopOutcome::AlreadyInactive,
        s.monitoring ==> spec_stop(s, t1).0.text == Seq::<char>::empty(),
{
}

/// Law: stopping an active monitor at time `now` leaves the published text
/// empty and the last-update stamp refreshed to a time no earlier than any
/// time at or before the call.
pub proof fn lemma_stop_refreshes_timestamp(s: StateModel, call_time: i64, now_ms: i64)
    requires
        s.monitoring,
        call_time <= now_ms,
    ensures
        spec_stop(s, now_ms).0.text == Seq::<char>::empty(),
        spec_stop(s, now_ms).0.last_update >= call_time,
{
}

} // verus!
