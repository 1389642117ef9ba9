//! The monitor loop's per-cycle decision logic.
//!
//! The background worker is a level-triggered polling state machine: while
//! the monitoring flag is off it idles; with the flag on but no region it
//! waits; otherwise it paces itself, captures the region, always publishes
//! the fresh pixels, and re-runs text recognition only when the frame's
//! fingerprint changed — recognition is the dominant cost of the loop.
//! Capture and recognition themselves are external collaborators: the
//! surrounding process performs them and feeds their outcomes back into the
//! steps here, so every decision the loop takes is verified for every
//! outcome those engines can produce. Transient failures are never fatal:
//! they yield a bounded retry delay and the previous result is retained.

use vstd::prelude::*;

use crate::fingerprint::{calculate_simple_hash, spec_simple_hash};
use crate::ocr::OcrResult;
use crate::region::Region;
use crate::state::{AppState, StateModel};

verus! {

/// How long the loop sleeps between checks while idle or without a region.
pub const IDLE_POLL_MS: u64 = 500;

/// The minimum budget of one active cycle: captures are paced so that two
/// successive cycle starts are at least this far apart.
pub const MIN_CYCLE_MS: u64 = 200;

/// How long the loop backs off after a failed capture or recognition.
pub const RETRY_DELAY_MS: u64 = 1000;

/// The observable states of the polling loop.
#[derive(Clone, Copy, Debug, PartialEq, Eq, Structural)]
pub enum LoopPhase {
    /// The monitoring flag is off; the loop only re-checks it.
    Idle,
    /// The flag is on but no region is selected.
    NoRegion,
    /// Actively capturing the selected region.
    Capturing,
}

/// What the loop does next, decided at the top of each cycle.
#[derive(Clone, Copy, Debug, PartialEq, Eq, Structural)]
pub enum CyclePlan {
    /// Sleep `delay_ms` and re-check; no capture is attempted.
    Sleep { phase: LoopPhase, delay_ms: u64 },
    /// After pacing `delay_ms`, capture `region`.
    Capture { region: Region, delay_ms: u64 },
}

impl CyclePlan {
    /// The loop state this plan stands for.
    pub open spec fn spec_phase(self) -> LoopPhase {
        match self {
            CyclePlan::Sleep { phase, .. } => phase,
            CyclePlan::Capture { .. } => LoopPhase::Capturing,
        }
    }

    /// Reports the loop state this plan stands for.
    pub fn phase(&self) -> (p: LoopPhase)
        ensures
            p == self.spec_phase(),
    {
        match self {
            CyclePlan::Sleep { phase, .. } => *phase,
            CyclePlan::Capture { .. } => LoopPhase::Capturing,
        }
    }
}

/// What the capture engine produced for this cycle.
pub enum CaptureOutcome {
    /// The captured frame, encoded as PNG bytes.
    Captured(Vec<u8>),
    /// The capture attempt failed; never fatal to the loop.
    CaptureFailed,
}

/// What the loop asks of its driver after the capture step.
#[derive(Clone, Copy, Debug, PartialEq, Eq, Structural)]
pub enum CycleFollowUp {
    /// The frame changed: invoke the recognition engine on it.
    RunRecognition,
    /// No visual change: skip recognition entirely this cycle.
    SkipRecognition,
    /// The capture failed: sleep `delay_ms` and start the next cycle.
    RetryAfter { delay_ms: u64 },
}

/// What the recognition engine produced, when it was invoked.
pub enum RecognitionOutcome {
    /// The text extracted from the frame.
    Recognized(String),
    /// The recognition attempt failed; the previous result is retained.
    RecognitionFailed,
}

/// How an invoked recognition ended.
#[derive(Clone, Copy, Debug, PartialEq, Eq, Structural)]
pub enum CycleOutcome {
    /// New text was detected and a fresh result published.
    ResultPublished,
    /// The text is identical to the published one; nothing was republished,
    /// avoiding redundant timestamp churn.
    ResultUnchanged,
    /// Recognition failed: sleep `delay_ms` and continue; the previous
    /// result stays published.
    RecognitionRetry { delay_ms: u64 },
}

/// The loop-local state carried across cycles. The fingerprint of the
/// previous capture lives only here, never in the shared state.
pub struct MonitorLoop {
    /// Fingerprint of the previous cycle's frame; `None` before the first
    /// capture, which is therefore always treated as changed.
    pub last_fingerprint: Option<u64>,
    /// The last text handed to the shared state, for change comparison.
    pub last_text: String,
    /// When the current cycle started, on the driver's monotonic clock.
    pub last_cycle_start_ms: u64,
}

/// The abstract value of a [`MonitorLoop`].
#[verifier::ext_equal]
pub ghost struct LoopModel {
    pub fingerprint: Option<u64>,
    pub text: Seq<char>,
    pub cycle_start: u64,
}

impl View for MonitorLoop {
    type V = LoopModel;

    open spec fn view(&self) -> LoopModel {
        LoopModel {
            fingerprint: self.last_fingerprint,
            text: self.last_text@,
            cycle_start: self.last_cycle_start_ms,
        }
    }
}

/// How long to pace before capturing, so a cycle starting at `now` keeps the
/// minimum spacing from the previous cycle's start.
pub open spec fn spec_pace(cycle_start: u64, now: u64) -> u64 {
    if now >= cycle_start && now - cycle_start < MIN_CYCLE_MS {
        (MIN_CYCLE_MS - (now - cycle_start)) as u64
    } else {
        0
    }
}

/// The plan for a cycle beginning at `now`: idle without the flag, wait
/// without a region, otherwise capture after pacing.
pub open spec fn spec_plan(
    lm: LoopModel,
    monitoring: bool,
    region: Option<Region>,
    now: u64,
) -> CyclePlan {
    if !monitoring {
        CyclePlan::Sleep { phase: LoopPhase::Idle, delay_ms: IDLE_POLL_MS }
    } else if region is None {
        CyclePlan::Sleep { phase: LoopPhase::NoRegion, delay_ms: IDLE_POLL_MS }
    } else {
        CyclePlan::Capture { region: region->0, delay_ms: spec_pace(lm.cycle_start, now) }
    }
}

/// Whether a frame counts as changed against the previous fingerprint. The
/// first capture is always treated as changed.
pub open spec fn spec_changed(prev: Option<u64>, png: Seq<u8>) -> bool {
    match prev {
        None => true,
        Some(h) => h != spec_simple_hash(png),
    }
}

/// The capture step of one active cycle: the fresh pixels are always
/// published, and recognition runs iff the fingerprint changed. Yields the
/// new loop state, the new shared state, and whether to run recognition.
pub open spec fn spec_on_frame(lm: LoopModel, sm: StateModel, png: Seq<u8>) -> (
    LoopModel,
    StateModel,
    bool,
) {
    let sm1 = StateModel { screenshot: Some(png), ..sm };
    if spec_changed(lm.fingerprint, png) {
        (LoopModel { fingerprint: Some(spec_simple_hash(png)), ..lm }, sm1, true)
    } else {
        (lm, sm1, false)
    }
}

/// The recognition step of one active cycle: new text is published with a
/// fresh timestamp, identical text is not republished. Yields the new loop
/// state, the new shared state, and whether a result was published.
pub open spec fn spec_on_recognition(
    lm: LoopModel,
    sm: StateModel,
    text: Seq<char>,
    now: i64,
) -> (LoopModel, StateModel, bool) {
    if text != lm.text {
        (
            LoopModel { text: text, ..lm },
            StateModel { text: text, last_update: now, ..sm },
            true,
        )
    } else {
        (lm, sm, false)
    }
}

impl MonitorLoop {
    /// Loop state before the first cycle: no fingerprint, no text handed out.
    pub fn new() -> (l: MonitorLoop)
        ensures
            l@.fingerprint is None,
            l@.text == Seq::<char>::empty(),
            l@.cycle_start == 0,
    {
        MonitorLoop {
            last_fingerprint: None,
            last_text: String::new(),
            last_cycle_start_ms: 0,
        }
    }

    /// Decides what this cycle does, from the monitoring flag, the selected
    /// region and the current time.
    pub fn plan_cycle(&self, is_monitoring: bool, region: Option<Region>, now_ms: u64) -> (p:
        CyclePlan)
        ensures
            p == spec_plan(self@, is_monitoring, region, now_ms),
    {
        if !is_monitoring {
            CyclePlan::Sleep { phase: LoopPhase::Idle, delay_ms: IDLE_POLL_MS }
        } else {
            match region {
                None => CyclePlan::Sleep { phase: LoopPhase::NoRegion, delay_ms: IDLE_POLL_MS },
                Some(r) => {
                    let delay: u64 = if now_ms >= self.last_cycle_start_ms && now_ms
                        - self.last_cycle_start_ms < MIN_CYCLE_MS {
                        MIN_CYCLE_MS - (now_ms - self.last_cycle_start_ms)
                    } else {
                        0
                    };
                    CyclePlan::Capture { region: r, delay_ms: delay }
                },
            }
        }
    }

    /// Records the start of an active cycle, for the next cycle's pacing.
    pub fn begin_cycle(&mut self, now_ms: u64)
        ensures
            final(self)@ == (LoopModel { cycle_start: now_ms, ..old(self)@ }),
    {
        self.last_cycle_start_ms = now_ms;
    }

    /// Applies the capture outcome: a failed capture changes nothing and
    /// asks for a bounded retry; a captured frame is always published as the
    /// latest screenshot, and recognition is requested iff its fingerprint
    /// differs from the previous cycle's.
    pub fn on_capture(&mut self, state: &mut AppState, outcome: CaptureOutcome) -> (f:
        CycleFollowUp)
        ensures
            outcome is CaptureFailed ==> f == (CycleFollowUp::RetryAfter {
                delay_ms: RETRY_DELAY_MS,
            }) && final(self)@ == old(self)@ && final(state)@ == old(state)@,
            outcome matches CaptureOutcome::Captured(png) ==> ({
                let (lm, sm, run) = spec_on_frame(old(self)@, old(state)@, png@);
                &&& final(self)@ == lm
                &&& final(state)@ == sm
                &&& f == (if run {
                    CycleFollowUp::RunRecognition
                } else {
                    CycleFollowUp::SkipRecognition
                })
            }),
    {
        match outcome {
            CaptureOutcome::CaptureFailed => CycleFollowUp::RetryAfter {
                delay_ms: RETRY_DELAY_MS,
            },
            CaptureOutcome::Captured(png) => {
                let h = calculate_simple_hash(png.as_slice());
                let changed = match self.last_fingerprint {
                    None => true,
                    Some(prev) => prev != h,
                };
                state.publish_screenshot(png);
                if changed {
                    self.last_fingerprint = Some(h);
                    CycleFollowUp::RunRecognition
                } else {
                    CycleFollowUp::SkipRecognition
                }
            },
        }
    }

    /// Applies the recognition outcome: a failure changes nothing — the
    /// previously published result is retained — and asks for a bounded
    /// retry; freshly recognized text is published iff it differs from the
    /// last published text.
    pub fn on_recognition(
        &mut self,
        state: &mut AppState,
        outcome: RecognitionOutcome,
        now_ms: i64,
    ) -> (r: CycleOutcome)
        ensures
            outcome is RecognitionFailed ==> r == (CycleOutcome::RecognitionRetry {
                delay_ms: RETRY_DELAY_MS,
            }) && final(self)@ == old(self)@ && final(state)@ == old(state)@,
            outcome matches RecognitionOutcome::Recognized(text) ==> ({
                let (lm, sm, published) = spec_on_recognition(
                    old(self)@,
                    old(state)@,
                    text@,
                    now_ms,
                );
                &&& final(self)@ == lm
                &&& final(state)@ == sm
                &&& r == (if published {
                    CycleOutcome::ResultPublished
                } else {
                    CycleOutcome::ResultUnchanged
                })
            }),
    {
        match outcome {
            RecognitionOutcome::RecognitionFailed => CycleOutcome::RecognitionRetry {
                delay_ms: RETRY_DELAY_MS,
            },
            RecognitionOutcome::Recognized(text) => {
                if !(text == self.last_text) {
                    self.last_text = text.clone();
                    state.publish_result(OcrResult::new_at(text, now_ms));
                    CycleOutcome::ResultPublished
                } else {
                    CycleOutcome::ResultUnchanged
                }
            },
        }
    }
}

/// One full active cycle at the spec level, for a frame `png` and — should
/// recognition run — the text `rec` the recognition engine returns. Yields
/// the new loop and shared state, whether recognition was invoked, and
/// whether a result was published.
pub open spec fn spec_cycle(lm: LoopModel, sm: StateModel, png: Seq<u8>, rec: Seq<char>, now: i64)
    -> (LoopModel, StateModel, bool, bool) {
    let (lm1, sm1, run) = spec_on_frame(lm, sm, png);
    if run {
        let (lm2, sm2, published) = spec_on_recognition(lm1, sm1, rec, now);
        (lm2, sm2, true, published)
    } else {
        (lm1, sm1, false, false)
    }
}

/// The loop and shared state after `n` consecutive cycles that all observe
/// the frame `png` and whose recognition, when invoked, returns `rec`.
pub open spec fn spec_cycles(
    lm: LoopModel,
    sm: StateModel,
    png: Seq<u8>,
    rec: Seq<char>,
    now: i64,
    n: nat,
) -> (LoopModel, StateModel)
    decreases n,
{
    if n == 0 {
        (lm, sm)
    } else {
        let c = spec_cycle(lm, sm, png, rec, now);
        spec_cycles(c.0, c.1, png, rec, now, (n - 1) as nat)
    }
}

/// How often recognition is invoked across those `n` cycles.
pub open spec fn spec_cycles_invocations(
    lm: LoopModel,
    sm: StateModel,
    png: Seq<u8>,
    rec: Seq<char>,
    now: i64,
    n: nat,
) -> nat
    decreases n,
{
    if n == 0 {
        0
    } else {
        let c = spec_cycle(lm, sm, png, rec, now);
        (if c.2 {
            1nat
        } else {
            0nat
        }) + spec_cycles_invocations(c.0, c.1, png, rec, now, (n - 1) as nat)
    }
}

/// How often a result is republished across those `n` cycles.
pub open spec fn spec_cycles_publishes(
    lm: LoopModel,
    sm: StateModel,
    png: Seq<u8>,
    rec: Seq<char>,
    now: i64,
    n: nat,
) -> nat
    decreases n,
{
    if n == 0 {
        0
    } else {
        let c = spec_cycle(lm, sm, png, rec, now);
        (if c.3 {
            1nat
        } else {
            0nat
        }) + spec_cycles_publishes(c.0, c.1, png, rec, now, (n - 1) as nat)
    }
}

/// Law: a cycle whose frame fingerprint is already the stored one skips
/// recognition, republishes nothing, and changes nothing but the latest
/// screenshot — however often it repeats.
pub proof fn lemma_unchanged_cycle_republishes_nothing(
    lm: LoopModel,
    sm: StateModel,
    png: Seq<u8>,
    rec: Seq<char>,
    now: i64,
)
    requires
        lm.fingerprint == Some(spec_simple_hash(png)),
    ensures
        spec_cycle(lm, sm, png, rec, now) == (
            lm,
            StateModel { screenshot: Some(png), ..sm },
            false,
            false,
        ),
{
}

/// Helper for the laws below: once the stored fingerprint matches the frame,
/// any number of identical cycles leaves the loop state untouched, the
/// shared state touched only in its screenshot, and never invokes
/// recognition or republishes a result.
proof fn lemma_stable_cycles(
    lm: LoopModel,
    sm: StateModel,
    png: Seq<u8>,
    rec: Seq<char>,
    now: i64,
    n: nat,
)
    requires
        lm.fingerprint == Some(spec_simple_hash(png)),
    ensures
        n >= 1 ==> spec_cycles(lm, sm, png, rec, now, n) == (
            lm,
            StateModel { screenshot: Some(png), ..sm },
        ),
        spec_cycles_invocations(lm, sm, png, rec, now, n) == 0,
        spec_cycles_publishes(lm, sm, png, rec, now, n) == 0,
    decreases n,
{
    if n >= 1 {
        let sm1 = StateModel { screenshot: Some(png), ..sm };
        let c = spec_cycle(lm, sm, png, rec, now);
        assert(c.0 =~= lm);
        assert(c.1 =~= sm1);
        lemma_stable_cycles(lm, sm1, png, rec, now, (n - 1) as nat);
        if n >= 2 {
            assert(StateModel { screenshot: Some(png), ..sm1 } =~= sm1);
            assert(spec_cycles(lm, sm, png, rec, now, n) == spec_cycles(
                lm,
                sm1,
                png,
                rec,
                now,
                (n - 1) as nat,
            ));
        }
    }
}

/// Law: across any number of consecutive cycles that all observe the same
/// frame, recognition is invoked at most once — exactly once when the frame
/// counts as changed against the incoming fingerprint, and never otherwise.
pub proof fn lemma_identical_cycles_invoke_recognition_at_most_once(
    lm: LoopModel,
    sm: StateModel,
    png: Seq<u8>,
    rec: Seq<char>,
    now: i64,
    n: nat,
)
    requires
        n >= 1,
    ensures
        spec_cycles_invocations(lm, sm, png, rec, now, n) == (
            if spec_changed(lm.fingerprint, png) {
                1nat
            } else {
                0nat
            }
        ),
{
    let c = spec_cycle(lm, sm, png, rec, now);
    assert(c.0.fingerprint == Some(spec_simple_hash(png)));
    lemma_stable_cycles(c.0, c.1, png, rec, now, (n - 1) as nat);
}

/// Law: across any number of consecutive cycles that all observe the same
/// frame and the same recognized text, a result is republished at most once
/// — and never when the incoming fingerprint already matches the frame or
/// the text is already the published one.
pub proof fn lemma_identical_cycles_republish_at_most_once(
    lm: LoopModel,
    sm: StateModel,
    png: Seq<u8>,
    rec: Seq<char>,
    now: i64,
    n: nat,
)
    requires
        n >= 1,
    ensures
        spec_cycles_publishes(lm, sm, png, rec, now, n) == (
            if spec_changed(lm.fingerprint, png) && rec != lm.text {
                1nat
            } else {
                0nat
            }
        ),
{
    let c = spec_cycle(lm, sm, png, rec, now);
    assert(c.0.fingerprint == Some(spec_simple_hash(png)));
    lemma_stable_cycles(c.0, c.1, png, rec, now, (n - 1) as nat);
}

} // verus!
