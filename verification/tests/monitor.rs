use screen_text_reader::monitor::{
    CaptureOutcome, CycleFollowUp, CycleOutcome, CyclePlan, LoopPhase, MonitorLoop,
    RecognitionOutcome,
};
use screen_text_reader::{AppState, Region};

#[test]
fn loop_idles_without_the_flag_and_waits_without_a_region() {
    let looper = MonitorLoop::new();
    let idle = looper.plan_cycle(false, Some(Region::new(0, 0, 10, 10)), 0);
    assert_eq!(idle, CyclePlan::Sleep { phase: LoopPhase::Idle, delay_ms: 500 });
    assert_eq!(idle.phase(), LoopPhase::Idle);

    let no_region = looper.plan_cycle(true, None, 0);
    assert_eq!(
        no_region,
        CyclePlan::Sleep { phase: LoopPhase::NoRegion, delay_ms: 500 }
    );
    assert_eq!(no_region.phase(), LoopPhase::NoRegion);

    let capturing = looper.plan_cycle(true, Some(Region::new(0, 0, 10, 10)), 0);
    assert_eq!(capturing.phase(), LoopPhase::Capturing);
}

#[test]
fn capture_is_paced_to_the_minimum_cycle_budget() {
    let mut looper = MonitorLoop::new();
    let region = Region::new(0, 0, 10, 10);
    looper.begin_cycle(1000);
    // 100 ms into a 200 ms budget: wait out the remaining 100 ms.
    assert_eq!(
        looper.plan_cycle(true, Some(region), 1100),
        CyclePlan::Capture { region, delay_ms: 100 }
    );
    // Budget spent: capture immediately.
    assert_eq!(
        looper.plan_cycle(true, Some(region), 1200),
        CyclePlan::Capture { region, delay_ms: 0 }
    );
}

#[test]
fn first_capture_after_start_runs_recognition_and_publishes() {
    // Region {0,0,100,50} set, monitoring started, first capture differs
    // from none: recognition runs and a result is published with a
    // timestamp at or after the start time.
    let start_time: i64 = 10_000;
    let mut state = AppState::new();
    state.set_region(Region::new(0, 0, 100, 50)).unwrap();
    state.start_monitoring().unwrap();

    let mut looper = MonitorLoop::new();
    let plan = looper.plan_cycle(true, state.get_region(), 10_050);
    assert_eq!(
        plan,
        CyclePlan::Capture { region: Region::new(0, 0, 100, 50), delay_ms: 0 }
    );
    looper.begin_cycle(10_050);

    let frame = vec![1u8, 2, 3, 4];
    let follow_up = state_capture(&mut looper, &mut state, frame.clone());
    assert_eq!(follow_up, CycleFollowUp::RunRecognition);

    let outcome = looper.on_recognition(
        &mut state,
        RecognitionOutcome::Recognized("detected".to_string()),
        10_100,
    );
    assert_eq!(outcome, CycleOutcome::ResultPublished);

    let status = state.get_status();
    assert_eq!(status.last_text, "detected");
    assert!(status.last_update_ms >= start_time);
    assert!(status.has_screenshot);
}

#[test]
fn identical_captures_invoke_recognition_exactly_once() {
    // Two consecutive captures with identical bytes: the recognition
    // adapter is invoked exactly once, on the first.
    let mut state = AppState::new();
    state.set_region(Region::new(0, 0, 100, 50)).unwrap();
    state.start_monitoring().unwrap();
    let mut looper = MonitorLoop::new();

    let frame = vec![9u8; 64];
    let mut invocations: u32 = 0;
    for _cycle in 0..2 {
        let follow_up = state_capture(&mut looper, &mut state, frame.clone());
        if follow_up == CycleFollowUp::RunRecognition {
            invocations += 1;
            looper.on_recognition(
                &mut state,
                RecognitionOutcome::Recognized("text".to_string()),
                100,
            );
        }
    }
    assert_eq!(invocations, 1);
}

#[test]
fn unchanged_frames_never_republish_across_hundreds_of_cycles() {
    let mut state = AppState::new();
    state.set_region(Region::new(0, 0, 100, 50)).unwrap();
    state.start_monitoring().unwrap();
    let mut looper = MonitorLoop::new();

    let frame = vec![3u8; 128];
    assert_eq!(
        state_capture(&mut looper, &mut state, frame.clone()),
        CycleFollowUp::RunRecognition
    );
    looper.on_recognition(
        &mut state,
        RecognitionOutcome::Recognized("steady".to_string()),
        42,
    );
    let published = state.get_status();

    for _cycle in 0..300 {
        let follow_up = state_capture(&mut looper, &mut state, frame.clone());
        assert_eq!(follow_up, CycleFollowUp::SkipRecognition);
    }
    let after = state.get_status();
    assert_eq!(after.last_text, published.last_text);
    assert_eq!(after.last_update_ms, published.last_update_ms);
}

#[test]
fn same_text_from_a_changed_frame_is_not_republished() {
    let mut state = AppState::new();
    state.set_region(Region::new(0, 0, 100, 50)).unwrap();
    state.start_monitoring().unwrap();
    let mut looper = MonitorLoop::new();

    state_capture(&mut looper, &mut state, vec![1u8, 2, 3]);
    looper.on_recognition(
        &mut state,
        RecognitionOutcome::Recognized("same".to_string()),
        50,
    );

    // Different pixels, same recognized text: no timestamp churn.
    let follow_up = state_capture(&mut looper, &mut state, vec![4u8, 5, 6]);
    assert_eq!(follow_up, CycleFollowUp::RunRecognition);
    let outcome = looper.on_recognition(
        &mut state,
        RecognitionOutcome::Recognized("same".to_string()),
        60,
    );
    assert_eq!(outcome, CycleOutcome::ResultUnchanged);
    assert_eq!(state.get_status().last_update_ms, 50);
}

#[test]
fn recognition_failure_retains_the_previous_result() {
    // The adapter errors on cycle N: the text after cycle N equals the text
    // after cycle N-1, and the loop carries on with a bounded retry.
    let mut state = AppState::new();
    state.set_region(Region::new(0, 0, 100, 50)).unwrap();
    state.start_monitoring().unwrap();
    let mut looper = MonitorLoop::new();

    state_capture(&mut looper, &mut state, vec![1u8, 1, 1]);
    looper.on_recognition(
        &mut state,
        RecognitionOutcome::Recognized("kept".to_string()),
        10,
    );

    let follow_up = state_capture(&mut looper, &mut state, vec![2u8, 2, 2]);
    assert_eq!(follow_up, CycleFollowUp::RunRecognition);
    let outcome = looper.on_recognition(&mut state, RecognitionOutcome::RecognitionFailed, 20);
    assert_eq!(outcome, CycleOutcome::RecognitionRetry { delay_ms: 1000 });

    let status = state.get_status();
    assert_eq!(status.last_text, "kept");
    assert_eq!(status.last_update_ms, 10);
}

#[test]
fn capture_failure_changes_nothing_and_asks_for_a_retry() {
    let mut state = AppState::new();
    state.set_region(Region::new(0, 0, 100, 50)).unwrap();
    state.start_monitoring().unwrap();
    let mut looper = MonitorLoop::new();

    let follow_up = looper.on_capture(&mut state, CaptureOutcome::CaptureFailed);
    assert_eq!(follow_up, CycleFollowUp::RetryAfter { delay_ms: 1000 });
    assert!(!state.get_status().has_screenshot);
}

/// Runs the capture step of one cycle on a frame of the given bytes.
fn state_capture(
    looper: &mut MonitorLoop,
    state: &mut AppState,
    frame: Vec<u8>,
) -> CycleFollowUp {
    looper.on_capture(state, CaptureOutcome::Captured(frame))
}
