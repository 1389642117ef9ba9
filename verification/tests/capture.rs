use screen_text_reader::monitor::CaptureOutcome;
use screen_text_reader::screenshot::{
    finish_fresh_capture, plan_latest_screenshot, ScreenshotPlan,
};
use screen_text_reader::{
    AppState, CaptureThrottleGate, MonitorError, RawFrame, Region, ScreenCaptureService,
};

#[test]
fn to_png_encodes_a_well_formed_frame() {
    let frame = RawFrame { width: 2, height: 2, data: vec![255u8; 16] };
    let png = ScreenCaptureService::to_png(&frame).unwrap();
    // A real PNG comes back, not the raw bytes handed in.
    assert_eq!(&png[..8], &[137, 80, 78, 71, 13, 10, 26, 10]);
    assert_ne!(png, vec![255u8; 16]);
}

#[test]
fn to_png_rejects_a_short_buffer() {
    let frame = RawFrame { width: 2, height: 2, data: vec![0u8; 3] };
    assert_eq!(
        ScreenCaptureService::to_png(&frame),
        Err(MonitorError::EncodingFailure)
    );
}

#[test]
fn to_png_is_deterministic() {
    let frame = RawFrame { width: 3, height: 1, data: vec![7u8; 12] };
    let a = ScreenCaptureService::to_png(&frame).unwrap();
    let b = ScreenCaptureService::to_png(&frame).unwrap();
    assert_eq!(a, b);
}

#[test]
fn display_info_reports_the_primary_display() {
    let displays = ScreenCaptureService::get_display_info(true, true, false).unwrap();
    assert_eq!(displays.len(), 1);
    assert_eq!(displays[0].id, 0);
    assert_eq!(displays[0].name, "Primary Display");
    assert_eq!(displays[0].width, 1920);
    assert_eq!(displays[0].height, 1080);

    // A freshly granted permission is as good as a held one.
    assert!(ScreenCaptureService::get_display_info(true, false, true).is_ok());
}

#[test]
fn preflight_rejects_unsupported_platforms_and_denied_permission() {
    assert_eq!(
        ScreenCaptureService::get_display_info(false, true, true).unwrap_err(),
        MonitorError::NotSupported
    );
    assert_eq!(
        ScreenCaptureService::get_display_info(true, false, false).unwrap_err(),
        MonitorError::PermissionDenied
    );
    assert_eq!(
        MonitorError::NotSupported.message(),
        "Screen capture not supported on this platform"
    );
    assert_eq!(
        MonitorError::PermissionDenied.message(),
        "Screen capture permission denied"
    );
}

#[test]
fn cached_screenshot_is_served_while_the_gate_refuses() {
    let mut state = AppState::new();
    state.publish_screenshot(vec![1, 2, 3]);
    let mut gate = CaptureThrottleGate::new(1000);

    // Too soon: the cache answers, whatever the monitoring state.
    assert_eq!(
        plan_latest_screenshot(&mut gate, &state, 1100),
        ScreenshotPlan::ServeCached
    );

    // Window passed, but monitoring is off: still the cache.
    assert_eq!(
        plan_latest_screenshot(&mut gate, &state, 1600),
        ScreenshotPlan::ServeCached
    );
}

#[test]
fn fresh_capture_is_planned_only_when_monitoring_a_region() {
    let mut state = AppState::new();
    state.set_region(Region::new(0, 0, 100, 50)).unwrap();
    state.start_monitoring().unwrap();
    let mut gate = CaptureThrottleGate::new(0);

    assert_eq!(
        plan_latest_screenshot(&mut gate, &state, 500),
        ScreenshotPlan::CaptureFresh(Region::new(0, 0, 100, 50))
    );
    // Inside the throttle window but with no cache yet: a fresh capture is
    // still the only way to serve anything.
    assert_eq!(
        plan_latest_screenshot(&mut gate, &state, 600),
        ScreenshotPlan::CaptureFresh(Region::new(0, 0, 100, 50))
    );

    // With a cache in place, the window is respected again.
    state.publish_screenshot(vec![1]);
    assert_eq!(
        plan_latest_screenshot(&mut gate, &state, 700),
        ScreenshotPlan::ServeCached
    );
}

#[test]
fn failed_fresh_capture_falls_back_to_the_cache() {
    let mut state = AppState::new();
    state.publish_screenshot(vec![5, 6, 7]);

    let served = finish_fresh_capture(&mut state, CaptureOutcome::CaptureFailed);
    assert_eq!(served, Some(vec![5, 6, 7]));

    let served = finish_fresh_capture(&mut state, CaptureOutcome::Captured(vec![8, 9]));
    assert_eq!(served, Some(vec![8, 9]));
    // The fresh capture was stored for future requests.
    assert_eq!(state.cached_screenshot(), Some(vec![8, 9]));
}

#[test]
fn no_content_without_any_capture_ever() {
    let mut state = AppState::new();
    let mut gate = CaptureThrottleGate::new(0);
    assert_eq!(
        plan_latest_screenshot(&mut gate, &state, 10_000),
        ScreenshotPlan::NoContent
    );
    assert_eq!(
        finish_fresh_capture(&mut state, CaptureOutcome::CaptureFailed),
        None
    );
}
