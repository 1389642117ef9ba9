use screen_text_reader::CaptureThrottleGate;

#[test]
fn window_grants_first_and_third_of_t_t100_t600() {
    // Fixed reference clock; the next capture is allowed from t = 1000 on.
    let t: u64 = 1000;
    let mut gate = CaptureThrottleGate::new(t - 500);

    assert!(gate.should_capture(t));
    assert!(!gate.should_capture(t + 100));
    assert!(gate.should_capture(t + 600));
}

#[test]
fn refused_calls_do_not_advance_the_gate() {
    let mut gate = CaptureThrottleGate::new(0);
    assert!(gate.should_capture(500));
    // Repeated refused polls never push the next grant further out.
    assert!(!gate.should_capture(600));
    assert!(!gate.should_capture(700));
    assert!(!gate.should_capture(999));
    assert!(gate.should_capture(1000));
}

#[test]
fn boundary_is_inclusive() {
    let mut gate = CaptureThrottleGate::new(100);
    assert!(!gate.should_capture(599));
    assert!(gate.should_capture(600));
}
