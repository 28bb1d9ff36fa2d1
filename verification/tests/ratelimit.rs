use builder_rs::ratelimit::RateLimit;

#[test]
fn test_ratelimit_initial_check_passes() {
    // The first check always passes: a fresh limiter has no last action.
    let mut rl = RateLimit::new(1);
    assert!(rl.check());
}

#[test]
fn test_ratelimit_blocks_immediate_second_call() {
    let mut rl = RateLimit::new(1);
    assert!(rl.check()); // First call passes
    assert!(!rl.check()); // Second immediate call should be blocked
}

#[test]
fn test_ratelimit_allows_after_interval() {
    // Use a very short interval for testing
    let mut rl = RateLimit::new(1);
    assert!(rl.check()); // First call passes

    // Wait for the interval to pass
    let start = std::time::Instant::now();
    while start.elapsed() < std::time::Duration::from_millis(1050) {}

    // Now the check should pass again
    assert!(rl.check());
}

#[test]
fn test_ratelimit_multiple_blocked_attempts() {
    let mut rl = RateLimit::new(2);
    assert!(rl.check()); // First call passes

    // Multiple immediate attempts should all be blocked
    assert!(!rl.check());
    assert!(!rl.check());
    assert!(!rl.check());
}

#[test]
fn test_ratelimit_five_second_gate_at_exact_times() {
    // Five-second interval driven by explicit clock readings: two calls at
    // the same instant give true then false; after the full interval the
    // gate opens again, and immediately after that it is closed.
    let mut rl = RateLimit::new(5);
    assert!(rl.check_at(1_000));
    assert!(!rl.check_at(1_000));
    assert!(!rl.check_at(5_999));
    assert!(rl.check_at(6_000));
    assert!(!rl.check_at(6_000));
}

#[test]
fn test_ratelimit_interval_is_milliseconds_of_seconds() {
    let mut rl = RateLimit::new(2);
    assert!(rl.check_at(0));
    assert!(!rl.check_at(1_999));
    assert!(rl.check_at(2_000));
}
