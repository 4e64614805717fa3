use simple_git_cicd::rate_limit::RateLimiter;

#[test]
fn third_call_within_window_is_throttled() {
    let mut rl = RateLimiter::new();
    assert!(!rl.check_at("demo", 2, 60, 1_000));
    assert!(!rl.check_at("demo", 2, 60, 1_100));
    assert!(rl.check_at("demo", 2, 60, 1_200));
}

#[test]
fn window_expiry_readmits() {
    let mut rl = RateLimiter::new();
    assert!(!rl.check_at("demo", 1, 1, 1_000));
    assert!(rl.check_at("demo", 1, 1, 1_500));
    // 2_500 ms is more than the 1 s window after the admitted call
    assert!(!rl.check_at("demo", 1, 1, 2_500));
}

#[test]
fn keys_are_independent() {
    let mut rl = RateLimiter::new();
    assert!(!rl.check_at("a", 1, 60, 0));
    assert!(!rl.check_at("b", 1, 60, 0));
    assert!(rl.check_at("a", 1, 60, 1));
    assert!(rl.check_at("b", 1, 60, 1));
}

#[test]
fn zero_cap_throttles_at_once() {
    let mut rl = RateLimiter::new();
    assert!(rl.check_at("demo", 0, 60, 0));
}

#[test]
fn exactly_at_cap_then_throttled() {
    let mut rl = RateLimiter::new();
    for i in 0..60 {
        assert!(!rl.check_at("demo", 60, 60, 1_000 + i), "call {} should be admitted", i);
    }
    assert!(rl.check_at("demo", 60, 60, 1_100));
}

#[test]
fn check_rate_limit_uses_the_clock() {
    let mut rl = RateLimiter::new();
    assert!(!rl.check_rate_limit("demo", 2, 60));
    assert!(!rl.check_rate_limit("demo", 2, 60));
    assert!(rl.check_rate_limit("demo", 2, 60));
}
