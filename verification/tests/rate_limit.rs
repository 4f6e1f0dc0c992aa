use auth_core::rate_limit::RateLimiter;

const SECOND: u128 = 1_000_000_000;

#[test]
fn third_request_in_window_is_rejected() {
    let mut limiter = RateLimiter::new(10);
    assert!(limiter.check_and_update_at("10.0.0.1", 2, 0));
    assert!(limiter.check_and_update_at("10.0.0.1", 2, SECOND));
    assert!(!limiter.check_and_update_at("10.0.0.1", 2, 2 * SECOND));
    assert!(!limiter.check_and_update_at("10.0.0.1", 2, 10 * SECOND - 1));
}

#[test]
fn request_after_window_is_admitted_again() {
    let mut limiter = RateLimiter::new(10);
    assert!(limiter.check_and_update_at("10.0.0.1", 2, 0));
    assert!(limiter.check_and_update_at("10.0.0.1", 2, SECOND));
    assert!(!limiter.check_and_update_at("10.0.0.1", 2, 2 * SECOND));
    assert!(limiter.check_and_update_at("10.0.0.1", 2, 10 * SECOND));
    assert!(limiter.check_and_update_at("10.0.0.1", 2, 11 * SECOND));
    assert!(!limiter.check_and_update_at("10.0.0.1", 2, 12 * SECOND));
}

#[test]
fn window_is_measured_from_its_first_request() {
    let mut limiter = RateLimiter::new(10);
    assert!(limiter.check_and_update_at("k", 3, 0));
    assert!(limiter.check_and_update_at("k", 3, 9 * SECOND));
    // The window opened at 0 and is over at 10 s, whatever came in between.
    assert!(limiter.check_and_update_at("k", 3, 10 * SECOND));
    assert!(limiter.check_and_update_at("k", 3, 11 * SECOND));
    assert!(limiter.check_and_update_at("k", 3, 12 * SECOND));
    assert!(!limiter.check_and_update_at("k", 3, 13 * SECOND));
}

#[test]
fn keys_are_counted_apart() {
    let mut limiter = RateLimiter::new(60);
    assert!(limiter.check_and_update_at("a", 1, 5));
    assert!(limiter.check_and_update_at("b", 1, 6));
    assert!(!limiter.check_and_update_at("a", 1, 7));
    assert!(!limiter.check_and_update_at("b", 1, 8));
    assert!(limiter.check_and_update_at("c", 1, 9));
}

#[test]
fn unknown_key_is_admitted_even_under_limit_zero() {
    let mut limiter = RateLimiter::new(60);
    assert!(limiter.check_and_update_at("a", 0, 0));
    assert!(!limiter.check_and_update_at("a", 0, 1));
}

#[test]
fn zero_length_window_never_rejects() {
    let mut limiter = RateLimiter::new(0);
    assert!(limiter.check_and_update_at("a", 1, 0));
    assert!(limiter.check_and_update_at("a", 1, 0));
    assert!(limiter.check_and_update_at("a", 1, 1));
}

#[test]
fn clock_running_backwards_counts_as_standing_still() {
    let mut limiter = RateLimiter::new(1);
    assert!(limiter.check_and_update_at("a", 1, 5 * SECOND));
    assert!(!limiter.check_and_update_at("a", 1, 0));
    assert!(limiter.check_and_update_at("a", 1, 6 * SECOND));
}

#[test]
fn live_clock_limits_within_the_window() {
    let mut limiter = RateLimiter::new(3600);
    assert!(limiter.check_and_update("10.0.0.1", 2));
    assert!(limiter.check_and_update("10.0.0.1", 2));
    assert!(!limiter.check_and_update("10.0.0.1", 2));
    assert!(limiter.check_and_update("10.0.0.2", 2));
}
