use auth_gate::rate_limiter::{RateLimited, RateLimiter, NANOS_PER_SEC};

#[test]
fn five_attempts_pass_and_the_sixth_is_limited() {
    let mut limiter = RateLimiter::new(5, 300);
    for _ in 0..5 {
        assert_eq!(limiter.check_rate_limit("k"), Ok(()));
    }
    assert_eq!(limiter.check_rate_limit("k"), Err(RateLimited { retry_after: 300 }));
    assert_eq!(limiter.attempt_count("k"), 5);
}

#[test]
fn reset_lets_the_key_in_again() {
    let mut limiter = RateLimiter::new(5, 300);
    for _ in 0..5 {
        assert_eq!(limiter.check_at("k", 0), Ok(()));
    }
    assert_eq!(limiter.check_at("k", 0), Err(RateLimited { retry_after: 300 }));
    limiter.reset("k");
    assert_eq!(limiter.attempt_count("k"), 0);
    assert_eq!(limiter.check_at("k", 0), Ok(()));
}

#[test]
fn attempts_leave_the_window() {
    let mut limiter = RateLimiter::new(5, 300);
    for _ in 0..5 {
        assert_eq!(limiter.check_at("k", 0), Ok(()));
    }
    assert_eq!(limiter.check_at("k", 299 * NANOS_PER_SEC), Err(RateLimited { retry_after: 300 }));
    assert_eq!(limiter.check_at("k", 301 * NANOS_PER_SEC), Ok(()));
    assert_eq!(limiter.attempt_count("k"), 1);
}

#[test]
fn an_attempt_as_old_as_the_window_still_counts() {
    let mut limiter = RateLimiter::new(1, 300);
    assert_eq!(limiter.check_at("k", 0), Ok(()));
    assert_eq!(
        limiter.check_at("k", 300 * NANOS_PER_SEC - 1),
        Err(RateLimited { retry_after: 300 })
    );
    assert_eq!(limiter.check_at("k", 300 * NANOS_PER_SEC), Err(RateLimited { retry_after: 300 }));
    assert_eq!(limiter.check_at("k", 300 * NANOS_PER_SEC + 1), Ok(()));
}

#[test]
fn five_attempts_still_fill_the_window_when_it_ends() {
    let mut limiter = RateLimiter::new(5, 300);
    for _ in 0..5 {
        assert_eq!(limiter.check_at("k", 0), Ok(()));
    }
    assert_eq!(limiter.check_at("k", 300 * NANOS_PER_SEC), Err(RateLimited { retry_after: 300 }));
    assert_eq!(limiter.attempt_count("k"), 5);
    assert_eq!(limiter.check_at("k", 300 * NANOS_PER_SEC + 1), Ok(()));
    assert_eq!(limiter.attempt_count("k"), 1);
}

#[test]
fn the_window_slides_with_each_attempt() {
    let mut limiter = RateLimiter::new(2, 10);
    assert_eq!(limiter.check_at("k", 0), Ok(()));
    assert_eq!(limiter.check_at("k", 6 * NANOS_PER_SEC), Ok(()));
    assert_eq!(limiter.check_at("k", 9 * NANOS_PER_SEC), Err(RateLimited { retry_after: 10 }));
    // the first attempt has left the window, the second has not
    assert_eq!(limiter.check_at("k", 12 * NANOS_PER_SEC), Ok(()));
    assert_eq!(limiter.attempt_count("k"), 2);
    assert_eq!(limiter.check_at("k", 15 * NANOS_PER_SEC), Err(RateLimited { retry_after: 10 }));
    assert_eq!(limiter.check_at("k", 16 * NANOS_PER_SEC), Err(RateLimited { retry_after: 10 }));
    assert_eq!(limiter.check_at("k", 17 * NANOS_PER_SEC), Ok(()));
}

#[test]
fn a_refused_attempt_is_not_recorded() {
    let mut limiter = RateLimiter::new(1, 10);
    assert_eq!(limiter.check_at("k", 0), Ok(()));
    assert_eq!(limiter.check_at("k", 9 * NANOS_PER_SEC), Err(RateLimited { retry_after: 10 }));
    assert_eq!(limiter.attempt_count("k"), 1);
    // had the refused attempt been recorded, this one would be refused too
    assert_eq!(limiter.check_at("k", 11 * NANOS_PER_SEC), Ok(()));
}

#[test]
fn keys_do_not_share_their_attempts() {
    let mut limiter = RateLimiter::new(1, 300);
    assert_eq!(limiter.check_at("a@example.com", 0), Ok(()));
    assert_eq!(limiter.check_at("b@example.com", 0), Ok(()));
    assert_eq!(limiter.check_at("a@example.com", 1), Err(RateLimited { retry_after: 300 }));
    limiter.reset("a@example.com");
    assert_eq!(limiter.attempt_count("a@example.com"), 0);
    assert_eq!(limiter.attempt_count("b@example.com"), 1);
    assert_eq!(limiter.attempt_count("never seen"), 0);
}

#[test]
fn a_limit_of_zero_admits_nothing() {
    let mut limiter = RateLimiter::new(0, 300);
    assert_eq!(limiter.check_at("k", 0), Err(RateLimited { retry_after: 300 }));
    assert_eq!(limiter.attempt_count("k"), 0);
}

#[test]
fn an_empty_window_holds_one_instant() {
    let mut limiter = RateLimiter::new(1, 0);
    assert_eq!(limiter.check_at("k", 5), Ok(()));
    assert_eq!(limiter.check_at("k", 5), Err(RateLimited { retry_after: 0 }));
    assert_eq!(limiter.check_at("k", 6), Ok(()));
    assert_eq!(limiter.attempt_count("k"), 1);
}

#[test]
fn a_stamp_ahead_of_now_counts_as_fresh() {
    let mut limiter = RateLimiter::new(1, 10);
    assert_eq!(limiter.check_at("k", 100 * NANOS_PER_SEC), Ok(()));
    assert_eq!(limiter.check_at("k", 50 * NANOS_PER_SEC), Err(RateLimited { retry_after: 10 }));
}

#[test]
fn the_limiter_tells_its_setup() {
    let limiter = RateLimiter::new(3, 60);
    assert_eq!(limiter.limit(), 3);
    assert_eq!(limiter.window(), 60);
}

#[test]
fn the_limiter_of_logins_admits_five_attempts_in_five_minutes() {
    let mut limiter = RateLimiter::for_logins();
    assert_eq!(limiter.limit(), 5);
    assert_eq!(limiter.window(), 300);
    for _ in 0..5 {
        assert_eq!(limiter.check_at("k", 0), Ok(()));
    }
    assert_eq!(limiter.check_at("k", 0), Err(RateLimited { retry_after: 300 }));
}

#[test]
fn the_limiters_clock_does_not_run_backwards() {
    let limiter = RateLimiter::new(5, 300);
    let first = limiter.now();
    let second = limiter.now();
    assert!(first <= second);
    assert!(second < 60 * NANOS_PER_SEC);
}

#[test]
fn attempts_are_recorded_in_the_order_of_time() {
    let mut limiter = RateLimiter::new(3, 10);
    for second in [1u128, 4, 4, 9, 12, 15, 30] {
        let _ = limiter.check_at("k", second * NANOS_PER_SEC);
    }
    // of a record in the order of time, the oldest stamps leave first
    assert_eq!(limiter.attempt_count("k"), 1);
    assert_eq!(limiter.check_at("k", 40 * NANOS_PER_SEC), Ok(()));
    assert_eq!(limiter.check_at("k", 40 * NANOS_PER_SEC), Ok(()));
    assert_eq!(limiter.check_at("k", 40 * NANOS_PER_SEC), Err(RateLimited { retry_after: 10 }));
    assert_eq!(limiter.check_at("k", 41 * NANOS_PER_SEC), Ok(()));
}
