use booru_rs::ratelimit::{Acquire, RateLimiter};

const SECOND: u64 = 1_000_000_000;
const MILLISECOND: u64 = 1_000_000;

#[test]
fn test_try_acquire() {
    let mut limiter = RateLimiter::new(2, SECOND, 0);

    assert!(limiter.try_acquire(0));
    assert!(limiter.try_acquire(0));
    assert!(!limiter.try_acquire(0));
}

#[test]
fn test_available() {
    let mut limiter = RateLimiter::new(5, SECOND, 0);

    assert_eq!(limiter.available(0), 5);
    assert_eq!(limiter.acquire(0), Acquire::Acquired);
    assert_eq!(limiter.available(0), 4);
}

#[test]
fn test_refill() {
    let mut limiter = RateLimiter::new(10, 100 * MILLISECOND, 0);

    // Drain all tokens
    for _ in 0..10 {
        limiter.try_acquire(0);
    }
    assert_eq!(limiter.available(0), 0);

    // Wait for refill
    assert!(limiter.available(150 * MILLISECOND) >= 10);
}

#[test]
fn full_bucket_gives_exactly_its_capacity() {
    for capacity in [0u32, 1, 2, 7, 100] {
        let now = 5 * SECOND;
        let mut limiter = RateLimiter::new(capacity, SECOND, now);
        for taken in 0..capacity {
            assert_eq!(limiter.available(now), capacity - taken);
            assert!(limiter.try_acquire(now));
        }
        assert!(!limiter.try_acquire(now));
        assert_eq!(limiter.available(now), 0);
        assert_eq!(limiter.available(now + SECOND), capacity);
    }
}

#[test]
fn tokens_accrue_continuously_and_stop_at_capacity() {
    let mut limiter = RateLimiter::new(4, SECOND, 0);
    for _ in 0..4 {
        assert!(limiter.try_acquire(0));
    }
    assert_eq!(limiter.available(249 * MILLISECOND), 0);
    assert_eq!(limiter.available(250 * MILLISECOND), 1);
    assert_eq!(limiter.available(500 * MILLISECOND), 2);
    assert_eq!(limiter.available(999 * MILLISECOND), 3);
    assert_eq!(limiter.available(SECOND), 4);
    assert_eq!(limiter.available(100 * SECOND), 4);
    assert_eq!(limiter.available(u64::MAX), 4);
}

#[test]
fn fractions_of_a_token_are_kept() {
    let mut limiter = RateLimiter::new(1, 3, 0);
    assert!(limiter.try_acquire(0));
    assert!(!limiter.try_acquire(1));
    assert!(!limiter.try_acquire(2));
    assert!(limiter.try_acquire(3));
    assert!(!limiter.try_acquire(5));
    assert!(limiter.try_acquire(6));
}

#[test]
fn a_clock_that_stands_still_or_runs_back_refills_nothing() {
    let mut limiter = RateLimiter::new(1, SECOND, 10 * SECOND);
    assert!(limiter.try_acquire(10 * SECOND));
    assert!(!limiter.try_acquire(10 * SECOND));
    assert!(!limiter.try_acquire(9 * SECOND));
    assert!(!limiter.try_acquire(0));
    assert!(limiter.try_acquire(11 * SECOND));
}

#[test]
fn acquire_says_how_long_to_wait() {
    let mut limiter = RateLimiter::new(2, SECOND, 0);
    assert_eq!(limiter.acquire(0), Acquire::Acquired);
    assert_eq!(limiter.acquire(0), Acquire::Acquired);
    assert_eq!(limiter.acquire(0), Acquire::Wait(500 * MILLISECOND));
    assert_eq!(limiter.acquire(200 * MILLISECOND), Acquire::Wait(300 * MILLISECOND));
    assert_eq!(limiter.acquire(499_999_999), Acquire::Wait(1));
    assert_eq!(limiter.acquire(500 * MILLISECOND), Acquire::Acquired);
    assert_eq!(limiter.acquire(500 * MILLISECOND), Acquire::Wait(500 * MILLISECOND));
}

#[test]
fn acquire_rounds_the_wait_up() {
    let mut limiter = RateLimiter::new(3, 10, 0);
    for _ in 0..3 {
        assert_eq!(limiter.acquire(0), Acquire::Acquired);
    }
    // One token is worth 10 units of credit and a nanosecond earns 3.
    assert_eq!(limiter.acquire(0), Acquire::Wait(4));
    assert_eq!(limiter.acquire(3), Acquire::Wait(1));
    assert_eq!(limiter.acquire(4), Acquire::Acquired);
}

#[test]
fn a_bucket_without_capacity_never_gives_a_token() {
    let mut limiter = RateLimiter::new(0, SECOND, 0);
    assert!(!limiter.try_acquire(0));
    assert_eq!(limiter.acquire(0), Acquire::Never);
    assert_eq!(limiter.acquire(u64::MAX), Acquire::Never);
    assert_eq!(limiter.available(u64::MAX), 0);
}

#[test]
fn an_interval_of_zero_refills_in_no_time() {
    let mut limiter = RateLimiter::new(2, 0, 0);
    assert!(limiter.try_acquire(0));
    assert!(limiter.try_acquire(0));
    assert!(!limiter.try_acquire(0));
    assert_eq!(limiter.acquire(0), Acquire::Wait(1));
    assert_eq!(limiter.available(1), 2);
    assert_eq!(limiter.acquire(1), Acquire::Acquired);
}

#[test]
fn default_limiter_allows_two_requests_a_second() {
    let mut limiter = RateLimiter::default_booru(0);
    assert_eq!(limiter.capacity(), 2);
    assert_eq!(limiter.refill_interval(), SECOND);
    assert_eq!(limiter.available(0), 2);
}

#[test]
fn extreme_values_do_not_overflow() {
    let mut limiter = RateLimiter::new(u32::MAX, u64::MAX, 0);
    assert_eq!(limiter.available(0), u32::MAX);
    assert!(limiter.try_acquire(u64::MAX));
    assert_eq!(limiter.available(u64::MAX), u32::MAX - 1);
    let mut slow = RateLimiter::new(1, u64::MAX, 0);
    assert_eq!(slow.acquire(0), Acquire::Acquired);
    assert_eq!(slow.acquire(0), Acquire::Wait(u64::MAX));
    assert_eq!(slow.acquire(1), Acquire::Wait(u64::MAX - 1));
}
