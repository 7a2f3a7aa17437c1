use scix_client::RateLimiter;

const MS: u64 = 1_000_000;

#[test]
fn test_rate_limiter_basic() {
    let mut limiter = RateLimiter::new(100);
    let start = 0u64;
    let a = limiter.reserve(start);
    let b = limiter.reserve(start);
    let c = limiter.reserve(start);
    assert_eq!(a, 0);
    assert!(b >= a + 10 * MS);
    assert!(c - start >= 15 * MS);
}

#[test]
fn test_rate_limiter_first_request_immediate() {
    let mut limiter = RateLimiter::new(1);
    let now = 5 * MS;
    let slot = limiter.reserve(now);
    assert!(RateLimiter::wait_for(slot, now) < 50 * MS);
    assert_eq!(slot, now);
}

#[test]
fn admissions_are_spaced_by_the_interval() {
    let mut limiter = RateLimiter::new(3);
    let interval = 333_333_334u64;
    let slots: Vec<u64> = (0..5).map(|_| limiter.reserve(1_000)).collect();
    for k in 0..5u64 {
        assert_eq!(slots[k as usize], 1_000 + k * interval);
    }
    let later = limiter.reserve(100 * 1_000 * MS);
    assert_eq!(later, 100 * 1_000 * MS);
}

#[test]
fn exhausted_server_quota_holds_until_reset() {
    let mut limiter = RateLimiter::new(1000);
    let now = 10 * MS;
    limiter.update_from_headers(Some("0"), Some("1700000002"), 1_700_000_000, now);
    let reset = now + 2_000 * MS;
    let slot = limiter.reserve(now + 5 * MS);
    assert_eq!(slot, reset);
    assert_eq!(RateLimiter::wait_for(slot, now + 5 * MS), reset - now - 5 * MS);
    let after = limiter.reserve(reset + 500 * MS);
    assert_eq!(after, reset + 500 * MS);
}

#[test]
fn quota_headers_that_do_not_parse_are_ignored() {
    let mut limiter = RateLimiter::new(1000);
    limiter.update_from_headers(Some("zero"), Some("1700000002"), 1_700_000_000, 0);
    assert_eq!(limiter.reserve(7), 7);
    let mut past = RateLimiter::new(1000);
    past.update_from_headers(Some("0"), Some("1600000000"), 1_700_000_000, 0);
    assert_eq!(past.reserve(9), 9);
    let mut remaining = RateLimiter::new(1000);
    remaining.observe(Some(3), Some(1_700_000_100), 1_700_000_000, 0);
    assert_eq!(remaining.reserve(11), 11);
}
