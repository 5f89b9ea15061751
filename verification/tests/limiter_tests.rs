use hrekt::limiter::TokenBucket;

#[test]
fn zero_rate_falls_back_to_default() {
    let b = TokenBucket::new(0);
    assert_eq!(b.rate, 1000);
    assert_eq!(b.interval, 1_000_000);
}

#[test]
fn interval_is_nanos_over_rate() {
    let b = TokenBucket::new(2);
    assert_eq!(b.interval, 500_000_000);
    let b = TokenBucket::new(1000);
    assert_eq!(b.interval, 1_000_000);
}

#[test]
fn back_to_back_grants_are_spaced_by_interval() {
    // Rate 2: admitting 3 jobs all arriving at time 0 takes (3-1)/2 = 1 s.
    let mut b = TokenBucket::new(2);
    let w1 = b.acquire(0);
    let w2 = b.acquire(0);
    let w3 = b.acquire(0);
    assert_eq!(w1, 0);
    assert_eq!(w2, 500_000_000);
    assert_eq!(w3, 1_000_000_000);
    // Elapsed wall time to admit all three is at least (N-1)/R seconds.
    assert!(w3 >= 1_000_000_000);
}

#[test]
fn late_arrival_is_admitted_at_once() {
    let mut b = TokenBucket::new(1);
    assert_eq!(b.acquire(0), 0);
    // Arriving after the bucket freed again: no wait, clock moves the bucket.
    assert_eq!(b.acquire(5_000_000_000), 0);
    assert_eq!(b.acquire(5_000_000_000), 1_000_000_000);
}
