use sequence_rs::http::throttle::Throttle;
use std::time::Duration;

fn nanos(ns: u128) -> Duration {
    Duration::new((ns / 1_000_000_000) as u64, (ns % 1_000_000_000) as u32)
}

#[test]
fn throttle_allows_burst_up_to_capacity() {
    let mut t = Throttle::new(60); // capacity 60, refill 1 token/sec
    let now = 0u64;
    // A full bucket lets 60 requests through at the same instant.
    for _ in 0..60 {
        assert!(t.reserve(now).is_none());
    }
    // The 61st must wait for a token to refill (~1s).
    let wait = nanos(t.reserve(now).expect("bucket is empty, must throttle"));
    assert!(wait > Duration::ZERO && wait <= Duration::from_secs(2));
}

#[test]
fn throttle_refills_over_time() {
    let mut t = Throttle::new(60); // 1 token/sec
    let start = 0u64;
    for _ in 0..60 {
        let _ = t.reserve(start); // drain the bucket
    }
    // ~2s later, ~2 tokens have refilled: two immediate, the third waits.
    let later = start + Duration::from_secs(2).as_nanos() as u64;
    assert!(t.reserve(later).is_none());
    assert!(t.reserve(later).is_none());
    assert!(t.reserve(later).is_some());
}

#[test]
fn queued_reservations_wait_one_refill_period_each() {
    let mut t = Throttle::new(120); // a token every 0.5 s
    for _ in 0..120 {
        assert!(t.reserve(0).is_none());
    }
    assert_eq!(t.reserve(0), Some(500_000_000));
    assert_eq!(t.reserve(0), Some(1_000_000_000));
    assert_eq!(t.reserve(0), Some(1_500_000_000));
}

#[test]
fn zero_rate_counts_as_one_per_minute() {
    let mut t = Throttle::new(0);
    assert!(t.reserve(0).is_none());
    assert_eq!(t.reserve(0), Some(60_000_000_000));
}

#[test]
fn refill_never_exceeds_capacity() {
    let mut t = Throttle::new(2);
    // An hour idle still leaves only two tokens.
    let hour = 3_600_000_000_000u64;
    assert!(t.reserve(hour).is_none());
    assert!(t.reserve(hour).is_none());
    assert_eq!(t.reserve(hour), Some(30_000_000_000));
}

#[test]
fn earlier_clock_reading_adds_no_tokens() {
    let mut t = Throttle::new(60);
    for _ in 0..60 {
        let _ = t.reserve(10_000_000_000);
    }
    // A reading before the last reservation counts as no elapsed time.
    assert_eq!(t.reserve(5_000_000_000), Some(1_000_000_000));
}

#[test]
fn idle_full_bucket_bursts_then_queues_one_second_apart() {
    let mut t = Throttle::new(60);
    let now = 3_600_000_000_000u64; // an hour after creation
    for _ in 0..60 {
        assert!(t.reserve(now).is_none());
    }
    assert_eq!(t.reserve(now), Some(1_000_000_000));
    assert_eq!(t.reserve(now), Some(2_000_000_000));
}
