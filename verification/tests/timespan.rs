use packs::timespan::{TimeSpan, MAX_NANOS, NANOS_PER_SEC};

#[test]
fn new_carries_nanoseconds_into_seconds() {
    let t = TimeSpan::new(1, 2_500_000_000);
    assert_eq!(t.as_secs(), 3);
    assert_eq!(t.subsec_nanos(), 500_000_000);
}

#[test]
fn from_millis_splits_seconds() {
    let t = TimeSpan::from_millis(1_234);
    assert_eq!(t.as_secs(), 1);
    assert_eq!(t.subsec_nanos(), 234_000_000);
    assert_eq!(t, TimeSpan::new(1, 234_000_000));
}

#[test]
fn longest_span_matches_duration_limit() {
    let t = TimeSpan::new(u64::MAX, 999_999_999);
    assert_eq!(t.as_secs(), u64::MAX);
    assert_eq!(t.subsec_nanos(), 999_999_999);
    assert_eq!(MAX_NANOS, u64::MAX as u128 * NANOS_PER_SEC + 999_999_999);
}

#[test]
fn comparison_is_strict() {
    let a = TimeSpan::from_millis(10);
    let b = TimeSpan::new(0, 10_000_001);
    assert!(b.is_longer_than(&a));
    assert!(!a.is_longer_than(&b));
    assert!(!a.is_longer_than(&a));
}
