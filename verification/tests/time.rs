use my_os::time::{Duration, NANOS_PER_MICRO, NANOS_PER_MILLI, NANOS_PER_SEC};

#[test]
fn a_span_is_known_by_its_parts() {
    let span = Duration::new(3, 250_000_000);
    assert_eq!(span.as_secs(), 3);
    assert_eq!(span.subsec_nanos(), 250_000_000);
    assert_eq!(span.subsec_micros(), 250_000);
    assert_eq!(span.as_nanos(), 3_250_000_000);
}

#[test]
fn spans_are_made_from_every_unit() {
    assert_eq!(Duration::zero().as_nanos(), 0);
    assert_eq!(Duration::from_secs(2), Duration::new(2, 0));
    assert_eq!(Duration::from_millis(1_500), Duration::new(1, 500_000_000));
    assert_eq!(Duration::from_micros(1), Duration::new(0, 1_000));
    assert_eq!(Duration::from_micros(2_000_003), Duration::new(2, 3_000));
    assert_eq!(Duration::from_nanos(1), Duration::new(0, 1));
    assert_eq!(Duration::from_nanos(u64::MAX), Duration::new(18_446_744_073, 709_551_615));
    assert_eq!(Duration::from_secs(u64::MAX).as_nanos(), (u64::MAX as u128) * 1_000_000_000);
    assert_eq!(NANOS_PER_SEC, 1_000_000_000);
    assert_eq!(NANOS_PER_MILLI, 1_000_000);
    assert_eq!(NANOS_PER_MICRO, 1_000);
}

#[test]
fn spans_compare_by_their_length() {
    let short = Duration::new(1, 999_999_999);
    let long = Duration::new(2, 0);
    assert!(short.lt(long));
    assert!(!long.lt(short));
    assert!(long.gt(short));
    assert!(!short.gt(long));
    assert!(!short.lt(short));
    assert!(!short.gt(short));
}
