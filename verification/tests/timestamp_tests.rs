use inheritx_backend::timestamp::Timestamp;

#[test]
fn now_is_a_plausible_instant() {
    let now = Timestamp::now();
    assert!(now.secs > 1_600_000_000);
    assert!(now.nanos < 2_000_000_000);
}

#[test]
fn clock_does_not_run_backwards_between_two_readings() {
    let first = Timestamp::now();
    let second = Timestamp::now();
    assert!(first.is_at_or_before(&second) || second.secs + 1 >= first.secs);
}

#[test]
fn rfc3339_is_read() {
    let t = Timestamp::parse_from_rfc3339("2024-05-01T12:00:00Z").unwrap();
    assert_eq!(t, Timestamp::new(1_714_564_800, 0));
    let with_offset = Timestamp::parse_from_rfc3339("2024-05-01T14:00:00.250+02:00").unwrap();
    assert_eq!(with_offset, Timestamp::new(1_714_564_800, 250_000_000));
}

#[test]
fn rfc3339_rejects_other_text() {
    assert!(Timestamp::parse_from_rfc3339("2024-05-01 12:00:00+00").is_none());
    assert!(Timestamp::parse_from_rfc3339("yesterday").is_none());
    assert!(Timestamp::parse_from_rfc3339("").is_none());
}

#[test]
fn rfc3339_is_written() {
    let t = Timestamp::new(1_714_564_800, 0);
    assert_eq!(t.to_rfc3339().unwrap(), "2024-05-01T12:00:00+00:00");
    let fraction = Timestamp::new(1_714_564_800, 250_000_000);
    assert_eq!(fraction.to_rfc3339().unwrap(), "2024-05-01T12:00:00.250+00:00");
}

#[test]
fn rfc3339_has_no_text_out_of_range() {
    assert!(Timestamp::new(i64::MAX, 0).to_rfc3339().is_none());
    assert!(Timestamp::new(0, 2_000_000_000).to_rfc3339().is_none());
}

#[test]
fn age_is_measured_to_the_nanosecond() {
    let stamped = Timestamp::new(1_000, 500_000_000);
    assert!(stamped.is_younger_than(&Timestamp::new(1_060, 499_999_999), 60));
    assert!(!stamped.is_younger_than(&Timestamp::new(1_060, 500_000_000), 60));
    assert!(!stamped.is_younger_than(&Timestamp::new(1_061, 0), 60));
    assert!(!stamped.is_younger_than(&stamped, 0));
    assert!(stamped.is_younger_than(&stamped, 1));
}

#[test]
fn an_instant_ahead_of_now_has_negative_age() {
    let stamped = Timestamp::new(2_000, 0);
    assert!(stamped.is_younger_than(&Timestamp::new(1_000, 0), 1));
}

#[test]
fn age_does_not_overflow_at_the_ends() {
    let first = Timestamp::new(i64::MIN, 0);
    let last = Timestamp::new(i64::MAX, u32::MAX);
    assert!(!first.is_younger_than(&last, u64::MAX));
    assert!(last.is_younger_than(&first, 0));
    assert!(first.is_at_or_before(&last));
    assert!(!last.is_at_or_before(&first));
}

#[test]
fn order_of_instants() {
    let a = Timestamp::new(10, 999_999_999);
    let b = Timestamp::new(11, 0);
    assert!(a.is_at_or_before(&b));
    assert!(!b.is_at_or_before(&a));
    assert!(a.is_at_or_before(&a));
}
