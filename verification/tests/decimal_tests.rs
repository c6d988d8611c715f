use inheritx_backend::decimal::Decimal;

fn dec(text: &str) -> Decimal {
    Decimal::from_str(text).unwrap()
}

#[test]
fn parsing_gives_mantissa_and_scale() {
    let d = dec("1234.56");
    assert_eq!(d.mantissa(), 123456);
    assert_eq!(d.scale(), 2);
    let negative = dec("-0.001");
    assert_eq!(negative.mantissa(), -1);
    assert_eq!(negative.scale(), 3);
}

#[test]
fn parsing_rejects_what_is_no_number() {
    assert!(Decimal::from_str("").is_err());
    assert!(Decimal::from_str("12.3.4").is_err());
    assert!(Decimal::from_str("abc").is_err());
}

#[test]
fn try_new_checks_the_range() {
    let max: i128 = 79_228_162_514_264_337_593_543_950_335;
    assert!(Decimal::try_new(max, 28).is_some());
    assert!(Decimal::try_new(-max, 0).is_some());
    assert!(Decimal::try_new(max + 1, 0).is_none());
    assert!(Decimal::try_new(-max - 1, 0).is_none());
    assert!(Decimal::try_new(1, 29).is_none());
    let d = Decimal::try_new(25, 1).unwrap();
    assert_eq!(d, dec("2.5"));
}

#[test]
fn from_int_and_zero() {
    assert_eq!(Decimal::from_int(100).mantissa(), 100);
    assert_eq!(Decimal::from_int(100).scale(), 0);
    assert_eq!(Decimal::from_int(-7), dec("-7"));
    assert_eq!(Decimal::zero(), dec("0.000"));
    assert!(!Decimal::zero().is_positive());
}

#[test]
fn sign_is_read_off_the_mantissa() {
    assert!(dec("0.01").is_positive());
    assert!(!dec("0").is_positive());
    assert!(!dec("-3").is_positive());
}

#[test]
fn equality_is_by_value_not_by_scale() {
    assert_eq!(dec("2.50"), dec("2.5"));
    assert_eq!(dec("250.000"), dec("250"));
    assert_ne!(dec("2.50"), dec("2.51"));
    assert_ne!(dec("1"), dec("-1"));
    let max: i128 = 79_228_162_514_264_337_593_543_950_335;
    // Scaling the smaller scale up overflows 128 bits: the numbers differ.
    assert_ne!(Decimal::try_new(max, 0).unwrap(), Decimal::try_new(1, 28).unwrap());
}

#[test]
fn order_is_by_value() {
    assert!(dec("2500.00") < dec("45000.00"));
    assert!(dec("45000.00") > dec("2500.00"));
    assert!(dec("-1") < dec("0.0001"));
    assert!(dec("1.10") <= dec("1.1"));
    assert!(dec("1.10") >= dec("1.1"));
    assert!(dec("1.2").is_less_than(&dec("1.25")));
    assert!(!dec("1.25").is_less_than(&dec("1.2")));
    assert!(!dec("1.2").is_less_than(&dec("1.20")));
    let max: i128 = 79_228_162_514_264_337_593_543_950_335;
    let huge = Decimal::try_new(max, 0).unwrap();
    let tiny = Decimal::try_new(1, 28).unwrap();
    assert!(tiny < huge);
    assert!(Decimal::try_new(-max, 0).unwrap() < tiny);
}

#[test]
fn product_is_exact_where_it_fits() {
    let p = dec("2.5").checked_mul(&dec("100.00")).unwrap();
    assert_eq!(p.mantissa(), 250000);
    assert_eq!(p.scale(), 3);
    assert_eq!(p, dec("250.00"));
    let q = dec("-1.5").checked_mul(&dec("0.2")).unwrap();
    assert_eq!(q.mantissa(), -30);
    assert_eq!(q.scale(), 2);
}

#[test]
fn product_with_zero_is_zero_at_scale_zero() {
    let p = dec("0.000").checked_mul(&dec("123.45")).unwrap();
    assert_eq!(p.mantissa(), 0);
    assert_eq!(p.scale(), 0);
}

#[test]
fn product_overflow_is_none() {
    let max: i128 = 79_228_162_514_264_337_593_543_950_335;
    let huge = Decimal::try_new(max, 0).unwrap();
    assert!(huge.checked_mul(&dec("2")).is_none());
    assert!(huge.checked_mul(&huge).is_none());
}

#[test]
fn product_beyond_the_scale_is_rounded_not_refused() {
    let tiny = Decimal::try_new(1, 28).unwrap();
    let p = tiny.checked_mul(&dec("0.5")).unwrap();
    assert!(p.scale() <= 28);
}
