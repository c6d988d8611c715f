use inheritx_backend::payments::{
    generate_qr, generate_qr_payment, validate_nfc, validate_nfc_payment, NfcPaymentRequest,
    QrPaymentRequest, NFC_GRACE_SECS,
};

fn qr(amount: i64, memo: Option<&str>, expiry: i64) -> QrPaymentRequest {
    QrPaymentRequest {
        merchant_id: "m-1".to_string(),
        amount,
        asset: "USDC".to_string(),
        memo: memo.map(|m| m.to_string()),
        expiry,
    }
}

fn nfc(timestamp: i64) -> NfcPaymentRequest {
    NfcPaymentRequest {
        merchant_id: "m-1".to_string(),
        amount: 500,
        asset: "USDC".to_string(),
        memo: None,
        timestamp,
    }
}

#[test]
fn qr_data_spells_out_the_payment() {
    assert_eq!(
        generate_qr_payment(&qr(1500, Some("coffee"), 1_700_000_000)),
        "zaps://pay?merchant=m-1&amount=1500&asset=USDC&expiry=1700000000&memo=coffee"
    );
    assert_eq!(
        generate_qr_payment(&qr(-5, None, 0)),
        "zaps://pay?merchant=m-1&amount=-5&asset=USDC&expiry=0&memo="
    );
}

#[test]
fn qr_answer_repeats_the_request() {
    let answer = generate_qr(qr(1500, Some("coffee"), 1_700_000_000));
    assert_eq!(
        answer.qr_data,
        "zaps://pay?merchant=m-1&amount=1500&asset=USDC&expiry=1700000000&memo=coffee"
    );
    assert_eq!(answer.merchant_id, "m-1");
    assert_eq!(answer.amount, 1500);
    assert_eq!(answer.asset, "USDC");
}

#[test]
fn tapped_payment_may_be_five_minutes_ahead() {
    assert_eq!(NFC_GRACE_SECS, 300);
    let now = 1_700_000_000;
    assert!(validate_nfc_payment(&nfc(now), now));
    assert!(validate_nfc_payment(&nfc(now - 86_400), now));
    assert!(validate_nfc_payment(&nfc(now + 300), now));
    assert!(!validate_nfc_payment(&nfc(now + 301), now));
    assert!(validate_nfc_payment(&nfc(i64::MAX), i64::MAX));
    assert!(validate_nfc_payment(&nfc(i64::MAX), i64::MAX - 300));
    assert!(!validate_nfc_payment(&nfc(i64::MAX), i64::MAX - 301));
}

#[test]
fn nfc_answer_repeats_the_request() {
    let answer = validate_nfc(nfc(1_700_000_500), 1_700_000_000);
    assert!(!answer.valid);
    assert_eq!(answer.merchant_id, "m-1");
    assert_eq!(answer.amount, 500);
    assert!(validate_nfc(nfc(1_700_000_000), 1_700_000_000).valid);
}
