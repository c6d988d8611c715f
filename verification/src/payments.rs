//! Payment requests at the point of sale: the data of a QR code and the
//! check of a payment tapped over NFC.

use crate::text::{i64_text, join, signed_decimal_text};
use vstd::prelude::*;
use vstd::string::*;

verus! {

/// How far ahead of the service's clock, in seconds, the timestamp of a
/// tapped payment may be.
pub const NFC_GRACE_SECS: i64 = 300;

/// A request to pay a merchant.
#[derive(Debug)]
pub struct CreatePaymentRequest {
    pub merchant_id: String,
    pub send_asset: String,
    pub send_amount: i64,
    pub min_receive: Option<i64>,
    pub memo: Option<String>,
}

/// What a QR code for a payment carries.
#[derive(Debug)]
pub struct QrPaymentPayload {
    pub merchant_id: String,
    pub amount: i64,
    pub asset: String,
    pub memo: Option<String>,
    pub expiry: i64,
}

/// What a payment tapped over NFC carries.
#[derive(Debug)]
pub struct NfcPaymentPayload {
    pub merchant_id: String,
    pub amount: i64,
    pub asset: String,
    pub memo: Option<String>,
    pub timestamp: i64,
}

/// A request for the QR code of a payment.
#[derive(Debug)]
pub struct QrPaymentRequest {
    pub merchant_id: String,
    pub amount: i64,
    pub asset: String,
    pub memo: Option<String>,
    pub expiry: i64,
}

/// The QR code of a payment.
#[derive(Debug)]
pub struct QrPaymentResponse {
    pub qr_data: String,
    pub merchant_id: String,
    pub amount: i64,
    pub asset: String,
}

/// A request to check a payment tapped over NFC.
#[derive(Debug)]
pub struct NfcPaymentRequest {
    pub merchant_id: String,
    pub amount: i64,
    pub asset: String,
    pub memo: Option<String>,
    pub timestamp: i64,
}

/// The outcome of the check of a tapped payment.
#[derive(Debug)]
pub struct NfcValidationResponse {
    pub valid: bool,
    pub merchant_id: String,
    pub amount: i64,
}

/// The memo of a request, empty where it has none.
pub open spec fn memo_text(memo: Option<String>) -> Seq<char> {
    match memo {
        Some(m) => m@,
        None => Seq::empty(),
    }
}

/// The address that the QR code of a payment encodes.
pub open spec fn qr_text(request: QrPaymentRequest) -> Seq<char> {
    "zaps://pay?merchant="@ + request.merchant_id@ + "&amount="@ + signed_decimal_text(
        request.amount as int,
    ) + "&asset="@ + request.asset@ + "&expiry="@ + signed_decimal_text(request.expiry as int)
        + "&memo="@ + memo_text(request.memo)
}

/// A tapped payment is timely unless its timestamp is more than the grace
/// period ahead of the clock.
pub open spec fn nfc_is_timely(timestamp: i64, current_time: i64) -> bool {
    timestamp <= current_time + NFC_GRACE_SECS
}

/// The data of the QR code for a payment to a merchant that was found.
pub fn generate_qr_payment(payload: &QrPaymentRequest) -> (qr_data: String)
    ensures
        qr_data@ == qr_text(*payload),
{
    let mut qr_data = join("zaps://pay?merchant=", payload.merchant_id.as_str());
    qr_data.append("&amount=");
    qr_data.append(i64_text(payload.amount).as_str());
    qr_data.append("&asset=");
    qr_data.append(payload.asset.as_str());
    qr_data.append("&expiry=");
    qr_data.append(i64_text(payload.expiry).as_str());
    qr_data.append("&memo=");
    match &payload.memo {
        Some(memo) => {
            qr_data.append(memo.as_str());
        },
        None => {
            assert(qr_data@ + Seq::<char>::empty() =~= qr_data@);
        },
    }
    qr_data
}

/// Whether a payment tapped at a merchant that was found is timely at
/// `current_time`, in seconds since the Unix epoch.
pub fn validate_nfc_payment(payload: &NfcPaymentRequest, current_time: i64) -> (valid: bool)
    ensures
        valid == nfc_is_timely(payload.timestamp, current_time),
{
    let limit: i128 = current_time as i128 + NFC_GRACE_SECS as i128;
    payload.timestamp as i128 <= limit
}

/// The answer to a request for a QR code.
pub fn generate_qr(request: QrPaymentRequest) -> (r: QrPaymentResponse)
    ensures
        r.qr_data@ == qr_text(request),
        r.merchant_id@ == request.merchant_id@,
        r.amount == request.amount,
        r.asset@ == request.asset@,
{
    let qr_data = generate_qr_payment(&request);
    QrPaymentResponse {
        qr_data,
        merchant_id: request.merchant_id,
        amount: request.amount,
        asset: request.asset,
    }
}

/// The answer to a request to check a tapped payment at `current_time`.
pub fn validate_nfc(request: NfcPaymentRequest, current_time: i64) -> (r: NfcValidationResponse)
    ensures
        r.valid == nfc_is_timely(request.timestamp, current_time),
        r.merchant_id@ == request.merchant_id@,
        r.amount == request.amount,
{
    let valid = validate_nfc_payment(&request, current_time);
    NfcValidationResponse { valid, merchant_id: request.merchant_id, amount: request.amount }
}

} // verus!
