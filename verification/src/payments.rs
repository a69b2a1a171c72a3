//! Payment requests: their shapes, the payment URI a QR code carries, the
//! freshness rule for NFC payments, and what the indexer stores for a
//! social payment event.

use vstd::prelude::*;
use crate::ids::{lower_hex, new_uuid_simple};
use crate::text::{concat, i64_text, lowercase_of, signed_decimal, to_lowercase, to_uppercase, uppercase_of};
use vstd::string::StringSliceAdditionalSpecFns;
use vstd::utf8::{decode_utf8, encode_utf8, is_ascii_chars, is_char_boundary, valid_utf8};

verus! {

#[derive(Debug, Clone)]
pub struct CreatePaymentRequest {
    pub merchant_id: String,
    pub send_asset: String,
    pub send_amount: i64,
    pub min_receive: Option<i64>,
    pub memo: Option<String>,
}

#[derive(Debug, Clone)]
pub struct QrPaymentPayload {
    pub merchant_id: String,
    pub amount: i64,
    pub asset: String,
    pub memo: Option<String>,
    pub expiry: i64,
}

#[derive(Debug, Clone)]
pub struct NfcPaymentPayload {
    pub merchant_id: String,
    pub amount: i64,
    pub asset: String,
    pub memo: Option<String>,
    pub timestamp: i64,
}

/// The payment URI of a QR payment; an absent memo is empty.
pub open spec fn qr_uri_spec(p: QrPaymentPayload) -> Seq<char> {
    "ZAPS://pay?merchant="@ + p.merchant_id@ + "&amount="@ + signed_decimal(p.amount as int) + "&asset="@
        + p.asset@ + "&expiry="@ + signed_decimal(p.expiry as int) + "&memo="@ + (match p.memo {
        Some(m) => m@,
        None => Seq::empty(),
    })
}

/// The payment URI a QR code for `payload` carries.
pub fn generate_qr_payment(payload: &QrPaymentPayload) -> (r: String)
    ensures
        r@ == qr_uri_spec(*payload),
{
    let a = concat("ZAPS://pay?merchant=", payload.merchant_id.as_str());
    let b = concat(concat(a.as_str(), "&amount=").as_str(), i64_text(payload.amount).as_str());
    let c = concat(concat(b.as_str(), "&asset=").as_str(), payload.asset.as_str());
    let d = concat(concat(c.as_str(), "&expiry=").as_str(), i64_text(payload.expiry).as_str());
    let memo: &str = match &payload.memo {
        Some(m) => m.as_str(),
        None => "",
    };
    let r = concat(concat(d.as_str(), "&memo=").as_str(), memo);
    proof {
        reveal_strlit("");
    }
    r
}

/// Seconds an NFC payment's timestamp may lie in the future.
pub const NFC_GRACE_SECONDS: i64 = 300;

/// Whether an NFC payment stamped `timestamp` is acceptable at `now`: it
/// may not lie more than five minutes in the future.
pub fn validate_nfc_payment(payload: &NfcPaymentPayload, now: i64) -> (r: bool)
    requires
        now <= i64::MAX - NFC_GRACE_SECONDS,
    ensures
        r == (payload.timestamp <= now + NFC_GRACE_SECONDS),
{
    !(payload.timestamp > now + NFC_GRACE_SECONDS)
}

/// The placeholder transaction hash of a new payment: `tx_` and a fresh
/// identifier.
pub fn payment_tx_hash(unique: &str) -> (r: String)
    ensures
        r@ == "tx_"@ + unique@,
{
    concat("tx_", unique)
}

/// The placeholder transaction hash of a new payment, with a fresh random
/// UUID written as 32 hexadecimal digits.
pub fn new_payment_tx_hash() -> (r: String)
    ensures
        exists|b: Seq<u8>| b.len() == 16 && #[trigger] lower_hex(b).len() == 32 && r@ == "tx_"@ + lower_hex(b),
        r@.len() == 35,
{
    let unique = new_uuid_simple();
    proof {
        reveal_strlit("tx_");
    }
    payment_tx_hash(unique.as_str())
}

/// A social payment event as the indexer receives it.
#[derive(Debug, Clone)]
pub struct SocialPaymentRecord {
    pub sender: String,
    pub receiver: String,
    pub amount: i64,
    pub memo: String,
    pub visibility: String,
    pub tx_hash: String,
}

/// The currency social payments are stored in.
pub fn social_payment_currency() -> (r: &'static str)
    ensures
        r@ == "NGN"@,
{
    "NGN"
}

/// The visibility a social payment is stored with: upper case.
pub fn stored_visibility(event: &SocialPaymentRecord) -> (r: String)
    ensures
        r@ == uppercase_of(event.visibility@),
{
    to_uppercase(event.visibility.as_str())
}

/// The text of the bytes 1 to 15 (end excluded) of `address`.
pub open spec fn address_part(address: &str) -> Seq<char> {
    decode_utf8(address.spec_bytes().subrange(1, 15))
}

/// The username made from the lower-cased part of an address: `u_` and
/// that part.
pub fn username_from_part(lower_part: &str) -> (r: String)
    ensures
        r@ == "u_"@ + lower_part@,
{
    concat("u_", lower_part)
}

/// The username given to a user first seen by address: `u_` and the
/// address's bytes 1 to 15, in lower case; those bytes must start and end
/// on character boundaries (for a Stellar address, its characters 2 to 15).
pub fn username_for_address(address: &str) -> (r: String)
    requires
        address.is_char_boundary(1),
        address.is_char_boundary(15),
    ensures
        r@ == "u_"@ + lowercase_of(address_part(address)),
        address.is_ascii() ==> address_part(address) == address@.subrange(1, 15),
{
    let ghost bytes = address.spec_bytes();
    proof {
        broadcast use vstd::utf8::group_utf8_lib;
        assert(valid_utf8(bytes));
        assert(bytes.subrange(0, 15).subrange(1, 15) =~= bytes.subrange(1, 15));
        assert(bytes.subrange(0, 15)[1] == bytes[1]);
    }
    let (head, _) = address.split_at(15);
    proof {
        broadcast use vstd::utf8::group_utf8_lib;
        assert(head.spec_bytes() =~= bytes.subrange(0, 15));
        assert(valid_utf8(head.spec_bytes()));
        assert(head.spec_bytes()[1] == bytes[1]);
        assert(bytes.len() >= 15) by {
            reveal_with_fuel(is_char_boundary, 2);
        }
        vstd::utf8::is_char_boundary_iff_not_is_continuation_byte(bytes, 1);
        vstd::utf8::is_char_boundary_iff_not_is_continuation_byte(head.spec_bytes(), 1);
        assert(is_char_boundary(head.spec_bytes(), 1));
    }
    let (_, part) = head.split_at(1);
    proof {
        broadcast use vstd::utf8::group_utf8_lib;
        assert(part.spec_bytes() =~= bytes.subrange(1, 15));
        assert(part@ == decode_utf8(encode_utf8(part@)));
        if address.is_ascii() {
            assert(bytes =~= Seq::new(address@.len(), |i| address@[i] as u8));
            let sub = address@.subrange(1, 15);
            assert(is_ascii_chars(sub));
            assert(encode_utf8(sub) =~= Seq::new(sub.len(), |i| sub[i] as u8));
            assert(encode_utf8(sub) =~= bytes.subrange(1, 15));
            assert(decode_utf8(encode_utf8(sub)) == sub);
        }
    }
    username_from_part(to_lowercase(part).as_str())
}

} // verus!
