//! Verification of the Ed25519 signature Discord puts on every interaction request.

use vstd::prelude::*;
use vstd::utf8::encode_utf8;

verus! {

broadcast use vstd::array::group_array_axioms;

/// The value of a hexadecimal digit (either case), or `None` for any other byte.
pub open spec fn hex_value(b: u8) -> Option<u8> {
    if 65 <= b <= 70 {
        Some((b - 55) as u8)
    } else if 97 <= b <= 102 {
        Some((b - 87) as u8)
    } else if 48 <= b <= 57 {
        Some((b - 48) as u8)
    } else {
        None
    }
}

/// The bytes a hexadecimal text denotes: two digits per byte, high digit first. `None`
/// for a text of odd length or with a byte that is not a hexadecimal digit.
pub open spec fn hex_decoded(text: Seq<u8>) -> Option<Seq<u8>> {
    if text.len() % 2 != 0 {
        None
    } else if exists|k: int| 0 <= k < text.len() && #[trigger] hex_value(text[k]) is None {
        None
    } else {
        Some(
            Seq::new(
                text.len() / 2,
                |i: int| (hex_value(text[2 * i])->0 * 16 + hex_value(text[2 * i + 1])->0) as u8,
            ),
        )
    }
}

/// The view of an optional byte vector.
pub open spec fn opt_bytes_view(o: Option<Vec<u8>>) -> Option<Seq<u8>> {
    match o {
        Some(v) => Some(v@),
        None => None,
    }
}

/// `hex::decode`: the bytes of a hexadecimal text (digits of either case), `None` on
/// odd length or on a byte that is not a hexadecimal digit.
#[verifier::external_body]
fn hex_decode(text: &str) -> (r: Option<Vec<u8>>)
    ensures
        opt_bytes_view(r) == hex_decoded(encode_utf8(text@)),
{
    hex::decode(text).ok()
}

/// Ed25519 accepts `signature` on `message` under `public_key`: the key decodes to a
/// curve point and the signature verifies.
pub uninterp spec fn ed25519_accepts(public_key: Seq<u8>, message: Seq<u8>, signature: Seq<u8>) -> bool;

/// `ed25519_dalek::VerifyingKey::from_bytes` on the key, then
/// `Verifier::verify` of the message against `Signature::from_bytes` of the signature;
/// true when both succeed. The outcome is named, not stated: it depends on the three
/// byte strings alone.
#[verifier::external_body]
fn ed25519_verify(public_key: &[u8; 32], message: &[u8], signature: &[u8; 64]) -> (b: bool)
    ensures
        b == ed25519_accepts(public_key@, message@, signature@),
{
    match ed25519_dalek::VerifyingKey::from_bytes(public_key) {
        Ok(key) => ed25519_dalek::Verifier::verify(
            &key,
            message,
            &ed25519_dalek::Signature::from_bytes(signature),
        ).is_ok(),
        Err(_) => false,
    }
}

/// The request is signed: the key and signature are hexadecimal texts of 32 and 64
/// bytes, and the signature covers the timestamp followed by the body.
pub open spec fn signature_valid(
    public_key_hex: Seq<char>,
    signature_hex: Seq<char>,
    timestamp: Seq<char>,
    body: Seq<char>,
) -> bool {
    match (hex_decoded(encode_utf8(public_key_hex)), hex_decoded(encode_utf8(signature_hex))) {
        (Some(key), Some(sig)) => key.len() == 32 && sig.len() == 64 && ed25519_accepts(
            key,
            encode_utf8(timestamp + body),
            sig,
        ),
        _ => false,
    }
}

fn key_array(v: &Vec<u8>) -> (a: [u8; 32])
    requires
        v@.len() == 32,
    ensures
        a@ == v@,
{
    let mut a = [0u8; 32];
    let mut i: usize = 0;
    while i < 32
        invariant
            v@.len() == 32,
            i <= 32,
            a@.len() == 32,
            forall|k: int| 0 <= k < i ==> a@[k] == v@[k],
        decreases 32 - i,
    {
        a.set(i, v[i]);
        i = i + 1;
    }
    assert(a@ =~= v@);
    a
}

fn signature_array(v: &Vec<u8>) -> (a: [u8; 64])
    requires
        v@.len() == 64,
    ensures
        a@ == v@,
{
    let mut a = [0u8; 64];
    let mut i: usize = 0;
    while i < 64
        invariant
            v@.len() == 64,
            i <= 64,
            a@.len() == 64,
            forall|k: int| 0 <= k < i ==> a@[k] == v@[k],
        decreases 64 - i,
    {
        a.set(i, v[i]);
        i = i + 1;
    }
    assert(a@ =~= v@);
    a
}

/// Checks Discord's request signature: `public_key_hex` and `signature_hex` are the
/// application key and the `x-signature-ed25519` header, and the signed message is
/// the `x-signature-timestamp` header followed by the request body.
pub fn verify_signature(public_key_hex: &str, signature_hex: &str, timestamp: &str, body: &str) -> (b:
    bool)
    ensures
        b == signature_valid(public_key_hex@, signature_hex@, timestamp@, body@),
{
    let key_bytes = match hex_decode(public_key_hex) {
        Some(k) => k,
        None => return false,
    };
    if key_bytes.len() != 32 {
        return false;
    }
    let key = key_array(&key_bytes);
    let sig_bytes = match hex_decode(signature_hex) {
        Some(s) => s,
        None => return false,
    };
    if sig_bytes.len() != 64 {
        return false;
    }
    let sig = signature_array(&sig_bytes);
    let mut message = String::from_str(timestamp);
    message.append(body);
    ed25519_verify(&key, message.as_str().as_bytes(), &sig)
}


/// A request passes only when the key and signature headers are hexadecimal texts of 32
/// and 64 bytes and Ed25519 accepts the signature on the timestamp followed by the body.
pub proof fn law_accepted_requests_are_signed(
    public_key_hex: Seq<char>,
    signature_hex: Seq<char>,
    timestamp: Seq<char>,
    body: Seq<char>,
)
    requires
        signature_valid(public_key_hex, signature_hex, timestamp, body),
    ensures
        hex_decoded(encode_utf8(public_key_hex)) matches Some(key) && key.len() == 32,
        hex_decoded(encode_utf8(signature_hex)) matches Some(sig) && sig.len() == 64,
        ed25519_accepts(
            hex_decoded(encode_utf8(public_key_hex))->0,
            encode_utf8(timestamp + body),
            hex_decoded(encode_utf8(signature_hex))->0,
        ),
{
}

/// Every request signed by the key passes, whatever its length: when the key and
/// signature headers are hexadecimal texts of 32 and 64 bytes and Ed25519 accepts the
/// signature on the timestamp followed by the body, the request is authentic.
pub proof fn law_signed_requests_are_accepted(
    public_key_hex: Seq<char>,
    signature_hex: Seq<char>,
    timestamp: Seq<char>,
    body: Seq<char>,
    key: Seq<u8>,
    sig: Seq<u8>,
)
    requires
        hex_decoded(encode_utf8(public_key_hex)) == Some(key),
        hex_decoded(encode_utf8(signature_hex)) == Some(sig),
        key.len() == 32,
        sig.len() == 64,
        ed25519_accepts(key, encode_utf8(timestamp + body), sig),
    ensures
        signature_valid(public_key_hex, signature_hex, timestamp, body),
{
}

} // verus!
