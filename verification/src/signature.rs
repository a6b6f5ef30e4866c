//! The signature check: HMAC-SHA3-256 over the canonical JSON form of the
//! payload, hex encoded, compared to the signature the caller supplied.

use vstd::prelude::*;
use hmac::Mac;
use crate::json::hex_digit;
use crate::payload::{payload_json, MomentoPayload, PayloadView};

verus! {

/// The lowercase hex encoding of a byte sequence, high nibble first.
pub open spec fn hex_of(b: Seq<u8>) -> Seq<char>
    decreases b.len(),
{
    if b.len() == 0 {
        Seq::empty()
    } else {
        seq![hex_digit(b[0] as int / 16), hex_digit(b[0] as int % 16)] + hex_of(b.drop_first())
    }
}

/// The HMAC-SHA3-256 tag of a message under a key. The tag is a fixed
/// function of the two arguments; its value is not modelled here.
pub uninterp spec fn hmac_sha3_256_of(key: Seq<char>, msg: Seq<char>) -> Seq<u8>;

/// Relies on hex::encode: each byte becomes two lowercase hex digits, high
/// nibble first, in order.
#[verifier::external_body]
fn hex_encode(b: &Vec<u8>) -> (r: String)
    ensures
        r@ == hex_of(b@),
{
    hex::encode(b)
}

/// Relies on Hmac<Sha3_256> from the hmac and sha3 crates: the tag depends
/// on the key and message bytes alone and is 32 bytes (the SHA3-256 output
/// size); new_from_slice accepts keys of any length, so the expect cannot
/// fire.
#[verifier::external_body]
fn hmac_sha3_256(key: &str, msg: &str) -> (r: Vec<u8>)
    ensures
        r@ == hmac_sha3_256_of(key@, msg@),
        r@.len() == 32,
{
    let mut m = <hmac::SimpleHmac<sha3::Sha3_256> as hmac::KeyInit>::new_from_slice(key.as_bytes())
        .expect("HMAC accepts keys of any length");
    m.update(msg.as_bytes());
    m.finalize().into_bytes().to_vec()
}

/// The signature a correctly signing sender supplies for a payload.
pub open spec fn expected_signature(secret: Seq<char>, v: PayloadView) -> Seq<char> {
    hex_of(hmac_sha3_256_of(secret, payload_json(v)))
}

/// Verifies the supplied signature: true exactly when it equals the hex
/// HMAC-SHA3-256 of the canonical JSON form of the payload under the secret.
pub fn verify_signature(payload: &MomentoPayload, secret_string: &str, signature: &str) -> (r: bool)
    ensures
        r == (signature@ == expected_signature(secret_string@, payload@)),
{
    let s = crate::payload::serialize_payload(payload);
    let tag = hmac_sha3_256(secret_string, s.as_str());
    let hexs = hex_encode(&tag);
    let sig = signature.to_owned();
    hexs == sig
}

} // verus!
