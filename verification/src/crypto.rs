//! Message authentication: HMAC-SHA256 signatures of webhook payloads and the
//! keyed hashes under which session bearer secrets are stored.
use vstd::prelude::*;
use vstd::utf8::encode_utf8;
use hmac::{KeyInit, Mac};

verus! {

/// The HMAC-SHA256 tag of `message` under `key`.
pub uninterp spec fn hmac_sha256(key: Seq<u8>, message: Seq<u8>) -> Seq<u8>;

/// The lower-case hexadecimal digit for a value below sixteen.
pub open spec fn hex_digit(v: u8) -> char {
    if v < 10 {
        ((v + 48) as u32) as char
    } else {
        ((v + 87) as u32) as char
    }
}

/// Lower-case hexadecimal text of a byte sequence, two digits per byte.
pub open spec fn hex_lower(bytes: Seq<u8>) -> Seq<char>
    decreases bytes.len(),
{
    if bytes.len() == 0 {
        Seq::empty()
    } else {
        seq![hex_digit(bytes[0] / 16), hex_digit(bytes[0] % 16)] + hex_lower(bytes.drop_first())
    }
}

/// HMAC-SHA256 of `message` under `key`.
///
/// Trusted: `Hmac::<Sha256>` accepts keys of any length and yields a 32-byte
/// tag determined by the key and message alone; the tag is named.
#[verifier::external_body]
fn hmac_sha256_bytes(key: &[u8], message: &[u8]) -> (r: Vec<u8>)
    ensures
        r@ == hmac_sha256(key@, message@),
        r@.len() == 32,
{
    let mut mac = <hmac::Hmac<sha2::Sha256> as KeyInit>::new_from_slice(key).expect(
        "HMAC accepts any key length",
    );
    mac.update(message);
    mac.finalize().into_bytes().to_vec()
}

/// Lower-case hexadecimal text of `bytes`.
///
/// Trusted: `hex::encode` writes each byte as two lower-case hexadecimal digits,
/// most significant first.
#[verifier::external_body]
fn hex_encode(bytes: &[u8]) -> (r: String)
    ensures
        r@ == hex_lower(bytes@),
{
    hex::encode(bytes)
}

/// The HMAC-SHA256 signature of a webhook payload, in lower-case hex.
pub fn compute_hmac(secret: &str, payload: &str) -> (r: String)
    ensures
        r@ == hex_lower(hmac_sha256(encode_utf8(secret@), encode_utf8(payload@))),
        r@.len() == 64,
{
    let tag = hmac_sha256_bytes(secret.as_bytes(), payload.as_bytes());
    proof {
        lemma_hex_lower_len(tag@);
    }
    hex_encode(tag.as_slice())
}

/// The keyed hash under which a session's bearer secret is stored: HMAC-SHA256
/// of the bearer text under the server secret, in lower-case hex. Without the
/// server secret, nobody can derive it from public data.
pub fn derive_bearer_hash(secret: &[u8], bearer: &str) -> (r: String)
    ensures
        r@ == hex_lower(hmac_sha256(secret@, encode_utf8(bearer@))),
        r@.len() == 64,
{
    let tag = hmac_sha256_bytes(secret, bearer.as_bytes());
    proof {
        lemma_hex_lower_len(tag@);
    }
    hex_encode(tag.as_slice())
}

/// Hex text has two characters per byte.
pub proof fn lemma_hex_lower_len(bytes: Seq<u8>)
    ensures
        hex_lower(bytes).len() == 2 * bytes.len(),
    decreases bytes.len(),
{
    if bytes.len() > 0 {
        lemma_hex_lower_len(bytes.drop_first());
    }
}

} // verus!
