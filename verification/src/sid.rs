//! Session identifier generation.
//!
//! An identifier is derived from 32 bytes of cryptographically secure
//! randomness, encoded with the URL-safe, no-padding base64 alphabet, so it
//! reveals nothing of its creation time, issuing user or entry contents.

use rand::RngExt;
use vstd::prelude::*;

verus! {

/// What base64's URL-safe, no-padding engine returns for the given bytes.
/// The encoding is a function of the input bytes alone.
pub uninterp spec fn b64url_of(bytes: Seq<u8>) -> Seq<char>;

/// A character of the URL-safe base64 alphabet (RFC 4648 section 5).
pub open spec fn is_url_safe_char(c: char) -> bool {
    ('A' <= c && c <= 'Z') || ('a' <= c && c <= 'z') || ('0' <= c && c <= '9') || c == '-' || c
        == '_'
}

/// The shape of every generated session identifier: 32 bytes encode to
/// exactly 43 characters without padding, all from the URL-safe alphabet.
pub open spec fn is_session_id(s: Seq<char>) -> bool {
    s.len() == 43 && (forall|i: int| 0 <= i < s.len() ==> is_url_safe_char(s[i]))
}

/// Relies on rand: `rand::rng()` hands out the thread-local cryptographically
/// secure generator and `RngExt::random` draws 32 bytes from it. Nothing is
/// assumed of the values drawn.
#[verifier::external_body]
fn random_bytes() -> [u8; 32] {
    let mut source = rand::rng();
    source.random::<[u8; 32]>()
}

/// Relies on base64: `URL_SAFE_NO_PAD.encode` encodes with the RFC 4648
/// URL-safe alphabet and no padding, so 32 bytes become exactly 43 characters
/// of that alphabet, and the output depends on the input bytes alone.
#[verifier::external_body]
fn encode_url_safe(bytes: &[u8; 32]) -> (r: String)
    ensures
        r@ == b64url_of(bytes@),
        is_session_id(r@),
{
    base64::Engine::encode(&base64::engine::general_purpose::URL_SAFE_NO_PAD, bytes)
}

/// Produce a fresh session identifier: 32 bytes of secure randomness in
/// URL-safe text form.
pub fn generate_session_id() -> (r: String)
    ensures
        is_session_id(r@),
{
    let bytes = random_bytes();
    encode_url_safe(&bytes)
}

} // verus!
