//! Trusted bindings to the hashing and encoding crates the handshake
//! needs: SHA-1 and base64. Their results are named, not restated.
use vstd::prelude::*;

verus! {

/// What SHA-1 digests a string to: a function of the input characters
/// alone (the hash is taken over the string's UTF-8 bytes).
pub uninterp spec fn sha1_of(s: Seq<char>) -> Seq<u8>;

/// What standard base64 with padding encodes a byte sequence to: a
/// function of the input bytes alone.
pub uninterp spec fn base64_of(b: Seq<u8>) -> Seq<char>;

/// Relies on rust-crypto's `Sha1` through the `Digest` trait:
/// `input_str` feeds the string's bytes, `result` writes the digest, and
/// `output_bits` is 160, so the digest is 20 bytes.
#[verifier::external_body]
pub(crate) fn sha1_digest(s: &str) -> (r: Vec<u8>)
    ensures
        r@ == sha1_of(s@),
        r@.len() == 20,
{
    let mut hasher = crypto::sha1::Sha1::new();
    crypto::digest::Digest::input_str(&mut hasher, s);
    let mut hash = vec![0; crypto::digest::Digest::output_bytes(&hasher)];
    crypto::digest::Digest::result(&mut hasher, &mut hash);
    hash
}

/// Relies on the base64 crate's standard engine: base64 with the
/// standard alphabet and padding.
#[verifier::external_body]
pub(crate) fn base64_encode(b: &[u8]) -> (r: String)
    ensures
        r@ == base64_of(b@),
{
    base64::Engine::encode(&base64::engine::general_purpose::STANDARD, b)
}

} // verus!
