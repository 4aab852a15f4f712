//! Trusted wrappers around the outside hash and base64 crates.
//!
//! Both calls compute functions of their input bytes alone, so each result
//! is given a name (`sha256_of`, `base64_of`) that the rest of the library's
//! contracts speak of; nothing here states the algorithms themselves.

use vstd::prelude::*;

verus! {

/// The SHA-256 digest of a byte sequence.  The digest is a pure function of
/// the bytes, the same in every process and on every machine; its definition
/// is left to the outside crate that computes it.
pub uninterp spec fn sha256_of(bytes: Seq<u8>) -> Seq<u8>;

/// The padded, standard-alphabet base64 rendering of a byte sequence: a pure
/// function of the bytes, left to the outside crate that computes it.
pub uninterp spec fn base64_of(bytes: Seq<u8>) -> Seq<char>;

/// Relies on sha2's SHA-256 implementation, reached through
/// digest's `Digest::digest`: the digest depends on the input bytes alone,
/// and a SHA-256 digest is exactly 32 bytes.
#[verifier::external_body]
pub(crate) fn sha256_digest(bytes: &[u8]) -> (r: Vec<u8>)
    ensures
        r@ == sha256_of(bytes@),
        r@.len() == 32,
{
    <sha2::Sha256 as sha2::Digest>::digest(bytes).as_slice().to_vec()
}

/// Relies on base64's `STANDARD` engine (standard alphabet, padded): the
/// rendering depends on the input bytes alone, and padded output holds four
/// characters for every started group of three input bytes.  The engine
/// aborts if that output length overflows `usize`, so such inputs are kept
/// out.
#[verifier::external_body]
pub(crate) fn base64_encode(bytes: &[u8]) -> (r: String)
    requires
        4 * ((bytes@.len() + 2) / 3) <= usize::MAX,
    ensures
        r@ == base64_of(bytes@),
        r@.len() == 4 * ((bytes@.len() + 2) / 3),
{
    base64::Engine::encode(&base64::engine::general_purpose::STANDARD, bytes)
}

} // verus!
