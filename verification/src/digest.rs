//! Digests of saved texts, by which a tool tells whether what it holds has
//! changed since it was saved.

use vstd::prelude::*;

use crypto_hash::Algorithm;
use vstd::string::StringSliceAdditionalSpecFns;

verus! {

/// The SHA-256 digest of a byte sequence.
pub uninterp spec fn sha256(bytes: Seq<u8>) -> Seq<u8>;

/// `crypto_hash::digest` with `Algorithm::SHA256`: the SHA-256 digest of
/// `bytes`, which is 32 bytes long. What the digest is, is named, not
/// spelled out.
#[verifier::external_body]
fn sha256_digest(bytes: &[u8]) -> (r: Vec<u8>)
    ensures
        r@ == sha256(bytes@),
        r@.len() == 32,
{
    crypto_hash::digest(Algorithm::SHA256, bytes)
}

/// The digest of a saved text: the SHA-256 digest of its UTF-8 bytes.
pub fn text_digest(text: &str) -> (r: Vec<u8>)
    ensures
        r@ == sha256(text.spec_bytes()),
        r@.len() == 32,
{
    sha256_digest(text.as_bytes())
}

} // verus!
