//! The Keccak-256 hash function, as a trusted primitive.

use vstd::prelude::*;
use vstd::string::StringSliceAdditionalSpecFns;

verus! {

/// The Keccak-256 digest of a byte string: 32 bytes, a function of the input
/// alone.
pub uninterp spec fn keccak256_of(data: Seq<u8>) -> Seq<u8>;

/// Hashes `data` with `ethers_core::utils::keccak256`.
///
/// Trusted: the result is the Keccak-256 digest of `data`, a function of
/// `data` alone. Which bytes it is is not stated, only named.
#[verifier::external_body]
pub(crate) fn keccak256(data: &[u8]) -> (digest: [u8; 32])
    ensures
        digest@ == keccak256_of(data@),
{
    ethers_core::utils::keccak256(data)
}

/// The digest of the UTF-8 bytes of a text.
pub open spec fn text_digest(text: Seq<char>) -> Seq<u8> {
    keccak256_of(vstd::utf8::encode_utf8(text))
}

/// Hashes a byte string.
pub fn hash_bytes(data: &[u8]) -> (digest: [u8; 32])
    ensures
        digest@ == keccak256_of(data@),
{
    keccak256(data)
}

/// Hashes the UTF-8 bytes of a text.
pub fn hash_text(text: &str) -> (digest: [u8; 32])
    ensures
        digest@ == text_digest(text@),
{
    keccak256(text.as_bytes())
}

} // verus!
