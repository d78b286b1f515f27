//! Recoverable signatures over a 32-byte digest, and the recovery of the
//! signer's address.
//!
//! The recovery identifier is carried in one convention only: 27 for the
//! candidate point with even y, 28 for the one with odd y. Input in the
//! 0/1 convention is normalised before a signature is built.

use vstd::prelude::*;
use crate::errors::AttestError;

verus! {

/// A recoverable signature: `r` and `s` as 32 big-endian bytes each, and
/// the recovery identifier `v`.
#[derive(Debug, Clone, Copy, PartialEq, Eq)]
pub struct Signature {
    pub r: [u8; 32],
    pub s: [u8; 32],
    pub v: u64,
}

/// A signature as plain values.
pub struct SignatureView {
    pub r: Seq<u8>,
    pub s: Seq<u8>,
    pub v: u64,
}

impl View for Signature {
    type V = SignatureView;

    open spec fn view(&self) -> SignatureView {
        SignatureView { r: self.r@, s: self.s@, v: self.v }
    }
}

impl SignatureView {
    /// Whether the recovery identifier is in the internal convention.
    pub open spec fn has_canonical_v(self) -> bool {
        self.v == 27 || self.v == 28
    }
}

/// What `normalize_recovery_id` returns: 0 and 27 name the first
/// candidate, 1 and 28 the second; nothing else is accepted.
pub open spec fn normalized_recovery_id(v: u64) -> Result<u64, AttestError> {
    if v == 0 || v == 27 {
        Ok(27u64)
    } else if v == 1 || v == 28 {
        Ok(28u64)
    } else {
        Err(AttestError::InputError)
    }
}

/// Brings a recovery identifier given in the 0/1 or in the 27/28
/// convention into the internal 27/28 convention.
pub fn normalize_recovery_id(v: u64) -> (normal: Result<u64, AttestError>)
    ensures
        normal == normalized_recovery_id(v),
{
    if v == 0 || v == 27 {
        Ok(27)
    } else if v == 1 || v == 28 {
        Ok(28)
    } else {
        Err(AttestError::InputError)
    }
}

/// The address of the key that signed `digest` with the signature
/// `(r, s, v)`; nothing where the signature yields no key.
pub uninterp spec fn recovered_signer(r: Seq<u8>, s: Seq<u8>, v: u64, digest: Seq<u8>) -> Option<
    Seq<u8>,
>;

/// Recovers the signer's address with
/// `ethers_core::types::Signature::recover` on the digest as a precomputed
/// hash.
///
/// Trusted: the outcome is a function of the signature and the digest.
/// Which address it is is not stated, only named.
#[verifier::external_body]
pub(crate) fn recover_signer(signature: &Signature, digest: &[u8; 32]) -> (signer: Option<[u8; 20]>)
    ensures
        recovered_signer(signature.r@, signature.s@, signature.v, digest@) == match signer {
            Some(address) => Some(address@),
            None => None,
        },
{
    let outside = ethers_core::types::Signature {
        r: ethers_core::types::U256::from_big_endian(&signature.r),
        s: ethers_core::types::U256::from_big_endian(&signature.s),
        v: signature.v,
    };
    let message = ethers_core::types::RecoveryMessage::Hash(ethers_core::types::H256(*digest));
    match outside.recover(message) {
        Ok(address) => Some(address.0),
        Err(_) => None,
    }
}

/// The one candidate signer that a signature selects: the recovered
/// address where the recovery identifier is 27 or 28, and none otherwise.
pub open spec fn candidate_signer(signature: SignatureView, digest: Seq<u8>) -> Option<Seq<u8>> {
    if signature.has_canonical_v() {
        recovered_signer(signature.r, signature.s, signature.v, digest)
    } else {
        None
    }
}

/// Recovers the candidate signer of `digest`. A recovery identifier
/// outside the internal convention selects no candidate.
pub fn recover_candidate(signature: &Signature, digest: &[u8; 32]) -> (candidate: Option<[u8; 20]>)
    ensures
        candidate_signer(signature@, digest@) == match candidate {
            Some(address) => Some(address@),
            None => None,
        },
{
    if signature.v == 27 || signature.v == 28 {
        recover_signer(signature, digest)
    } else {
        None
    }
}

} // verus!
