//! The input record: a signed attestation as texts, the way a loader
//! hands it over. Numbers are decimal or hexadecimal strings, byte
//! strings are hexadecimal.

use vstd::prelude::*;

verus! {

/// The fields of the signing domain. A field that the record lacks is
/// `None`.
#[derive(Debug, Clone, PartialEq, Eq)]
pub struct DomainInput {
    pub name: Option<String>,
    pub version: Option<String>,
    /// A decimal number.
    pub chain_id: Option<String>,
    /// A hexadecimal address.
    pub verifying_contract: Option<String>,
}

/// The fields of the attestation message.
#[derive(Debug, Clone, PartialEq, Eq)]
pub struct MessageInput {
    pub version: u16,
    pub schema: String,
    pub recipient: String,
    pub time: String,
    pub expiration_time: String,
    pub revocable: bool,
    pub ref_uid: String,
    /// Hexadecimal, behind the prefix `0x`.
    pub data: String,
    pub salt: String,
}

/// The signature: `r` and `s` as hexadecimal numbers, and the recovery
/// indicator in the 0/1 or in the 27/28 convention.
#[derive(Debug, Clone, PartialEq, Eq)]
pub struct SignatureInput {
    pub r: String,
    pub s: String,
    pub v: u64,
}

/// A signed attestation: domain, message and signature.
#[derive(Debug, Clone, PartialEq, Eq)]
pub struct SignedInput {
    pub domain: DomainInput,
    pub message: MessageInput,
    pub signature: SignatureInput,
}

/// The whole input record: the signed attestation and the claimed signer.
#[derive(Debug, Clone, PartialEq, Eq)]
pub struct InputData {
    pub sig: SignedInput,
    pub signer: String,
}

} // verus!
