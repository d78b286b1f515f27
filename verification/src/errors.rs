//! The error kinds of the attestation pipeline.

use vstd::prelude::*;

verus! {

/// Why the pipeline stopped. Every failure stops the pipeline where it
/// happens; nothing downstream sees partial state.
#[derive(Debug, Clone, Copy, PartialEq, Eq, Structural)]
pub enum AttestError {
    /// A domain or schema input is malformed or missing.
    ConfigError,
    /// Witness-source data is malformed: bad hex, an integer out of range,
    /// an address that does not parse, a date that does not exist.
    InputError,
    /// The signer recovered from the signature is not the claimed signer.
    SignatureMismatch,
    /// The age does not reach the threshold.
    PredicateFailure,
    /// The proving engine failed.
    ProvingError,
    /// The receipt does not verify against the expected program identity.
    VerificationError,
}

impl AttestError {
    /// A one-line description for the user.
    pub fn describe(&self) -> (text: &'static str)
        ensures
            text@ == match *self {
                AttestError::ConfigError => "malformed domain or schema input"@,
                AttestError::InputError => "malformed witness input"@,
                AttestError::SignatureMismatch => "recovered signer does not match the claimed signer"@,
                AttestError::PredicateFailure => "age is below the threshold"@,
                AttestError::ProvingError => "the proving engine failed"@,
                AttestError::VerificationError => "the receipt does not verify against the program identity"@,
            },
    {
        match self {
            AttestError::ConfigError => "malformed domain or schema input",
            AttestError::InputError => "malformed witness input",
            AttestError::SignatureMismatch => "recovered signer does not match the claimed signer",
            AttestError::PredicateFailure => "age is below the threshold",
            AttestError::ProvingError => "the proving engine failed",
            AttestError::VerificationError => "the receipt does not verify against the program identity",
        }
    }
}

/// A result with its value as plain values.
pub open spec fn result_view<T: View>(result: Result<T, AttestError>) -> Result<T::V, AttestError> {
    match result {
        Ok(value) => Ok(value@),
        Err(error) => Err(error),
    }
}

} // verus!
