//! The witness assembler: turns an input record into the predicate
//! witness. It converts texts to numbers and bytes and computes the domain
//! separator; it hands on a whole witness or none.
//!
//! A malformed or missing domain field is a configuration error; anything
//! else that does not parse is an input error.

use vstd::prelude::*;
use crate::errors::{result_view, AttestError};
use crate::input::{DomainInput, InputData, MessageInput, SignatureInput};
use crate::parse::{
    all_hex, decode_hex, hex_bytes, parse_address, parse_hash, parse_u64, parse_uint_decimal,
    parse_uint_hex, parsed_address, parsed_hash, parsed_u64, parsed_uint_decimal, parsed_uint_hex,
};
use crate::signature::{normalize_recovery_id, normalized_recovery_id, Signature, SignatureView};
use crate::typed_data::{
    domain_separator, domain_separator_spec, domain_type_hash, domain_type_hash_spec, Attest,
    AttestView, DomainView, TypedDomain,
};
use crate::witness::{PredicateWitness, WitnessView};
use vstd::string::StringSliceAdditionalSpecFns;

verus! {

/// The domain that a record's domain fields denote.
pub open spec fn domain_of(input: DomainInput) -> Result<DomainView, AttestError> {
    if input.name is Some && input.version is Some && input.chain_id is Some
        && input.verifying_contract is Some && parsed_uint_decimal(input.chain_id->0@) is Some
        && parsed_address(input.verifying_contract->0@) is Some {
        Ok(
            DomainView {
                name: input.name->0@,
                version: input.version->0@,
                chain_id: parsed_uint_decimal(input.chain_id->0@)->0,
                verifying_contract: parsed_address(input.verifying_contract->0@)->0,
            },
        )
    } else {
        Err(AttestError::ConfigError)
    }
}

/// The bytes that a message's data text denotes: the text is `0x` and an
/// even number of hexadecimal digits of either case, two to a byte, and
/// nothing else.
pub open spec fn data_of(text: Seq<char>) -> Option<Seq<u8>> {
    let bytes = vstd::utf8::encode_utf8(text);
    let digits = bytes.skip(2).map_values(|b: u8| b as char);
    if bytes.len() >= 2 && bytes[0] == 0x30 && bytes[1] == 0x78 && digits.len() % 2 == 0
        && all_hex(digits) {
        Some(hex_bytes(digits))
    } else {
        None
    }
}

/// The message that a record's message fields denote.
pub open spec fn message_of(input: MessageInput) -> Result<AttestView, AttestError> {
    if parsed_hash(input.schema@) is Some && parsed_address(input.recipient@) is Some
        && parsed_u64(input.time@) is Some && parsed_u64(input.expiration_time@) is Some
        && parsed_hash(input.ref_uid@) is Some && data_of(input.data@) is Some && parsed_hash(
        input.salt@,
    ) is Some {
        Ok(
            AttestView {
                version: input.version,
                schema: parsed_hash(input.schema@)->0,
                recipient: parsed_address(input.recipient@)->0,
                time: parsed_u64(input.time@)->0,
                expiration_time: parsed_u64(input.expiration_time@)->0,
                revocable: input.revocable,
                ref_uid: parsed_hash(input.ref_uid@)->0,
                data: data_of(input.data@)->0,
                salt: parsed_hash(input.salt@)->0,
            },
        )
    } else {
        Err(AttestError::InputError)
    }
}

/// The signature that a record's signature fields denote, with the
/// recovery indicator in the internal convention.
pub open spec fn signature_of(input: SignatureInput) -> Result<SignatureView, AttestError> {
    if parsed_uint_hex(input.r@) is Some && parsed_uint_hex(input.s@) is Some
        && normalized_recovery_id(input.v) is Ok {
        Ok(
            SignatureView {
                r: parsed_uint_hex(input.r@)->0,
                s: parsed_uint_hex(input.s@)->0,
                v: normalized_recovery_id(input.v)->Ok_0,
            },
        )
    } else {
        Err(AttestError::InputError)
    }
}

/// The witness that an input record denotes for a threshold and a
/// reference time. The domain is read first, so that a record with a bad
/// domain is a configuration error whatever else it holds.
pub open spec fn witness_of(input: InputData, threshold_age: u8, reference_timestamp: u64) -> Result<
    WitnessView,
    AttestError,
> {
    match domain_of(input.sig.domain) {
        Err(error) => Err(error),
        Ok(domain) => if parsed_address(input.signer@) is Some && message_of(input.sig.message) is Ok
            && signature_of(input.sig.signature) is Ok {
            Ok(
                WitnessView {
                    signer: parsed_address(input.signer@)->0,
                    signature: signature_of(input.sig.signature)->Ok_0,
                    domain_separator: domain_separator_spec(domain, domain_type_hash_spec()),
                    message: message_of(input.sig.message)->Ok_0,
                    threshold_age,
                    reference_timestamp,
                },
            )
        } else {
            Err(AttestError::InputError)
        },
    }
}

/// Reads the signing domain of a record.
pub fn parse_domain(input: &DomainInput) -> (domain: Result<TypedDomain, AttestError>)
    ensures
        result_view(domain) == domain_of(*input),
{
    match (&input.name, &input.version, &input.chain_id, &input.verifying_contract) {
        (Some(name), Some(version), Some(chain_id), Some(contract)) => {
            let id = parse_uint_decimal(chain_id.as_str());
            let address = parse_address(contract.as_str());
            match (id, address) {
                (Some(id), Some(address)) => Ok(
                    TypedDomain {
                        name: name.clone(),
                        version: version.clone(),
                        chain_id: id,
                        verifying_contract: address,
                    },
                ),
                _ => Err(AttestError::ConfigError),
            }
        },
        _ => Err(AttestError::ConfigError),
    }
}

/// Decodes the data text of a message.
pub fn parse_data(text: &str) -> (data: Option<Vec<u8>>)
    ensures
        crate::parse::vec_view(data) == data_of(text@),
{
    let bytes = text.as_bytes();
    if bytes.len() < 2 || bytes[0] != 0x30 || bytes[1] != 0x78 {
        return None;
    }
    proof {
        // The decoder drops the prefix itself, and drops it once.
        let chars = bytes@.map_values(|b: u8| b as char);
        assert(chars[0] == '0' && chars[1] == 'x');
        assert(chars.skip(2) =~= bytes@.skip(2).map_values(|b: u8| b as char));
    }
    decode_hex(bytes)
}

/// Reads the attestation message of a record.
pub fn parse_message(input: &MessageInput) -> (message: Result<Attest, AttestError>)
    ensures
        result_view(message) == message_of(*input),
{
    let schema = parse_hash(input.schema.as_str());
    let recipient = parse_address(input.recipient.as_str());
    let time = parse_u64(input.time.as_str());
    let expiration_time = parse_u64(input.expiration_time.as_str());
    let ref_uid = parse_hash(input.ref_uid.as_str());
    let data = parse_data(input.data.as_str());
    let salt = parse_hash(input.salt.as_str());
    match (schema, recipient, time, expiration_time, ref_uid, data, salt) {
        (
            Some(schema),
            Some(recipient),
            Some(time),
            Some(expiration_time),
            Some(ref_uid),
            Some(data),
            Some(salt),
        ) => Ok(
            Attest {
                version: input.version,
                schema,
                recipient,
                time,
                expiration_time,
                revocable: input.revocable,
                ref_uid,
                data,
                salt,
            },
        ),
        _ => Err(AttestError::InputError),
    }
}

/// Reads the signature of a record and normalises its recovery indicator.
pub fn parse_signature(input: &SignatureInput) -> (signature: Result<Signature, AttestError>)
    ensures
        result_view(signature) == signature_of(*input),
{
    let r = parse_uint_hex(input.r.as_str());
    let s = parse_uint_hex(input.s.as_str());
    let v = normalize_recovery_id(input.v);
    match (r, s, v) {
        (Some(r), Some(s), Ok(v)) => Ok(Signature { r, s, v }),
        _ => Err(AttestError::InputError),
    }
}

/// Assembles the predicate witness from an input record, a threshold in
/// years and a reference time.
pub fn assemble_witness(input: &InputData, threshold_age: u8, reference_timestamp: u64) -> (witness:
    Result<PredicateWitness, AttestError>)
    ensures
        result_view(witness) == witness_of(*input, threshold_age, reference_timestamp),
{
    let domain = match parse_domain(&input.sig.domain) {
        Ok(domain) => domain,
        Err(error) => {
            return Err(error);
        },
    };
    let signer = parse_address(input.signer.as_str());
    let message = parse_message(&input.sig.message);
    let separator = domain_separator(&domain, domain_type_hash());
    let signature = parse_signature(&input.sig.signature);
    match (signer, message, signature) {
        (Some(signer), Ok(message), Ok(signature)) => Ok(
            PredicateWitness {
                signer,
                signature,
                domain_separator: separator,
                message,
                threshold_age,
                reference_timestamp,
            },
        ),
        _ => Err(AttestError::InputError),
    }
}

} // verus!
