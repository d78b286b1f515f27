//! The canonical digest builder: the domain separator, the hash of an
//! attestation message and the final digest that the signer signs.
//!
//! The scheme has two stages. Each structure is hashed as the ABI
//! encoding of its type hash followed by its fields in declared order,
//! with variable-length fields replaced by their own hash; the two results
//! are then hashed together behind a fixed two-byte prefix.

use vstd::prelude::*;
use crate::abi::{abi_encode, abi_encoding, push_token, zero_bytes, AbiToken};
use crate::keccak::{hash_bytes, hash_text, keccak256_of, text_digest};
use crate::word::{append_bytes, uint_word, word_of_u64};

verus! {

/// The schema string of the signing domain. Field names, type names and
/// the absence of whitespace are all part of the hash.
pub const DOMAIN_TYPE: &'static str =
    "EIP712Domain(string name,string version,uint256 chainId,address verifyingContract)";

/// The schema string of an attestation message.
pub const ATTEST_TYPE: &'static str =
    "Attest(uint16 version,bytes32 schema,address recipient,uint64 time,uint64 expirationTime,bool revocable,bytes32 refUID,bytes data,bytes32 salt)";

/// The application, contract and chain that a signature is bound to.
#[derive(Debug, Clone, PartialEq, Eq)]
pub struct TypedDomain {
    pub name: String,
    pub version: String,
    /// A 256-bit unsigned integer, as 32 big-endian bytes.
    pub chain_id: [u8; 32],
    pub verifying_contract: [u8; 20],
}

/// A domain as plain values.
pub struct DomainView {
    pub name: Seq<char>,
    pub version: Seq<char>,
    pub chain_id: Seq<u8>,
    pub verifying_contract: Seq<u8>,
}

impl View for TypedDomain {
    type V = DomainView;

    open spec fn view(&self) -> DomainView {
        DomainView {
            name: self.name@,
            version: self.version@,
            chain_id: self.chain_id@,
            verifying_contract: self.verifying_contract@,
        }
    }
}

/// The attestation record that the signer authorises.
#[derive(Debug, Clone, PartialEq, Eq)]
pub struct Attest {
    pub version: u16,
    pub schema: [u8; 32],
    pub recipient: [u8; 20],
    pub time: u64,
    pub expiration_time: u64,
    pub revocable: bool,
    pub ref_uid: [u8; 32],
    pub data: Vec<u8>,
    pub salt: [u8; 32],
}

/// A message as plain values.
pub struct AttestView {
    pub version: u16,
    pub schema: Seq<u8>,
    pub recipient: Seq<u8>,
    pub time: u64,
    pub expiration_time: u64,
    pub revocable: bool,
    pub ref_uid: Seq<u8>,
    pub data: Seq<u8>,
    pub salt: Seq<u8>,
}

impl View for Attest {
    type V = AttestView;

    open spec fn view(&self) -> AttestView {
        AttestView {
            version: self.version,
            schema: self.schema@,
            recipient: self.recipient@,
            time: self.time,
            expiration_time: self.expiration_time,
            revocable: self.revocable,
            ref_uid: self.ref_uid@,
            data: self.data@,
            salt: self.salt@,
        }
    }
}

/// The two hashes that a signing digest is made of.
#[derive(Debug, Clone, Copy, PartialEq, Eq)]
pub struct DigestComponents {
    pub domain_separator: [u8; 32],
    pub message_digest: [u8; 32],
}

/// Digest components as plain values.
pub struct DigestComponentsView {
    pub domain_separator: Seq<u8>,
    pub message_digest: Seq<u8>,
}

impl View for DigestComponents {
    type V = DigestComponentsView;

    open spec fn view(&self) -> DigestComponentsView {
        DigestComponentsView {
            domain_separator: self.domain_separator@,
            message_digest: self.message_digest@,
        }
    }
}

/// The word of a boolean.
pub open spec fn bool_word(flag: bool) -> Seq<u8> {
    zero_bytes(31).push(if flag { 1u8 } else { 0u8 })
}

/// The word of an address.
pub open spec fn address_word(address: Seq<u8>) -> Seq<u8> {
    zero_bytes(12) + address
}

/// The hash of the domain's schema string.
pub open spec fn domain_type_hash_spec() -> Seq<u8> {
    text_digest(DOMAIN_TYPE@)
}

/// The hash of the message's schema string.
pub open spec fn attest_type_hash_spec() -> Seq<u8> {
    text_digest(ATTEST_TYPE@)
}

/// The bytes that are hashed into a domain separator: the type hash, the
/// hashes of name and version, the chain id and the verifying contract, one
/// word each.
pub open spec fn domain_encoding(
    domain: DomainView,
    type_hash: Seq<u8>,
    name_hash: Seq<u8>,
    version_hash: Seq<u8>,
) -> Seq<u8> {
    type_hash + name_hash + version_hash + domain.chain_id + address_word(
        domain.verifying_contract,
    )
}

/// The domain separator: the hash of the domain's encoding under the hashes
/// of its name and version.
pub open spec fn domain_separator_spec(domain: DomainView, type_hash: Seq<u8>) -> Seq<u8> {
    keccak256_of(
        domain_encoding(domain, type_hash, text_digest(domain.name), text_digest(domain.version)),
    )
}

/// The bytes that are hashed into a message's struct hash: the type hash
/// and every field in declared order, one word each, with `data` replaced
/// by its hash.
pub open spec fn attest_encoding(message: AttestView, type_hash: Seq<u8>, data_hash: Seq<u8>) -> Seq<
    u8,
> {
    type_hash + uint_word(message.version as u64) + message.schema + address_word(
        message.recipient,
    ) + uint_word(message.time) + uint_word(message.expiration_time) + bool_word(message.revocable)
        + message.ref_uid + data_hash + message.salt
}

/// The struct hash of a message.
pub open spec fn struct_hash_spec(message: AttestView) -> Seq<u8> {
    keccak256_of(attest_encoding(message, attest_type_hash_spec(), keccak256_of(message.data)))
}

/// The bytes that are hashed into a signing digest: `0x19 0x01`, the
/// domain separator and the struct hash.
pub open spec fn signing_preimage(domain_separator: Seq<u8>, struct_hash: Seq<u8>) -> Seq<u8> {
    seq![0x19u8, 0x01u8] + domain_separator + struct_hash
}

/// The signing digest of a domain separator and a struct hash.
pub open spec fn signing_digest_spec(domain_separator: Seq<u8>, struct_hash: Seq<u8>) -> Seq<u8> {
    keccak256_of(signing_preimage(domain_separator, struct_hash))
}

/// The digest that is signed for `message` under a domain separator.
pub open spec fn hash_message_spec(domain_separator: Seq<u8>, message: AttestView) -> Seq<u8> {
    signing_digest_spec(domain_separator, struct_hash_spec(message))
}

/// The digest components of a message in a domain: the domain's separator
/// for the domain's schema, and the message's struct hash.
pub open spec fn digest_components_spec(domain: DomainView, message: AttestView) -> DigestComponentsView {
    DigestComponentsView {
        domain_separator: domain_separator_spec(domain, domain_type_hash_spec()),
        message_digest: struct_hash_spec(message),
    }
}

/// The digest that is signed for `message` in `domain`: the signing
/// digest under the domain's separator for the domain's schema.
pub open spec fn typed_data_digest_spec(domain: DomainView, message: AttestView) -> Seq<u8> {
    hash_message_spec(domain_separator_spec(domain, domain_type_hash_spec()), message)
}

/// The hash of the domain's schema string.
pub fn domain_type_hash() -> (hash: [u8; 32])
    ensures
        hash@ == domain_type_hash_spec(),
{
    hash_text(DOMAIN_TYPE)
}

/// The hash of the message's schema string.
pub fn attest_type_hash() -> (hash: [u8; 32])
    ensures
        hash@ == attest_type_hash_spec(),
{
    hash_text(ATTEST_TYPE)
}

/// Encodes a domain for hashing, given the hashes of its name and version.
pub fn encode_domain(
    domain: &TypedDomain,
    type_hash: [u8; 32],
    name_hash: [u8; 32],
    version_hash: [u8; 32],
) -> (encoded: Vec<u8>)
    ensures
        encoded@ == domain_encoding(domain@, type_hash@, name_hash@, version_hash@),
{
    let mut tokens: Vec<AbiToken> = Vec::new();
    push_token(&mut tokens, AbiToken::FixedBytes(type_hash));
    push_token(&mut tokens, AbiToken::FixedBytes(name_hash));
    push_token(&mut tokens, AbiToken::FixedBytes(version_hash));
    push_token(&mut tokens, AbiToken::Uint(domain.chain_id));
    push_token(&mut tokens, AbiToken::Address(domain.verifying_contract));
    assert(abi_encoding(tokens@) =~= domain_encoding(
        domain@,
        type_hash@,
        name_hash@,
        version_hash@,
    ));
    abi_encode(&tokens)
}

/// Computes the domain separator of `domain` under the given type hash.
pub fn domain_separator(domain: &TypedDomain, type_hash: [u8; 32]) -> (separator: [u8; 32])
    ensures
        separator@ == domain_separator_spec(domain@, type_hash@),
{
    let name_hash = hash_text(domain.name.as_str());
    let version_hash = hash_text(domain.version.as_str());
    let encoded = encode_domain(domain, type_hash, name_hash, version_hash);
    hash_bytes(encoded.as_slice())
}

/// Encodes a message for hashing, given the hash of its data.
pub fn encode_attest(message: &Attest, type_hash: [u8; 32], data_hash: [u8; 32]) -> (encoded: Vec<u8>)
    ensures
        encoded@ == attest_encoding(message@, type_hash@, data_hash@),
{
    let mut tokens: Vec<AbiToken> = Vec::new();
    push_token(&mut tokens, AbiToken::FixedBytes(type_hash));
    push_token(&mut tokens, AbiToken::Uint(word_of_u64(message.version as u64)));
    push_token(&mut tokens, AbiToken::FixedBytes(message.schema));
    push_token(&mut tokens, AbiToken::Address(message.recipient));
    push_token(&mut tokens, AbiToken::Uint(word_of_u64(message.time)));
    push_token(&mut tokens, AbiToken::Uint(word_of_u64(message.expiration_time)));
    push_token(&mut tokens, AbiToken::Bool(message.revocable));
    push_token(&mut tokens, AbiToken::FixedBytes(message.ref_uid));
    push_token(&mut tokens, AbiToken::FixedBytes(data_hash));
    push_token(&mut tokens, AbiToken::FixedBytes(message.salt));
    assert(abi_encoding(tokens@) =~= attest_encoding(message@, type_hash@, data_hash@));
    abi_encode(&tokens)
}

/// Computes the struct hash of `message`.
pub fn struct_hash(message: &Attest) -> (hash: [u8; 32])
    ensures
        hash@ == struct_hash_spec(message@),
{
    let type_hash = attest_type_hash();
    let data_hash = hash_bytes(message.data.as_slice());
    let encoded = encode_attest(message, type_hash, data_hash);
    hash_bytes(encoded.as_slice())
}

/// Lays out the bytes that are hashed into a signing digest.
pub fn encode_signing_preimage(domain_separator: &[u8; 32], struct_hash: &[u8; 32]) -> (combined: Vec<
    u8,
>)
    ensures
        combined@ == signing_preimage(domain_separator@, struct_hash@),
{
    let mut combined: Vec<u8> = Vec::new();
    combined.push(0x19);
    combined.push(0x01);
    append_bytes(&mut combined, domain_separator.as_slice());
    append_bytes(&mut combined, struct_hash.as_slice());
    assert(combined@ =~= signing_preimage(domain_separator@, struct_hash@));
    combined
}

/// Computes the signing digest from a domain separator and a struct hash.
pub fn signing_digest(domain_separator: &[u8; 32], struct_hash: &[u8; 32]) -> (digest: [u8; 32])
    ensures
        digest@ == signing_digest_spec(domain_separator@, struct_hash@),
{
    let combined = encode_signing_preimage(domain_separator, struct_hash);
    hash_bytes(combined.as_slice())
}

/// Computes the digest that is signed for `message` under a domain
/// separator: the signing digest of the separator and the message's struct
/// hash.
pub fn hash_message(domain_separator: &[u8; 32], message: &Attest) -> (digest: [u8; 32])
    ensures
        digest@ == hash_message_spec(domain_separator@, message@),
{
    let hashed_message = struct_hash(message);
    signing_digest(domain_separator, &hashed_message)
}

/// Computes the digest that is signed for `message` in `domain`.
pub fn typed_data_digest(domain: &TypedDomain, message: &Attest) -> (digest: [u8; 32])
    ensures
        digest@ == typed_data_digest_spec(domain@, message@),
{
    let separator = domain_separator(domain, domain_type_hash());
    hash_message(&separator, message)
}

impl DigestComponents {
    /// Derives the digest components of `message` in `domain`.
    pub fn derive(domain: &TypedDomain, message: &Attest) -> (components: DigestComponents)
        ensures
            components@ == digest_components_spec(domain@, message@),
    {
        DigestComponents {
            domain_separator: domain_separator(domain, domain_type_hash()),
            message_digest: struct_hash(message),
        }
    }

    /// Combines the two hashes into the signing digest.
    pub fn signing_digest(&self) -> (digest: [u8; 32])
        ensures
            digest@ == signing_digest_spec(self@.domain_separator, self@.message_digest),
    {
        signing_digest(&self.domain_separator, &self.message_digest)
    }
}

/// Copies a message.
pub fn clone_attest(message: &Attest) -> (copy: Attest)
    ensures
        copy@ == message@,
{
    let mut data: Vec<u8> = Vec::new();
    append_bytes(&mut data, message.data.as_slice());
    Attest {
        version: message.version,
        schema: message.schema,
        recipient: message.recipient,
        time: message.time,
        expiration_time: message.expiration_time,
        revocable: message.revocable,
        ref_uid: message.ref_uid,
        data,
        salt: message.salt,
    }
}

} // verus!
