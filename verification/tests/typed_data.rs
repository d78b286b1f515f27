use age_attestation::keccak::{hash_bytes, hash_text};
use ethers_core::abi::Token;
use ethers_core::types::{H160, U256};
use age_attestation::typed_data::{
    attest_type_hash, domain_separator, domain_type_hash, encode_attest, encode_domain,
    encode_signing_preimage, hash_message, signing_digest, struct_hash, typed_data_digest, Attest,
    DigestComponents, TypedDomain, ATTEST_TYPE, DOMAIN_TYPE,
};
use age_attestation::word::word_of_u64;

fn unhex(text: &str) -> Vec<u8> {
    hex::decode(text).unwrap()
}

fn unhex32(text: &str) -> [u8; 32] {
    let mut out = [0u8; 32];
    out.copy_from_slice(&unhex(text));
    out
}

fn unhex20(text: &str) -> [u8; 20] {
    let mut out = [0u8; 20];
    out.copy_from_slice(&unhex(text));
    out
}

fn chain_id_word(id: u64) -> [u8; 32] {
    word_of_u64(id)
}

fn sepolia_domain() -> TypedDomain {
    TypedDomain {
        name: String::from("Attestation"),
        version: String::from("1"),
        chain_id: chain_id_word(11155111),
        verifying_contract: unhex20("c2679fbd37d54388ce493f1db75320d236e1815e"),
    }
}

fn sample_message() -> Attest {
    Attest {
        version: 1,
        schema: [0x11; 32],
        recipient: [0x22; 20],
        time: 1_700_000_000,
        expiration_time: 0,
        revocable: true,
        ref_uid: [0; 32],
        data: vec![1, 2, 3, 4, 5],
        salt: [0x33; 32],
    }
}

#[test]
fn keccak_of_empty_input() {
    assert_eq!(
        hash_bytes(&[]),
        unhex32("c5d2460186f7233c927e7db2dcc703c0e500b653ca82273b7bfad8045d85a470")
    );
}

#[test]
fn keccak_of_text_is_keccak_of_its_bytes() {
    assert_eq!(hash_text("abc"), hash_bytes(b"abc"));
    assert_eq!(
        hash_text("abc"),
        unhex32("4e03657aea45a94fc7d47ba826c8d667c0d1e6e33a64a036ec44f58fa12d6c45")
    );
}

#[test]
fn domain_type_hash_is_the_well_known_value() {
    assert_eq!(
        domain_type_hash(),
        unhex32("8b73c3c69bb8fe3d512ecc4cf759cc79239f7b179b0ffacaa9a75d522b39400f")
    );
    assert_eq!(domain_type_hash(), hash_text(DOMAIN_TYPE));
}

#[test]
fn attest_type_hash_is_hash_of_schema_string() {
    assert_eq!(attest_type_hash(), ethers_core::utils::keccak256(ATTEST_TYPE.as_bytes()));
    assert_eq!(
        ATTEST_TYPE,
        "Attest(uint16 version,bytes32 schema,address recipient,uint64 time,uint64 expirationTime,bool revocable,bytes32 refUID,bytes data,bytes32 salt)"
    );
}

#[test]
fn word_of_u64_is_big_endian_in_the_last_eight_bytes() {
    let word = word_of_u64(0x0102030405060708);
    let mut expected = [0u8; 32];
    expected[24..].copy_from_slice(&[1, 2, 3, 4, 5, 6, 7, 8]);
    assert_eq!(word, expected);
    assert_eq!(word_of_u64(0), [0u8; 32]);
    assert_eq!(&word_of_u64(11155111)[28..], &[0x00, 0xaa, 0x36, 0xa7]);
    assert_eq!(&word_of_u64(u64::MAX)[23..], &[0, 255, 255, 255, 255, 255, 255, 255, 255]);
}

#[test]
fn encode_domain_lays_out_five_words() {
    let domain = sepolia_domain();
    let encoded = encode_domain(&domain, [0xaa; 32], [0xbb; 32], [0xcc; 32]);
    let mut expected = Vec::new();
    expected.extend_from_slice(&[0xaa; 32]);
    expected.extend_from_slice(&[0xbb; 32]);
    expected.extend_from_slice(&[0xcc; 32]);
    expected.extend_from_slice(&unhex(
        "0000000000000000000000000000000000000000000000000000000000aa36a7",
    ));
    expected.extend_from_slice(&unhex(
        "000000000000000000000000c2679fbd37d54388ce493f1db75320d236e1815e",
    ));
    assert_eq!(encoded, expected);
}

#[test]
fn encode_attest_lays_out_ten_words() {
    let message = sample_message();
    let encoded = encode_attest(&message, [0xaa; 32], [0xdd; 32]);
    assert_eq!(encoded.len(), 320);
    let mut expected = Vec::new();
    expected.extend_from_slice(&[0xaa; 32]);
    expected.extend_from_slice(&unhex(
        "0000000000000000000000000000000000000000000000000000000000000001",
    ));
    expected.extend_from_slice(&[0x11; 32]);
    expected.extend_from_slice(&unhex(
        "0000000000000000000000002222222222222222222222222222222222222222",
    ));
    expected.extend_from_slice(&unhex(
        "000000000000000000000000000000000000000000000000000000006553f100",
    ));
    expected.extend_from_slice(&[0u8; 32]);
    expected.extend_from_slice(&unhex(
        "0000000000000000000000000000000000000000000000000000000000000001",
    ));
    expected.extend_from_slice(&[0u8; 32]);
    expected.extend_from_slice(&[0xdd; 32]);
    expected.extend_from_slice(&[0x33; 32]);
    assert_eq!(encoded, expected);
}

#[test]
fn encode_attest_writes_false_as_zero_word() {
    let mut message = sample_message();
    message.revocable = false;
    let encoded = encode_attest(&message, [0xaa; 32], [0xdd; 32]);
    assert_eq!(&encoded[192..224], &[0u8; 32]);
}

#[test]
fn domain_separator_matches_the_reference_scheme() {
    let domain = sepolia_domain();
    let reference = ethers_core::types::transaction::eip712::EIP712Domain {
        name: Some(String::from("Attestation")),
        version: Some(String::from("1")),
        chain_id: Some(ethers_core::types::U256::from(11155111u64)),
        verifying_contract: Some(ethers_core::types::H160(domain.verifying_contract)),
        salt: None,
    };
    assert_eq!(domain_separator(&domain, domain_type_hash()), reference.separator());
}

#[test]
fn domain_separator_is_hash_of_encoding() {
    let domain = sepolia_domain();
    let type_hash = domain_type_hash();
    let encoded = encode_domain(&domain, type_hash, hash_text("Attestation"), hash_text("1"));
    assert_eq!(domain_separator(&domain, type_hash), hash_bytes(&encoded));
}

#[test]
fn domain_separator_depends_on_every_field() {
    let base = domain_separator(&sepolia_domain(), domain_type_hash());
    let mut other = sepolia_domain();
    other.name = String::from("attestation");
    assert_ne!(domain_separator(&other, domain_type_hash()), base);
    let mut other = sepolia_domain();
    other.version = String::from("2");
    assert_ne!(domain_separator(&other, domain_type_hash()), base);
    let mut other = sepolia_domain();
    other.chain_id = chain_id_word(1);
    assert_ne!(domain_separator(&other, domain_type_hash()), base);
    let mut other = sepolia_domain();
    other.verifying_contract[19] ^= 1;
    assert_ne!(domain_separator(&other, domain_type_hash()), base);
    assert_ne!(domain_separator(&sepolia_domain(), [0u8; 32]), base);
}

#[test]
fn struct_hash_is_hash_of_encoding_with_hashed_data() {
    let message = sample_message();
    let encoded = encode_attest(&message, attest_type_hash(), hash_bytes(&message.data));
    assert_eq!(struct_hash(&message), hash_bytes(&encoded));
}

#[test]
fn struct_hash_matches_an_independent_encoding() {
    let message = sample_message();
    let encoded = ethers_core::abi::encode(&[
        Token::FixedBytes(ethers_core::utils::keccak256(ATTEST_TYPE.as_bytes()).to_vec()),
        Token::Uint(U256::from(message.version)),
        Token::FixedBytes(message.schema.to_vec()),
        Token::Address(H160(message.recipient)),
        Token::Uint(U256::from(message.time)),
        Token::Uint(U256::from(message.expiration_time)),
        Token::Bool(message.revocable),
        Token::FixedBytes(message.ref_uid.to_vec()),
        Token::FixedBytes(ethers_core::utils::keccak256(&message.data).to_vec()),
        Token::FixedBytes(message.salt.to_vec()),
    ]);
    assert_eq!(struct_hash(&message), ethers_core::utils::keccak256(&encoded));
}

#[test]
fn signing_preimage_has_prefix_then_both_hashes() {
    let preimage = encode_signing_preimage(&[0x01; 32], &[0x02; 32]);
    assert_eq!(preimage.len(), 66);
    assert_eq!(&preimage[..2], &[0x19, 0x01]);
    assert_eq!(&preimage[2..34], &[0x01; 32]);
    assert_eq!(&preimage[34..], &[0x02; 32]);
}

#[test]
fn signing_digest_is_hash_of_preimage() {
    let separator = [0x07; 32];
    let hashed = [0x09; 32];
    let mut preimage = vec![0x19, 0x01];
    preimage.extend_from_slice(&separator);
    preimage.extend_from_slice(&hashed);
    assert_eq!(signing_digest(&separator, &hashed), ethers_core::utils::keccak256(&preimage));
}

#[test]
fn hash_message_combines_struct_hash_and_separator() {
    let message = sample_message();
    let separator = domain_separator(&sepolia_domain(), domain_type_hash());
    assert_eq!(
        hash_message(&separator, &message),
        signing_digest(&separator, &struct_hash(&message))
    );
}

#[test]
fn signing_digest_is_deterministic() {
    let message = sample_message();
    let domain = sepolia_domain();
    let first = hash_message(&domain_separator(&domain, domain_type_hash()), &message);
    let second = hash_message(&domain_separator(&domain, domain_type_hash()), &message);
    assert_eq!(first, second);
    assert_eq!(first.len(), 32);
}

#[test]
fn hash_message_changes_with_data() {
    let separator = [0x07; 32];
    let message = sample_message();
    let mut other = sample_message();
    other.data.push(0);
    assert_ne!(hash_message(&separator, &message), hash_message(&separator, &other));
}

#[test]
fn digest_components_combine_to_the_signing_digest() {
    let domain = sepolia_domain();
    let message = sample_message();
    let components = DigestComponents::derive(&domain, &message);
    assert_eq!(components.domain_separator, domain_separator(&domain, domain_type_hash()));
    assert_eq!(components.message_digest, struct_hash(&message));
    assert_eq!(components.signing_digest(), typed_data_digest(&domain, &message));
}

