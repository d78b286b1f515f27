use age_attestation::errors::AttestError;
use age_attestation::journal::{decode_journal, encode_journal, PublicJournal, JOURNAL_LEN};
use age_attestation::signature::Signature;
use age_attestation::typed_data::Attest;
use age_attestation::witness::{
    decode_witness, encode_witness, PredicateWitness, WITNESS_HEAD_LEN, WITNESS_TAIL_LEN,
};
use age_attestation::word::{
    append_bytes, be_bytes_of_u64, read_array, read_u64, same_bytes, small_word_value,
};

fn journal() -> PublicJournal {
    PublicJournal {
        signer: [0x11; 20],
        threshold_age: 18,
        reference_timestamp: 0x0102030405060708,
        binding_hash: [0x22; 32],
    }
}

fn witness(data: Vec<u8>) -> PredicateWitness {
    PredicateWitness {
        signer: [0x01; 20],
        signature: Signature { r: [0x02; 32], s: [0x03; 32], v: 28 },
        domain_separator: [0x04; 32],
        message: Attest {
            version: 0x0506,
            schema: [0x07; 32],
            recipient: [0x08; 20],
            time: 0x090a0b0c0d0e0f10,
            expiration_time: 0x1112131415161718,
            revocable: true,
            ref_uid: [0x19; 32],
            data,
            salt: [0x1a; 32],
        },
        threshold_age: 0x1b,
        reference_timestamp: 0x1c1d1e1f20212223,
    }
}

#[test]
fn journal_bytes_are_laid_out_field_by_field() {
    let bytes = encode_journal(&journal());
    assert_eq!(bytes.len(), JOURNAL_LEN);
    assert_eq!(JOURNAL_LEN, 61);
    let mut expected = vec![0x11u8; 20];
    expected.push(18);
    expected.extend_from_slice(&[1, 2, 3, 4, 5, 6, 7, 8]);
    expected.extend_from_slice(&[0x22; 32]);
    assert_eq!(bytes, expected);
}

#[test]
fn journal_survives_the_wire() {
    assert_eq!(decode_journal(&encode_journal(&journal())), Ok(journal()));
    let extreme = PublicJournal {
        signer: [0xff; 20],
        threshold_age: 255,
        reference_timestamp: u64::MAX,
        binding_hash: [0; 32],
    };
    assert_eq!(decode_journal(&encode_journal(&extreme)), Ok(extreme));
}

#[test]
fn journal_of_another_shape_is_verification_error() {
    let mut bytes = encode_journal(&journal());
    bytes.push(0);
    assert_eq!(decode_journal(&bytes), Err(AttestError::VerificationError));
    bytes.truncate(60);
    assert_eq!(decode_journal(&bytes), Err(AttestError::VerificationError));
    assert_eq!(decode_journal(&[]), Err(AttestError::VerificationError));
}

#[test]
fn every_journal_of_61_bytes_decodes_and_encodes_back() {
    let bytes: Vec<u8> = (0..61u8).map(|i| i.wrapping_mul(37)).collect();
    let decoded = decode_journal(&bytes).unwrap();
    assert_eq!(encode_journal(&decoded), bytes);
}

#[test]
fn witness_bytes_are_laid_out_field_by_field() {
    let bytes = encode_witness(&witness(vec![0xd0, 0xd1, 0xd2]));
    assert_eq!(bytes.len(), WITNESS_HEAD_LEN + WITNESS_TAIL_LEN + 3);
    let mut expected = vec![0x01u8; 20];
    expected.extend_from_slice(&[0x02; 32]);
    expected.extend_from_slice(&[0x03; 32]);
    expected.extend_from_slice(&[0, 0, 0, 0, 0, 0, 0, 28]);
    expected.extend_from_slice(&[0x04; 32]);
    expected.extend_from_slice(&[0x05, 0x06]);
    expected.extend_from_slice(&[0x07; 32]);
    expected.extend_from_slice(&[0x08; 20]);
    expected.extend_from_slice(&[0x09, 0x0a, 0x0b, 0x0c, 0x0d, 0x0e, 0x0f, 0x10]);
    expected.extend_from_slice(&[0x11, 0x12, 0x13, 0x14, 0x15, 0x16, 0x17, 0x18]);
    expected.push(1);
    expected.extend_from_slice(&[0x19; 32]);
    assert_eq!(expected.len(), 227);
    expected.extend_from_slice(&[0, 0, 0, 0, 0, 0, 0, 3]);
    assert_eq!(expected.len(), WITNESS_HEAD_LEN);
    expected.extend_from_slice(&[0xd0, 0xd1, 0xd2]);
    expected.extend_from_slice(&[0x1a; 32]);
    expected.push(0x1b);
    expected.extend_from_slice(&[0x1c, 0x1d, 0x1e, 0x1f, 0x20, 0x21, 0x22, 0x23]);
    assert_eq!(bytes, expected);
}

#[test]
fn witness_survives_the_wire() {
    for data in [Vec::new(), vec![7u8], vec![0xaau8; 96], vec![0x55u8; 1000]] {
        let sent = witness(data);
        assert_eq!(decode_witness(&encode_witness(&sent)), Ok(sent));
    }
    let mut plain = witness(vec![1, 2, 3]);
    plain.message.revocable = false;
    assert_eq!(decode_witness(&encode_witness(&plain)), Ok(plain));
}

#[test]
fn witness_of_another_shape_is_input_error() {
    let bytes = encode_witness(&witness(vec![1, 2, 3]));
    assert_eq!(decode_witness(&bytes[..bytes.len() - 1]), Err(AttestError::InputError));
    let mut longer = bytes.clone();
    longer.push(0);
    assert_eq!(decode_witness(&longer), Err(AttestError::InputError));
    let mut flag = bytes.clone();
    flag[194] = 2;
    assert_eq!(decode_witness(&flag), Err(AttestError::InputError));
    let mut length = bytes.clone();
    length[227] = 1;
    assert_eq!(decode_witness(&length), Err(AttestError::InputError));
    assert_eq!(decode_witness(&[]), Err(AttestError::InputError));
    assert_eq!(decode_witness(&vec![0u8; 275]), Err(AttestError::InputError));
    assert!(decode_witness(&vec![0u8; 276]).is_ok());
}

#[test]
fn decoded_witness_encodes_back_to_the_same_bytes() {
    let mut bytes: Vec<u8> = (0..286u32).map(|i| (i * 7 % 251) as u8).collect();
    bytes[194] = 0;
    bytes[227..235].copy_from_slice(&10u64.to_be_bytes());
    let decoded = decode_witness(&bytes).unwrap();
    assert_eq!(encode_witness(&decoded), bytes);
}

#[test]
fn u64_is_written_and_read_big_endian() {
    assert_eq!(be_bytes_of_u64(0x0102030405060708), [1, 2, 3, 4, 5, 6, 7, 8]);
    assert_eq!(be_bytes_of_u64(u64::MAX), [255; 8]);
    assert_eq!(be_bytes_of_u64(0), [0; 8]);
    let bytes = [9u8, 1, 2, 3, 4, 5, 6, 7, 8, 9];
    assert_eq!(read_u64(&bytes, 1), 0x0102030405060708);
    assert_eq!(read_u64(&[255; 8], 0), u64::MAX);
}

#[test]
fn arrays_are_read_from_an_offset() {
    let bytes: Vec<u8> = (0..40u8).collect();
    let array: [u8; 4] = read_array::<4>(&bytes, 3);
    assert_eq!(array, [3, 4, 5, 6]);
    let whole: [u8; 40] = read_array::<40>(&bytes, 0);
    assert_eq!(whole.to_vec(), bytes);
    let none: [u8; 0] = read_array::<0>(&bytes, 40);
    assert_eq!(none.len(), 0);
}

#[test]
fn bytes_are_appended_in_order() {
    let mut out = vec![1u8, 2];
    append_bytes(&mut out, &[3, 4, 5]);
    append_bytes(&mut out, &[]);
    assert_eq!(out, vec![1, 2, 3, 4, 5]);
}

#[test]
fn byte_arrays_are_compared_in_full() {
    assert!(same_bytes(&[1u8, 2, 3], &[1, 2, 3]));
    assert!(!same_bytes(&[1u8, 2, 3], &[1, 2, 4]));
    assert!(!same_bytes(&[0u8, 2, 3], &[1, 2, 3]));
    assert!(same_bytes::<0>(&[], &[]));
}

#[test]
fn small_word_values_are_below_65536() {
    let mut word = [0u8; 32];
    assert_eq!(small_word_value(&word), Some(0));
    word[31] = 0x34;
    word[30] = 0x12;
    assert_eq!(small_word_value(&word), Some(0x1234));
    word[30] = 0xff;
    word[31] = 0xff;
    assert_eq!(small_word_value(&word), Some(65535));
    word[29] = 1;
    assert_eq!(small_word_value(&word), None);
    word[29] = 0;
    word[0] = 1;
    assert_eq!(small_word_value(&word), None);
}
