//! The public journal: the only values that a proof discloses.

use vstd::prelude::*;
use crate::errors::{result_view, AttestError};
use crate::word::{
    append_bytes, be_bytes_of_u64, be_bytes_u64, lemma_bytes_u64_round_trip,
    lemma_u64_bytes_round_trip, read_array, read_u64, u64_of_be_bytes,
};

verus! {

/// What the protocol discloses: who signed, which threshold was met, at
/// which reference time, and the digest that binds the proof to the signed
/// attestation. It holds no birth date and nothing of the signature.
#[derive(Debug, Clone, Copy, PartialEq, Eq)]
pub struct PublicJournal {
    pub signer: [u8; 20],
    pub threshold_age: u8,
    pub reference_timestamp: u64,
    pub binding_hash: [u8; 32],
}

/// A journal as plain values.
pub struct JournalView {
    pub signer: Seq<u8>,
    pub threshold_age: u8,
    pub reference_timestamp: u64,
    pub binding_hash: Seq<u8>,
}

impl View for PublicJournal {
    type V = JournalView;

    open spec fn view(&self) -> JournalView {
        JournalView {
            signer: self.signer@,
            threshold_age: self.threshold_age,
            reference_timestamp: self.reference_timestamp,
            binding_hash: self.binding_hash@,
        }
    }
}

/// The length of a journal on the wire.
pub const JOURNAL_LEN: usize = 61;

impl JournalView {
    /// Whether the signer has 20 bytes and the binding hash 32.
    pub open spec fn well_formed(self) -> bool {
        self.signer.len() == 20 && self.binding_hash.len() == 32
    }
}

/// A journal on the wire: the signer's 20 bytes, the threshold as one
/// byte, the reference time as eight big-endian bytes and the 32 bytes of
/// the binding hash.
pub open spec fn journal_bytes(journal: JournalView) -> Seq<u8> {
    journal.signer + seq![journal.threshold_age] + be_bytes_u64(journal.reference_timestamp)
        + journal.binding_hash
}

/// The journal that bytes from the wire hold. Bytes of any other length
/// than a journal's have another shape: the receipt they came with was
/// made by another program, so it does not count as verified.
pub open spec fn journal_from_bytes(bytes: Seq<u8>) -> Result<JournalView, AttestError> {
    if bytes.len() == JOURNAL_LEN {
        Ok(
            JournalView {
                signer: bytes.subrange(0, 20),
                threshold_age: bytes[20],
                reference_timestamp: u64_of_be_bytes(bytes.subrange(21, 29)),
                binding_hash: bytes.subrange(29, 61),
            },
        )
    } else {
        Err(AttestError::VerificationError)
    }
}

/// Decoding the bytes of a journal gives the journal back.
pub proof fn lemma_journal_round_trip(journal: JournalView)
    requires
        journal.well_formed(),
    ensures
        journal_from_bytes(journal_bytes(journal)) == Ok::<JournalView, AttestError>(journal),
{
    let bytes = journal_bytes(journal);
    lemma_u64_bytes_round_trip(journal.reference_timestamp);
    assert(bytes.subrange(0, 20) =~= journal.signer);
    assert(bytes.subrange(21, 29) =~= be_bytes_u64(journal.reference_timestamp));
    assert(bytes.subrange(29, 61) =~= journal.binding_hash);
}

/// Bytes that decode to a journal are the bytes of that journal, so no
/// two byte strings hold the same journal.
pub proof fn lemma_journal_bytes_unique(bytes: Seq<u8>)
    requires
        journal_from_bytes(bytes) is Ok,
    ensures
        journal_from_bytes(bytes)->Ok_0.well_formed(),
        journal_bytes(journal_from_bytes(bytes)->Ok_0) == bytes,
{
    let journal = journal_from_bytes(bytes)->Ok_0;
    lemma_bytes_u64_round_trip(bytes.subrange(21, 29));
    assert(journal_bytes(journal) =~= bytes);
}

/// Writes a journal out for the wire.
pub fn encode_journal(journal: &PublicJournal) -> (bytes: Vec<u8>)
    ensures
        journal@.well_formed(),
        bytes@ == journal_bytes(journal@),
{
    let mut bytes: Vec<u8> = Vec::new();
    append_bytes(&mut bytes, journal.signer.as_slice());
    bytes.push(journal.threshold_age);
    let time = be_bytes_of_u64(journal.reference_timestamp);
    append_bytes(&mut bytes, time.as_slice());
    append_bytes(&mut bytes, journal.binding_hash.as_slice());
    assert(bytes@ =~= journal_bytes(journal@));
    bytes
}

/// Reads a journal from the wire; bytes of another shape are refused.
pub fn decode_journal(bytes: &[u8]) -> (journal: Result<PublicJournal, AttestError>)
    ensures
        result_view(journal) == journal_from_bytes(bytes@),
{
    if bytes.len() != JOURNAL_LEN {
        return Err(AttestError::VerificationError);
    }
    Ok(
        PublicJournal {
            signer: read_array::<20>(bytes, 0),
            threshold_age: bytes[20],
            reference_timestamp: read_u64(bytes, 21),
            binding_hash: read_array::<32>(bytes, 29),
        },
    )
}

} // verus!
