//! The predicate witness: the ordered record that the evaluator reads, and
//! its form on the wire.

use vstd::prelude::*;
use crate::errors::{result_view, AttestError};
use crate::signature::{Signature, SignatureView};
use crate::typed_data::{Attest, AttestView};
use crate::word::{
    append_bytes, be_bytes_of_u64, be_bytes_u64, lemma_bytes_u64_round_trip,
    lemma_u64_bytes_round_trip, read_array, read_u64, u64_of_be_bytes,
};

verus! {

/// What the evaluator needs and nothing more, in the order of the wire:
/// the claimed signer, the signature, the domain separator and the message
/// from which the signed digest is rederived, the threshold in years and
/// the reference time. The birth date travels inside the message's data.
#[derive(Debug, Clone, PartialEq, Eq)]
pub struct PredicateWitness {
    pub signer: [u8; 20],
    pub signature: Signature,
    pub domain_separator: [u8; 32],
    pub message: Attest,
    pub threshold_age: u8,
    pub reference_timestamp: u64,
}

/// A witness as plain values.
pub struct WitnessView {
    pub signer: Seq<u8>,
    pub signature: SignatureView,
    pub domain_separator: Seq<u8>,
    pub message: AttestView,
    pub threshold_age: u8,
    pub reference_timestamp: u64,
}

impl View for PredicateWitness {
    type V = WitnessView;

    open spec fn view(&self) -> WitnessView {
        WitnessView {
            signer: self.signer@,
            signature: self.signature@,
            domain_separator: self.domain_separator@,
            message: self.message@,
            threshold_age: self.threshold_age,
            reference_timestamp: self.reference_timestamp,
        }
    }
}

/// The bytes of a witness before its message's data.
pub const WITNESS_HEAD_LEN: usize = 235;

/// The bytes of a witness after its message's data.
pub const WITNESS_TAIL_LEN: usize = 41;

impl WitnessView {
    /// Whether every field has the length of its type, and the data a
    /// length that fits the wire.
    pub open spec fn well_formed(self) -> bool {
        &&& self.signer.len() == 20
        &&& self.signature.r.len() == 32
        &&& self.signature.s.len() == 32
        &&& self.domain_separator.len() == 32
        &&& self.message.schema.len() == 32
        &&& self.message.recipient.len() == 20
        &&& self.message.ref_uid.len() == 32
        &&& self.message.salt.len() == 32
        &&& self.message.data.len() <= u64::MAX
    }
}

/// The two big-endian bytes of a 16-bit number.
pub open spec fn be_bytes_u16(value: u16) -> Seq<u8> {
    seq![(value / 256) as u8, (value % 256) as u8]
}

/// The number that two big-endian bytes hold.
pub open spec fn u16_of_be_bytes(bytes: Seq<u8>) -> u16 {
    (bytes[0] as u16 * 256 + bytes[1] as u16) as u16
}

/// The fixed-length fields of a witness that come before the data, in the
/// order of the wire, each in big-endian bytes: signer, `r`, `s`, `v`,
/// domain separator, and of the message the version, schema, recipient,
/// time, expiration time, the revocable flag as one byte and the reference
/// UID.
pub open spec fn witness_head(witness: WitnessView) -> Seq<u8> {
    witness.signer + witness.signature.r + witness.signature.s + be_bytes_u64(witness.signature.v)
        + witness.domain_separator + be_bytes_u16(witness.message.version) + witness.message.schema
        + witness.message.recipient + be_bytes_u64(witness.message.time) + be_bytes_u64(
        witness.message.expiration_time,
    ) + seq![if witness.message.revocable { 1u8 } else { 0u8 }] + witness.message.ref_uid
}

/// The fields of a witness that come after the data: the message's salt,
/// the threshold and the reference time.
pub open spec fn witness_tail(witness: WitnessView) -> Seq<u8> {
    witness.message.salt + seq![witness.threshold_age] + be_bytes_u64(witness.reference_timestamp)
}

/// A witness on the wire: its head, the length of the data as eight
/// big-endian bytes, the data, and its tail.
pub open spec fn witness_bytes(witness: WitnessView) -> Seq<u8> {
    witness_head(witness) + be_bytes_u64(witness.message.data.len() as u64) + witness.message.data
        + witness_tail(witness)
}

/// Whether bytes have the shape of a witness: a head, a length, as many
/// bytes of data, a tail and nothing more, with 0 or 1 for the flag.
pub open spec fn is_witness_shape(bytes: Seq<u8>) -> bool {
    &&& bytes.len() >= WITNESS_HEAD_LEN + WITNESS_TAIL_LEN
    &&& bytes.len() == WITNESS_HEAD_LEN + WITNESS_TAIL_LEN + u64_of_be_bytes(bytes.subrange(227, 235))
    &&& bytes[194] <= 1
}

/// The witness that bytes from the wire hold; an input error where they
/// do not have the shape of one.
pub open spec fn witness_from_bytes(bytes: Seq<u8>) -> Result<WitnessView, AttestError> {
    if is_witness_shape(bytes) {
        let end = bytes.len() - WITNESS_TAIL_LEN;
        Ok(
            WitnessView {
                signer: bytes.subrange(0, 20),
                signature: SignatureView {
                    r: bytes.subrange(20, 52),
                    s: bytes.subrange(52, 84),
                    v: u64_of_be_bytes(bytes.subrange(84, 92)),
                },
                domain_separator: bytes.subrange(92, 124),
                message: AttestView {
                    version: u16_of_be_bytes(bytes.subrange(124, 126)),
                    schema: bytes.subrange(126, 158),
                    recipient: bytes.subrange(158, 178),
                    time: u64_of_be_bytes(bytes.subrange(178, 186)),
                    expiration_time: u64_of_be_bytes(bytes.subrange(186, 194)),
                    revocable: bytes[194] == 1,
                    ref_uid: bytes.subrange(195, 227),
                    data: bytes.subrange(235, end),
                    salt: bytes.subrange(end, end + 32),
                },
                threshold_age: bytes[end + 32],
                reference_timestamp: u64_of_be_bytes(bytes.subrange(end + 33, end + 41)),
            },
        )
    } else {
        Err(AttestError::InputError)
    }
}

/// The fields of a head lie where the wire has them.
proof fn lemma_head_fields(witness: WitnessView)
    requires
        witness.well_formed(),
    ensures
        witness_head(witness).len() == 227,
        witness_head(witness).subrange(0, 20) == witness.signer,
        witness_head(witness).subrange(20, 52) == witness.signature.r,
        witness_head(witness).subrange(52, 84) == witness.signature.s,
        witness_head(witness).subrange(84, 92) == be_bytes_u64(witness.signature.v),
        witness_head(witness).subrange(92, 124) == witness.domain_separator,
        witness_head(witness).subrange(124, 126) == be_bytes_u16(witness.message.version),
        witness_head(witness).subrange(126, 158) == witness.message.schema,
        witness_head(witness).subrange(158, 178) == witness.message.recipient,
        witness_head(witness).subrange(178, 186) == be_bytes_u64(witness.message.time),
        witness_head(witness).subrange(186, 194) == be_bytes_u64(witness.message.expiration_time),
        witness_head(witness)[194] == if witness.message.revocable {
            1u8
        } else {
            0u8
        },
        witness_head(witness).subrange(195, 227) == witness.message.ref_uid,
{
    let head = witness_head(witness);
    assert(head.subrange(0, 20) =~= witness.signer);
    assert(head.subrange(20, 52) =~= witness.signature.r);
    assert(head.subrange(52, 84) =~= witness.signature.s);
    assert(head.subrange(84, 92) =~= be_bytes_u64(witness.signature.v));
    assert(head.subrange(92, 124) =~= witness.domain_separator);
    assert(head.subrange(124, 126) =~= be_bytes_u16(witness.message.version));
    assert(head.subrange(126, 158) =~= witness.message.schema);
    assert(head.subrange(158, 178) =~= witness.message.recipient);
    assert(head.subrange(178, 186) =~= be_bytes_u64(witness.message.time));
    assert(head.subrange(186, 194) =~= be_bytes_u64(witness.message.expiration_time));
    assert(head.subrange(195, 227) =~= witness.message.ref_uid);
}

/// The fields of a tail lie where the wire has them.
proof fn lemma_tail_fields(witness: WitnessView)
    requires
        witness.well_formed(),
    ensures
        witness_tail(witness).len() == 41,
        witness_tail(witness).subrange(0, 32) == witness.message.salt,
        witness_tail(witness)[32] == witness.threshold_age,
        witness_tail(witness).subrange(33, 41) == be_bytes_u64(witness.reference_timestamp),
{
    let tail = witness_tail(witness);
    assert(tail.subrange(0, 32) =~= witness.message.salt);
    assert(tail.subrange(33, 41) =~= be_bytes_u64(witness.reference_timestamp));
}

/// The four parts of a byte string that is made of four parts.
proof fn lemma_four_parts(head: Seq<u8>, length: Seq<u8>, data: Seq<u8>, tail: Seq<u8>)
    ensures
        ({
            let all = head + length + data + tail;
            let a = head.len() as int;
            let b = a + length.len();
            let c = b + data.len();
            let d = c + tail.len();
            &&& all.len() == d
            &&& all.subrange(0, a) == head
            &&& all.subrange(a, b) == length
            &&& all.subrange(b, c) == data
            &&& all.subrange(c, d) == tail
        }),
{
    let all = head + length + data + tail;
    let a = head.len() as int;
    let b = a + length.len();
    let c = b + data.len();
    let d = c + tail.len();
    assert(all.subrange(0, a) =~= head);
    assert(all.subrange(a, b) =~= length);
    assert(all.subrange(b, c) =~= data);
    assert(all.subrange(c, d) =~= tail);
}

/// A part of a part is a part of the whole.
proof fn lemma_subrange_of_subrange(bytes: Seq<u8>, start: int, end: int, from: int, to: int)
    requires
        0 <= start <= end <= bytes.len(),
        0 <= from <= to <= end - start,
    ensures
        bytes.subrange(start, end).subrange(from, to) == bytes.subrange(start + from, start + to),
{
    assert(bytes.subrange(start, end).subrange(from, to) =~= bytes.subrange(
        start + from,
        start + to,
    ));
}

/// Decoding the bytes of a witness gives the witness back.
pub proof fn lemma_witness_round_trip(witness: WitnessView)
    requires
        witness.well_formed(),
    ensures
        witness_from_bytes(witness_bytes(witness)) == Ok::<WitnessView, AttestError>(witness),
{
    let bytes = witness_bytes(witness);
    let head = witness_head(witness);
    let tail = witness_tail(witness);
    let length = be_bytes_u64(witness.message.data.len() as u64);
    let n = witness.message.data.len() as int;
    let end = 235 + n;
    lemma_head_fields(witness);
    lemma_tail_fields(witness);
    lemma_four_parts(head, length, witness.message.data, tail);
    lemma_u64_bytes_round_trip(witness.signature.v);
    lemma_u64_bytes_round_trip(witness.message.time);
    lemma_u64_bytes_round_trip(witness.message.expiration_time);
    lemma_u64_bytes_round_trip(n as u64);
    lemma_u64_bytes_round_trip(witness.reference_timestamp);
    lemma_subrange_of_subrange(bytes, 0, 227, 0, 20);
    lemma_subrange_of_subrange(bytes, 0, 227, 20, 52);
    lemma_subrange_of_subrange(bytes, 0, 227, 52, 84);
    lemma_subrange_of_subrange(bytes, 0, 227, 84, 92);
    lemma_subrange_of_subrange(bytes, 0, 227, 92, 124);
    lemma_subrange_of_subrange(bytes, 0, 227, 124, 126);
    lemma_subrange_of_subrange(bytes, 0, 227, 126, 158);
    lemma_subrange_of_subrange(bytes, 0, 227, 158, 178);
    lemma_subrange_of_subrange(bytes, 0, 227, 178, 186);
    lemma_subrange_of_subrange(bytes, 0, 227, 186, 194);
    lemma_subrange_of_subrange(bytes, 0, 227, 195, 227);
    lemma_subrange_of_subrange(bytes, end, end + 41, 0, 32);
    lemma_subrange_of_subrange(bytes, end, end + 41, 33, 41);
    assert(bytes[194] == head[194]);
    assert(bytes[end + 32] == tail[32]);
    assert(is_witness_shape(bytes));
    let decoded = witness_from_bytes(bytes)->Ok_0;
    assert(decoded.signature == witness.signature);
    assert(decoded.message == witness.message);
}

/// Two parts that touch are one part.
proof fn lemma_join(bytes: Seq<u8>, start: int, middle: int, end: int)
    requires
        0 <= start <= middle <= end <= bytes.len(),
    ensures
        bytes.subrange(start, middle) + bytes.subrange(middle, end) == bytes.subrange(start, end),
{
    assert(bytes.subrange(start, middle) + bytes.subrange(middle, end) =~= bytes.subrange(
        start,
        end,
    ));
}

/// The head of the witness that bytes hold is the head of the bytes.
proof fn lemma_head_of_decoded(bytes: Seq<u8>)
    requires
        witness_from_bytes(bytes) is Ok,
    ensures
        witness_head(witness_from_bytes(bytes)->Ok_0) == bytes.subrange(0, 227),
{
    let witness = witness_from_bytes(bytes)->Ok_0;
    lemma_bytes_u64_round_trip(bytes.subrange(84, 92));
    lemma_bytes_u64_round_trip(bytes.subrange(178, 186));
    lemma_bytes_u64_round_trip(bytes.subrange(186, 194));
    assert(be_bytes_u16(witness.message.version) =~= bytes.subrange(124, 126));
    assert(seq![if witness.message.revocable { 1u8 } else { 0u8 }] =~= bytes.subrange(194, 195));
    lemma_join(bytes, 0, 20, 52);
    lemma_join(bytes, 0, 52, 84);
    lemma_join(bytes, 0, 84, 92);
    lemma_join(bytes, 0, 92, 124);
    lemma_join(bytes, 0, 124, 126);
    lemma_join(bytes, 0, 126, 158);
    lemma_join(bytes, 0, 158, 178);
    lemma_join(bytes, 0, 178, 186);
    lemma_join(bytes, 0, 186, 194);
    lemma_join(bytes, 0, 194, 195);
    lemma_join(bytes, 0, 195, 227);
}

/// The tail of the witness that bytes hold is the tail of the bytes.
proof fn lemma_tail_of_decoded(bytes: Seq<u8>)
    requires
        witness_from_bytes(bytes) is Ok,
    ensures
        witness_tail(witness_from_bytes(bytes)->Ok_0) == bytes.subrange(
            bytes.len() - 41,
            bytes.len() as int,
        ),
{
    let witness = witness_from_bytes(bytes)->Ok_0;
    let end = bytes.len() - 41;
    lemma_bytes_u64_round_trip(bytes.subrange(end + 33, end + 41));
    assert(seq![witness.threshold_age] =~= bytes.subrange(end + 32, end + 33));
    lemma_join(bytes, end, end + 32, end + 33);
    lemma_join(bytes, end, end + 33, end + 41);
}

/// Bytes that decode to a witness are the bytes of that witness, so no
/// two byte strings hold the same witness.
pub proof fn lemma_witness_bytes_unique(bytes: Seq<u8>)
    requires
        witness_from_bytes(bytes) is Ok,
    ensures
        witness_from_bytes(bytes)->Ok_0.well_formed(),
        witness_bytes(witness_from_bytes(bytes)->Ok_0) == bytes,
{
    let witness = witness_from_bytes(bytes)->Ok_0;
    let end = bytes.len() - 41;
    lemma_head_of_decoded(bytes);
    lemma_tail_of_decoded(bytes);
    lemma_bytes_u64_round_trip(bytes.subrange(227, 235));
    assert(witness.message.data.len() == end - 235);
    assert(be_bytes_u64(witness.message.data.len() as u64) == bytes.subrange(227, 235));
    lemma_join(bytes, 0, 227, 235);
    lemma_join(bytes, 0, 235, end);
    lemma_join(bytes, 0, end, bytes.len() as int);
    assert(bytes.subrange(0, bytes.len() as int) =~= bytes);
}

/// Writes a witness out for the wire.
pub fn encode_witness(witness: &PredicateWitness) -> (bytes: Vec<u8>)
    ensures
        witness@.well_formed(),
        bytes@ == witness_bytes(witness@),
{
    let message = &witness.message;
    let data_len = message.data.len();
    let mut bytes: Vec<u8> = Vec::new();
    append_bytes(&mut bytes, witness.signer.as_slice());
    append_bytes(&mut bytes, witness.signature.r.as_slice());
    append_bytes(&mut bytes, witness.signature.s.as_slice());
    append_bytes(&mut bytes, be_bytes_of_u64(witness.signature.v).as_slice());
    append_bytes(&mut bytes, witness.domain_separator.as_slice());
    bytes.push((message.version / 256) as u8);
    bytes.push((message.version % 256) as u8);
    append_bytes(&mut bytes, message.schema.as_slice());
    append_bytes(&mut bytes, message.recipient.as_slice());
    append_bytes(&mut bytes, be_bytes_of_u64(message.time).as_slice());
    append_bytes(&mut bytes, be_bytes_of_u64(message.expiration_time).as_slice());
    bytes.push(if message.revocable { 1 } else { 0 });
    append_bytes(&mut bytes, message.ref_uid.as_slice());
    assert(bytes@ =~= witness_head(witness@));
    append_bytes(&mut bytes, be_bytes_of_u64(data_len as u64).as_slice());
    append_bytes(&mut bytes, message.data.as_slice());
    append_bytes(&mut bytes, message.salt.as_slice());
    bytes.push(witness.threshold_age);
    append_bytes(&mut bytes, be_bytes_of_u64(witness.reference_timestamp).as_slice());
    assert(bytes@ =~= witness_bytes(witness@));
    bytes
}

/// Reads a witness from the wire; bytes of another shape are refused.
pub fn decode_witness(bytes: &[u8]) -> (witness: Result<PredicateWitness, AttestError>)
    ensures
        result_view(witness) == witness_from_bytes(bytes@),
{
    let len = bytes.len();
    if len < WITNESS_HEAD_LEN + WITNESS_TAIL_LEN {
        return Err(AttestError::InputError);
    }
    let data_len = read_u64(bytes, 227);
    if data_len != (len - WITNESS_HEAD_LEN - WITNESS_TAIL_LEN) as u64 || bytes[194] > 1 {
        return Err(AttestError::InputError);
    }
    let end = len - WITNESS_TAIL_LEN;
    let mut data: Vec<u8> = Vec::new();
    append_bytes(&mut data, vstd::slice::slice_subrange(bytes, WITNESS_HEAD_LEN, end));
    assert(data@ =~= bytes@.subrange(235, end as int));
    let version_high: u16 = bytes[124] as u16;
    let version_low: u16 = bytes[125] as u16;
    Ok(
        PredicateWitness {
            signer: read_array::<20>(bytes, 0),
            signature: Signature {
                r: read_array::<32>(bytes, 20),
                s: read_array::<32>(bytes, 52),
                v: read_u64(bytes, 84),
            },
            domain_separator: read_array::<32>(bytes, 92),
            message: Attest {
                version: version_high * 256 + version_low,
                schema: read_array::<32>(bytes, 126),
                recipient: read_array::<20>(bytes, 158),
                time: read_u64(bytes, 178),
                expiration_time: read_u64(bytes, 186),
                revocable: bytes[194] == 1,
                ref_uid: read_array::<32>(bytes, 195),
                data,
                salt: read_array::<32>(bytes, end),
            },
            threshold_age: bytes[end + 32],
            reference_timestamp: read_u64(bytes, end + 33),
        },
    )
}

} // verus!
