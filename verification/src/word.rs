//! 32-byte big-endian words: the unit of the ABI encoding.

use vstd::prelude::*;
use crate::abi::zero_bytes;

verus! {

/// The value of a byte string read as a big-endian number.
pub open spec fn be_value(bytes: Seq<u8>) -> nat
    decreases bytes.len(),
{
    if bytes.len() == 0 {
        0
    } else {
        be_value(bytes.drop_last()) * 256 + bytes.last() as nat
    }
}

/// Byte `k` of the eight big-endian bytes of `value`.
pub open spec fn be_byte_u64(value: u64, k: int) -> u8 {
    if k == 0 {
        (value / 0x100_0000_0000_0000) as u8
    } else if k == 1 {
        (value / 0x1_0000_0000_0000 % 256) as u8
    } else if k == 2 {
        (value / 0x100_0000_0000 % 256) as u8
    } else if k == 3 {
        (value / 0x1_0000_0000 % 256) as u8
    } else if k == 4 {
        (value / 0x100_0000 % 256) as u8
    } else if k == 5 {
        (value / 0x1_0000 % 256) as u8
    } else if k == 6 {
        (value / 0x100 % 256) as u8
    } else {
        (value % 256) as u8
    }
}

/// The eight big-endian bytes of `value`.
pub open spec fn be_bytes_u64(value: u64) -> Seq<u8> {
    Seq::new(8, |k: int| be_byte_u64(value, k))
}

/// The 32-byte word of an unsigned integer of at most 64 bits: 24 zero
/// bytes, then the value's eight big-endian bytes.
pub open spec fn uint_word(value: u64) -> Seq<u8> {
    zero_bytes(24) + be_bytes_u64(value)
}

/// The 32-byte word of an unsigned integer of at most 64 bits.
pub fn word_of_u64(value: u64) -> (word: [u8; 32])
    ensures
        word@ == uint_word(value),
{
    let mut word: [u8; 32] = [0u8; 32];
    word[24] = (value / 0x100_0000_0000_0000) as u8;
    word[25] = (value / 0x1_0000_0000_0000 % 256) as u8;
    word[26] = (value / 0x100_0000_0000 % 256) as u8;
    word[27] = (value / 0x1_0000_0000 % 256) as u8;
    word[28] = (value / 0x100_0000 % 256) as u8;
    word[29] = (value / 0x1_0000 % 256) as u8;
    word[30] = (value / 0x100 % 256) as u8;
    word[31] = (value % 256) as u8;
    assert(word@ =~= uint_word(value));
    word
}

/// A big-endian number is zero exactly where all its bytes are.
pub proof fn lemma_be_value_zero(bytes: Seq<u8>)
    ensures
        be_value(bytes) == 0 <==> forall|i: int| 0 <= i < bytes.len() ==> bytes[i] == 0,
    decreases bytes.len(),
{
    if bytes.len() > 0 {
        let front = bytes.drop_last();
        lemma_be_value_zero(front);
        if be_value(bytes) == 0 {
            assert(be_value(front) * 256 + bytes.last() as nat == 0);
            assert(be_value(front) == 0);
            assert forall|i: int| 0 <= i < bytes.len() implies bytes[i] == 0 by {
                if i < front.len() {
                    assert(front[i] == bytes[i]);
                }
            }
        }
        if forall|i: int| 0 <= i < bytes.len() ==> bytes[i] == 0 {
            assert forall|i: int| 0 <= i < front.len() implies front[i] == 0 by {
                assert(front[i] == bytes[i]);
            }
            assert(bytes.last() == 0);
        }
    }
}

/// The value of a word is the value of its first 30 bytes times 65536,
/// plus its last two bytes as a 16-bit number.
pub proof fn lemma_word_value_split(word: Seq<u8>)
    requires
        word.len() == 32,
    ensures
        be_value(word) == be_value(word.take(30)) * 65536 + word[30] as nat * 256 + word[31] as nat,
{
    let front = word.drop_last();
    assert(front.drop_last() =~= word.take(30));
    assert(be_value(word) == be_value(front) * 256 + word[31] as nat);
    assert(be_value(front) == be_value(front.drop_last()) * 256 + front.last() as nat);
}

/// The value of a word, where it is below 65536.
pub open spec fn small_word_value_spec(word: Seq<u8>) -> Option<u16> {
    if be_value(word) <= 0xffff {
        Some(be_value(word) as u16)
    } else {
        None
    }
}

/// Reads a word as a number of at most 16 bits; nothing where the word
/// holds a larger number.
pub fn small_word_value(word: &[u8; 32]) -> (value: Option<u16>)
    ensures
        value == small_word_value_spec(word@),
{
    proof {
        lemma_word_value_split(word@);
        lemma_be_value_zero(word@.take(30));
    }
    let mut i: usize = 0;
    while i < 30
        invariant
            i <= 30,
            forall|j: int| 0 <= j < i ==> word@[j] == 0,
            be_value(word@.take(30)) == 0 <==> forall|j: int|
                0 <= j < 30 ==> word@.take(30)[j] == 0,
            be_value(word@) == be_value(word@.take(30)) * 65536 + word@[30] as nat * 256
                + word@[31] as nat,
        decreases 30 - i,
    {
        if word[i] != 0 {
            assert(word@.take(30)[i as int] != 0);
            assert(be_value(word@.take(30)) >= 1);
            return None;
        }
        i = i + 1;
    }
    assert forall|j: int| 0 <= j < 30 implies word@.take(30)[j] == 0 by {
        assert(word@.take(30)[j] == word@[j]);
    }
    let high: u16 = word[30] as u16;
    let low: u16 = word[31] as u16;
    Some(high * 256 + low)
}

/// The number that eight big-endian bytes hold.
pub open spec fn u64_of_be_bytes(bytes: Seq<u8>) -> u64 {
    (bytes[0] as u64 * 0x100_0000_0000_0000 + bytes[1] as u64 * 0x1_0000_0000_0000 + bytes[2] as u64
        * 0x100_0000_0000 + bytes[3] as u64 * 0x1_0000_0000 + bytes[4] as u64 * 0x100_0000
        + bytes[5] as u64 * 0x1_0000 + bytes[6] as u64 * 0x100 + bytes[7] as u64) as u64
}

/// Writing a number out as eight bytes and reading them back gives the
/// number.
pub proof fn lemma_u64_bytes_round_trip(value: u64)
    ensures
        be_bytes_u64(value).len() == 8,
        u64_of_be_bytes(be_bytes_u64(value)) == value,
{
    let v = value;
    assert(v / 0x100_0000_0000_0000 < 256 && (v / 0x100_0000_0000_0000) * 0x100_0000_0000_0000 + (v
        / 0x1_0000_0000_0000 % 256) * 0x1_0000_0000_0000 + (v / 0x100_0000_0000 % 256)
        * 0x100_0000_0000 + (v / 0x1_0000_0000 % 256) * 0x1_0000_0000 + (v / 0x100_0000 % 256)
        * 0x100_0000 + (v / 0x1_0000 % 256) * 0x1_0000 + (v / 0x100 % 256) * 0x100 + v % 256 == v)
        by (bit_vector);
}

/// Eight bytes are the bytes of the number that they hold.
pub proof fn lemma_bytes_u64_round_trip(bytes: Seq<u8>)
    requires
        bytes.len() == 8,
    ensures
        be_bytes_u64(u64_of_be_bytes(bytes)) == bytes,
{
    let b0 = bytes[0];
    let b1 = bytes[1];
    let b2 = bytes[2];
    let b3 = bytes[3];
    let b4 = bytes[4];
    let b5 = bytes[5];
    let b6 = bytes[6];
    let b7 = bytes[7];
    let v: u64 = u64_of_be_bytes(bytes);
    assert(v == b0 as u64 * 0x100_0000_0000_0000 + b1 as u64 * 0x1_0000_0000_0000 + b2 as u64
        * 0x100_0000_0000 + b3 as u64 * 0x1_0000_0000 + b4 as u64 * 0x100_0000 + b5 as u64
        * 0x1_0000 + b6 as u64 * 0x100 + b7 as u64);
    assert(v / 0x100_0000_0000_0000 == b0 && v / 0x1_0000_0000_0000 % 256 == b1 && v
        / 0x100_0000_0000 % 256 == b2 && v / 0x1_0000_0000 % 256 == b3 && v / 0x100_0000 % 256
        == b4 && v / 0x1_0000 % 256 == b5 && v / 0x100 % 256 == b6 && v % 256 == b7)
        by (bit_vector)
        requires
            v == b0 as u64 * 0x100_0000_0000_0000 + b1 as u64 * 0x1_0000_0000_0000 + b2 as u64
                * 0x100_0000_0000 + b3 as u64 * 0x1_0000_0000 + b4 as u64 * 0x100_0000 + b5 as u64
                * 0x1_0000 + b6 as u64 * 0x100 + b7 as u64,
    ;
    assert(be_bytes_u64(v) =~= bytes);
}

/// Appends `bytes` to `out`.
pub fn append_bytes(out: &mut Vec<u8>, bytes: &[u8])
    ensures
        final(out)@ == old(out)@ + bytes@,
{
    let mut i: usize = 0;
    while i < bytes.len()
        invariant
            i <= bytes.len(),
            out@ == old(out)@ + bytes@.take(i as int),
        decreases bytes.len() - i,
    {
        out.push(bytes[i]);
        assert(bytes@.take(i + 1) =~= bytes@.take(i as int).push(bytes@[i as int]));
        i = i + 1;
    }
    assert(bytes@.take(bytes.len() as int) =~= bytes@);
}

/// The eight big-endian bytes of a number.
pub fn be_bytes_of_u64(value: u64) -> (bytes: [u8; 8])
    ensures
        bytes@ == be_bytes_u64(value),
{
    let mut bytes: [u8; 8] = [0u8; 8];
    bytes[0] = (value / 0x100_0000_0000_0000) as u8;
    bytes[1] = (value / 0x1_0000_0000_0000 % 256) as u8;
    bytes[2] = (value / 0x100_0000_0000 % 256) as u8;
    bytes[3] = (value / 0x1_0000_0000 % 256) as u8;
    bytes[4] = (value / 0x100_0000 % 256) as u8;
    bytes[5] = (value / 0x1_0000 % 256) as u8;
    bytes[6] = (value / 0x100 % 256) as u8;
    bytes[7] = (value % 256) as u8;
    assert(bytes@ =~= be_bytes_u64(value));
    bytes
}

/// Reads `N` bytes of `bytes` from `start` on into an array.
pub fn read_array<const N: usize>(bytes: &[u8], start: usize) -> (array: [u8; N])
    requires
        start + N <= bytes@.len(),
    ensures
        array@ == bytes@.subrange(start as int, start + N),
{
    let mut array: [u8; N] = [0u8; N];
    let len = bytes.len();
    let mut i: usize = 0;
    while i < N
        invariant
            i <= N,
            len == bytes@.len(),
            start + N <= bytes@.len(),
            forall|j: int| 0 <= j < i ==> array@[j] == bytes@[start + j],
        decreases N - i,
    {
        array[i] = bytes[start + i];
        i = i + 1;
    }
    assert(array@ =~= bytes@.subrange(start as int, start + N));
    array
}

/// Reads eight big-endian bytes of `bytes` from `start` on as a number.
pub fn read_u64(bytes: &[u8], start: usize) -> (value: u64)
    requires
        start + 8 <= bytes@.len(),
    ensures
        value == u64_of_be_bytes(bytes@.subrange(start as int, start + 8)),
{
    proof {
        let part = bytes@.subrange(start as int, start + 8);
        assert(forall|k: int| 0 <= k < 8 ==> part[k] == bytes@[start + k]);
    }
    let b0: u64 = bytes[start] as u64;
    let b1: u64 = bytes[start + 1] as u64;
    let b2: u64 = bytes[start + 2] as u64;
    let b3: u64 = bytes[start + 3] as u64;
    let b4: u64 = bytes[start + 4] as u64;
    let b5: u64 = bytes[start + 5] as u64;
    let b6: u64 = bytes[start + 6] as u64;
    let b7: u64 = bytes[start + 7] as u64;
    b0 * 0x100_0000_0000_0000 + b1 * 0x1_0000_0000_0000 + b2 * 0x100_0000_0000 + b3 * 0x1_0000_0000
        + b4 * 0x100_0000 + b5 * 0x1_0000 + b6 * 0x100 + b7
}

/// The last `len` big-endian bytes of a number.
pub open spec fn number_bytes(number: nat, len: nat) -> Seq<u8>
    decreases len,
{
    if len == 0 {
        Seq::empty()
    } else {
        number_bytes(number / 256, (len - 1) as nat).push((number % 256) as u8)
    }
}

/// A number without its last `count` bytes.
pub open spec fn without_low_bytes(number: nat, count: nat) -> nat
    decreases count,
{
    if count == 0 {
        number
    } else {
        without_low_bytes(number / 256, (count - 1) as nat)
    }
}

/// The bytes of zero are zero bytes.
pub proof fn lemma_number_bytes_of_zero(len: nat)
    ensures
        number_bytes(0, len) == zero_bytes(len),
    decreases len,
{
    if len > 0 {
        lemma_number_bytes_of_zero((len - 1) as nat);
    }
    assert(number_bytes(0, len) =~= zero_bytes(len));
}

/// The bytes of a number are the bytes of what is left without its last
/// `back` bytes, and then its last `back` bytes.
pub proof fn lemma_number_bytes_split(number: nat, front: nat, back: nat)
    ensures
        number_bytes(number, front + back) == number_bytes(
            without_low_bytes(number, back),
            front,
        ) + number_bytes(number, back),
    decreases back,
{
    if back == 0 {
        assert(number_bytes(number, 0) =~= Seq::<u8>::empty());
        assert(number_bytes(number, front) + Seq::<u8>::empty() =~= number_bytes(number, front));
    } else {
        let shorter = (back - 1) as nat;
        lemma_number_bytes_split(number / 256, front, shorter);
        let high = number_bytes(without_low_bytes(number, back), front);
        let low = number_bytes(number / 256, shorter);
        let last = (number % 256) as u8;
        assert((front + back - 1) as nat == front + shorter);
        assert(number_bytes(number, front + back) == number_bytes(number / 256, front + shorter).push(
            last,
        ));
        assert(number_bytes(number, back) == low.push(last));
        assert((high + low).push(last) =~= high + low.push(last));
    }
}

/// The last eight bytes of a number of 64 bits are its eight bytes, and
/// nothing is left of it without them.
pub proof fn lemma_number_bytes_tail(value: u64)
    ensures
        number_bytes(value as nat, 8) == be_bytes_u64(value),
        without_low_bytes(value as nat, 8) == 0,
{
    reveal_with_fuel(number_bytes, 9);
    reveal_with_fuel(without_low_bytes, 9);
    let v = value as int;
    vstd::arithmetic::div_mod::lemma_div_denominator(v, 256, 256);
    vstd::arithmetic::div_mod::lemma_div_denominator(v, 0x1_0000, 256);
    vstd::arithmetic::div_mod::lemma_div_denominator(v, 0x100_0000, 256);
    vstd::arithmetic::div_mod::lemma_div_denominator(v, 0x1_0000_0000, 256);
    vstd::arithmetic::div_mod::lemma_div_denominator(v, 0x100_0000_0000, 256);
    vstd::arithmetic::div_mod::lemma_div_denominator(v, 0x1_0000_0000_0000, 256);
    vstd::arithmetic::div_mod::lemma_div_denominator(v, 0x100_0000_0000_0000, 256);
    assert(number_bytes(value as nat, 8) =~= be_bytes_u64(value));
}

/// A number has as many bytes as are asked for.
pub proof fn lemma_number_bytes_len(number: nat, len: nat)
    ensures
        number_bytes(number, len).len() == len,
    decreases len,
{
    if len > 0 {
        lemma_number_bytes_len(number / 256, (len - 1) as nat);
    }
}

/// The bytes of a number that fits them are its big-endian form: read
/// back, they give the number.
pub proof fn lemma_number_bytes_value(number: nat, len: nat)
    requires
        without_low_bytes(number, len) == 0,
    ensures
        be_value(number_bytes(number, len)) == number,
    decreases len,
{
    if len > 0 {
        let shorter = (len - 1) as nat;
        lemma_number_bytes_value(number / 256, shorter);
        let front = number_bytes(number / 256, shorter);
        assert(number_bytes(number, len).drop_last() =~= front);
    }
}

/// Whether two byte arrays hold the same bytes.
pub fn same_bytes<const N: usize>(left: &[u8; N], right: &[u8; N]) -> (same: bool)
    ensures
        same == (left@ == right@),
{
    let mut i: usize = 0;
    while i < N
        invariant
            i <= N,
            forall|j: int| 0 <= j < i ==> left@[j] == right@[j],
        decreases N - i,
    {
        if left[i] != right[i] {
            return false;
        }
        i = i + 1;
    }
    assert(left@ =~= right@);
    true
}

} // verus!
