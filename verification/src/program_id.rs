//! Program identities: the eight 32-bit words that pin the exact predicate
//! logic a receipt was produced by, and their byte and text forms.

use vstd::prelude::*;
use crate::parse::{
    all_hex, hex_bytes, hex_value, is_blank, lemma_no_blanks_to_drop, parse_hash, parsed_fixed,
    parsed_hash, without_prefix,
};

verus! {

/// Byte `k` (0 is the least significant) of a 32-bit word.
pub open spec fn le_byte(word: u32, k: int) -> u8 {
    if k == 0 {
        (word % 256) as u8
    } else if k == 1 {
        (word / 256 % 256) as u8
    } else if k == 2 {
        (word / 65536 % 256) as u8
    } else {
        (word / 16777216 % 256) as u8
    }
}

/// The words of `words` laid out one after another, each as four bytes with
/// the least significant byte first.
pub open spec fn le_bytes_of_words(words: Seq<u32>) -> Seq<u8> {
    Seq::new(4 * words.len(), |i: int| le_byte(words[i / 4], i % 4))
}

/// Flattens a slice of 32-bit words into bytes, least significant byte first.
pub fn vec_u8_from_u32_slice_little_endian(v: &[u32]) -> (out: Vec<u8>)
    ensures
        out@ == le_bytes_of_words(v@),
{
    let mut out: Vec<u8> = Vec::new();
    let mut i: usize = 0;
    while i < v.len()
        invariant
            i <= v.len(),
            out@.len() == 4 * i,
            forall|j: int| 0 <= j < out@.len() ==> out@[j] == le_byte(v@[j / 4], j % 4),
        decreases v.len() - i,
    {
        let w: u32 = v[i];
        out.push((w % 256) as u8);
        out.push((w / 256 % 256) as u8);
        out.push((w / 65536 % 256) as u8);
        out.push((w / 16777216 % 256) as u8);
        i = i + 1;
    }
    out
}

/// The lowercase hexadecimal digit of a number below 16.
pub open spec fn hex_digit(nibble: int) -> char {
    if nibble < 10 {
        (48 + nibble) as char
    } else {
        (87 + nibble) as char
    }
}

/// Bytes as lowercase hexadecimal text: two digits per byte, the high
/// half first.
pub open spec fn hex_text(bytes: Seq<u8>) -> Seq<char> {
    Seq::new(
        2 * bytes.len(),
        |i: int|
            if i % 2 == 0 {
                hex_digit(bytes[i / 2] as int / 16)
            } else {
                hex_digit(bytes[i / 2] as int % 16)
            },
    )
}

/// Writes bytes as text with `hex::encode`.
///
/// Trusted: every byte becomes two lowercase hexadecimal digits, the one
/// of its high four bits first.
#[verifier::external_body]
pub(crate) fn encode_hex(bytes: &[u8]) -> (text: String)
    ensures
        text@ == hex_text(bytes@),
{
    hex::encode(bytes)
}

/// The text form of a program identity: its words as little-endian bytes,
/// in lowercase hexadecimal.
pub fn guest_id(identity: &[u32; 8]) -> (text: String)
    ensures
        text@ == hex_text(le_bytes_of_words(identity@)),
{
    let bytes = vec_u8_from_u32_slice_little_endian(identity.as_slice());
    encode_hex(bytes.as_slice())
}

/// The word that bytes `4 * i` to `4 * i + 3` hold, the least significant
/// byte first.
pub open spec fn le_word(bytes: Seq<u8>, i: int) -> u32 {
    (bytes[4 * i] as int + bytes[4 * i + 1] as int * 256 + bytes[4 * i + 2] as int * 65536
        + bytes[4 * i + 3] as int * 16777216) as u32
}

/// The words that bytes hold, four bytes to a word, the least significant
/// byte first.
pub open spec fn le_words_of_bytes(bytes: Seq<u8>) -> Seq<u32> {
    Seq::new(bytes.len() / 4, |i: int| le_word(bytes, i))
}

/// The identity that a text denotes: 64 hexadecimal digits, read as 32
/// bytes and those as eight words, the way `guest_id` writes them; a
/// leading `0x` and blanks do not count.
pub open spec fn identity_of_text(text: Seq<char>) -> Option<Seq<u32>> {
    match parsed_hash(text) {
        Some(bytes) => Some(le_words_of_bytes(bytes)),
        None => None,
    }
}

/// An optional identity as plain values.
pub open spec fn identity_view(identity: Option<[u32; 8]>) -> Option<Seq<u32>> {
    match identity {
        Some(words) => Some(words@),
        None => None,
    }
}

/// Writing words out as bytes and reading the bytes back gives the
/// words.
pub proof fn lemma_words_round_trip(words: Seq<u32>)
    ensures
        le_words_of_bytes(le_bytes_of_words(words)) == words,
{
    let bytes = le_bytes_of_words(words);
    assert forall|i: int| 0 <= i < words.len() implies le_word(bytes, i) == words[i] by {
        let w = words[i];
        assert(bytes[4 * i] == le_byte(words[(4 * i) / 4], (4 * i) % 4));
        assert(bytes[4 * i + 1] == le_byte(words[(4 * i + 1) / 4], (4 * i + 1) % 4));
        assert(bytes[4 * i + 2] == le_byte(words[(4 * i + 2) / 4], (4 * i + 2) % 4));
        assert(bytes[4 * i + 3] == le_byte(words[(4 * i + 3) / 4], (4 * i + 3) % 4));
        assert(w % 256 + (w / 256 % 256) * 256 + (w / 65536 % 256) * 65536 + (w / 16777216) * 16777216
            == w && w / 16777216 < 256) by (bit_vector);
    }
    assert(le_words_of_bytes(bytes) =~= words);
}

/// A hexadecimal digit is read back as the number that it was written
/// for; it is no blank and no `x`.
pub proof fn lemma_hex_digit(nibble: int)
    requires
        0 <= nibble < 16,
    ensures
        hex_value(hex_digit(nibble)) == Some(nibble),
        !is_blank(hex_digit(nibble)),
        hex_digit(nibble) != 'x',
{
}

/// The digits of the text of bytes are hexadecimal, and read back two by
/// two they give the bytes.
pub proof fn lemma_hex_text_digits(bytes: Seq<u8>)
    ensures
        hex_text(bytes).len() == 2 * bytes.len(),
        all_hex(hex_text(bytes)),
        forall|i: int| 0 <= i < hex_text(bytes).len() ==> !is_blank(#[trigger] hex_text(bytes)[i]),
        bytes.len() > 0 ==> hex_text(bytes)[1] != 'x',
        hex_bytes(hex_text(bytes)) == bytes,
{
    let text = hex_text(bytes);
    assert forall|i: int| 0 <= i < text.len() implies hex_value(#[trigger] text[i]) is Some
        && !is_blank(text[i]) && text[i] != 'x' by {
        let b = bytes[i / 2] as int;
        lemma_hex_digit(b / 16);
        lemma_hex_digit(b % 16);
    }
    assert forall|k: int| 0 <= k < bytes.len() implies #[trigger] hex_bytes(text)[k] == bytes[k] by {
        let b = bytes[k] as int;
        lemma_hex_digit(b / 16);
        lemma_hex_digit(b % 16);
        assert((2 * k) % 2 == 0 && (2 * k) / 2 == k);
        assert((2 * k + 1) % 2 == 1 && (2 * k + 1) / 2 == k);
        assert(text[2 * k] == hex_digit(b / 16));
        assert(text[2 * k + 1] == hex_digit(b % 16));
    }
    assert(text.len() / 2 == bytes.len());
    assert(hex_bytes(text) =~= bytes);
}

/// The text of 32 bytes denotes those bytes as a hash.
pub proof fn lemma_hex_text_is_parsed_back(bytes: Seq<u8>)
    requires
        bytes.len() == 32,
    ensures
        parsed_hash(hex_text(bytes)) == Some(bytes),
{
    let text = hex_text(bytes);
    lemma_hex_text_digits(bytes);
    assert(without_prefix(text) == text);
    lemma_no_blanks_to_drop(text);
    assert(parsed_fixed(text, 32) == Some(bytes));
}

/// Reads 32 bytes as eight words, the least significant byte first.
pub fn words_from_le_bytes(bytes: &[u8; 32]) -> (words: [u32; 8])
    ensures
        words@ == le_words_of_bytes(bytes@),
{
    let mut words: [u32; 8] = [0u32; 8];
    let mut i: usize = 0;
    while i < 8
        invariant
            i <= 8,
            forall|j: int| 0 <= j < i ==> words@[j] == le_word(bytes@, j),
        decreases 8 - i,
    {
        let b0: u32 = bytes[4 * i] as u32;
        let b1: u32 = bytes[4 * i + 1] as u32;
        let b2: u32 = bytes[4 * i + 2] as u32;
        let b3: u32 = bytes[4 * i + 3] as u32;
        words[i] = b0 + b1 * 256 + b2 * 65536 + b3 * 16777216;
        i = i + 1;
    }
    assert(words@ =~= le_words_of_bytes(bytes@));
    words
}

/// Reads a program identity from its text form.
pub fn identity_from_text(text: &str) -> (identity: Option<[u32; 8]>)
    ensures
        identity_view(identity) == identity_of_text(text@),
{
    match parse_hash(text) {
        Some(bytes) => Some(words_from_le_bytes(&bytes)),
        None => None,
    }
}

} // verus!
