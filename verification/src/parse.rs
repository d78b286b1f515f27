//! Parsing of the texts of an input record: hexadecimal strings and
//! decimal numbers. The parsing is done by the libraries that own the
//! parsed types; what each of them accepts is stated here.

use vstd::prelude::*;
use crate::word::number_bytes;

verus! {

/// Whether a character is a decimal digit.
pub open spec fn is_digit(c: char) -> bool {
    48 <= c as u32 <= 57
}

/// The value of a hexadecimal digit of either case; nothing for another
/// character.
pub open spec fn hex_value(c: char) -> Option<int> {
    let code = c as u32 as int;
    if 48 <= code <= 57 {
        Some(code - 48)
    } else if 97 <= code <= 102 {
        Some(code - 87)
    } else if 65 <= code <= 70 {
        Some(code - 55)
    } else {
        None
    }
}

/// Whether every character of a text is a decimal digit.
pub open spec fn all_digits(text: Seq<char>) -> bool {
    forall|i: int| 0 <= i < text.len() ==> is_digit(#[trigger] text[i])
}

/// Whether every character of a text is a hexadecimal digit.
pub open spec fn all_hex(text: Seq<char>) -> bool {
    forall|i: int| 0 <= i < text.len() ==> hex_value(#[trigger] text[i]) is Some
}

/// The number that decimal digits denote; 0 for no digits.
pub open spec fn decimal_number(digits: Seq<char>) -> nat
    decreases digits.len(),
{
    if digits.len() == 0 {
        0
    } else {
        (decimal_number(digits.drop_last()) * 10 + (digits.last() as u32 - 48)) as nat
    }
}

/// The number that hexadecimal digits denote; 0 for no digits.
pub open spec fn hex_number(digits: Seq<char>) -> nat
    decreases digits.len(),
{
    if digits.len() == 0 {
        0
    } else {
        (hex_number(digits.drop_last()) * 16 + hex_value(digits.last())->0) as nat
    }
}

/// The bytes that hexadecimal digits denote, two digits to a byte, the
/// high half first.
pub open spec fn hex_bytes(digits: Seq<char>) -> Seq<u8> {
    Seq::new(
        digits.len() / 2,
        |i: int| (16 * hex_value(digits[2 * i])->0 + hex_value(digits[2 * i + 1])->0) as u8,
    )
}

/// The first number that does not fit 256 bits.
pub open spec fn uint_limit() -> nat {
    0x1_0000_0000_0000_0000_0000_0000_0000_0000_0000_0000_0000_0000_0000_0000_0000_0000nat
}

/// A text without a leading `0x`.
pub open spec fn without_prefix(text: Seq<char>) -> Seq<char> {
    if text.len() >= 2 && text[0] == '0' && text[1] == 'x' {
        text.skip(2)
    } else {
        text
    }
}

/// Whether a character is a space, a tab, a carriage return or a line
/// feed.
pub open spec fn is_blank(c: char) -> bool {
    c == ' ' || c == '\t' || c == '\r' || c == '\n'
}

/// The bytes that a text denotes as a fixed-length hash of `len` bytes: a
/// leading `0x` and blanks anywhere do not count; what is left has to be
/// exactly two hexadecimal digits per byte.
pub open spec fn parsed_fixed(text: Seq<char>, len: nat) -> Option<Seq<u8>> {
    let digits = without_prefix(text).filter(|c: char| !is_blank(c));
    if all_hex(digits) && digits.len() == 2 * len {
        Some(hex_bytes(digits))
    } else {
        None
    }
}

/// The 20 bytes that a text denotes as an address; nothing where it
/// denotes none.
pub open spec fn parsed_address(text: Seq<char>) -> Option<Seq<u8>> {
    parsed_fixed(text, 20)
}

/// The 32 bytes that a text denotes as a hash; nothing where it denotes
/// none.
pub open spec fn parsed_hash(text: Seq<char>) -> Option<Seq<u8>> {
    parsed_fixed(text, 32)
}

/// The 256-bit number that a hexadecimal text denotes, as 32 big-endian
/// bytes: a leading `0x` does not count, and at most 64 hexadecimal digits
/// follow; no digits denote 0.
pub open spec fn parsed_uint_hex(text: Seq<char>) -> Option<Seq<u8>> {
    let digits = without_prefix(text);
    if all_hex(digits) && digits.len() <= 64 {
        Some(number_bytes(hex_number(digits), 32))
    } else {
        None
    }
}

/// The 256-bit number that a decimal text denotes, as 32 big-endian
/// bytes: the text is decimal digits only, and the number fits 256 bits;
/// no digits denote 0.
pub open spec fn parsed_uint_decimal(text: Seq<char>) -> Option<Seq<u8>> {
    if all_digits(text) && decimal_number(text) < uint_limit() {
        Some(number_bytes(decimal_number(text), 32))
    } else {
        None
    }
}

/// The 64-bit number that a decimal text denotes: the text is an optional
/// `+` and then at least one decimal digit and nothing else, and the
/// number fits 64 bits.
pub open spec fn parsed_u64(text: Seq<char>) -> Option<u64> {
    let digits = if text.len() > 0 && text[0] == '+' {
        text.drop_first()
    } else {
        text
    };
    if digits.len() > 0 && all_digits(digits) && decimal_number(digits) <= u64::MAX {
        Some(decimal_number(digits) as u64)
    } else {
        None
    }
}

/// The bytes that a hexadecimal text, given as its bytes, denotes: the
/// text has an even length, a leading `0x` or `0X` does not count, and
/// what follows is hexadecimal digits only.
pub open spec fn decoded_hex(text: Seq<u8>) -> Option<Seq<u8>> {
    let chars = text.map_values(|b: u8| b as char);
    let digits = if chars.len() >= 2 && chars[0] == '0' && (chars[1] == 'x' || chars[1] == 'X') {
        chars.skip(2)
    } else {
        chars
    };
    if chars.len() % 2 == 0 && all_hex(digits) {
        Some(hex_bytes(digits))
    } else {
        None
    }
}

/// A text without blanks stays as it is when its blanks are dropped.
pub proof fn lemma_no_blanks_to_drop(text: Seq<char>)
    requires
        forall|i: int| 0 <= i < text.len() ==> !is_blank(#[trigger] text[i]),
    ensures
        text.filter(|c: char| !is_blank(c)) == text,
    decreases text.len(),
{
    reveal(Seq::filter);
    if text.len() > 0 {
        lemma_no_blanks_to_drop(text.drop_last());
        assert(text.drop_last().push(text.last()) =~= text);
    }
}

/// An optional array as plain values.
pub open spec fn bytes_view<const N: usize>(bytes: Option<[u8; N]>) -> Option<Seq<u8>> {
    match bytes {
        Some(array) => Some(array@),
        None => None,
    }
}

/// An optional vector as plain values.
pub open spec fn vec_view(bytes: Option<Vec<u8>>) -> Option<Seq<u8>> {
    match bytes {
        Some(vector) => Some(vector@),
        None => None,
    }
}

/// Parses an address with `str::parse` to `ethers_core::types::H160`.
///
/// Trusted: the parser drops one leading `0x`, skips blanks, reads two
/// hexadecimal digits per byte and accepts the text exactly where that
/// gives 20 bytes and leaves nothing over.
#[verifier::external_body]
pub(crate) fn parse_address(text: &str) -> (address: Option<[u8; 20]>)
    ensures
        bytes_view(address) == parsed_address(text@),
{
    match text.parse::<ethers_core::types::H160>() {
        Ok(address) => Some(address.0),
        Err(_) => None,
    }
}

/// Parses a 32-byte hash with `str::parse` to `ethers_core::types::H256`.
///
/// Trusted: as for an address, with 32 bytes.
#[verifier::external_body]
pub(crate) fn parse_hash(text: &str) -> (hash: Option<[u8; 32]>)
    ensures
        bytes_view(hash) == parsed_hash(text@),
{
    match text.parse::<ethers_core::types::H256>() {
        Ok(hash) => Some(hash.0),
        Err(_) => None,
    }
}

/// Parses a hexadecimal number with `str::parse` to
/// `ethers_core::types::U256` and writes it out with `to_big_endian`.
///
/// Trusted: the parser drops one leading `0x` and accepts up to 64
/// hexadecimal digits, which it reads as one big-endian number.
#[verifier::external_body]
pub(crate) fn parse_uint_hex(text: &str) -> (word: Option<[u8; 32]>)
    ensures
        bytes_view(word) == parsed_uint_hex(text@),
{
    match text.parse::<ethers_core::types::U256>() {
        Ok(number) => {
            let mut word = [0u8; 32];
            number.to_big_endian(&mut word);
            Some(word)
        },
        Err(_) => None,
    }
}

/// Parses a decimal number with `ethers_core::types::U256::from_dec_str`
/// and writes it out with `to_big_endian`.
///
/// Trusted: the parser accepts decimal digits only and fails where the
/// number outgrows 256 bits.
#[verifier::external_body]
pub(crate) fn parse_uint_decimal(text: &str) -> (word: Option<[u8; 32]>)
    ensures
        bytes_view(word) == parsed_uint_decimal(text@),
{
    match ethers_core::types::U256::from_dec_str(text) {
        Ok(number) => {
            let mut word = [0u8; 32];
            number.to_big_endian(&mut word);
            Some(word)
        },
        Err(_) => None,
    }
}

/// Parses a 64-bit number with `str::parse` to `u64`.
///
/// Trusted: the text is to be an optional `+` followed by decimal digits
/// only, at least one, and the number is to fit the type.
#[verifier::external_body]
pub(crate) fn parse_u64(text: &str) -> (number: Option<u64>)
    ensures
        number == parsed_u64(text@),
{
    match text.parse::<u64>() {
        Ok(number) => Some(number),
        Err(_) => None,
    }
}

/// Decodes hexadecimal text with `ethers_core::utils::hex::decode`.
///
/// Trusted: the decoder refuses a text of odd length, drops a leading
/// `0x` or `0X`, and reads two hexadecimal digits of either case per byte.
#[verifier::external_body]
pub(crate) fn decode_hex(text: &[u8]) -> (bytes: Option<Vec<u8>>)
    ensures
        vec_view(bytes) == decoded_hex(text@),
{
    match ethers_core::utils::hex::decode(text) {
        Ok(bytes) => Some(bytes),
        Err(_) => None,
    }
}

} // verus!
