//! Contract-ABI encoding of static values: every value is one 32-byte word,
//! and a tuple is its words in order.

use vstd::prelude::*;

verus! {

/// A static ABI value.
#[derive(Debug, Clone, Copy)]
pub enum AbiToken {
    /// `bytes32`: the 32 bytes as they are.
    FixedBytes([u8; 32]),
    /// `uint256`, as 32 big-endian bytes.
    Uint([u8; 32]),
    /// `address`: 20 bytes.
    Address([u8; 20]),
    /// `bool`.
    Bool(bool),
}

/// The largest number of values that are encoded as one tuple. The
/// encoder counts the bytes of a tuple in 32 bits and reserves memory for
/// them at once; this bound keeps both small.
pub const MAX_TOKENS: usize = 1024;

/// `n` zero bytes.
pub open spec fn zero_bytes(n: nat) -> Seq<u8> {
    Seq::new(n, |i: int| 0u8)
}

/// The 32-byte word that encodes one static value: fixed bytes and unsigned
/// integers fill the word, an address is left-padded with twelve zero bytes,
/// a boolean is 31 zero bytes and then 1 or 0.
pub open spec fn token_word(token: AbiToken) -> Seq<u8> {
    match token {
        AbiToken::FixedBytes(bytes) => bytes@,
        AbiToken::Uint(word) => word@,
        AbiToken::Address(address) => zero_bytes(12) + address@,
        AbiToken::Bool(flag) => zero_bytes(31).push(if flag { 1u8 } else { 0u8 }),
    }
}

/// The encoding of a tuple of static values: the words of its members, in
/// order.
pub open spec fn abi_encoding(tokens: Seq<AbiToken>) -> Seq<u8>
    decreases tokens.len(),
{
    if tokens.len() == 0 {
        Seq::empty()
    } else {
        abi_encoding(tokens.drop_last()) + token_word(tokens.last())
    }
}

/// Encodes `tokens` with `ethers_core::abi::encode`.
///
/// Trusted, for tuples of up to `MAX_TOKENS` values: for values that are
/// all static and one word wide, the encoder emits no offsets and no
/// tails, only each value's word in order.
#[verifier::external_body]
pub(crate) fn abi_encode(tokens: &Vec<AbiToken>) -> (encoded: Vec<u8>)
    requires
        tokens@.len() <= MAX_TOKENS,
    ensures
        encoded@ == abi_encoding(tokens@),
{
    let mut outside: Vec<ethers_core::abi::Token> = Vec::new();
    for token in tokens {
        outside.push(match token {
            AbiToken::FixedBytes(b) => ethers_core::abi::Token::FixedBytes(b.to_vec()),
            AbiToken::Uint(w) => ethers_core::abi::Token::Uint(ethers_core::types::U256::from_big_endian(w)),
            AbiToken::Address(a) => ethers_core::abi::Token::Address(ethers_core::types::H160(*a)),
            AbiToken::Bool(flag) => ethers_core::abi::Token::Bool(*flag),
        });
    }
    ethers_core::abi::encode(&outside)
}

/// Reads a tuple of unsigned integers from ABI data with
/// `ethers_core::abi::decode`; `widths` holds the bit width of each.
///
/// Trusted: the decoder reads one 32-byte word per integer from the front
/// of the data, whatever the declared width, and ignores what follows; it
/// fails exactly where the data is shorter than the words it has to read.
/// Each word is handed back as the 32 big-endian bytes of the decoded
/// integer, which are the bytes that were read.
#[verifier::external_body]
pub(crate) fn abi_decode_uints(widths: &Vec<usize>, data: &[u8]) -> (words: Option<Vec<[u8; 32]>>)
    ensures
        words is Some <==> 32 * widths@.len() <= data@.len(),
        words matches Some(w) ==> w@.len() == widths@.len() && forall|i: int|
            0 <= i < w@.len() ==> (#[trigger] w@[i])@ == data@.subrange(32 * i, 32 * i + 32),
{
    let mut types: Vec<ethers_core::abi::ParamType> = Vec::new();
    for width in widths {
        types.push(ethers_core::abi::ParamType::Uint(*width));
    }
    let tokens = ethers_core::abi::decode(&types, data).ok()?;
    let mut words: Vec<[u8; 32]> = Vec::new();
    for token in tokens {
        let mut word = [0u8; 32];
        token.into_uint().unwrap_or_default().to_big_endian(&mut word);
        words.push(word);
    }
    Some(words)
}

/// Appending a value to a tuple appends its word to the encoding.
pub proof fn lemma_encoding_push(tokens: Seq<AbiToken>, token: AbiToken)
    ensures
        abi_encoding(tokens.push(token)) == abi_encoding(tokens) + token_word(token),
{
    assert(tokens.push(token).drop_last() =~= tokens);
}

/// Appends a value to a tuple that is being built.
pub fn push_token(tokens: &mut Vec<AbiToken>, token: AbiToken)
    ensures
        final(tokens)@ == old(tokens)@.push(token),
        abi_encoding(final(tokens)@) == abi_encoding(old(tokens)@) + token_word(token),
{
    proof {
        lemma_encoding_push(tokens@, token);
    }
    tokens.push(token);
}

} // verus!
