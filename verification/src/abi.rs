//! Call data for the two simulated calls, in the ledger's contract ABI.
//!
//! The bytes are produced by `ethers::abi::encode`; what it returns for the
//! two kinds of value used here is stated below and not proved.

use crate::address::Address;
use crate::uint256::{be_bytes, Uint256};
use vstd::prelude::*;

verus! {

/// A value to be encoded: every one used here takes one 32-byte word.
#[derive(Clone, Copy, Debug)]
pub enum AbiToken {
    Address(Address),
    Uint(Uint256),
}

/// The word of an address: twelve zero bytes, then the address.
pub open spec fn address_word(address: Seq<u8>) -> Seq<u8> {
    Seq::new(12, |i: int| 0u8) + address
}

/// The word of an unsigned quantity: its 32 bytes, big-endian.
pub open spec fn uint_word(value: nat) -> Seq<u8> {
    be_bytes(value, 32)
}

/// The word of one token.
pub open spec fn token_word(token: AbiToken) -> Seq<u8> {
    match token {
        AbiToken::Address(a) => address_word(a@),
        AbiToken::Uint(u) => uint_word(u@),
    }
}

/// The encoding of a list of tokens: their words, in order.
pub open spec fn encoding(tokens: Seq<AbiToken>) -> Seq<u8>
    decreases tokens.len(),
{
    if tokens.len() == 0 {
        Seq::empty()
    } else {
        encoding(tokens.drop_last()) + token_word(tokens.last())
    }
}

/// Number of tokens from which the outside encoder can no longer add up the
/// length of its output: it counts 32 bytes for each token in 32 bits.
pub const TOKEN_LIMIT: usize = 134_217_728;

/// `ethers::abi::encode` on addresses and unsigned integers: both are static
/// types of one word, so the result is the words of the tokens in order, with
/// no offsets and no tail. The outside function adds up the lengths of the
/// words in 32 bits, which a list of `TOKEN_LIMIT` tokens or more overflows.
#[verifier::external_body]
pub(crate) fn encode(tokens: &Vec<AbiToken>) -> (r: Vec<u8>)
    requires
        tokens@.len() < TOKEN_LIMIT,
    ensures
        r@ == encoding(tokens@),
{
    let outside: Vec<ethers::abi::Token> = tokens.iter().map(|t| match t {
        AbiToken::Address(a) => ethers::abi::Token::Address(ethers::types::H160(a.bytes)),
        AbiToken::Uint(u) => ethers::abi::Token::Uint(ethers::types::U256(u.limbs)),
    }).collect();
    ethers::abi::encode(&outside)
}

/// The call data that names one address.
pub fn encode_address(address: &Address) -> (r: Vec<u8>)
    ensures
        r@ == address_word(address@),
        r@.len() == 32,
{
    let mut tokens: Vec<AbiToken> = Vec::new();
    tokens.push(AbiToken::Address(*address));
    proof {
        assert(tokens@.drop_last() =~= Seq::<AbiToken>::empty());
        reveal_with_fuel(encoding, 2);
        assert(encoding(tokens@) =~= address_word(address@));
    }
    encode(&tokens)
}

/// The call data that names an address and then an amount.
pub fn encode_address_and_amount(address: &Address, amount: &Uint256) -> (r: Vec<u8>)
    ensures
        r@ == address_word(address@) + uint_word(amount@),
{
    let mut tokens: Vec<AbiToken> = Vec::new();
    tokens.push(AbiToken::Address(*address));
    tokens.push(AbiToken::Uint(*amount));
    proof {
        let one = tokens@.drop_last();
        assert(one.drop_last() =~= Seq::<AbiToken>::empty());
        reveal_with_fuel(encoding, 3);
        assert(encoding(one) =~= address_word(address@));
        assert(encoding(tokens@) =~= address_word(address@) + uint_word(amount@));
    }
    encode(&tokens)
}

} // verus!
