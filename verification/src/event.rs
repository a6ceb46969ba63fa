//! Decoding of the factory's pair-creation log entries.

use crate::address::{Address, ADDRESS_OFFSET, WORD_LEN};
use vstd::prelude::*;
use vstd::slice::slice_subrange;

verus! {

/// Number of topics a pair-creation entry carries: its signature and the two token addresses.
pub const REQUIRED_TOPICS: usize = 3;

/// A decoded pair-creation event: the two tokens, in the order in which the
/// factory emitted them, and the address of the new pool.
#[derive(Clone, Copy, Debug, PartialEq, Eq)]
pub struct PairCreatedEvent {
    pub token0: Address,
    pub token1: Address,
    pub pair: Address,
}

/// Whether an entry carries both address topics.
pub open spec fn has_address_topics(topics: Seq<[u8; 32]>) -> bool {
    topics.len() >= REQUIRED_TOPICS
}

/// Whether an entry can be decoded at all: one that carries both address
/// topics must also carry a payload of at least one word.
pub open spec fn decodable(topics: Seq<[u8; 32]>, data: Seq<u8>) -> bool {
    has_address_topics(topics) ==> data.len() >= WORD_LEN
}

/// Whether `event` is what the entry says: the token addresses are the last
/// twenty bytes of topics 1 and 2, the pool address the last twenty bytes of
/// the payload's first word.
pub open spec fn decodes_to(topics: Seq<[u8; 32]>, data: Seq<u8>, event: PairCreatedEvent) -> bool {
    &&& event.token0@ == topics[1]@.subrange(ADDRESS_OFFSET as int, WORD_LEN as int)
    &&& event.token1@ == topics[2]@.subrange(ADDRESS_OFFSET as int, WORD_LEN as int)
    &&& event.pair@ == data.subrange(ADDRESS_OFFSET as int, WORD_LEN as int)
}

/// Whether `decodable` holds of an entry.
pub fn is_decodable(topics: &Vec<[u8; 32]>, data: &Vec<u8>) -> (r: bool)
    ensures
        r == decodable(topics@, data@),
{
    topics.len() < REQUIRED_TOPICS || data.len() >= WORD_LEN
}

/// Decodes a log entry of the factory. An entry that lacks an address topic is
/// no pair creation and gives `None`; every other entry gives the event.
pub fn decode(topics: &Vec<[u8; 32]>, data: &Vec<u8>) -> (r: Option<PairCreatedEvent>)
    requires
        decodable(topics@, data@),
    ensures
        r is Some <==> has_address_topics(topics@),
        r matches Some(event) ==> decodes_to(topics@, data@, event),
{
    if topics.len() < REQUIRED_TOPICS {
        return None;
    }
    let token0 = Address::from_word(&topics[1]);
    let token1 = Address::from_word(&topics[2]);
    let pair = Address::from_slice(slice_subrange(data.as_slice(), ADDRESS_OFFSET, WORD_LEN));
    Some(PairCreatedEvent { token0, token1, pair })
}

} // verus!
