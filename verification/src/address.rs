//! Ledger addresses: fixed-width identifiers of twenty bytes.

use vstd::prelude::*;

verus! {

/// Number of bytes in a ledger address.
pub const ADDRESS_LEN: usize = 20;

/// Number of bytes in a ledger word: an event topic, or one slot of a payload.
pub const WORD_LEN: usize = 32;

/// Offset of the address inside a word that carries one: the address is right-aligned.
pub const ADDRESS_OFFSET: usize = 12;

/// A ledger address. Its view is the sequence of its twenty bytes.
#[derive(Clone, Copy, Debug, PartialEq, Eq)]
pub struct Address {
    pub bytes: [u8; 20],
}

impl View for Address {
    type V = Seq<u8>;

    open spec fn view(&self) -> Seq<u8> {
        self.bytes@
    }
}

/// The bytes of the base asset against which liquidity is measured (the wrapped native coin).
pub open spec fn base_asset_bytes() -> Seq<u8> {
    seq![
        0xC0u8, 0x2a, 0xaa, 0x39, 0xb2, 0x23, 0xFE, 0x8D, 0x0A, 0x0E,
        0x5C, 0x4F, 0x27, 0xeA, 0xD9, 0x08, 0x3C, 0x75, 0x6C, 0xc2,
    ]
}

/// The bytes of the factory contract whose creation events are vetted.
pub open spec fn factory_bytes() -> Seq<u8> {
    seq![
        0x5Cu8, 0x69, 0xbE, 0xe7, 0x01, 0xef, 0x81, 0x4a, 0x2B, 0x6a,
        0x3E, 0xDD, 0x4B, 0x16, 0x52, 0xCB, 0x9c, 0xc5, 0xaA, 0x6f,
    ]
}

/// The bytes of the synthetic counterparty named in the safety probe.
pub open spec fn probe_counterparty_bytes() -> Seq<u8> {
    seq![
        0xdDu8, 0xC6, 0x5f, 0x4E, 0x22, 0xfe, 0x2a, 0xd7, 0xa9, 0xDf,
        0xF7, 0xd5, 0x79, 0x0B, 0x94, 0xEa, 0x04, 0x70, 0xc5, 0x95,
    ]
}

impl Address {
    /// The address made of the twenty bytes of `src`, in order.
    pub fn from_slice(src: &[u8]) -> (r: Address)
        requires
            src@.len() == ADDRESS_LEN,
        ensures
            r@ == src@,
    {
        let mut bytes: [u8; 20] = [0u8; 20];
        let mut i: usize = 0;
        while i < ADDRESS_LEN
            invariant
                i <= ADDRESS_LEN,
                src@.len() == ADDRESS_LEN,
                forall|j: int| 0 <= j < i ==> bytes@[j] == src@[j],
            decreases ADDRESS_LEN - i,
        {
            bytes[i] = src[i];
            i += 1;
        }
        assert(bytes@ =~= src@);
        Address { bytes }
    }

    /// The address that a 32-byte word carries in its last twenty bytes.
    pub fn from_word(word: &[u8; 32]) -> (r: Address)
        ensures
            r@ == word@.subrange(ADDRESS_OFFSET as int, WORD_LEN as int),
    {
        let mut bytes: [u8; 20] = [0u8; 20];
        let mut i: usize = 0;
        while i < ADDRESS_LEN
            invariant
                i <= ADDRESS_LEN,
                forall|j: int| 0 <= j < i ==> bytes@[j] == word@[ADDRESS_OFFSET + j],
            decreases ADDRESS_LEN - i,
        {
            bytes[i] = word[ADDRESS_OFFSET + i];
            i += 1;
        }
        assert(bytes@ =~= word@.subrange(ADDRESS_OFFSET as int, WORD_LEN as int));
        Address { bytes }
    }

    /// Whether two addresses hold the same bytes.
    pub fn same_as(&self, other: &Address) -> (r: bool)
        ensures
            r == (self@ == other@),
    {
        let mut i: usize = 0;
        while i < ADDRESS_LEN
            invariant
                i <= ADDRESS_LEN,
                forall|j: int| 0 <= j < i ==> self.bytes@[j] == other.bytes@[j],
            decreases ADDRESS_LEN - i,
        {
            if self.bytes[i] != other.bytes[i] {
                return false;
            }
            i += 1;
        }
        assert(self@ =~= other@);
        true
    }

    /// The base asset against which liquidity is measured.
    pub fn base_asset() -> (r: Address)
        ensures
            r@ == base_asset_bytes(),
    {
        let r = Address {
            bytes: [
                0xC0, 0x2a, 0xaa, 0x39, 0xb2, 0x23, 0xFE, 0x8D, 0x0A, 0x0E,
                0x5C, 0x4F, 0x27, 0xeA, 0xD9, 0x08, 0x3C, 0x75, 0x6C, 0xc2,
            ],
        };
        assert(r@ =~= base_asset_bytes());
        r
    }

    /// The factory contract whose creation events are vetted.
    pub fn factory() -> (r: Address)
        ensures
            r@ == factory_bytes(),
    {
        let r = Address {
            bytes: [
                0x5C, 0x69, 0xbE, 0xe7, 0x01, 0xef, 0x81, 0x4a, 0x2B, 0x6a,
                0x3E, 0xDD, 0x4B, 0x16, 0x52, 0xCB, 0x9c, 0xc5, 0xaA, 0x6f,
            ],
        };
        assert(r@ =~= factory_bytes());
        r
    }

    /// The synthetic counterparty named in the safety probe.
    pub fn probe_counterparty() -> (r: Address)
        ensures
            r@ == probe_counterparty_bytes(),
    {
        let r = Address {
            bytes: [
                0xdD, 0xC6, 0x5f, 0x4E, 0x22, 0xfe, 0x2a, 0xd7, 0xa9, 0xDf,
                0xF7, 0xd5, 0x79, 0x0B, 0x94, 0xEa, 0x04, 0x70, 0xc5, 0x95,
            ],
        };
        assert(r@ =~= probe_counterparty_bytes());
        r
    }
}

} // verus!
