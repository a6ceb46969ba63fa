//! Unsigned 256-bit quantities, the ledger's native width for amounts.
//!
//! The value type is the library's own; the arithmetic on it is done by
//! `ethers::types::U256`, reached through four functions of this module that
//! are visible within the crate only (`from_big_endian`, `difference`,
//! `product`, `quotient`) and are called from the tax inspector. Their
//! contracts are stated here and not proved.

use vstd::prelude::*;

verus! {

/// An unsigned 256-bit quantity, held as four 64-bit limbs, least significant first.
/// Its view is the number it stands for.
#[derive(Clone, Copy, Debug, PartialEq, Eq)]
pub struct Uint256 {
    pub limbs: [u64; 4],
}

/// Two to the power 256: one more than the largest quantity.
pub open spec fn modulus() -> nat {
    0x1_0000_0000_0000_0000_0000_0000_0000_0000_0000_0000_0000_0000_0000_0000_0000_0000nat
}

/// The number that four limbs stand for, least significant limb first.
pub open spec fn limbs_value(limbs: Seq<u64>) -> nat {
    (limbs[0] as nat) + (limbs[1] as nat) * 0x1_0000_0000_0000_0000nat
        + (limbs[2] as nat) * 0x1_0000_0000_0000_0000_0000_0000_0000_0000nat
        + (limbs[3] as nat) * 0x1_0000_0000_0000_0000_0000_0000_0000_0000_0000_0000_0000_0000nat
}

/// The number that a byte string stands for when read big-endian.
pub open spec fn be_value(bytes: Seq<u8>) -> nat
    decreases bytes.len(),
{
    if bytes.len() == 0 {
        0
    } else {
        be_value(bytes.drop_last()) * 256 + bytes.last() as nat
    }
}

/// The `n` bytes that stand for `v` big-endian (for `v` modulo 256 to the power `n`).
pub open spec fn be_bytes(v: nat, n: nat) -> Seq<u8>
    decreases n,
{
    if n == 0 {
        Seq::empty()
    } else {
        be_bytes(v / 256, (n - 1) as nat).push((v % 256) as u8)
    }
}

impl View for Uint256 {
    type V = nat;

    open spec fn view(&self) -> nat {
        limbs_value(self.limbs@)
    }
}

/// `U256::from_big_endian`: the quantity that at most 32 bytes stand for, read
/// big-endian. The outside function panics on a longer slice.
#[verifier::external_body]
pub(crate) fn from_big_endian(bytes: &[u8]) -> (r: Uint256)
    requires
        bytes@.len() <= 32,
    ensures
        r@ == be_value(bytes@),
{
    Uint256 { limbs: ethers::types::U256::from_big_endian(bytes).0 }
}

/// `U256`'s operator `-`: the difference. The outside operator panics when the
/// subtrahend is the larger.
#[verifier::external_body]
pub(crate) fn difference(a: &Uint256, b: &Uint256) -> (r: Uint256)
    requires
        a@ >= b@,
    ensures
        r@ == a@ - b@,
{
    Uint256 { limbs: (ethers::types::U256(a.limbs) - ethers::types::U256(b.limbs)).0 }
}

/// `U256`'s operator `*`: the product. The outside operator panics when the
/// product does not fit in 256 bits.
#[verifier::external_body]
pub(crate) fn product(a: &Uint256, b: &Uint256) -> (r: Uint256)
    requires
        a@ * b@ < modulus(),
    ensures
        r@ == a@ * b@,
{
    Uint256 { limbs: (ethers::types::U256(a.limbs) * ethers::types::U256(b.limbs)).0 }
}

/// `U256`'s operator `/`: the quotient, rounded down. The outside operator
/// panics on a zero divisor.
#[verifier::external_body]
pub(crate) fn quotient(a: &Uint256, b: &Uint256) -> (r: Uint256)
    requires
        b@ > 0,
    ensures
        r@ == a@ / b@,
{
    Uint256 { limbs: (ethers::types::U256(a.limbs) / ethers::types::U256(b.limbs)).0 }
}

impl Uint256 {
    /// The quantity equal to `v`.
    pub fn from_u64(v: u64) -> (r: Uint256)
        ensures
            r@ == v,
    {
        Uint256 { limbs: [v, 0, 0, 0] }
    }

    /// Whether this quantity is at most `other`.
    pub fn le(&self, other: &Uint256) -> (r: bool)
        ensures
            r == (self@ <= other@),
    {
        if self.limbs[3] != other.limbs[3] {
            self.limbs[3] < other.limbs[3]
        } else if self.limbs[2] != other.limbs[2] {
            self.limbs[2] < other.limbs[2]
        } else if self.limbs[1] != other.limbs[1] {
            self.limbs[1] < other.limbs[1]
        } else {
            self.limbs[0] <= other.limbs[0]
        }
    }

    /// This quantity as a `u64`, where it fits in one.
    pub fn to_u64(&self) -> (r: Option<u64>)
        ensures
            r is Some <==> self@ <= u64::MAX,
            r matches Some(v) ==> v == self@,
    {
        if self.limbs[1] == 0 && self.limbs[2] == 0 && self.limbs[3] == 0 {
            Some(self.limbs[0])
        } else {
            None
        }
    }
}

/// The number of values that `n` bytes can stand for: 256 to the power `n`.
pub open spec fn byte_range(n: nat) -> nat
    decreases n,
{
    if n == 0 {
        1
    } else {
        256 * byte_range((n - 1) as nat)
    }
}

/// Writing a number big-endian on `n` bytes and reading the bytes back gives
/// the number, where it fits on `n` bytes.
pub proof fn law_big_endian_round_trip(v: nat, n: nat)
    requires
        v < byte_range(n),
    ensures
        be_bytes(v, n).len() == n,
        be_value(be_bytes(v, n)) == v,
    decreases n,
{
    if n > 0 {
        let before = be_bytes(v / 256, (n - 1) as nat);
        law_big_endian_round_trip(v / 256, (n - 1) as nat);
        assert(be_bytes(v, n).drop_last() =~= before);
    }
}

/// A word of 32 bytes stands for exactly the numbers below two to the power 256.
pub proof fn lemma_word_range()
    ensures
        byte_range(32) == modulus(),
{
    reveal_with_fuel(byte_range, 33);
}

/// Every quantity is read back from its 32-byte word.
pub proof fn law_word_round_trip(x: Uint256)
    ensures
        be_bytes(x@, 32).len() == 32,
        be_value(be_bytes(x@, 32)) == x@,
{
    lemma_word_range();
    law_big_endian_round_trip(x@, 32);
}

} // verus!
