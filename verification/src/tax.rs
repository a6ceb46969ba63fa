//! The tax inspector: static tax rates where the token exposes them, and an
//! effective rate inferred from a simulated transfer where it does not.

use crate::abi::{address_word, encode_address_and_amount, uint_word};
use crate::address::Address;
use crate::uint256::{be_value, difference, from_big_endian, modulus, product, quotient, Uint256};
use vstd::prelude::*;
use vstd::slice::slice_subrange;

verus! {

/// Amount sent in the simulated transfer: one whole token, in subunits of 18 decimal places.
pub const PROBE_AMOUNT: u64 = 1_000_000_000_000_000_000;

/// Highest effective buy tax, in percent, with which a pair is still accepted.
pub const TAX_CEILING: u64 = 6;

/// Length of the word that holds the amount received, at the start of the reply.
pub const AMOUNT_LEN: usize = 32;

/// What is known of a token's taxes, in whole percent. A rate is absent where
/// the token does not expose it or the read failed.
#[derive(Clone, Copy, Debug, PartialEq, Eq)]
pub struct TaxAssessment {
    pub static_buy_tax: Option<u64>,
    pub static_sell_tax: Option<u64>,
    pub dynamic_tax: Option<u64>,
}

impl TaxAssessment {
    /// The buy tax that counts: the static one where present, else the inferred one.
    pub open spec fn spec_effective_buy_tax(&self) -> Option<u64> {
        if self.static_buy_tax is Some {
            self.static_buy_tax
        } else {
            self.dynamic_tax
        }
    }

    /// The buy tax that counts: the static one where present, else the inferred one.
    pub fn effective_buy_tax(&self) -> (r: Option<u64>)
        ensures
            r == self.spec_effective_buy_tax(),
    {
        match self.static_buy_tax {
            Some(tax) => Some(tax),
            None => self.dynamic_tax,
        }
    }

    /// Whether the buy tax that counts is present and above the ceiling.
    pub open spec fn spec_excessive(&self) -> bool {
        self.spec_effective_buy_tax() matches Some(tax) && tax > TAX_CEILING
    }

    /// Whether the buy tax that counts is present and above the ceiling.
    pub fn excessive(&self) -> (r: bool)
        ensures
            r == self.spec_excessive(),
    {
        match self.effective_buy_tax() {
            Some(tax) => tax > TAX_CEILING,
            None => false,
        }
    }
}

/// Whether the tax has to be inferred: it has, as soon as either static rate is absent.
pub open spec fn spec_needs_inference(buy_tax: Option<u64>, sell_tax: Option<u64>) -> bool {
    buy_tax is None || sell_tax is None
}

/// Whether the tax has to be inferred from a simulated transfer.
pub fn needs_inference(buy_tax: &Option<u64>, sell_tax: &Option<u64>) -> (r: bool)
    ensures
        r == spec_needs_inference(*buy_tax, *sell_tax),
{
    buy_tax.is_none() || sell_tax.is_none()
}

/// The amount received that a reply reports: its first 32 bytes, read as a
/// big-endian unsigned integer. A shorter reply reports none.
pub open spec fn received_amount(reply: Seq<u8>) -> Option<nat> {
    if reply.len() >= AMOUNT_LEN {
        Some(be_value(reply.subrange(0, AMOUNT_LEN as int)))
    } else {
        None
    }
}

/// The share of the amount sent that did not arrive, in whole percent, rounded down.
pub open spec fn tax_percent(sent: nat, received: nat) -> nat {
    ((sent - received) * 100 / (sent as int)) as nat
}

/// Whether the amount that a reply reports, if it reports one, is a share of
/// what was sent: something was sent, no more arrived than was sent, and one
/// hundred times the loss fits in 256 bits.
pub open spec fn reply_in_range(sent: nat, reply: Seq<u8>) -> bool {
    received_amount(reply) matches Some(received) ==> {
        &&& 0 < sent
        &&& received <= sent
        &&& (sent - received) * 100 < modulus()
    }
}

/// The tax that a reply to the simulated transfer shows. A reply that reports
/// no amount shows none, and so does one whose amount is no share of what was
/// sent: a tax, where present, is a percentage of the amount sent.
pub open spec fn spec_dynamic_tax(sent: nat, reply: Seq<u8>) -> Option<u64> {
    match received_amount(reply) {
        Some(received) => if reply_in_range(sent, reply) {
            Some(tax_percent(sent, received) as u64)
        } else {
            None
        },
        None => None,
    }
}

/// The tax that the outcome of the simulated transfer shows: none where the
/// call failed.
pub open spec fn spec_inferred_tax(sent: nat, outcome: Option<Vec<u8>>) -> Option<u64> {
    match outcome {
        Some(reply) => spec_dynamic_tax(sent, reply@),
        None => None,
    }
}

/// The inferred tax never exceeds one hundred percent.
pub proof fn lemma_tax_percent_bounded(sent: nat, received: nat)
    requires
        0 < sent,
        received <= sent,
    ensures
        tax_percent(sent, received) <= 100,
{
    let lost: int = sent - received;
    let whole: int = sent as int;
    assert(lost * 100 / whole <= 100) by (nonlinear_arith)
        requires
            0 <= lost <= whole,
            0 < whole,
    ;
}

/// The largest quantity whose hundredfold fits in 256 bits.
fn largest_scalable() -> (r: Uint256)
    ensures
        r@ * 100 < modulus(),
        (r@ + 1) * 100 >= modulus(),
{
    Uint256 {
        limbs: [
            0xf5c2_8f5c_28f5_c28f,
            0x8f5c_28f5_c28f_5c28,
            0x28f5_c28f_5c28_f5c2,
            0x028f_5c28_f5c2_8f5c,
        ],
    }
}

/// The call data of the simulated transfer: the recipient, then the amount.
pub fn transfer_probe_data(recipient: &Address, amount: &Uint256) -> (r: Vec<u8>)
    ensures
        r@ == address_word(recipient@) + uint_word(amount@),
{
    encode_address_and_amount(recipient, amount)
}

/// Whether `reply_in_range` holds of a reply.
pub fn reply_is_in_range(sent: &Uint256, reply: &[u8]) -> (r: bool)
    ensures
        r == reply_in_range(sent@, reply@),
{
    if reply.len() < AMOUNT_LEN {
        return true;
    }
    let received = from_big_endian(slice_subrange(reply, 0, AMOUNT_LEN));
    let zero = Uint256::from_u64(0);
    if sent.le(&zero) || !received.le(sent) {
        return false;
    }
    let lost = difference(sent, &received);
    lost.le(&largest_scalable())
}

/// Infers the tax from the reply to a simulated transfer of `sent`: the share
/// that did not arrive, in whole percent, rounded down. Every reply is taken.
/// One shorter than a word yields no tax, and so does one that reports more
/// received than was sent, or an amount from which no percentage can be
/// computed in 256 bits.
pub fn dynamic_tax(sent: &Uint256, reply: &[u8]) -> (r: Option<u64>)
    ensures
        r == spec_dynamic_tax(sent@, reply@),
        r is Some <==> reply@.len() >= AMOUNT_LEN && reply_in_range(sent@, reply@),
        r matches Some(tax) ==> tax <= 100,
{
    if reply.len() < AMOUNT_LEN || !reply_is_in_range(sent, reply) {
        return None;
    }
    let received = from_big_endian(slice_subrange(reply, 0, AMOUNT_LEN));
    let lost = difference(sent, &received);
    let scaled = product(&lost, &Uint256::from_u64(100));
    let tax = quotient(&scaled, sent);
    proof {
        lemma_tax_percent_bounded(sent@, received@);
    }
    tax.to_u64()
}

/// Infers the tax from the outcome of the simulated transfer; `None` stands
/// for a call that failed, and yields no tax.
pub fn inferred_tax(sent: &Uint256, outcome: &Option<Vec<u8>>) -> (r: Option<u64>)
    ensures
        r == spec_inferred_tax(sent@, *outcome),
        r matches Some(tax) ==> tax <= 100,
{
    match outcome {
        Some(reply) => dynamic_tax(sent, reply.as_slice()),
        None => None,
    }
}

} // verus!
