//! The record of an accepted pair.

use crate::address::Address;
use crate::event::PairCreatedEvent;
use crate::tax::TaxAssessment;
use crate::uint256::Uint256;
use vstd::prelude::*;

verus! {

/// What is kept of a pair that passed every veto. The fields stand in the
/// order of the columns in which a record is persisted.
#[derive(Clone, Debug, PartialEq, Eq)]
pub struct PairRecord {
    pub token1: Address,
    pub token1_symbol: Option<String>,
    pub token0: Address,
    pub token0_symbol: Option<String>,
    pub total_supply: Option<Uint256>,
    pub pair: Address,
    pub buy_tax: Option<u64>,
    pub sell_tax: Option<u64>,
    pub dynamic_tax_detected: Option<u64>,
}

/// The record of a pair: the addresses of the event, the three tax findings,
/// and what the enrichment found, absent where a read failed.
pub open spec fn spec_assemble(
    event: PairCreatedEvent,
    taxes: TaxAssessment,
    token1_symbol: Option<String>,
    total_supply: Option<Uint256>,
    token0_symbol: Option<String>,
) -> PairRecord {
    PairRecord {
        token1: event.token1,
        token1_symbol,
        token0: event.token0,
        token0_symbol,
        total_supply,
        pair: event.pair,
        buy_tax: taxes.static_buy_tax,
        sell_tax: taxes.static_sell_tax,
        dynamic_tax_detected: taxes.dynamic_tax,
    }
}

/// Assembles the record of a pair.
pub fn assemble(
    event: &PairCreatedEvent,
    taxes: &TaxAssessment,
    token1_symbol: Option<String>,
    total_supply: Option<Uint256>,
    token0_symbol: Option<String>,
) -> (r: PairRecord)
    ensures
        r == spec_assemble(*event, *taxes, token1_symbol, total_supply, token0_symbol),
{
    PairRecord {
        token1: event.token1,
        token1_symbol,
        token0: event.token0,
        token0_symbol,
        total_supply,
        pair: event.pair,
        buy_tax: taxes.static_buy_tax,
        sell_tax: taxes.static_sell_tax,
        dynamic_tax_detected: taxes.dynamic_tax,
    }
}

} // verus!
