//! The acceptance filter: the vetoes that decide whether a pair is recorded.

use crate::liquidity::LiquidityStatus;
use crate::record::PairRecord;
use crate::tax::TaxAssessment;
use vstd::prelude::*;

verus! {

/// Why a pair is not recorded.
#[derive(Clone, Copy, Debug, PartialEq, Eq)]
pub enum Rejection {
    /// The pool did not reach the liquidity threshold within the attempts.
    InsufficientLiquidity,
    /// The safety probe signalled that the token restricts transfers.
    RestrictedTransfers,
    /// The buy tax that counts, in percent, is above the ceiling.
    ExcessiveTax(u64),
}

/// How the vetting of one pair ended.
#[derive(Clone, Debug, PartialEq, Eq)]
pub enum Outcome {
    Accepted(PairRecord),
    Rejected(Rejection),
}

/// Whether a pair passes: liquidity reached `Sufficient`, the safety probe
/// signalled no restriction, and the buy tax that counts is absent or within
/// the ceiling.
pub open spec fn spec_accepts(status: LiquidityStatus, restricted: bool, taxes: TaxAssessment) -> bool {
    &&& status is Sufficient
    &&& !restricted
    &&& !taxes.spec_excessive()
}

/// The first veto that applies, in the order liquidity, restriction, tax; none
/// where the pair passes.
pub open spec fn spec_veto(status: LiquidityStatus, restricted: bool, taxes: TaxAssessment) -> Option<Rejection> {
    if !(status is Sufficient) {
        Some(Rejection::InsufficientLiquidity)
    } else if restricted {
        Some(Rejection::RestrictedTransfers)
    } else if taxes.spec_excessive() {
        Some(Rejection::ExcessiveTax(taxes.spec_effective_buy_tax()->0))
    } else {
        None
    }
}

/// Whether a pair passes every veto.
pub fn accepts(status: LiquidityStatus, restricted: bool, taxes: &TaxAssessment) -> (r: bool)
    ensures
        r == spec_accepts(status, restricted, *taxes),
        r <==> spec_veto(status, restricted, *taxes) is None,
{
    matches!(status, LiquidityStatus::Sufficient) && !restricted && !taxes.excessive()
}

/// The first veto that applies to a pair, if any.
pub fn veto(status: LiquidityStatus, restricted: bool, taxes: &TaxAssessment) -> (r: Option<Rejection>)
    ensures
        r == spec_veto(status, restricted, *taxes),
        r is None <==> spec_accepts(status, restricted, *taxes),
{
    if !matches!(status, LiquidityStatus::Sufficient) {
        Some(Rejection::InsufficientLiquidity)
    } else if restricted {
        Some(Rejection::RestrictedTransfers)
    } else {
        match taxes.effective_buy_tax() {
            Some(tax) => if tax > crate::tax::TAX_CEILING {
                Some(Rejection::ExcessiveTax(tax))
            } else {
                None
            },
            None => None,
        }
    }
}

} // verus!
