//! The safety prober: one simulated call that shows whether a token lets an
//! unknown counterparty take part in transfers.

use crate::abi::{address_word, encode_address};
use crate::address::{probe_counterparty_bytes, Address};
use vstd::prelude::*;

verus! {

/// The call data of the safety probe: the synthetic counterparty, as one word.
pub open spec fn spec_probe_data() -> Seq<u8> {
    address_word(probe_counterparty_bytes())
}

/// Whether the outcome of the probe signals a restriction: a call that failed
/// does, whatever the cause; a call that returned does not, whatever it returned.
pub open spec fn spec_signals_restriction(outcome: Option<Vec<u8>>) -> bool {
    outcome is None
}

/// The call data of the safety probe.
pub fn probe_data() -> (r: Vec<u8>)
    ensures
        r@ == spec_probe_data(),
        r@.len() == 32,
{
    encode_address(&Address::probe_counterparty())
}

/// Reads the outcome of the probe; `None` stands for a call that failed.
pub fn signals_restriction(outcome: &Option<Vec<u8>>) -> (r: bool)
    ensures
        r == spec_signals_restriction(*outcome),
{
    outcome.is_none()
}

} // verus!
