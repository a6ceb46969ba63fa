//! The vocabulary between the pipeline and its driver: what the pipeline asks
//! for, and what the driver reports back.
//!
//! The driver owns the connection to the ledger and the clock. It performs
//! each request and hands the matching response to the pipeline.

use crate::address::Address;
use crate::liquidity::Reserves;
use crate::uint256::Uint256;
use vstd::prelude::*;

verus! {

/// What the pipeline asks its driver to do next.
#[derive(Clone, Debug, PartialEq, Eq)]
pub enum Request {
    /// Read the reserves of the pool at `pair`.
    ReadReserves { pair: Address },
    /// Let `time_units` pass.
    Wait { time_units: u64 },
    /// Simulate a call to the contract at `to` with the call data `data`,
    /// committing no state.
    SimulateCall { to: Address, data: Vec<u8> },
    /// Read the buy-tax rate that the token at `token` exposes.
    ReadBuyTax { token: Address },
    /// Read the sell-tax rate that the token at `token` exposes.
    ReadSellTax { token: Address },
    /// Read the symbol of the token at `token`.
    ReadSymbol { token: Address },
    /// Read the total supply of the token at `token`.
    ReadTotalSupply { token: Address },
}

/// A request, with its call data as a sequence of bytes.
pub enum RequestView {
    ReadReserves { pair: Address },
    Wait { time_units: u64 },
    SimulateCall { to: Address, data: Seq<u8> },
    ReadBuyTax { token: Address },
    ReadSellTax { token: Address },
    ReadSymbol { token: Address },
    ReadTotalSupply { token: Address },
}

impl View for Request {
    type V = RequestView;

    open spec fn view(&self) -> RequestView {
        match *self {
            Request::ReadReserves { pair } => RequestView::ReadReserves { pair },
            Request::Wait { time_units } => RequestView::Wait { time_units },
            Request::SimulateCall { to, data } => RequestView::SimulateCall { to, data: data@ },
            Request::ReadBuyTax { token } => RequestView::ReadBuyTax { token },
            Request::ReadSellTax { token } => RequestView::ReadSellTax { token },
            Request::ReadSymbol { token } => RequestView::ReadSymbol { token },
            Request::ReadTotalSupply { token } => RequestView::ReadTotalSupply { token },
        }
    }
}

/// What the driver reports back. In every variant `None` stands for a read or
/// a call that failed.
#[derive(Clone, Debug, PartialEq, Eq)]
pub enum Response {
    /// The outcome of `ReadReserves`.
    Reserves(Option<Reserves>),
    /// The time asked for by `Wait` has passed.
    DelayElapsed,
    /// The outcome of `SimulateCall`: the raw bytes that the call returned.
    CallReturned(Option<Vec<u8>>),
    /// The outcome of `ReadBuyTax` or `ReadSellTax`, in whole percent.
    TaxRate(Option<u64>),
    /// The outcome of `ReadSymbol`.
    Symbol(Option<String>),
    /// The outcome of `ReadTotalSupply`.
    TotalSupply(Option<Uint256>),
}

/// The view of a request that may be absent.
pub open spec fn request_view(request: Option<Request>) -> Option<RequestView> {
    match request {
        Some(r) => Some(r@),
        None => None,
    }
}

} // verus!
