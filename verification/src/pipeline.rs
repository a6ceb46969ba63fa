//! The vetting pipeline of one pair, as a state machine.
//!
//! For each pair the stages run strictly in sequence: the liquidity watcher,
//! the safety prober, the tax inspector, the acceptance filter with its
//! enrichment. The pipeline holds the decisions; its driver performs the
//! request that `pending` names and hands the response to `step`.

use crate::acceptance::{Outcome, Rejection};
use crate::abi::{address_word, uint_word};
use crate::chain::{request_view, Request, RequestView, Response};
use crate::event::{decodable, decode, decodes_to, has_address_topics, PairCreatedEvent};
use crate::liquidity::{LiquidityStatus, LiquidityWatcher, WatchAction};
use crate::record::{assemble, spec_assemble};
use crate::safety::{probe_data, signals_restriction, spec_probe_data, spec_signals_restriction};
use crate::tax::{
    inferred_tax, needs_inference, spec_inferred_tax, spec_needs_inference,
    transfer_probe_data, TaxAssessment, PROBE_AMOUNT, TAX_CEILING,
};
use crate::uint256::Uint256;
use vstd::prelude::*;

verus! {

/// What the pipeline is waiting for.
#[derive(Clone, Copy, Debug, PartialEq, Eq, Structural)]
pub enum Stage {
    /// The liquidity watcher runs: a read of the reserves, or the delay after one.
    WatchingLiquidity,
    /// The safety probe on the candidate token.
    ProbingSafety,
    /// The static buy-tax rate of the candidate token.
    ReadingBuyTax,
    /// The static sell-tax rate of the candidate token.
    ReadingSellTax,
    /// The simulated transfer from which the tax is inferred.
    ProbingTax,
    /// The symbol of the candidate token.
    ReadingTokenSymbol,
    /// The total supply of the candidate token.
    ReadingTotalSupply,
    /// The symbol of the paired token.
    ReadingPairedSymbol,
    /// Nothing: the vetting has ended.
    Finished,
}

/// The vetting of one pair. The candidate token is `token1` of the event, the
/// paired token its `token0`.
#[derive(Clone, Debug, PartialEq, Eq)]
pub struct Pipeline {
    pub event: PairCreatedEvent,
    pub stage: Stage,
    pub watcher: LiquidityWatcher,
    pub taxes: TaxAssessment,
    pub token1_symbol: Option<String>,
    pub total_supply: Option<Uint256>,
}

impl Pipeline {
    /// The invariant of the pipeline: the watcher is waiting exactly while its
    /// stage lasts, and every later stage but the last has seen it succeed.
    pub open spec fn wf(&self) -> bool {
        &&& self.watcher.wf()
        &&& self.stage is WatchingLiquidity <==> self.watcher.status is Waiting
        &&& !(self.stage is WatchingLiquidity) && !(self.stage is Finished)
            ==> self.watcher.status is Sufficient
    }

    /// The pipeline at the start of the vetting of `event`.
    pub open spec fn spec_begin(event: PairCreatedEvent) -> Pipeline {
        Pipeline {
            event,
            stage: Stage::WatchingLiquidity,
            watcher: LiquidityWatcher::spec_new(),
            taxes: TaxAssessment { static_buy_tax: None, static_sell_tax: None, dynamic_tax: None },
            token1_symbol: None,
            total_supply: None,
        }
    }

    /// The request that the pipeline waits to see answered; none once it has finished.
    pub open spec fn spec_pending(&self) -> Option<RequestView> {
        match self.stage {
            Stage::WatchingLiquidity => match self.watcher.spec_pending() {
                WatchAction::Rest(time_units) => Some(RequestView::Wait { time_units }),
                _ => Some(RequestView::ReadReserves { pair: self.event.pair }),
            },
            Stage::ProbingSafety => Some(
                RequestView::SimulateCall { to: self.event.token1, data: spec_probe_data() },
            ),
            Stage::ReadingBuyTax => Some(RequestView::ReadBuyTax { token: self.event.token1 }),
            Stage::ReadingSellTax => Some(RequestView::ReadSellTax { token: self.event.token1 }),
            Stage::ProbingTax => Some(
                RequestView::SimulateCall {
                    to: self.event.token1,
                    data: address_word(self.event.token0@) + uint_word(PROBE_AMOUNT as nat),
                },
            ),
            Stage::ReadingTokenSymbol => Some(RequestView::ReadSymbol { token: self.event.token1 }),
            Stage::ReadingTotalSupply => Some(
                RequestView::ReadTotalSupply { token: self.event.token1 },
            ),
            Stage::ReadingPairedSymbol => Some(RequestView::ReadSymbol { token: self.event.token0 }),
            Stage::Finished => None,
        }
    }

    /// Whether `response` answers the pending request.
    pub open spec fn spec_expects(&self, response: Response) -> bool {
        match response {
            Response::Reserves(_) => self.stage is WatchingLiquidity && self.watcher.awaits_poll(),
            Response::DelayElapsed => self.stage is WatchingLiquidity && self.watcher.awaits_rest(),
            Response::CallReturned(_) => self.stage is ProbingSafety || self.stage is ProbingTax,
            Response::TaxRate(_) => self.stage is ReadingBuyTax || self.stage is ReadingSellTax,
            Response::Symbol(_) => self.stage is ReadingTokenSymbol
                || self.stage is ReadingPairedSymbol,
            Response::TotalSupply(_) => self.stage is ReadingTotalSupply,
        }
    }

    /// Whether the pipeline takes `response` in its state: the invariant holds
    /// and the response answers the pending request.
    pub open spec fn spec_admits(&self, response: Response) -> bool {
        self.wf() && self.spec_expects(response)
    }

    /// The step once the tax findings are complete: the veto on an excessive
    /// tax, or the start of the enrichment.
    pub open spec fn spec_after_taxes(self) -> (Pipeline, Option<Outcome>) {
        if self.taxes.spec_excessive() {
            (
                Pipeline { stage: Stage::Finished, ..self },
                Some(
                    Outcome::Rejected(
                        Rejection::ExcessiveTax(self.taxes.spec_effective_buy_tax()->0),
                    ),
                ),
            )
        } else {
            (Pipeline { stage: Stage::ReadingTokenSymbol, ..self }, None)
        }
    }

    /// The transition: the state after `response`, and the outcome of the
    /// vetting where the response ends it. A response that does not answer
    /// the pending request changes nothing.
    pub open spec fn spec_step(self, response: Response) -> (Pipeline, Option<Outcome>) {
        if !self.spec_expects(response) {
            (self, None)
        } else {
            match response {
                Response::Reserves(poll) => {
                    let watcher = self.watcher.spec_on_poll(self.event, poll);
                    let stage = if watcher.status is Sufficient {
                        Stage::ProbingSafety
                    } else {
                        Stage::WatchingLiquidity
                    };
                    (Pipeline { watcher, stage, ..self }, None)
                },
                Response::DelayElapsed => {
                    let watcher = self.watcher.spec_on_rest_elapsed();
                    if watcher.status is TimedOut {
                        (
                            Pipeline { watcher, stage: Stage::Finished, ..self },
                            Some(Outcome::Rejected(Rejection::InsufficientLiquidity)),
                        )
                    } else {
                        (Pipeline { watcher, ..self }, None)
                    }
                },
                Response::CallReturned(outcome) => {
                    if self.stage is ProbingSafety {
                        if spec_signals_restriction(outcome) {
                            (
                                Pipeline { stage: Stage::Finished, ..self },
                                Some(Outcome::Rejected(Rejection::RestrictedTransfers)),
                            )
                        } else {
                            (Pipeline { stage: Stage::ReadingBuyTax, ..self }, None)
                        }
                    } else {
                        let taxes = TaxAssessment {
                            dynamic_tax: spec_inferred_tax(PROBE_AMOUNT as nat, outcome),
                            ..self.taxes
                        };
                        Pipeline { taxes, ..self }.spec_after_taxes()
                    }
                },
                Response::TaxRate(rate) => {
                    if self.stage is ReadingBuyTax {
                        let taxes = TaxAssessment { static_buy_tax: rate, ..self.taxes };
                        (Pipeline { taxes, stage: Stage::ReadingSellTax, ..self }, None)
                    } else {
                        let taxes = TaxAssessment { static_sell_tax: rate, ..self.taxes };
                        if spec_needs_inference(taxes.static_buy_tax, taxes.static_sell_tax) {
                            (Pipeline { taxes, stage: Stage::ProbingTax, ..self }, None)
                        } else {
                            Pipeline { taxes, ..self }.spec_after_taxes()
                        }
                    }
                },
                Response::Symbol(symbol) => {
                    if self.stage is ReadingTokenSymbol {
                        (
                            Pipeline {
                                token1_symbol: symbol,
                                stage: Stage::ReadingTotalSupply,
                                ..self
                            },
                            None,
                        )
                    } else {
                        (
                            Pipeline { token1_symbol: None, stage: Stage::Finished, ..self },
                            Some(
                                Outcome::Accepted(
                                    spec_assemble(
                                        self.event,
                                        self.taxes,
                                        self.token1_symbol,
                                        self.total_supply,
                                        symbol,
                                    ),
                                ),
                            ),
                        )
                    }
                },
                Response::TotalSupply(supply) => (
                    Pipeline { total_supply: supply, stage: Stage::ReadingPairedSymbol, ..self },
                    None,
                ),
            }
        }
    }

    /// Starts the vetting of a decoded event: the pipeline waits for the first
    /// read of the reserves.
    pub fn begin(event: PairCreatedEvent) -> (r: Pipeline)
        ensures
            r == Self::spec_begin(event),
            r.wf(),
            r.spec_pending() == Some(RequestView::ReadReserves { pair: event.pair }),
    {
        Pipeline {
            event,
            stage: Stage::WatchingLiquidity,
            watcher: LiquidityWatcher::new(),
            taxes: TaxAssessment { static_buy_tax: None, static_sell_tax: None, dynamic_tax: None },
            token1_symbol: None,
            total_supply: None,
        }
    }

    /// Takes one log entry of the factory. An entry that lacks an address
    /// topic starts nothing: there is no pipeline for it, so no request is
    /// made and no record follows. Every other entry starts the vetting of the
    /// event it decodes to.
    pub fn on_log(topics: &Vec<[u8; 32]>, data: &Vec<u8>) -> (r: Option<Pipeline>)
        requires
            decodable(topics@, data@),
        ensures
            r is Some <==> has_address_topics(topics@),
            r matches Some(pipeline) ==> pipeline == Self::spec_begin(pipeline.event)
                && pipeline.wf() && decodes_to(topics@, data@, pipeline.event),
    {
        match decode(topics, data) {
            Some(event) => Some(Self::begin(event)),
            None => None,
        }
    }

    /// Whether the invariant of the pipeline holds of this value.
    pub fn is_wf(&self) -> (r: bool)
        ensures
            r == self.wf(),
    {
        self.watcher.is_wf() && match self.stage {
            Stage::WatchingLiquidity => matches!(self.watcher.status, LiquidityStatus::Waiting),
            Stage::Finished => !matches!(self.watcher.status, LiquidityStatus::Waiting),
            _ => matches!(self.watcher.status, LiquidityStatus::Sufficient),
        }
    }

    /// The request that the pipeline waits to see answered; none once it has finished.
    pub fn pending(&self) -> (r: Option<Request>)
        ensures
            request_view(r) == self.spec_pending(),
    {
        match self.stage {
            Stage::WatchingLiquidity => match self.watcher.pending() {
                WatchAction::Rest(time_units) => Some(Request::Wait { time_units }),
                _ => Some(Request::ReadReserves { pair: self.event.pair }),
            },
            Stage::ProbingSafety => Some(
                Request::SimulateCall { to: self.event.token1, data: probe_data() },
            ),
            Stage::ReadingBuyTax => Some(Request::ReadBuyTax { token: self.event.token1 }),
            Stage::ReadingSellTax => Some(Request::ReadSellTax { token: self.event.token1 }),
            Stage::ProbingTax => Some(
                Request::SimulateCall {
                    to: self.event.token1,
                    data: transfer_probe_data(&self.event.token0, &Uint256::from_u64(PROBE_AMOUNT)),
                },
            ),
            Stage::ReadingTokenSymbol => Some(Request::ReadSymbol { token: self.event.token1 }),
            Stage::ReadingTotalSupply => Some(Request::ReadTotalSupply { token: self.event.token1 }),
            Stage::ReadingPairedSymbol => Some(Request::ReadSymbol { token: self.event.token0 }),
            Stage::Finished => None,
        }
    }

    /// Whether `response` answers the pending request.
    pub fn expects(&self, response: &Response) -> (r: bool)
        ensures
            r == self.spec_expects(*response),
    {
        match response {
            Response::Reserves(_) => self.stage == Stage::WatchingLiquidity
                && self.watcher.is_awaiting_poll(),
            Response::DelayElapsed => self.stage == Stage::WatchingLiquidity
                && self.watcher.is_awaiting_rest(),
            Response::CallReturned(_) => self.stage == Stage::ProbingSafety
                || self.stage == Stage::ProbingTax,
            Response::TaxRate(_) => self.stage == Stage::ReadingBuyTax
                || self.stage == Stage::ReadingSellTax,
            Response::Symbol(_) => self.stage == Stage::ReadingTokenSymbol
                || self.stage == Stage::ReadingPairedSymbol,
            Response::TotalSupply(_) => self.stage == Stage::ReadingTotalSupply,
        }
    }

    /// Whether the pipeline takes `response` in its state: the invariant holds
    /// and the response answers the pending request.
    pub fn admits(&self, response: &Response) -> (r: bool)
        ensures
            r == self.spec_admits(*response),
    {
        self.is_wf() && self.expects(response)
    }

    /// The step once the tax findings are complete.
    fn after_taxes(self) -> (r: (Pipeline, Option<Outcome>))
        requires
            self.wf(),
            self.watcher.status is Sufficient,
        ensures
            r == self.spec_after_taxes(),
            r.0.wf(),
    {
        match self.taxes.effective_buy_tax() {
            Some(tax) if tax > TAX_CEILING => (
                Pipeline { stage: Stage::Finished, ..self },
                Some(Outcome::Rejected(Rejection::ExcessiveTax(tax))),
            ),
            _ => (Pipeline { stage: Stage::ReadingTokenSymbol, ..self }, None),
        }
    }

    /// Takes the driver's response to the pending request and gives the next
    /// state, together with the outcome where the vetting ends with this step.
    pub fn step(self, response: Response) -> (r: (Pipeline, Option<Outcome>))
        requires
            self.wf(),
        ensures
            r == self.spec_step(response),
            r.0.wf(),
    {
        if !self.expects(&response) {
            return (self, None);
        }
        match response {
            Response::Reserves(poll) => {
                let watcher = self.watcher.on_poll(&self.event, poll);
                let stage = if matches!(watcher.status, LiquidityStatus::Sufficient) {
                    Stage::ProbingSafety
                } else {
                    Stage::WatchingLiquidity
                };
                (Pipeline { watcher, stage, ..self }, None)
            },
            Response::DelayElapsed => {
                let watcher = self.watcher.on_rest_elapsed();
                if matches!(watcher.status, LiquidityStatus::TimedOut) {
                    (
                        Pipeline { watcher, stage: Stage::Finished, ..self },
                        Some(Outcome::Rejected(Rejection::InsufficientLiquidity)),
                    )
                } else {
                    (Pipeline { watcher, ..self }, None)
                }
            },
            Response::CallReturned(outcome) => {
                if self.stage == Stage::ProbingSafety {
                    if signals_restriction(&outcome) {
                        (
                            Pipeline { stage: Stage::Finished, ..self },
                            Some(Outcome::Rejected(Rejection::RestrictedTransfers)),
                        )
                    } else {
                        (Pipeline { stage: Stage::ReadingBuyTax, ..self }, None)
                    }
                } else {
                    let dynamic_tax = inferred_tax(&Uint256::from_u64(PROBE_AMOUNT), &outcome);
                    let taxes = TaxAssessment { dynamic_tax, ..self.taxes };
                    Pipeline { taxes, ..self }.after_taxes()
                }
            },
            Response::TaxRate(rate) => {
                if self.stage == Stage::ReadingBuyTax {
                    let taxes = TaxAssessment { static_buy_tax: rate, ..self.taxes };
                    (Pipeline { taxes, stage: Stage::ReadingSellTax, ..self }, None)
                } else {
                    let taxes = TaxAssessment { static_sell_tax: rate, ..self.taxes };
                    if needs_inference(&taxes.static_buy_tax, &taxes.static_sell_tax) {
                        (Pipeline { taxes, stage: Stage::ProbingTax, ..self }, None)
                    } else {
                        Pipeline { taxes, ..self }.after_taxes()
                    }
                }
            },
            Response::Symbol(symbol) => {
                if self.stage == Stage::ReadingTokenSymbol {
                    (
                        Pipeline { token1_symbol: symbol, stage: Stage::ReadingTotalSupply, ..self },
                        None,
                    )
                } else {
                    let record = assemble(
                        &self.event,
                        &self.taxes,
                        self.token1_symbol,
                        self.total_supply,
                        symbol,
                    );
                    (
                        Pipeline {
                            event: self.event,
                            stage: Stage::Finished,
                            watcher: self.watcher,
                            taxes: self.taxes,
                            token1_symbol: None,
                            total_supply: self.total_supply,
                        },
                        Some(Outcome::Accepted(record)),
                    )
                }
            },
            Response::TotalSupply(supply) => (
                Pipeline { total_supply: supply, stage: Stage::ReadingPairedSymbol, ..self },
                None,
            ),
        }
    }
}

} // verus!
