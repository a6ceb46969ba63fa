//! What the vetting of a pair comes to, stated in one piece, and the proof
//! that the pipeline, driven step by step, comes to exactly that.
//!
//! Everything here is specification and proof: it describes the ledger's
//! answers for one pair as a value, and the pipeline's run against them.

use crate::acceptance::{spec_accepts, spec_veto, Outcome, Rejection};
use crate::chain::{RequestView, Response};
use crate::event::PairCreatedEvent;
use crate::liquidity::{
    first_sufficient, lemma_first_sufficient, lemma_watch, poll_at, spec_sufficient, watch,
    LiquidityStatus, LiquidityWatcher, Reserves, MAX_ATTEMPTS, RETRY_DELAY,
};
use crate::pipeline::{Pipeline, Stage};
use crate::record::spec_assemble;
use crate::safety::spec_signals_restriction;
use crate::tax::{
    spec_inferred_tax, spec_needs_inference, TaxAssessment, PROBE_AMOUNT, TAX_CEILING,
};
use crate::uint256::Uint256;
use vstd::prelude::*;

verus! {

/// What the ledger answers for one pair: the reads of the reserves by the
/// index of the attempt, and the one answer to each of the other requests.
/// `None` stands for a read or a call that fails.
pub struct Observations {
    pub polls: Seq<Option<Reserves>>,
    pub safety_probe: Option<Vec<u8>>,
    pub buy_tax: Option<u64>,
    pub sell_tax: Option<u64>,
    pub transfer_probe: Option<Vec<u8>>,
    pub token1_symbol: Option<String>,
    pub total_supply: Option<Uint256>,
    pub token0_symbol: Option<String>,
}

/// Number of steps within which every vetting ends: thirty reads, thirty
/// delays, and the seven requests that can follow them.
pub open spec fn max_steps() -> nat {
    67
}

/// The status with which the liquidity watcher ends on these answers.
pub open spec fn liquidity_status(event: PairCreatedEvent, obs: Observations) -> LiquidityStatus {
    watch(LiquidityWatcher::spec_new(), event, obs.polls).status
}

/// The tax findings on these answers: the two static rates, and the inferred
/// tax where one of them is absent.
pub open spec fn assessment(obs: Observations) -> TaxAssessment {
    TaxAssessment {
        static_buy_tax: obs.buy_tax,
        static_sell_tax: obs.sell_tax,
        dynamic_tax: if spec_needs_inference(obs.buy_tax, obs.sell_tax) {
            spec_inferred_tax(PROBE_AMOUNT as nat, obs.transfer_probe)
        } else {
            None
        },
    }
}

/// What the vetting comes to: the first veto that applies, or the record.
pub open spec fn verdict(event: PairCreatedEvent, obs: Observations) -> Outcome {
    match spec_veto(
        liquidity_status(event, obs),
        spec_signals_restriction(obs.safety_probe),
        assessment(obs),
    ) {
        Some(rejection) => Outcome::Rejected(rejection),
        None => Outcome::Accepted(
            spec_assemble(
                event,
                assessment(obs),
                obs.token1_symbol,
                obs.total_supply,
                obs.token0_symbol,
            ),
        ),
    }
}

/// The response that these answers give to the request pending in `pipeline`.
pub open spec fn answer(pipeline: Pipeline, obs: Observations) -> Response {
    match pipeline.stage {
        Stage::WatchingLiquidity => if pipeline.watcher.resting {
            Response::DelayElapsed
        } else {
            Response::Reserves(poll_at(obs.polls, pipeline.watcher.failed as nat))
        },
        Stage::ProbingSafety => Response::CallReturned(obs.safety_probe),
        Stage::ReadingBuyTax => Response::TaxRate(obs.buy_tax),
        Stage::ReadingSellTax => Response::TaxRate(obs.sell_tax),
        Stage::ProbingTax => Response::CallReturned(obs.transfer_probe),
        Stage::ReadingTokenSymbol => Response::Symbol(obs.token1_symbol),
        Stage::ReadingTotalSupply => Response::TotalSupply(obs.total_supply),
        Stage::ReadingPairedSymbol => Response::Symbol(obs.token0_symbol),
        Stage::Finished => Response::DelayElapsed,
    }
}

/// The outcome that the pipeline reaches from `pipeline` within `fuel` steps,
/// each pending request being answered from `obs`; none where a response is
/// not admitted or the steps run out first.
pub open spec fn drive(pipeline: Pipeline, obs: Observations, fuel: nat) -> Option<Outcome>
    decreases fuel,
{
    if fuel == 0 || !pipeline.spec_admits(answer(pipeline, obs)) {
        None
    } else {
        let stepped = pipeline.spec_step(answer(pipeline, obs));
        match stepped.1 {
            Some(outcome) => Some(outcome),
            None => drive(stepped.0, obs, (fuel - 1) as nat),
        }
    }
}

/// What the vetting comes to once the watcher has ended sufficient: the veto
/// of the safety probe or of the tax, or the record.
spec fn verdict_after_liquidity(event: PairCreatedEvent, obs: Observations) -> Outcome {
    match spec_veto(
        LiquidityStatus::Sufficient,
        spec_signals_restriction(obs.safety_probe),
        assessment(obs),
    ) {
        Some(rejection) => Outcome::Rejected(rejection),
        None => Outcome::Accepted(
            spec_assemble(
                event,
                assessment(obs),
                obs.token1_symbol,
                obs.total_supply,
                obs.token0_symbol,
            ),
        ),
    }
}

/// From the safety probe on, the pipeline reaches the verdict within seven steps.
proof fn lemma_drive_after_liquidity(pipeline: Pipeline, obs: Observations, fuel: nat)
    requires
        pipeline.wf(),
        pipeline.stage is ProbingSafety,
        pipeline.taxes.dynamic_tax is None,
        fuel >= 7,
    ensures
        drive(pipeline, obs, fuel) == Some(verdict_after_liquidity(pipeline.event, obs)),
{
    reveal_with_fuel(drive, 8);
    let probed = pipeline.spec_step(answer(pipeline, obs)).0;
    if !spec_signals_restriction(obs.safety_probe) {
        assert(probed.stage is ReadingBuyTax);
        let with_buy = probed.spec_step(answer(probed, obs)).0;
        assert(with_buy.stage is ReadingSellTax);
        let sell_step = with_buy.spec_step(answer(with_buy, obs));
        let with_sell = sell_step.0;
        assert(with_sell.taxes.static_buy_tax == obs.buy_tax);
        assert(with_sell.taxes.static_sell_tax == obs.sell_tax);
        if spec_needs_inference(obs.buy_tax, obs.sell_tax) {
            assert(with_sell.stage is ProbingTax);
            let probe_step = with_sell.spec_step(answer(with_sell, obs));
            let with_tax = probe_step.0;
            assert(with_tax.taxes == assessment(obs));
            if !assessment(obs).spec_excessive() {
                lemma_drive_enrichment(with_tax, obs, (fuel - 4) as nat);
            }
        } else {
            assert(with_sell.taxes == assessment(obs));
            if !assessment(obs).spec_excessive() {
                lemma_drive_enrichment(with_sell, obs, (fuel - 3) as nat);
            }
        }
    }
}

/// From the first read of the enrichment on, the pipeline reaches the record
/// within three steps.
proof fn lemma_drive_enrichment(pipeline: Pipeline, obs: Observations, fuel: nat)
    requires
        pipeline.wf(),
        pipeline.stage is ReadingTokenSymbol,
        fuel >= 3,
    ensures
        drive(pipeline, obs, fuel) == Some(
            Outcome::Accepted(
                spec_assemble(
                    pipeline.event,
                    pipeline.taxes,
                    obs.token1_symbol,
                    obs.total_supply,
                    obs.token0_symbol,
                ),
            ),
        ),
{
    reveal_with_fuel(drive, 4);
    let named = pipeline.spec_step(answer(pipeline, obs)).0;
    assert(named.stage is ReadingTotalSupply);
    let supplied = named.spec_step(answer(named, obs)).0;
    assert(supplied.stage is ReadingPairedSymbol);
}

/// While the watcher runs, the pipeline follows it: it ends rejected where no
/// attempt from the current one on reaches the threshold, and goes on to the
/// verdict of the later stages where one does.
proof fn lemma_drive_liquidity(pipeline: Pipeline, obs: Observations, fuel: nat)
    requires
        pipeline.wf(),
        pipeline.stage is WatchingLiquidity,
        pipeline.watcher.awaits_poll(),
        pipeline.taxes.dynamic_tax is None,
        fuel >= 2 * (MAX_ATTEMPTS - pipeline.watcher.failed) + 7,
    ensures
        drive(pipeline, obs, fuel) == Some(
            if first_sufficient(pipeline.event, obs.polls, pipeline.watcher.failed as nat) is Some {
                verdict_after_liquidity(pipeline.event, obs)
            } else {
                Outcome::Rejected(Rejection::InsufficientLiquidity)
            },
        ),
    decreases MAX_ATTEMPTS - pipeline.watcher.failed,
{
    reveal_with_fuel(drive, 3);
    let poll = poll_at(obs.polls, pipeline.watcher.failed as nat);
    let polled = pipeline.spec_step(answer(pipeline, obs)).0;
    if spec_sufficient(pipeline.event, poll) {
        assert(polled.stage is ProbingSafety);
        lemma_drive_after_liquidity(polled, obs, (fuel - 1) as nat);
    } else {
        assert(polled.stage is WatchingLiquidity && polled.watcher.awaits_rest());
        let rest_step = polled.spec_step(answer(polled, obs));
        let rested = rest_step.0;
        if pipeline.watcher.failed + 1 < MAX_ATTEMPTS {
            assert(rested.watcher.awaits_poll());
            lemma_drive_liquidity(rested, obs, (fuel - 2) as nat);
        } else {
            assert(rest_step.1 == Some(Outcome::Rejected(Rejection::InsufficientLiquidity)));
        }
    }
}

/// Driven step by step, with every request answered as the ledger answers it,
/// the pipeline admits each response and ends, within the bound on its steps,
/// with exactly the verdict.
pub proof fn law_pipeline_reaches_the_verdict(event: PairCreatedEvent, obs: Observations, fuel: nat)
    requires
        fuel >= max_steps(),
    ensures
        drive(Pipeline::spec_begin(event), obs, fuel) == Some(verdict(event, obs)),
{
    lemma_watch(LiquidityWatcher::spec_new(), event, obs.polls);
    lemma_drive_liquidity(Pipeline::spec_begin(event), obs, fuel);
}

/// A pair is accepted if and only if liquidity reached `Sufficient`, the
/// safety probe signalled no restriction, and the buy tax that counts is
/// absent or at most the ceiling. The buy tax that counts is the static one
/// where that read succeeds and else the inferred one, so the sell rate, the
/// symbols and the supply never change whether a pair is accepted. This holds
/// of every answer of the ledger.
pub proof fn law_acceptance(event: PairCreatedEvent, obs: Observations)
    ensures
        assessment(obs).spec_effective_buy_tax() == (if obs.buy_tax is Some {
            obs.buy_tax
        } else {
            spec_inferred_tax(PROBE_AMOUNT as nat, obs.transfer_probe)
        }),
        verdict(event, obs) is Accepted <==> {
            &&& liquidity_status(event, obs) is Sufficient
            &&& !spec_signals_restriction(obs.safety_probe)
            &&& (assessment(obs).spec_effective_buy_tax() matches Some(tax) ==> tax <= TAX_CEILING)
        },
        verdict(event, obs) is Accepted <==> spec_accepts(
            liquidity_status(event, obs),
            spec_signals_restriction(obs.safety_probe),
            assessment(obs),
        ),
{
}

/// Where none of the thirty attempts reaches the threshold, the vetting ends
/// without a record, whatever the safety probe and the tax reads would give.
pub proof fn law_timeout_rejects(event: PairCreatedEvent, obs: Observations)
    requires
        forall|k: nat| k < MAX_ATTEMPTS ==> !spec_sufficient(event, #[trigger] poll_at(obs.polls, k)),
    ensures
        liquidity_status(event, obs) is TimedOut,
        verdict(event, obs) == Outcome::Rejected(Rejection::InsufficientLiquidity),
{
    lemma_watch(LiquidityWatcher::spec_new(), event, obs.polls);
    lemma_first_sufficient(event, obs.polls, 0);
}

/// The requests that the pipeline makes from `pipeline` on, in order, each
/// being answered from `obs`, until the vetting ends or the steps run out.
pub open spec fn requests(pipeline: Pipeline, obs: Observations, fuel: nat) -> Seq<RequestView>
    decreases fuel,
{
    if fuel == 0 || !pipeline.spec_admits(answer(pipeline, obs)) {
        Seq::empty()
    } else {
        let stepped = pipeline.spec_step(answer(pipeline, obs));
        seq![pipeline.spec_pending()->0] + match stepped.1 {
            Some(_) => Seq::empty(),
            None => requests(stepped.0, obs, (fuel - 1) as nat),
        }
    }
}

/// Whether a list of requests keeps to the watcher's bounds, with `spent`
/// attempts already made: a read of the reserves stands only at an even place
/// below twice the attempts that are left, and what stands before a later
/// read is the wait of the fixed delay.
pub open spec fn reads_bounded_and_spaced(requests: Seq<RequestView>, spent: nat) -> bool {
    &&& forall|i: int|
        0 <= i < requests.len() && #[trigger] requests[i] is ReadReserves ==> i % 2 == 0 && i < 2
            * (MAX_ATTEMPTS - spent)
    &&& forall|i: int|
        0 < i < requests.len() && #[trigger] requests[i] is ReadReserves ==> requests[i - 1]
            == (RequestView::Wait { time_units: RETRY_DELAY })
}

/// Whether a list of requests holds reads of the reserves and waits alone.
pub open spec fn only_reads_and_waits(requests: Seq<RequestView>) -> bool {
    forall|i: int|
        0 <= i < requests.len() ==> #[trigger] requests[i] is ReadReserves || requests[i] is Wait
}

/// Once the watcher has ended, the pipeline reads no reserves.
proof fn lemma_requests_after_liquidity(pipeline: Pipeline, obs: Observations, fuel: nat)
    requires
        pipeline.wf(),
        !(pipeline.stage is WatchingLiquidity),
    ensures
        forall|i: int|
            0 <= i < requests(pipeline, obs, fuel).len() ==> !(#[trigger] requests(
                pipeline,
                obs,
                fuel,
            )[i] is ReadReserves),
    decreases fuel,
{
    if fuel > 0 && pipeline.spec_admits(answer(pipeline, obs)) {
        let stepped = pipeline.spec_step(answer(pipeline, obs));
        let all = requests(pipeline, obs, fuel);
        if stepped.1 is None {
            let rest = requests(stepped.0, obs, (fuel - 1) as nat);
            lemma_requests_after_liquidity(stepped.0, obs, (fuel - 1) as nat);
            assert(all =~= seq![pipeline.spec_pending()->0] + rest);
            assert forall|i: int| 0 <= i < all.len() implies !(#[trigger] all[i] is ReadReserves) by {
                if i > 0 {
                    assert(all[i] == rest[i - 1]);
                }
            }
        } else {
            assert(all =~= seq![pipeline.spec_pending()->0]);
        }
    }
}

/// While the watcher runs, the requests keep to its bounds.
proof fn lemma_requests_in_liquidity(pipeline: Pipeline, obs: Observations, fuel: nat)
    requires
        pipeline.wf(),
        pipeline.stage is WatchingLiquidity,
        pipeline.watcher.awaits_poll(),
    ensures
        reads_bounded_and_spaced(requests(pipeline, obs, fuel), pipeline.watcher.failed as nat),
        first_sufficient(pipeline.event, obs.polls, pipeline.watcher.failed as nat) is None
            ==> only_reads_and_waits(requests(pipeline, obs, fuel)),
    decreases MAX_ATTEMPTS - pipeline.watcher.failed,
{
    reveal_with_fuel(requests, 3);
    let all = requests(pipeline, obs, fuel);
    let spent = pipeline.watcher.failed as nat;
    let poll = poll_at(obs.polls, spent);
    let polled = pipeline.spec_step(answer(pipeline, obs)).0;
    if fuel == 0 {
    } else if spec_sufficient(pipeline.event, poll) {
        let rest = requests(polled, obs, (fuel - 1) as nat);
        lemma_requests_after_liquidity(polled, obs, (fuel - 1) as nat);
        assert(all =~= seq![pipeline.spec_pending()->0] + rest);
        assert forall|i: int| 0 <= i < all.len() && #[trigger] all[i] is ReadReserves implies i
            == 0 by {
            if i > 0 {
                assert(all[i] == rest[i - 1]);
            }
        }
    } else if fuel == 1 {
    } else {
        let rested = polled.spec_step(answer(polled, obs)).0;
        let wait = RequestView::Wait { time_units: RETRY_DELAY };
        assert(polled.spec_pending() == Some(wait));
        if pipeline.watcher.failed + 1 < MAX_ATTEMPTS {
            let rest = requests(rested, obs, (fuel - 2) as nat);
            lemma_requests_in_liquidity(rested, obs, (fuel - 2) as nat);
            assert(all =~= seq![pipeline.spec_pending()->0, wait] + rest);
            assert forall|i: int| 0 <= i < all.len() && #[trigger] all[i] is ReadReserves implies i
                % 2 == 0 && i < 2 * (MAX_ATTEMPTS - spent) by {
                if i >= 2 {
                    assert(all[i] == rest[i - 2]);
                }
            }
            assert forall|i: int| 0 < i < all.len() && #[trigger] all[i] is ReadReserves implies all[i
                - 1] == wait by {
                if i >= 2 {
                    assert(all[i] == rest[i - 2]);
                    if i > 2 {
                        assert(all[i - 1] == rest[i - 3]);
                    }
                }
            }
            if first_sufficient(pipeline.event, obs.polls, spent) is None {
                assert forall|i: int| 0 <= i < all.len() implies #[trigger] all[i] is ReadReserves
                    || all[i] is Wait by {
                    if i >= 2 {
                        assert(all[i] == rest[i - 2]);
                    }
                }
            }
        } else {
            assert(all =~= seq![pipeline.spec_pending()->0, wait]);
        }
    }
}

/// In every vetting the pipeline reads the reserves at most thirty times, and
/// between two reads it asks for the wait of the fixed delay. Where no attempt
/// reaches the threshold it asks for nothing else: no probe is made and no
/// rate, symbol or supply is read.
pub proof fn law_reads_are_bounded_and_spaced(event: PairCreatedEvent, obs: Observations, fuel: nat)
    ensures
        reads_bounded_and_spaced(requests(Pipeline::spec_begin(event), obs, fuel), 0),
        liquidity_status(event, obs) is TimedOut ==> only_reads_and_waits(
            requests(Pipeline::spec_begin(event), obs, fuel),
        ),
{
    lemma_watch(LiquidityWatcher::spec_new(), event, obs.polls);
    lemma_requests_in_liquidity(Pipeline::spec_begin(event), obs, fuel);
}

} // verus!
