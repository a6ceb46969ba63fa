use pair_vetter::acceptance::{Outcome, Rejection};
use pair_vetter::address::Address;
use pair_vetter::chain::{Request, Response};
use pair_vetter::event::PairCreatedEvent;
use pair_vetter::liquidity::{LiquidityStatus, Reserves};
use pair_vetter::pipeline::{Pipeline, Stage};
use pair_vetter::record::PairRecord;
use pair_vetter::uint256::Uint256;

fn candidate() -> Address {
    Address { bytes: [0x11u8; 20] }
}

fn pool() -> Address {
    Address { bytes: [0x33u8; 20] }
}

fn event() -> PairCreatedEvent {
    PairCreatedEvent { token0: Address::base_asset(), token1: candidate(), pair: pool() }
}

fn word(value: u128) -> Vec<u8> {
    let mut reply = vec![0u8; 16];
    reply.extend_from_slice(&value.to_be_bytes());
    reply
}

fn liquid() -> Response {
    Response::Reserves(Some(Reserves { reserve0: 600_000_000_000_000_000, reserve1: 1 }))
}

fn dry() -> Response {
    Response::Reserves(Some(Reserves { reserve0: 400_000_000_000_000_000, reserve1: u128::MAX }))
}

/// Feeds the responses in order and returns the requests that were pending,
/// the final state and the outcome, if the vetting ended.
fn run(start: Pipeline, responses: Vec<Response>) -> (Vec<Request>, Pipeline, Option<Outcome>) {
    let mut pipeline = start;
    let mut requests = Vec::new();
    for response in responses {
        requests.push(pipeline.pending().expect("a request is pending"));
        assert!(pipeline.admits(&response));
        let (next, outcome) = pipeline.step(response);
        pipeline = next;
        if outcome.is_some() {
            assert_eq!(pipeline.pending(), None);
            assert_eq!(pipeline.stage, Stage::Finished);
            return (requests, pipeline, outcome);
        }
    }
    (requests, pipeline, None)
}

fn transfer_probe() -> Request {
    let mut data = vec![0u8; 12];
    data.extend_from_slice(&Address::base_asset().bytes);
    data.extend_from_slice(&word(1_000_000_000_000_000_000));
    Request::SimulateCall { to: candidate(), data }
}

fn safety_probe() -> Request {
    let mut data = vec![0u8; 12];
    data.extend_from_slice(&Address::probe_counterparty().bytes);
    Request::SimulateCall { to: candidate(), data }
}

#[test]
fn vetting_starts_with_a_read_of_the_reserves() {
    let pipeline = Pipeline::begin(event());
    assert_eq!(pipeline.stage, Stage::WatchingLiquidity);
    assert_eq!(pipeline.pending(), Some(Request::ReadReserves { pair: pool() }));
    assert_eq!(pipeline.watcher.status, LiquidityStatus::Waiting);
}

#[test]
fn entry_without_address_topics_starts_nothing() {
    let data = vec![0u8; 32];
    assert_eq!(Pipeline::on_log(&vec![], &data), None);
    assert_eq!(Pipeline::on_log(&vec![[1u8; 32]], &data), None);
    assert_eq!(Pipeline::on_log(&vec![[1u8; 32], [2u8; 32]], &data), None);
    assert_eq!(Pipeline::on_log(&vec![[1u8; 32], [2u8; 32]], &vec![]), None);
}

#[test]
fn entry_with_both_topics_starts_the_vetting_of_its_event() {
    let mut data = vec![0u8; 32];
    for i in 12..32 {
        data[i] = 0x33;
    }
    let mut token0 = [0u8; 32];
    token0[12..].copy_from_slice(&Address::base_asset().bytes);
    let pipeline = Pipeline::on_log(&vec![[9u8; 32], token0, [0x11u8; 32]], &data).unwrap();
    assert_eq!(pipeline, Pipeline::begin(event()));
}

#[test]
fn end_to_end_acceptance_with_inferred_tax() {
    let (requests, _, outcome) = run(
        Pipeline::begin(event()),
        vec![
            liquid(),
            Response::CallReturned(Some(vec![])),
            Response::TaxRate(None),
            Response::TaxRate(None),
            Response::CallReturned(Some(word(940_000_000_000_000_000))),
            Response::Symbol(Some("TKN".to_string())),
            Response::TotalSupply(Some(Uint256::from_u64(1_000_000))),
            Response::Symbol(Some("WETH".to_string())),
        ],
    );
    assert_eq!(
        outcome,
        Some(Outcome::Accepted(PairRecord {
            token1: candidate(),
            token1_symbol: Some("TKN".to_string()),
            token0: Address::base_asset(),
            token0_symbol: Some("WETH".to_string()),
            total_supply: Some(Uint256::from_u64(1_000_000)),
            pair: pool(),
            buy_tax: None,
            sell_tax: None,
            dynamic_tax_detected: Some(6),
        }))
    );
    assert_eq!(
        requests,
        vec![
            Request::ReadReserves { pair: pool() },
            safety_probe(),
            Request::ReadBuyTax { token: candidate() },
            Request::ReadSellTax { token: candidate() },
            transfer_probe(),
            Request::ReadSymbol { token: candidate() },
            Request::ReadTotalSupply { token: candidate() },
            Request::ReadSymbol { token: Address::base_asset() },
        ]
    );
}

#[test]
fn static_rates_make_the_transfer_probe_unnecessary() {
    let (requests, _, outcome) = run(
        Pipeline::begin(event()),
        vec![
            liquid(),
            Response::CallReturned(Some(vec![1])),
            Response::TaxRate(Some(6)),
            Response::TaxRate(Some(40)),
            Response::Symbol(None),
            Response::TotalSupply(None),
            Response::Symbol(None),
        ],
    );
    assert_eq!(requests.len(), 7);
    assert!(!requests.contains(&transfer_probe()));
    assert_eq!(
        outcome,
        Some(Outcome::Accepted(PairRecord {
            token1: candidate(),
            token1_symbol: None,
            token0: Address::base_asset(),
            token0_symbol: None,
            total_supply: None,
            pair: pool(),
            buy_tax: Some(6),
            sell_tax: Some(40),
            dynamic_tax_detected: None,
        }))
    );
}

#[test]
fn missing_sell_rate_alone_calls_for_the_transfer_probe() {
    let (requests, pipeline, outcome) = run(
        Pipeline::begin(event()),
        vec![
            liquid(),
            Response::CallReturned(Some(vec![])),
            Response::TaxRate(Some(2)),
            Response::TaxRate(None),
        ],
    );
    assert_eq!(outcome, None);
    assert_eq!(requests.len(), 4);
    assert_eq!(pipeline.stage, Stage::ProbingTax);
    assert_eq!(pipeline.pending(), Some(transfer_probe()));
}

#[test]
fn static_buy_tax_counts_before_the_inferred_one() {
    let (_, _, outcome) = run(
        Pipeline::begin(event()),
        vec![
            liquid(),
            Response::CallReturned(Some(vec![])),
            Response::TaxRate(Some(2)),
            Response::TaxRate(None),
            Response::CallReturned(Some(word(500_000_000_000_000_000))),
            Response::Symbol(None),
            Response::TotalSupply(None),
            Response::Symbol(None),
        ],
    );
    match outcome {
        Some(Outcome::Accepted(record)) => {
            assert_eq!(record.buy_tax, Some(2));
            assert_eq!(record.sell_tax, None);
            assert_eq!(record.dynamic_tax_detected, Some(50));
        }
        other => panic!("not accepted: {:?}", other),
    }
}

#[test]
fn excessive_static_tax_is_rejected_without_enrichment() {
    let (requests, _, outcome) = run(
        Pipeline::begin(event()),
        vec![
            liquid(),
            Response::CallReturned(Some(vec![])),
            Response::TaxRate(Some(7)),
            Response::TaxRate(Some(0)),
        ],
    );
    assert_eq!(outcome, Some(Outcome::Rejected(Rejection::ExcessiveTax(7))));
    assert_eq!(requests.len(), 4);
}

#[test]
fn excessive_inferred_tax_is_rejected() {
    let (_, _, outcome) = run(
        Pipeline::begin(event()),
        vec![
            liquid(),
            Response::CallReturned(Some(vec![])),
            Response::TaxRate(None),
            Response::TaxRate(Some(1)),
            Response::CallReturned(Some(word(930_000_000_000_000_000))),
        ],
    );
    assert_eq!(outcome, Some(Outcome::Rejected(Rejection::ExcessiveTax(7))));
}

#[test]
fn failed_or_short_transfer_probe_leaves_the_tax_absent() {
    for reply in [None, Some(vec![0xffu8; 31])] {
        let (_, _, outcome) = run(
            Pipeline::begin(event()),
            vec![
                liquid(),
                Response::CallReturned(Some(vec![])),
                Response::TaxRate(None),
                Response::TaxRate(None),
                Response::CallReturned(reply),
                Response::Symbol(None),
                Response::TotalSupply(None),
                Response::Symbol(None),
            ],
        );
        match outcome {
            Some(Outcome::Accepted(record)) => {
                assert_eq!(record.buy_tax, None);
                assert_eq!(record.dynamic_tax_detected, None);
            }
            other => panic!("not accepted: {:?}", other),
        }
    }
}

#[test]
fn failed_safety_probe_rejects_the_pair() {
    let (requests, _, outcome) =
        run(Pipeline::begin(event()), vec![liquid(), Response::CallReturned(None)]);
    assert_eq!(outcome, Some(Outcome::Rejected(Rejection::RestrictedTransfers)));
    assert_eq!(requests, vec![Request::ReadReserves { pair: pool() }, safety_probe()]);
}

#[test]
fn thirty_failed_attempts_reject_the_pair() {
    let mut responses = Vec::new();
    for attempt in 0..30 {
        responses.push(if attempt % 2 == 0 { dry() } else { Response::Reserves(None) });
        responses.push(Response::DelayElapsed);
    }
    let (requests, pipeline, outcome) = run(Pipeline::begin(event()), responses);
    assert_eq!(outcome, Some(Outcome::Rejected(Rejection::InsufficientLiquidity)));
    assert_eq!(pipeline.watcher.status, LiquidityStatus::TimedOut);
    assert_eq!(requests.len(), 60);
    for (i, request) in requests.iter().enumerate() {
        if i % 2 == 0 {
            assert_eq!(*request, Request::ReadReserves { pair: pool() });
        } else {
            assert_eq!(*request, Request::Wait { time_units: 5 });
        }
    }
}

#[test]
fn liquidity_on_a_later_attempt_lets_the_vetting_go_on() {
    let (requests, pipeline, outcome) = run(
        Pipeline::begin(event()),
        vec![dry(), Response::DelayElapsed, Response::Reserves(None), Response::DelayElapsed, liquid()],
    );
    assert_eq!(outcome, None);
    assert_eq!(pipeline.stage, Stage::ProbingSafety);
    assert_eq!(pipeline.watcher.status, LiquidityStatus::Sufficient);
    assert_eq!(pipeline.watcher.failed, 2);
    assert_eq!(requests[1], Request::Wait { time_units: 5 });
    assert_eq!(pipeline.pending(), Some(safety_probe()));
}

#[test]
fn response_that_answers_nothing_pending_changes_nothing() {
    let pipeline = Pipeline::begin(event());
    for response in [
        Response::DelayElapsed,
        Response::CallReturned(None),
        Response::TaxRate(Some(1)),
        Response::Symbol(None),
        Response::TotalSupply(None),
    ] {
        assert!(!pipeline.expects(&response));
        assert!(!pipeline.admits(&response));
        let (next, outcome) = pipeline.clone().step(response);
        assert_eq!(next, pipeline);
        assert_eq!(outcome, None);
    }
    let (resting, _) = pipeline.step(dry());
    assert!(!resting.expects(&liquid()));
    assert!(resting.expects(&Response::DelayElapsed));
    let (same, outcome) = resting.clone().step(liquid());
    assert_eq!(same, resting);
    assert_eq!(outcome, None);
}

#[test]
fn finished_pipeline_takes_no_response() {
    let (_, finished, _) =
        run(Pipeline::begin(event()), vec![liquid(), Response::CallReturned(None)]);
    for response in [
        liquid(),
        Response::DelayElapsed,
        Response::CallReturned(None),
        Response::TaxRate(None),
        Response::Symbol(None),
        Response::TotalSupply(None),
    ] {
        assert!(!finished.expects(&response));
        let (next, outcome) = finished.clone().step(response);
        assert_eq!(next, finished);
        assert_eq!(outcome, None);
    }
}

#[test]
fn reply_beyond_the_amount_sent_leaves_the_tax_absent() {
    for reply in [word(1_000_000_000_000_000_001), vec![0xffu8; 32], vec![0xffu8; 96]] {
        let (_, probing, _) = run(
            Pipeline::begin(event()),
            vec![
                liquid(),
                Response::CallReturned(Some(vec![])),
                Response::TaxRate(None),
                Response::TaxRate(Some(3)),
            ],
        );
        assert_eq!(probing.stage, Stage::ProbingTax);
        let beyond = Response::CallReturned(Some(reply));
        assert!(probing.expects(&beyond));
        assert!(probing.admits(&beyond));
        let (_, _, outcome) = run(
            probing,
            vec![
                beyond,
                Response::Symbol(None),
                Response::TotalSupply(None),
                Response::Symbol(None),
            ],
        );
        match outcome {
            Some(Outcome::Accepted(record)) => {
                assert_eq!(record.buy_tax, None);
                assert_eq!(record.sell_tax, Some(3));
                assert_eq!(record.dynamic_tax_detected, None);
            }
            other => panic!("not accepted: {:?}", other),
        }
    }
}

#[test]
fn transfer_probe_takes_every_reply() {
    let (_, probing, _) = run(
        Pipeline::begin(event()),
        vec![
            liquid(),
            Response::CallReturned(Some(vec![])),
            Response::TaxRate(None),
            Response::TaxRate(None),
        ],
    );
    for reply in [
        None,
        Some(vec![]),
        Some(vec![0u8; 32]),
        Some(vec![0xffu8; 32]),
        Some(word(1_000_000_000_000_000_000)),
        Some(word(u128::MAX)),
    ] {
        let response = Response::CallReturned(reply);
        assert!(probing.admits(&response));
        let (next, _) = probing.clone().step(response);
        assert!(next.is_wf());
        assert!(next.taxes.dynamic_tax.map_or(true, |tax| tax <= 100));
    }
}

#[test]
fn safety_probe_takes_any_reply() {
    let (_, probing, _) = run(Pipeline::begin(event()), vec![liquid()]);
    assert_eq!(probing.stage, Stage::ProbingSafety);
    assert!(probing.admits(&Response::CallReturned(Some(vec![0xffu8; 32]))));
    let (next, outcome) = probing.step(Response::CallReturned(Some(vec![0xffu8; 32])));
    assert_eq!(outcome, None);
    assert_eq!(next.stage, Stage::ReadingBuyTax);
}

#[test]
fn pair_without_the_base_asset_is_never_liquid() {
    let strangers = PairCreatedEvent {
        token0: Address { bytes: [1u8; 20] },
        token1: candidate(),
        pair: pool(),
    };
    let rich = Response::Reserves(Some(Reserves { reserve0: u128::MAX, reserve1: u128::MAX }));
    let (pipeline, outcome) = Pipeline::begin(strangers).step(rich);
    assert_eq!(outcome, None);
    assert_eq!(pipeline.pending(), Some(Request::Wait { time_units: 5 }));
}

#[test]
fn invariant_ties_the_stage_to_the_watcher() {
    let start = Pipeline::begin(event());
    assert!(start.is_wf());
    let (probing, _) = start.clone().step(liquid());
    assert!(probing.is_wf());
    let skipped = Pipeline { stage: Stage::ReadingBuyTax, ..start.clone() };
    assert!(!skipped.is_wf());
    assert!(!skipped.admits(&Response::TaxRate(None)));
    let stale = Pipeline { stage: Stage::WatchingLiquidity, ..probing.clone() };
    assert!(!stale.is_wf());
    let ended = Pipeline { stage: Stage::Finished, ..start };
    assert!(!ended.is_wf());
    let done = Pipeline { stage: Stage::Finished, ..probing };
    assert!(done.is_wf());
}
