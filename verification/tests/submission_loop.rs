use gas_gate::estimate::FeeEstimate;
use gas_gate::fiat::{CoingekoApiResponse, EthToUSDRate, FiatAmount, PriceLookup, RateUnavailable};
use gas_gate::outcome::{FiatReport, Receipt, SubmissionOutcome};
use gas_gate::submission::{
    decide, next_action, start, step, Action, Event, Fault, LoopState, RunConfig, Stage,
    TransactionIntent, Transition, DEFAULT_MAX_ATTEMPTS, DEFAULT_POLL_INTERVAL_SECS,
};
use gas_gate::wei::Wei;

const HASH: [u8; 32] = [0xab; 32];

fn intent() -> TransactionIntent {
    TransactionIntent { recipient: [0x11; 20], value: Wei::from_u128(0) }
}

fn config(max_attempts: u32, report_fiat: bool) -> RunConfig {
    RunConfig {
        intent: intent(),
        threshold: Wei::from_u128(1_000_000_000),
        max_attempts,
        poll_interval_secs: DEFAULT_POLL_INTERVAL_SECS,
        report_fiat,
    }
}

/// An estimate whose effective fee is `fee`, a multiple of 1000.
fn estimate(fee: u128) -> Event {
    Event::Estimated(FeeEstimate { gas_estimate: 1_000, max_fee_per_gas: fee / 1_000 })
}

fn receipt() -> Receipt {
    Receipt { transaction_hash: HASH, gas_used: 21_000, effective_gas_price: 40_000 }
}

/// Runs the loop over `events` and returns every transition, the first one included.
fn drive(config: &RunConfig, events: &[Event]) -> Vec<Transition> {
    let mut trace = vec![start(config)];
    for event in events {
        let state = trace[trace.len() - 1].state;
        trace.push(step(config, state, *event));
    }
    trace
}

fn count(trace: &[Transition], wanted: fn(&Action) -> bool) -> usize {
    trace.iter().filter(|t| wanted(&t.action)).count()
}

fn is_estimate(action: &Action) -> bool {
    matches!(action, Action::EstimateFee(_))
}

fn is_sleep(action: &Action) -> bool {
    matches!(action, Action::Sleep { .. })
}

fn is_broadcast(action: &Action) -> bool {
    matches!(action, Action::Broadcast(_))
}

#[test]
fn defaults_are_five_attempts_twelve_seconds_apart() {
    assert_eq!(DEFAULT_MAX_ATTEMPTS, 5);
    assert_eq!(DEFAULT_POLL_INTERVAL_SECS, 12);
}

#[test]
fn run_starts_with_the_first_estimate() {
    let first = start(&config(5, false));
    assert_eq!(first.state, LoopState::Estimating { attempt: 1 });
    assert_eq!(first.action, Action::EstimateFee(intent()));
}

#[test]
fn empty_budget_is_exhausted_at_once() {
    let cfg = config(0, false);
    let first = start(&cfg);
    assert_eq!(first.state, LoopState::Exhausted { attempts: 0 });
    assert_eq!(first.action, Action::Finish);
    let trace = drive(&cfg, &[estimate(1_000), Event::DelayElapsed]);
    assert_eq!(count(&trace, is_estimate), 0);
    assert_eq!(count(&trace, is_broadcast), 0);
    assert_eq!(trace[2].state, LoopState::Exhausted { attempts: 0 });
}

#[test]
fn affordable_first_estimate_submits_once_without_delay() {
    let cfg = config(5, false);
    let trace = drive(
        &cfg,
        &[
            estimate(500_000_000),
            Event::Broadcast { transaction_hash: HASH },
            Event::Confirmed(receipt()),
        ],
    );
    assert_eq!(trace[1].state, LoopState::Submitting);
    assert_eq!(trace[1].action, Action::Broadcast(intent()));
    assert_eq!(trace[2].state, LoopState::AwaitingReceipt { transaction_hash: HASH });
    assert_eq!(trace[2].action, Action::AwaitReceipt { transaction_hash: HASH });
    assert_eq!(count(&trace, is_broadcast), 1);
    assert_eq!(count(&trace, is_sleep), 0);
    assert_eq!(count(&trace, is_estimate), 1);
    assert_eq!(trace[3].action, Action::Finish);
}

#[test]
fn estimate_equal_to_threshold_is_submitted() {
    let cfg = config(5, false);
    let trace = drive(&cfg, &[estimate(1_000_000_000)]);
    assert_eq!(trace[1].state, LoopState::Submitting);
    let above = drive(&cfg, &[estimate(1_000_001_000)]);
    assert_eq!(above[1].state, LoopState::Waiting { next_attempt: 2 });
}

#[test]
fn high_fee_then_low_fee_sleeps_once_then_submits() {
    let cfg = config(5, false);
    let trace = drive(
        &cfg,
        &[estimate(2_000_000_000), Event::DelayElapsed, estimate(500_000_000)],
    );
    assert_eq!(trace[1].state, LoopState::Waiting { next_attempt: 2 });
    assert_eq!(trace[1].action, Action::Sleep { seconds: 12 });
    assert_eq!(trace[2].state, LoopState::Estimating { attempt: 2 });
    assert_eq!(trace[2].action, Action::EstimateFee(intent()));
    assert_eq!(trace[3].state, LoopState::Submitting);
    assert_eq!(trace[3].action, Action::Broadcast(intent()));
    assert_eq!(count(&trace, is_sleep), 1);
    assert_eq!(count(&trace, is_estimate), 2);
    assert_eq!(count(&trace, is_broadcast), 1);
}

#[test]
fn five_high_estimates_end_exhausted_with_nothing_sent() {
    let cfg = config(5, false);
    let high = estimate(2_000_000_000);
    let trace = drive(
        &cfg,
        &[
            high,
            Event::DelayElapsed,
            high,
            Event::DelayElapsed,
            high,
            Event::DelayElapsed,
            high,
            Event::DelayElapsed,
            high,
        ],
    );
    let last = trace[trace.len() - 1];
    assert_eq!(last.state, LoopState::Exhausted { attempts: 5 });
    assert_eq!(last.action, Action::Finish);
    assert_eq!(count(&trace, is_estimate), 5);
    assert_eq!(count(&trace, is_sleep), 4);
    assert_eq!(count(&trace, is_broadcast), 0);
    assert!(!matches!(last.state, LoopState::Done(_)));
}

#[test]
fn budget_bounds_estimates_for_every_size() {
    let high = estimate(2_000_000_000);
    for budget in 1u32..8 {
        let cfg = config(budget, false);
        let mut events = Vec::new();
        for _ in 0..20 {
            events.push(high);
            events.push(Event::DelayElapsed);
        }
        let trace = drive(&cfg, &events);
        assert_eq!(count(&trace, is_estimate), budget as usize);
        assert_eq!(count(&trace, is_sleep), budget as usize - 1);
        assert_eq!(count(&trace, is_broadcast), 0);
        assert_eq!(trace[trace.len() - 1].state, LoopState::Exhausted { attempts: budget });
    }
}

#[test]
fn provider_failure_on_second_attempt_aborts_the_run() {
    let cfg = config(5, false);
    let trace = drive(
        &cfg,
        &[
            estimate(2_000_000_000),
            Event::DelayElapsed,
            Event::ProviderFailed,
            Event::DelayElapsed,
            estimate(500_000_000),
        ],
    );
    let failed = LoopState::Failed(Fault::ProviderError { stage: Stage::Estimating });
    assert_eq!(trace[3].state, failed);
    assert_eq!(trace[3].action, Action::Finish);
    assert_eq!(trace[5].state, failed);
    assert_eq!(count(&trace, is_estimate), 2);
    assert_eq!(count(&trace, is_broadcast), 0);
}

#[test]
fn provider_failure_names_the_stage() {
    let cfg = config(5, false);
    assert_eq!(
        step(&cfg, LoopState::Submitting, Event::ProviderFailed).state,
        LoopState::Failed(Fault::ProviderError { stage: Stage::Submitting })
    );
    assert_eq!(
        step(&cfg, LoopState::AwaitingReceipt { transaction_hash: HASH }, Event::ProviderFailed)
            .state,
        LoopState::Failed(Fault::ProviderError { stage: Stage::AwaitingReceipt })
    );
}

#[test]
fn unexpected_events_abort_the_run() {
    let cfg = config(5, true);
    let unexpected = LoopState::Failed(Fault::UnexpectedEvent);
    assert_eq!(step(&cfg, LoopState::Estimating { attempt: 1 }, Event::DelayElapsed).state, unexpected);
    assert_eq!(step(&cfg, LoopState::Waiting { next_attempt: 2 }, estimate(1_000)).state, unexpected);
    assert_eq!(step(&cfg, LoopState::Waiting { next_attempt: 2 }, Event::ProviderFailed).state, unexpected);
    assert_eq!(step(&cfg, LoopState::Submitting, Event::Confirmed(receipt())).state, unexpected);
    assert_eq!(
        step(&cfg, LoopState::AwaitingReceipt { transaction_hash: HASH }, Event::DelayElapsed).state,
        unexpected
    );
    assert_eq!(
        step(&cfg, LoopState::Reporting { receipt: receipt() }, Event::ProviderFailed).state,
        unexpected
    );
}

#[test]
fn final_states_stay_as_they_are() {
    let cfg = config(5, false);
    let finals = [
        LoopState::Done(SubmissionOutcome::without_fiat(&receipt())),
        LoopState::Exhausted { attempts: 5 },
        LoopState::Failed(Fault::UnexpectedEvent),
    ];
    let events = [
        estimate(1_000),
        Event::DelayElapsed,
        Event::Broadcast { transaction_hash: HASH },
        Event::Confirmed(receipt()),
        Event::RateFetched(PriceLookup::Unreachable),
        Event::ProviderFailed,
    ];
    for state in finals {
        for event in events {
            let next = step(&cfg, state, event);
            assert_eq!(next.state, state);
            assert_eq!(next.action, Action::Finish);
        }
    }
}

#[test]
fn outcome_without_fiat_reports_exact_fee() {
    let cfg = config(5, false);
    let trace = drive(
        &cfg,
        &[
            estimate(500_000_000),
            Event::Broadcast { transaction_hash: HASH },
            Event::Confirmed(receipt()),
        ],
    );
    assert_eq!(
        trace[3].state,
        LoopState::Done(SubmissionOutcome {
            transaction_hash: HASH,
            gas_used: 21_000,
            effective_gas_price: 40_000,
            realized_fee: Wei::from_u128(840_000_000),
            fiat_value: FiatReport::NotRequested,
        })
    );
}

#[test]
fn outcome_with_fiat_converts_after_the_lookup() {
    let cfg = config(5, true);
    let lookup = PriceLookup::Answered(CoingekoApiResponse {
        from_asset: Some(EthToUSDRate { to_asset: Some(3_000_000_000) }),
    });
    let trace = drive(
        &cfg,
        &[
            estimate(500_000_000),
            Event::Broadcast { transaction_hash: HASH },
            Event::Confirmed(receipt()),
            Event::RateFetched(lookup),
        ],
    );
    assert_eq!(trace[3].state, LoopState::Reporting { receipt: receipt() });
    assert_eq!(trace[3].action, Action::FetchRate);
    assert_eq!(
        trace[4].state,
        LoopState::Done(SubmissionOutcome {
            transaction_hash: HASH,
            gas_used: 21_000,
            effective_gas_price: 40_000,
            realized_fee: Wei::from_u128(840_000_000),
            fiat_value: FiatReport::Converted(FiatAmount { hi: 0, lo: 2_520_000_000_000_000_000 }),
        })
    );
    assert_eq!(trace[4].action, Action::Finish);
}

#[test]
fn missing_currency_key_still_reports_the_native_fee() {
    let cfg = config(5, true);
    let lookup = PriceLookup::Answered(CoingekoApiResponse {
        from_asset: Some(EthToUSDRate { to_asset: None }),
    });
    let trace = drive(
        &cfg,
        &[
            estimate(500_000_000),
            Event::Broadcast { transaction_hash: HASH },
            Event::Confirmed(receipt()),
            Event::RateFetched(lookup),
        ],
    );
    match trace[4].state {
        LoopState::Done(outcome) => {
            assert_eq!(outcome.fiat_value, FiatReport::Unavailable(RateUnavailable::PairAbsent));
            assert_eq!(outcome.realized_fee, Wei::from_u128(840_000_000));
            assert_eq!(outcome.transaction_hash, HASH);
        }
        other => panic!("run did not finish: {:?}", other),
    }
}

#[test]
fn unreachable_price_source_still_reports_the_native_fee() {
    let cfg = config(5, true);
    let state = LoopState::Reporting { receipt: receipt() };
    let next = step(&cfg, state, Event::RateFetched(PriceLookup::Unreachable));
    assert_eq!(
        next.state,
        LoopState::Done(SubmissionOutcome {
            transaction_hash: HASH,
            gas_used: 21_000,
            effective_gas_price: 40_000,
            realized_fee: Wei::from_u128(840_000_000),
            fiat_value: FiatReport::Unavailable(RateUnavailable::Unreachable),
        })
    );
}

#[test]
fn decision_follows_threshold_and_budget() {
    let cfg = config(3, false);
    let low = FeeEstimate { gas_estimate: 1_000, max_fee_per_gas: 1_000 };
    let high = FeeEstimate { gas_estimate: 1_000, max_fee_per_gas: 5_000_000 };
    assert_eq!(decide(&cfg, 1, &low), LoopState::Submitting);
    assert_eq!(decide(&cfg, 3, &low), LoopState::Submitting);
    assert_eq!(decide(&cfg, 1, &high), LoopState::Waiting { next_attempt: 2 });
    assert_eq!(decide(&cfg, 2, &high), LoopState::Waiting { next_attempt: 3 });
    assert_eq!(decide(&cfg, 3, &high), LoopState::Exhausted { attempts: 3 });
    assert_eq!(decide(&cfg, u32::MAX, &high), LoopState::Exhausted { attempts: u32::MAX });
}

#[test]
fn each_state_asks_for_its_action() {
    let cfg = config(5, true);
    assert_eq!(next_action(&cfg, &LoopState::Estimating { attempt: 3 }), Action::EstimateFee(intent()));
    assert_eq!(next_action(&cfg, &LoopState::Waiting { next_attempt: 4 }), Action::Sleep { seconds: 12 });
    assert_eq!(next_action(&cfg, &LoopState::Submitting), Action::Broadcast(intent()));
    assert_eq!(
        next_action(&cfg, &LoopState::AwaitingReceipt { transaction_hash: HASH }),
        Action::AwaitReceipt { transaction_hash: HASH }
    );
    assert_eq!(next_action(&cfg, &LoopState::Reporting { receipt: receipt() }), Action::FetchRate);
    assert_eq!(next_action(&cfg, &LoopState::Exhausted { attempts: 5 }), Action::Finish);
}
