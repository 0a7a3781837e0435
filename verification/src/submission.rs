//! The submission loop as a state machine: the caller performs each action
//! against the chain provider and hands back what happened; the machine
//! decides what comes next.

use vstd::prelude::*;
use crate::estimate::FeeEstimate;
use crate::fiat::PriceLookup;
use crate::outcome::{fiat_report_of, FiatReport, Receipt, SubmissionOutcome};
use crate::wei::Wei;

verus! {

/// The number of estimation attempts of a run unless configured otherwise.
pub const DEFAULT_MAX_ATTEMPTS: u32 = 5;

/// The seconds between two estimation attempts unless configured otherwise.
pub const DEFAULT_POLL_INTERVAL_SECS: u64 = 12;

/// The transaction that a run is about: where it goes and what it carries.
#[derive(Clone, Copy, Debug, PartialEq, Eq)]
pub struct TransactionIntent {
    pub recipient: [u8; 20],
    pub value: Wei,
}

/// Everything that is fixed for the lifetime of one run.
#[derive(Clone, Copy, Debug, PartialEq, Eq)]
pub struct RunConfig {
    pub intent: TransactionIntent,
    /// The highest effective fee at which the transaction is sent.
    pub threshold: Wei,
    /// The number of estimation attempts after which the run gives up.
    pub max_attempts: u32,
    pub poll_interval_secs: u64,
    /// Whether the outcome reports the realized fee in fiat too.
    pub report_fiat: bool,
}

/// The provider calls that a run makes.
#[derive(Clone, Copy, Debug, PartialEq, Eq)]
pub enum Stage {
    Estimating,
    Submitting,
    AwaitingReceipt,
}

/// Why a run ended without a decision.
#[derive(Clone, Copy, Debug, PartialEq, Eq)]
pub enum Fault {
    /// A call to the chain provider failed during the given stage.
    ProviderError { stage: Stage },
    /// The caller handed in an event that the state was not waiting for.
    UnexpectedEvent,
}

/// Where a run stands. Each state but the last three waits for the caller to
/// perform one action; the last three are final.
#[derive(Clone, Copy, Debug, PartialEq, Eq)]
pub enum LoopState {
    /// Waiting for the estimate of the given attempt, counted from one.
    Estimating { attempt: u32 },
    /// The last estimate was above the threshold; waiting for the delay
    /// before the given attempt.
    Waiting { next_attempt: u32 },
    /// An estimate was at or below the threshold; waiting for the broadcast.
    Submitting,
    /// The transaction is out; waiting for its receipt.
    AwaitingReceipt { transaction_hash: [u8; 32] },
    /// The receipt is in; waiting for the price lookup.
    Reporting { receipt: Receipt },
    /// The transaction was sent and its fee accounted for.
    Done(SubmissionOutcome),
    /// Every attempt was above the threshold; nothing was sent.
    Exhausted { attempts: u32 },
    /// The run was aborted.
    Failed(Fault),
}

/// What the caller reports back.
#[derive(Clone, Copy, Debug, PartialEq, Eq)]
pub enum Event {
    /// Both estimation queries succeeded.
    Estimated(FeeEstimate),
    /// The delay between two attempts is over.
    DelayElapsed,
    /// The provider accepted the transaction.
    Broadcast { transaction_hash: [u8; 32] },
    /// The provider confirmed inclusion.
    Confirmed(Receipt),
    /// The price source was asked.
    RateFetched(PriceLookup),
    /// The provider call of the current stage failed.
    ProviderFailed,
}

/// What the caller is to do next.
#[derive(Clone, Copy, Debug, PartialEq, Eq)]
pub enum Action {
    /// Query the gas estimate and the fee market for the transaction.
    EstimateFee(TransactionIntent),
    /// Suspend for the given number of seconds.
    Sleep { seconds: u64 },
    /// Send the transaction.
    Broadcast(TransactionIntent),
    /// Wait for the receipt of the transaction with the given hash.
    AwaitReceipt { transaction_hash: [u8; 32] },
    /// Ask the price source for the current rate.
    FetchRate,
    /// Nothing: the run is over.
    Finish,
}

/// The kinds of action, for counting what a run asks for.
#[derive(Clone, Copy, Debug, PartialEq, Eq)]
pub enum ActionKind {
    EstimateFee,
    Sleep,
    Broadcast,
    AwaitReceipt,
    FetchRate,
    Finish,
}

impl Action {
    /// The kind of this action.
    pub open spec fn kind(self) -> ActionKind {
        match self {
            Action::EstimateFee(_) => ActionKind::EstimateFee,
            Action::Sleep { .. } => ActionKind::Sleep,
            Action::Broadcast(_) => ActionKind::Broadcast,
            Action::AwaitReceipt { .. } => ActionKind::AwaitReceipt,
            Action::FetchRate => ActionKind::FetchRate,
            Action::Finish => ActionKind::Finish,
        }
    }
}

/// A state together with the action that it asks for.
#[derive(Clone, Copy, Debug, PartialEq, Eq)]
pub struct Transition {
    pub state: LoopState,
    pub action: Action,
}

impl LoopState {
    /// Whether the run is over in this state.
    pub open spec fn terminal(self) -> bool {
        self is Done || self is Exhausted || self is Failed
    }
}

/// The state in which a run begins: the first estimate, or exhaustion at
/// once where the budget allows no attempt at all.
pub open spec fn initial_state(config: RunConfig) -> LoopState {
    if config.max_attempts == 0 {
        LoopState::Exhausted { attempts: 0 }
    } else {
        LoopState::Estimating { attempt: 1 }
    }
}

/// The action that a state asks for.
pub open spec fn action_for(config: RunConfig, state: LoopState) -> Action {
    match state {
        LoopState::Estimating { .. } => Action::EstimateFee(config.intent),
        LoopState::Waiting { .. } => Action::Sleep { seconds: config.poll_interval_secs },
        LoopState::Submitting => Action::Broadcast(config.intent),
        LoopState::AwaitingReceipt { transaction_hash } => Action::AwaitReceipt {
            transaction_hash,
        },
        LoopState::Reporting { .. } => Action::FetchRate,
        LoopState::Done(_) => Action::Finish,
        LoopState::Exhausted { .. } => Action::Finish,
        LoopState::Failed(_) => Action::Finish,
    }
}

/// Where an estimate leads: to submission where the threshold tolerates it,
/// else to the delay before the next attempt where one is left, else to
/// exhaustion.
pub open spec fn decided(config: RunConfig, attempt: u32, estimate: FeeEstimate) -> LoopState {
    if estimate.affordable(config.threshold) {
        LoopState::Submitting
    } else if attempt < config.max_attempts {
        LoopState::Waiting { next_attempt: (attempt + 1) as u32 }
    } else {
        LoopState::Exhausted { attempts: attempt }
    }
}

/// Where a receipt leads: to the price lookup where fiat is reported, else
/// to the outcome.
pub open spec fn confirmed(config: RunConfig, receipt: Receipt) -> LoopState {
    if config.report_fiat {
        LoopState::Reporting { receipt }
    } else {
        LoopState::Done(SubmissionOutcome::of(receipt, FiatReport::NotRequested))
    }
}

/// The state that follows `state` on `event`.
///
/// A final state stays as it is. Elsewhere the event that the state waits
/// for moves the run on, a failed provider call aborts it, and any other
/// event aborts it as unexpected.
pub open spec fn next_state(config: RunConfig, state: LoopState, event: Event) -> LoopState {
    match state {
        LoopState::Estimating { attempt } => match event {
            Event::Estimated(estimate) => decided(config, attempt, estimate),
            Event::ProviderFailed => LoopState::Failed(
                Fault::ProviderError { stage: Stage::Estimating },
            ),
            _ => LoopState::Failed(Fault::UnexpectedEvent),
        },
        LoopState::Waiting { next_attempt } => match event {
            Event::DelayElapsed => LoopState::Estimating { attempt: next_attempt },
            _ => LoopState::Failed(Fault::UnexpectedEvent),
        },
        LoopState::Submitting => match event {
            Event::Broadcast { transaction_hash } => LoopState::AwaitingReceipt {
                transaction_hash,
            },
            Event::ProviderFailed => LoopState::Failed(
                Fault::ProviderError { stage: Stage::Submitting },
            ),
            _ => LoopState::Failed(Fault::UnexpectedEvent),
        },
        LoopState::AwaitingReceipt { .. } => match event {
            Event::Confirmed(receipt) => confirmed(config, receipt),
            Event::ProviderFailed => LoopState::Failed(
                Fault::ProviderError { stage: Stage::AwaitingReceipt },
            ),
            _ => LoopState::Failed(Fault::UnexpectedEvent),
        },
        LoopState::Reporting { receipt } => match event {
            Event::RateFetched(lookup) => LoopState::Done(
                SubmissionOutcome::of(receipt, fiat_report_of(Wei::of(receipt.fee()), lookup)),
            ),
            _ => LoopState::Failed(Fault::UnexpectedEvent),
        },
        LoopState::Done(_) => state,
        LoopState::Exhausted { .. } => state,
        LoopState::Failed(_) => state,
    }
}

/// The action that `state` asks of the caller.
pub fn next_action(config: &RunConfig, state: &LoopState) -> (action: Action)
    ensures
        action == action_for(*config, *state),
{
    match state {
        LoopState::Estimating { .. } => Action::EstimateFee(config.intent),
        LoopState::Waiting { .. } => Action::Sleep { seconds: config.poll_interval_secs },
        LoopState::Submitting => Action::Broadcast(config.intent),
        LoopState::AwaitingReceipt { transaction_hash } => Action::AwaitReceipt {
            transaction_hash: *transaction_hash,
        },
        LoopState::Reporting { .. } => Action::FetchRate,
        LoopState::Done(_) => Action::Finish,
        LoopState::Exhausted { .. } => Action::Finish,
        LoopState::Failed(_) => Action::Finish,
    }
}

/// Decides on one estimate: submit, wait for another attempt, or give up.
pub fn decide(config: &RunConfig, attempt: u32, estimate: &FeeEstimate) -> (state: LoopState)
    ensures
        state == decided(*config, attempt, *estimate),
{
    if estimate.within(&config.threshold) {
        LoopState::Submitting
    } else if attempt < config.max_attempts {
        LoopState::Waiting { next_attempt: attempt + 1 }
    } else {
        LoopState::Exhausted { attempts: attempt }
    }
}

/// Begins a run.
pub fn start(config: &RunConfig) -> (t: Transition)
    ensures
        t.state == initial_state(*config),
        t.action == action_for(*config, t.state),
{
    let state = if config.max_attempts == 0 {
        LoopState::Exhausted { attempts: 0 }
    } else {
        LoopState::Estimating { attempt: 1 }
    };
    Transition { state, action: next_action(config, &state) }
}

/// Moves a run on by one event, and says what to do next.
pub fn step(config: &RunConfig, state: LoopState, event: Event) -> (t: Transition)
    ensures
        t.state == next_state(*config, state, event),
        t.action == action_for(*config, t.state),
{
    let unexpected = LoopState::Failed(Fault::UnexpectedEvent);
    let next = match state {
        LoopState::Estimating { attempt } => match event {
            Event::Estimated(estimate) => decide(config, attempt, &estimate),
            Event::ProviderFailed => LoopState::Failed(
                Fault::ProviderError { stage: Stage::Estimating },
            ),
            _ => unexpected,
        },
        LoopState::Waiting { next_attempt } => match event {
            Event::DelayElapsed => LoopState::Estimating { attempt: next_attempt },
            _ => unexpected,
        },
        LoopState::Submitting => match event {
            Event::Broadcast { transaction_hash } => LoopState::AwaitingReceipt {
                transaction_hash,
            },
            Event::ProviderFailed => LoopState::Failed(
                Fault::ProviderError { stage: Stage::Submitting },
            ),
            _ => unexpected,
        },
        LoopState::AwaitingReceipt { .. } => match event {
            Event::Confirmed(receipt) => if config.report_fiat {
                LoopState::Reporting { receipt }
            } else {
                LoopState::Done(SubmissionOutcome::without_fiat(&receipt))
            },
            Event::ProviderFailed => LoopState::Failed(
                Fault::ProviderError { stage: Stage::AwaitingReceipt },
            ),
            _ => unexpected,
        },
        LoopState::Reporting { receipt } => match event {
            Event::RateFetched(lookup) => LoopState::Done(
                SubmissionOutcome::with_fiat(&receipt, &lookup),
            ),
            _ => unexpected,
        },
        LoopState::Done(_) => state,
        LoopState::Exhausted { .. } => state,
        LoopState::Failed(_) => state,
    };
    Transition { state: next, action: next_action(config, &next) }
}

} // verus!
