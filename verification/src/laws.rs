//! What holds of every run of the submission loop, whatever the provider,
//! the fee market and the caller do.

use vstd::prelude::*;
use crate::estimate::FeeEstimate;
use crate::submission::{
    action_for, initial_state, next_state, ActionKind, Event, LoopState, RunConfig,
};
use crate::wei::Wei;

verus! {

/// The state that a run reaches from `state` when `events` come in, in order.
pub open spec fn run(config: RunConfig, state: LoopState, events: Seq<Event>) -> LoopState
    decreases events.len(),
{
    if events.len() == 0 {
        state
    } else {
        run(config, next_state(config, state, events.first()), events.drop_first())
    }
}

/// One if `state` asks for an action of the given kind, else zero.
pub open spec fn asks(config: RunConfig, state: LoopState, kind: ActionKind) -> nat {
    if action_for(config, state).kind() == kind {
        1
    } else {
        0
    }
}

/// How many actions of the given kind the steps over `events` ask for, from
/// `state` on. The action that `state` itself asks for is not counted.
pub open spec fn asked_from(
    config: RunConfig,
    state: LoopState,
    events: Seq<Event>,
    kind: ActionKind,
) -> nat
    decreases events.len(),
{
    if events.len() == 0 {
        0
    } else {
        let next = next_state(config, state, events.first());
        asks(config, next, kind) + asked_from(config, next, events.drop_first(), kind)
    }
}

/// The state of a run after `events`, from its beginning.
pub open spec fn state_after(config: RunConfig, events: Seq<Event>) -> LoopState {
    run(config, initial_state(config), events)
}

/// How many actions of the given kind a run has asked for after `events`,
/// from its beginning.
pub open spec fn asked(config: RunConfig, events: Seq<Event>, kind: ActionKind) -> nat {
    asks(config, initial_state(config), kind) + asked_from(
        config,
        initial_state(config),
        events,
        kind,
    )
}

/// No estimate among `events` is at or below the threshold.
pub open spec fn never_affordable(config: RunConfig, events: Seq<Event>) -> bool {
    forall|i: int|
        0 <= i < events.len() ==> (#[trigger] events[i] matches Event::Estimated(estimate)
            ==> !estimate.affordable(config.threshold))
}

/// The events of a run in which every estimate comes in and every delay
/// passes: the estimates in order, with a delay between each two.
pub open spec fn polling(estimates: Seq<FeeEstimate>) -> Seq<Event>
    decreases estimates.len(),
{
    if estimates.len() == 0 {
        Seq::empty()
    } else if estimates.len() == 1 {
        seq![Event::Estimated(estimates.first())]
    } else {
        seq![Event::Estimated(estimates.first()), Event::DelayElapsed] + polling(
            estimates.drop_first(),
        )
    }
}

/// The estimates that a state can still ask for.
pub open spec fn estimates_left(config: RunConfig, state: LoopState) -> nat {
    match state {
        LoopState::Estimating { attempt } => if attempt < config.max_attempts {
            (config.max_attempts - attempt) as nat
        } else {
            0
        },
        LoopState::Waiting { next_attempt } => if next_attempt < config.max_attempts {
            (config.max_attempts - next_attempt + 1) as nat
        } else {
            1
        },
        _ => 0,
    }
}

/// The delays that a state can still ask for.
pub open spec fn delays_left(config: RunConfig, state: LoopState) -> nat {
    match state {
        LoopState::Estimating { attempt } => if attempt < config.max_attempts {
            (config.max_attempts - attempt) as nat
        } else {
            0
        },
        LoopState::Waiting { next_attempt } => if next_attempt < config.max_attempts {
            (config.max_attempts - next_attempt) as nat
        } else {
            0
        },
        _ => 0,
    }
}

/// Whether a state can still ask for a broadcast.
pub open spec fn may_still_submit(state: LoopState) -> bool {
    state is Estimating || state is Waiting
}

/// From any state, a run asks for no more estimates and delays than the
/// attempt budget leaves, and for a broadcast only if none was asked for yet.
pub proof fn lemma_bounded_from(config: RunConfig, state: LoopState, events: Seq<Event>)
    ensures
        asked_from(config, state, events, ActionKind::EstimateFee) <= estimates_left(
            config,
            state,
        ),
        asked_from(config, state, events, ActionKind::Sleep) <= delays_left(config, state),
        asked_from(config, state, events, ActionKind::Broadcast) <= 1,
        !may_still_submit(state) ==> asked_from(config, state, events, ActionKind::Broadcast)
            == 0,
    decreases events.len(),
{
    if events.len() > 0 {
        let next = next_state(config, state, events.first());
        lemma_bounded_from(config, next, events.drop_first());
    }
}

/// The attempt budget is a hard ceiling: whatever events come in, a run asks
/// for at most `max_attempts` estimates, and for fewer delays than that.
pub proof fn law_attempt_budget(config: RunConfig, events: Seq<Event>)
    ensures
        asked(config, events, ActionKind::EstimateFee) <= config.max_attempts,
        asked(config, events, ActionKind::Sleep) < config.max_attempts || asked(
            config,
            events,
            ActionKind::Sleep,
        ) == 0,
{
    lemma_bounded_from(config, initial_state(config), events);
}

/// Submission happens at most once per run: whatever events come in, a run
/// asks for at most one broadcast.
pub proof fn law_at_most_one_broadcast(config: RunConfig, events: Seq<Event>)
    ensures
        asked(config, events, ActionKind::Broadcast) <= 1,
{
    lemma_bounded_from(config, initial_state(config), events);
}

/// A final state stays as it is, and asks for nothing more.
pub proof fn law_final_states_absorb(config: RunConfig, state: LoopState, events: Seq<Event>)
    requires
        state.terminal(),
    ensures
        run(config, state, events) == state,
        forall|kind: ActionKind|
            kind != ActionKind::Finish ==> #[trigger] asked_from(config, state, events, kind)
                == 0,
    decreases events.len(),
{
    if events.len() > 0 {
        law_final_states_absorb(config, state, events.drop_first());
        assert forall|kind: ActionKind| kind != ActionKind::Finish implies #[trigger] asked_from(
            config,
            state,
            events,
            kind,
        ) == 0 by {
            assert(asked_from(config, state, events.drop_first(), kind) == 0);
        }
    }
}

/// Once the broadcast is asked for, the run asks for no further estimate,
/// delay or broadcast.
pub proof fn lemma_committed(config: RunConfig, state: LoopState, events: Seq<Event>)
    requires
        !may_still_submit(state),
    ensures
        !may_still_submit(run(config, state, events)),
        asked_from(config, state, events, ActionKind::EstimateFee) == 0,
        asked_from(config, state, events, ActionKind::Sleep) == 0,
        asked_from(config, state, events, ActionKind::Broadcast) == 0,
    decreases events.len(),
{
    if events.len() > 0 {
        let next = next_state(config, state, events.first());
        lemma_committed(config, next, events.drop_first());
    }
}

/// Where the first estimate is at or below the threshold, the run asks for
/// exactly one broadcast, one estimate and no delay, whatever follows.
pub proof fn law_affordable_at_once(config: RunConfig, first: FeeEstimate, rest: Seq<Event>)
    requires
        config.max_attempts >= 1,
        first.affordable(config.threshold),
    ensures
        asked(config, seq![Event::Estimated(first)] + rest, ActionKind::Broadcast) == 1,
        asked(config, seq![Event::Estimated(first)] + rest, ActionKind::Sleep) == 0,
        asked(config, seq![Event::Estimated(first)] + rest, ActionKind::EstimateFee) == 1,
{
    let events = seq![Event::Estimated(first)] + rest;
    assert(events.first() == Event::Estimated(first));
    assert(events.drop_first() =~= rest);
    lemma_committed(config, LoopState::Submitting, rest);
}

/// While no estimate is at or below the threshold, nothing is submitted.
pub proof fn lemma_no_broadcast_from(config: RunConfig, state: LoopState, events: Seq<Event>)
    requires
        never_affordable(config, events),
        state is Estimating || state is Waiting || state is Exhausted || state is Failed,
    ensures
        asked_from(config, state, events, ActionKind::Broadcast) == 0,
        asked_from(config, state, events, ActionKind::AwaitReceipt) == 0,
        ({
            let end = run(config, state, events);
            end is Estimating || end is Waiting || end is Exhausted || end is Failed
        }),
    decreases events.len(),
{
    if events.len() > 0 {
        let next = next_state(config, state, events.first());
        let rest = events.drop_first();
        assert(events[0] == events.first());
        assert forall|i: int| 0 <= i < rest.len() implies (#[trigger] rest[i] matches Event::Estimated(
            estimate,
        ) ==> !estimate.affordable(config.threshold)) by {
            assert(rest[i] == events[i + 1]);
        }
        lemma_no_broadcast_from(config, next, rest);
    }
}

/// Where no estimate is ever at or below the threshold, the run asks for at
/// most `max_attempts` estimates and for no broadcast, and it never reaches
/// a state in which the transaction is out.
pub proof fn law_never_affordable(config: RunConfig, events: Seq<Event>)
    requires
        never_affordable(config, events),
    ensures
        asked(config, events, ActionKind::EstimateFee) <= config.max_attempts,
        asked(config, events, ActionKind::Broadcast) == 0,
        ({
            let end = state_after(config, events);
            end is Estimating || end is Waiting || end is Exhausted || end is Failed
        }),
{
    lemma_bounded_from(config, initial_state(config), events);
    lemma_no_broadcast_from(config, initial_state(config), events);
}

/// Polling through estimates that are all above the threshold, from the
/// attempt that they begin with to the last that the budget allows.
pub proof fn lemma_polling_from(config: RunConfig, attempt: u32, estimates: Seq<FeeEstimate>)
    requires
        1 <= attempt <= config.max_attempts,
        estimates.len() == config.max_attempts - attempt + 1,
        forall|i: int|
            0 <= i < estimates.len() ==> !(#[trigger] estimates[i]).affordable(config.threshold),
    ensures
        run(config, LoopState::Estimating { attempt }, polling(estimates))
            == (LoopState::Exhausted { attempts: config.max_attempts }),
        asked_from(
            config,
            LoopState::Estimating { attempt },
            polling(estimates),
            ActionKind::EstimateFee,
        ) == config.max_attempts - attempt,
        asked_from(config, LoopState::Estimating { attempt }, polling(estimates), ActionKind::Sleep)
            == config.max_attempts - attempt,
        asked_from(
            config,
            LoopState::Estimating { attempt },
            polling(estimates),
            ActionKind::Broadcast,
        ) == 0,
    decreases estimates.len(),
{
    let state = LoopState::Estimating { attempt };
    let events = polling(estimates);
    assert(!estimates[0].affordable(config.threshold));
    if estimates.len() == 1 {
        assert(events.drop_first() =~= Seq::<Event>::empty());
        let end = next_state(config, state, events.first());
        assert(end == LoopState::Exhausted { attempts: attempt });
        reveal_with_fuel(run, 2);
        reveal_with_fuel(asked_from, 2);
    } else {
        let tail = estimates.drop_first();
        let waiting = LoopState::Waiting { next_attempt: (attempt + 1) as u32 };
        let again = LoopState::Estimating { attempt: (attempt + 1) as u32 };
        assert(events.first() == Event::Estimated(estimates[0]));
        assert(next_state(config, state, events.first()) == waiting);
        let after_first = events.drop_first();
        assert(after_first =~= seq![Event::DelayElapsed] + polling(tail));
        assert(after_first.first() == Event::DelayElapsed);
        assert(after_first.drop_first() =~= polling(tail));
        assert(next_state(config, waiting, after_first.first()) == again);
        assert forall|i: int| 0 <= i < tail.len() implies !(#[trigger] tail[i]).affordable(
            config.threshold,
        ) by {
            assert(tail[i] == estimates[i + 1]);
        }
        lemma_polling_from(config, (attempt + 1) as u32, tail);
        reveal_with_fuel(run, 3);
        reveal_with_fuel(asked_from, 3);
    }
}

/// Where as many estimates as the budget allows come in and every one is
/// above the threshold, the run ends as exhausted after the last of them:
/// it has asked for every estimate, for a delay between each two, and for no
/// broadcast.
pub proof fn law_exhaustion(config: RunConfig, estimates: Seq<FeeEstimate>)
    requires
        config.max_attempts >= 1,
        estimates.len() == config.max_attempts,
        forall|i: int|
            0 <= i < estimates.len() ==> !(#[trigger] estimates[i]).affordable(config.threshold),
    ensures
        state_after(config, polling(estimates)) == (LoopState::Exhausted {
            attempts: config.max_attempts,
        }),
        asked(config, polling(estimates), ActionKind::EstimateFee) == config.max_attempts,
        asked(config, polling(estimates), ActionKind::Sleep) == config.max_attempts - 1,
        asked(config, polling(estimates), ActionKind::Broadcast) == 0,
{
    lemma_polling_from(config, 1, estimates);
}

/// A budget of no attempts ends the run at once, with nothing asked for.
pub proof fn law_empty_budget(config: RunConfig, events: Seq<Event>)
    requires
        config.max_attempts == 0,
    ensures
        state_after(config, events) == (LoopState::Exhausted { attempts: 0 }),
        asked(config, events, ActionKind::EstimateFee) == 0,
        asked(config, events, ActionKind::Sleep) == 0,
        asked(config, events, ActionKind::Broadcast) == 0,
{
    law_final_states_absorb(config, initial_state(config), events);
}

/// A state that accounts as the configuration asks: an outcome reports the
/// exact fee, and a fiat side exactly where the run reports fiat; the price
/// lookup is waited for only where it does.
pub open spec fn accounts_exactly(config: RunConfig, state: LoopState) -> bool {
    match state {
        LoopState::Reporting { .. } => config.report_fiat,
        LoopState::Done(outcome) => outcome.exact() && (outcome.fiat_value is NotRequested
            <==> !config.report_fiat),
        _ => true,
    }
}

/// Exact accounting is kept by every step.
pub proof fn lemma_exact_from(config: RunConfig, state: LoopState, events: Seq<Event>)
    requires
        accounts_exactly(config, state),
    ensures
        accounts_exactly(config, run(config, state, events)),
    decreases events.len(),
{
    if events.len() > 0 {
        let next = next_state(config, state, events.first());
        match state {
            LoopState::AwaitingReceipt { .. } => {
                if let Event::Confirmed(receipt) = events.first() {
                    Wei::lemma_view_of_product(receipt.gas_used, receipt.effective_gas_price);
                }
            },
            LoopState::Reporting { receipt } => {
                Wei::lemma_view_of_product(receipt.gas_used, receipt.effective_gas_price);
            },
            _ => {},
        }
        lemma_exact_from(config, next, events.drop_first());
    }
}

/// Whatever events come in, a run that ends with an outcome reports as its
/// realized fee exactly the gas used times the price paid, and a fiat side
/// exactly where the run was configured to report one.
pub proof fn law_outcome_exact(config: RunConfig, events: Seq<Event>)
    ensures
        state_after(config, events) matches LoopState::Done(outcome) ==> {
            &&& outcome.realized_fee@ == outcome.gas_used as nat
                * outcome.effective_gas_price as nat
            &&& outcome.fiat_value is NotRequested <==> !config.report_fiat
        },
{
    lemma_exact_from(config, initial_state(config), events);
}

} // verus!
