//! What holds of every run of the state machine.
//!
//! A run is the transition table applied to a sequence of received events,
//! one after the other. The lemmas here are stated over `next_state`, the
//! function in which the contract of `Machine::handle` is written.

use crate::state::next_state;
use crate::state::starts_round;
use crate::state::Event;
use crate::state::RoundState;
use vstd::prelude::*;

verus! {

/// An event together with the instant at which it was received.
pub struct Received {
    pub event: Event,
    pub at_ms: u128,
}

/// The state reached from `state` after `events`, in order.
pub open spec fn run(state: RoundState, events: Seq<Received>) -> RoundState
    decreases events.len(),
{
    if events.len() == 0 {
        state
    } else {
        next_state(run(state, events.drop_last()), events.last().event, events.last().at_ms)
    }
}

/// Whether `first` and `second` are one activation and one timer firing, in
/// either order.
pub open spec fn is_pair(first: Event, second: Event) -> bool {
    (first is Activation && second is TimerFired) || (first is TimerFired && second is Activation)
}

/// Whether `events` is a non-empty chain of pairs, each pair an activation and
/// a timer firing in either order.
pub open spec fn made_of_pairs(events: Seq<Received>) -> bool {
    &&& events.len() > 0
    &&& events.len() % 2 == 0
    &&& forall|k: int|
        0 <= k < events.len() && k % 2 == 0 ==> is_pair(
            (#[trigger] events[k]).event,
            events[k + 1].event,
        )
}

/// Whether `target` is reached from the idle state by some chain of pairs.
pub open spec fn reachable_by_pairs(target: RoundState) -> bool {
    exists|events: Seq<Received>| made_of_pairs(events) && #[trigger] run(RoundState::Idle, events)
        == target
}

/// Whether `event`, received in `state`, is outside the transition table: a
/// timer firing while no timer is awaited, or a request to leave, which ends
/// the loop and touches no state.
pub open spec fn is_noop(state: RoundState, event: Event) -> bool {
    event is Quit || (event is TimerFired && !(state is Armed))
}

/// A chain of pairs that leads from the idle state to `target`.
pub open spec fn path_to(target: RoundState) -> Seq<Received> {
    let activation = Received { event: Event::Activation, at_ms: 0 };
    let firing = Received { event: Event::TimerFired, at_ms: 0 };
    match target {
        RoundState::Signaled { start_ms } => seq![
            activation,
            Received { event: Event::TimerFired, at_ms: start_ms },
        ],
        RoundState::Result(ms) => seq![
            activation,
            firing,
            Received { event: Event::Activation, at_ms: ms as u128 },
            Received { event: Event::TimerFired, at_ms: ms as u128 },
        ],
        RoundState::FalseStart => seq![firing, activation, activation, firing],
        _ => seq![firing, activation],
    }
}

/// Running one more event is one more step of the table.
pub proof fn lemma_run_push(state: RoundState, events: Seq<Received>, last: Received)
    ensures
        run(state, events.push(last)) == next_state(run(state, events), last.event, last.at_ms),
{
    assert(events.push(last).drop_last() =~= events);
}

/// An event outside the transition table leaves the state as it is.
pub proof fn lemma_noop_keeps_state(state: RoundState, event: Event, now_ms: u128)
    requires
        is_noop(state, event),
    ensures
        next_state(state, event, now_ms) == state,
{
}

/// However often events outside the transition table are repeated, the state
/// stays as it is. In particular a timer firing that arrives late, after its
/// round was signaled or ended in a false start, changes nothing.
pub proof fn lemma_noops_keep_state(state: RoundState, events: Seq<Received>)
    requires
        forall|i: int| 0 <= i < events.len() ==> is_noop(state, (#[trigger] events[i]).event),
    ensures
        run(state, events) == state,
    decreases events.len(),
{
    if events.len() > 0 {
        lemma_noops_keep_state(state, events.drop_last());
    }
}

/// Running `first` and then `second` is running the two joined.
pub proof fn lemma_run_concat(state: RoundState, first: Seq<Received>, second: Seq<Received>)
    ensures
        run(state, first + second) == run(run(state, first), second),
    decreases second.len(),
{
    if second.len() == 0 {
        assert(first + second =~= first);
    } else {
        assert((first + second).drop_last() =~= first + second.drop_last());
        lemma_run_concat(state, first, second.drop_last());
    }
}

/// A round that is armed by one activation and canceled by the next ends in a
/// false start and stays there, however many timer firings still arrive: a
/// firing that was already on its way when the timer was canceled is
/// absorbed.
pub proof fn lemma_canceled_round_absorbs_firings(
    state: RoundState,
    armed_at_ms: u128,
    canceled_at_ms: u128,
    late: Seq<Received>,
)
    requires
        starts_round(state),
        forall|i: int| 0 <= i < late.len() ==> (#[trigger] late[i]).event is TimerFired,
    ensures
        run(
            state,
            seq![
                Received { event: Event::Activation, at_ms: armed_at_ms },
                Received { event: Event::Activation, at_ms: canceled_at_ms },
            ] + late,
        ) == RoundState::FalseStart,
{
    let arm = Received { event: Event::Activation, at_ms: armed_at_ms };
    let cancel = Received { event: Event::Activation, at_ms: canceled_at_ms };
    let empty = Seq::<Received>::empty();
    assert(seq![arm, cancel] =~= empty.push(arm).push(cancel));
    lemma_run_push(state, empty, arm);
    lemma_run_push(state, empty.push(arm), cancel);
    assert(run(state, seq![arm, cancel]) == RoundState::FalseStart);
    lemma_run_concat(state, seq![arm, cancel], late);
    lemma_noops_keep_state(RoundState::FalseStart, late);
}

/// No event leads into the idle state from another state, and an activation
/// leads out of it.
pub proof fn lemma_step_leaves_idle(state: RoundState, event: Event, now_ms: u128)
    ensures
        !(state is Idle) ==> !(next_state(state, event, now_ms) is Idle),
        event is Activation ==> !(next_state(state, event, now_ms) is Idle),
{
}

/// Once a run holds an activation, it does not end in the idle state,
/// wherever it started.
pub proof fn lemma_activation_leaves_idle(state: RoundState, events: Seq<Received>, at: int)
    requires
        0 <= at < events.len(),
        events[at].event is Activation,
    ensures
        !(run(state, events) is Idle),
    decreases events.len(),
{
    let before = run(state, events.drop_last());
    if at < events.len() - 1 {
        lemma_activation_leaves_idle(state, events.drop_last(), at);
    }
    lemma_step_leaves_idle(before, events.last().event, events.last().at_ms);
}

/// `path_to` is a chain of pairs and ends in its target, for every target but
/// the idle state.
pub proof fn lemma_path_reaches(target: RoundState)
    requires
        !(target is Idle),
    ensures
        made_of_pairs(path_to(target)),
        run(RoundState::Idle, path_to(target)) == target,
{
    reveal_with_fuel(run, 5);
}

/// From the idle state, the chains of activations and timer firings taken in
/// pairs, in whatever order within each pair, reach the armed state, every
/// signaled state, every result and the false start, and nothing else: the
/// idle state is never entered again.
pub proof fn theorem_reachable_states(target: RoundState)
    ensures
        reachable_by_pairs(target) <==> !(target is Idle),
{
    if target is Idle {
        assert forall|events: Seq<Received>| made_of_pairs(events) implies #[trigger] run(
            RoundState::Idle,
            events,
        ) != target by {
            let at: int = if events[0].event is Activation {
                0
            } else {
                1
            };
            lemma_activation_leaves_idle(RoundState::Idle, events, at);
        }
    } else {
        lemma_path_reaches(target);
        assert(run(RoundState::Idle, path_to(target)) == target);
    }
}

} // verus!
