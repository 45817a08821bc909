//! Round states, events and the transition table.
//!
//! The table is a total function of the current state, the incoming event and
//! the instant at which the event was received. Every pair that the table does
//! not name leaves the state as it is.

use crate::clock::clamped_ms;
use crate::clock::gap_ms;
use vstd::prelude::*;

verus! {

/// Where a round stands.
#[derive(Clone, Copy, Debug, PartialEq, Eq, Structural)]
pub enum RoundState {
    /// No round has been started.
    Idle,
    /// A timer is scheduled and has not fired.
    Armed,
    /// The timer fired at `start_ms`; a response is awaited.
    Signaled { start_ms: u128 },
    /// A valid measurement, in milliseconds.
    Result(u16),
    /// The user responded while the round was armed.
    FalseStart,
}

/// What the state machine consumes.
#[derive(Clone, Copy, Debug, PartialEq, Eq, Structural)]
pub enum Event {
    /// The user pressed a key or a pointer button.
    Activation,
    /// The scheduled delay has elapsed.
    TimerFired,
    /// The user asked to leave.
    Quit,
}

/// What remains to be done outside the machine once an event is handled.
#[derive(Clone, Copy, Debug, PartialEq, Eq, Structural)]
pub enum Effect {
    /// Nothing but showing the current state.
    Redraw,
    /// A timer was scheduled; its task is to sleep `delay_ms` and then fire.
    StartTimer { delay_ms: u16 },
    /// The pending timer was canceled.
    TimerCanceled,
    /// A measurement was taken; `elapsed_ms` is the interval before clamping.
    Report { elapsed_ms: u128 },
    /// The loop ends and the input source is released.
    Stop,
}

/// Whether an activation in `state` starts a new round.
pub open spec fn starts_round(state: RoundState) -> bool {
    state is Idle || state is Result || state is FalseStart
}

/// The transition table.
pub open spec fn next_state(state: RoundState, event: Event, now_ms: u128) -> RoundState {
    match event {
        Event::Activation => match state {
            RoundState::Idle | RoundState::Result(_) | RoundState::FalseStart => RoundState::Armed,
            RoundState::Armed => RoundState::FalseStart,
            RoundState::Signaled { start_ms } => RoundState::Result(
                clamped_ms(gap_ms(start_ms, now_ms)),
            ),
        },
        Event::TimerFired => match state {
            RoundState::Armed => RoundState::Signaled { start_ms: now_ms },
            _ => state,
        },
        Event::Quit => state,
    }
}

/// The side effect that goes with each entry of the transition table, where
/// `delay_ms` is the delay chosen for a timer that the entry schedules.
pub open spec fn effect_of(state: RoundState, event: Event, now_ms: u128, delay_ms: u16) -> Effect {
    match event {
        Event::Activation => match state {
            RoundState::Idle | RoundState::Result(_) | RoundState::FalseStart => Effect::StartTimer {
                delay_ms,
            },
            RoundState::Armed => Effect::TimerCanceled,
            RoundState::Signaled { start_ms } => Effect::Report {
                elapsed_ms: gap_ms(start_ms, now_ms),
            },
        },
        Event::TimerFired => Effect::Redraw,
        Event::Quit => Effect::Stop,
    }
}

/// The instant since which a timer is pending after an event, given the one
/// before it: a timer exists exactly while the round is armed, and keeps the
/// instant at which it was scheduled.
pub open spec fn next_pending(
    state: RoundState,
    pending: Option<u128>,
    event: Event,
    now_ms: u128,
) -> Option<u128> {
    if !(next_state(state, event, now_ms) is Armed) {
        None
    } else if state is Armed {
        pending
    } else {
        Some(now_ms)
    }
}

impl RoundState {
    /// Whether an activation in this state starts a new round.
    pub fn starts_round(&self) -> (starts: bool)
        ensures
            starts == starts_round(*self),
    {
        match self {
            RoundState::Idle | RoundState::Result(_) | RoundState::FalseStart => true,
            RoundState::Armed | RoundState::Signaled { .. } => false,
        }
    }
}

} // verus!
