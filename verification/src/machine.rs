//! The round state machine.
//!
//! The machine is the only owner of the round state and of the pending timer.
//! It is driven by one consumer that hands it each event together with the
//! instant at which the event was received, and it answers with what is left
//! to do outside: start the timer task, report a measurement, stop.

use crate::clock::clamp_millis;
use crate::clock::elapsed_between;
use crate::scheduler::random_sample;
use crate::scheduler::schedule_with_sample;
use crate::scheduler::DelayRange;
use crate::scheduler::PendingTimer;
use crate::scheduler::TimerTask;
use crate::state::effect_of;
use crate::state::next_pending;
use crate::state::next_state;
use crate::state::starts_round;
use crate::state::Effect;
use crate::state::Event;
use crate::state::RoundState;
use vstd::prelude::*;

verus! {

/// The round state together with what it owns: the pending timer lives inside
/// the armed phase and nowhere else.
#[derive(Debug)]
enum Phase {
    Idle,
    Armed(PendingTimer),
    Signaled { start_ms: u128 },
    Result(u16),
    FalseStart,
}

/// What the caller has to do after an event was handled.
#[derive(Debug)]
pub enum Action {
    /// Nothing but showing the current state.
    Redraw,
    /// Run this timer task.
    StartTimer(TimerTask),
    /// The pending timer was canceled.
    TimerCanceled,
    /// Emit this interval, in milliseconds, as the last measurement.
    Report(u128),
    /// Leave the loop and release the input source.
    Stop,
}

impl View for Action {
    type V = Effect;

    open spec fn view(&self) -> Effect {
        match *self {
            Action::Redraw => Effect::Redraw,
            Action::StartTimer(task) => Effect::StartTimer { delay_ms: task.delay_ms },
            Action::TimerCanceled => Effect::TimerCanceled,
            Action::Report(elapsed_ms) => Effect::Report { elapsed_ms },
            Action::Stop => Effect::Stop,
        }
    }
}

/// The state machine of one player's rounds.
#[derive(Debug)]
pub struct Machine {
    phase: Phase,
    range: DelayRange,
}

impl View for Machine {
    type V = RoundState;

    closed spec fn view(&self) -> RoundState {
        match self.phase {
            Phase::Idle => RoundState::Idle,
            Phase::Armed(_) => RoundState::Armed,
            Phase::Signaled { start_ms } => RoundState::Signaled { start_ms },
            Phase::Result(ms) => RoundState::Result(ms),
            Phase::FalseStart => RoundState::FalseStart,
        }
    }
}

impl Machine {
    /// The range from which delays are drawn.
    pub closed spec fn range(self) -> DelayRange {
        self.range
    }

    /// The instant at which the pending timer was scheduled, if one is pending.
    pub closed spec fn pending_at(self) -> Option<u128> {
        match self.phase {
            Phase::Armed(timer) => Some(timer.scheduled_at()),
            _ => None,
        }
    }

    /// A timer is pending exactly while the round is armed.
    pub proof fn lemma_pending_iff_armed(self)
        ensures
            self.pending_at() is Some <==> self@ is Armed,
    {
    }

    /// A machine in the idle state that draws its delays from `range`.
    pub fn new(range: DelayRange) -> (machine: Machine)
        ensures
            machine@ == RoundState::Idle,
            machine.range() == range,
            machine.pending_at() is None,
    {
        Machine { phase: Phase::Idle, range }
    }

    /// The current round state.
    pub fn state(&self) -> (state: RoundState)
        ensures
            state == self@,
    {
        match &self.phase {
            Phase::Idle => RoundState::Idle,
            Phase::Armed(_) => RoundState::Armed,
            Phase::Signaled { start_ms } => RoundState::Signaled { start_ms: *start_ms },
            Phase::Result(ms) => RoundState::Result(*ms),
            Phase::FalseStart => RoundState::FalseStart,
        }
    }

    /// The range from which delays are drawn.
    pub fn delay_range(&self) -> (range: DelayRange)
        ensures
            range == self.range(),
    {
        self.range
    }

    /// The instant at which the pending timer was scheduled. A timer is
    /// pending exactly while the round is armed.
    pub fn pending_since(&self) -> (since: Option<u128>)
        ensures
            since == self.pending_at(),
            since is Some <==> self@ is Armed,
    {
        match &self.phase {
            Phase::Armed(timer) => Some(timer.scheduled_at_ms()),
            _ => None,
        }
    }

    /// Handles one event received at `now_ms`, following the transition
    /// table. Should the event start a round, the delay of its timer is the
    /// one that `sample` selects from the range; otherwise `sample` is not
    /// looked at.
    pub fn handle_with_sample(&mut self, event: Event, now_ms: u128, sample: u16) -> (action:
        Action)
        ensures
            final(self)@ == next_state(old(self)@, event, now_ms),
            final(self).range() == old(self).range(),
            final(self).pending_at() == next_pending(
                old(self)@,
                old(self).pending_at(),
                event,
                now_ms,
            ),
            action@ == effect_of(old(self)@, event, now_ms, old(self).range().delay_of(sample)),
            action is StartTimer <==> event is Activation && starts_round(old(self)@),
            action matches Action::StartTimer(task) ==> old(self).range().contains(task.delay_ms),
    {
        let mut phase = Phase::Idle;
        std::mem::swap(&mut self.phase, &mut phase);
        match event {
            Event::Quit => {
                self.phase = phase;
                Action::Stop
            },
            Event::TimerFired => {
                match phase {
                    Phase::Armed(_expired) => {
                        self.phase = Phase::Signaled { start_ms: now_ms };
                    },
                    other => {
                        self.phase = other;
                    },
                }
                Action::Redraw
            },
            Event::Activation => match phase {
                Phase::Idle | Phase::Result(_) | Phase::FalseStart => {
                    let (timer, task) = schedule_with_sample(&self.range, now_ms, sample);
                    self.phase = Phase::Armed(timer);
                    Action::StartTimer(task)
                },
                Phase::Armed(timer) => {
                    timer.cancel();
                    self.phase = Phase::FalseStart;
                    Action::TimerCanceled
                },
                Phase::Signaled { start_ms } => {
                    let elapsed_ms = elapsed_between(start_ms, now_ms);
                    self.phase = Phase::Result(clamp_millis(elapsed_ms));
                    Action::Report(elapsed_ms)
                },
            },
        }
    }

    /// Handles one event received at `now_ms`, following the transition
    /// table. Should the event start a round, the delay of its timer is drawn
    /// at random from the range.
    pub fn handle(&mut self, event: Event, now_ms: u128) -> (action: Action)
        ensures
            final(self)@ == next_state(old(self)@, event, now_ms),
            final(self).range() == old(self).range(),
            final(self).pending_at() == next_pending(
                old(self)@,
                old(self).pending_at(),
                event,
                now_ms,
            ),
            exists|sample: u16|
                action@ == #[trigger] effect_of(
                    old(self)@,
                    event,
                    now_ms,
                    old(self).range().delay_of(sample),
                ),
            action is StartTimer <==> event is Activation && starts_round(old(self)@),
            action matches Action::StartTimer(task) ==> old(self).range().contains(task.delay_ms),
    {
        let arming = match event {
            Event::Activation => self.state().starts_round(),
            _ => false,
        };
        let sample: u16 = if arming {
            random_sample()
        } else {
            0
        };
        self.handle_with_sample(event, now_ms, sample)
    }
}

} // verus!
