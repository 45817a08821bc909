//! The delay scheduler's bookkeeping.
//!
//! Arming a round picks a delay from a configured range and creates a
//! cancellation pair. The handle half stays with the round as its pending
//! timer; the registration half travels, together with the delay, to whoever
//! runs the timer task. That task sleeps for the delay and then emits one
//! timer-fired event, unless the handle was invoked first.

use futures::future::AbortHandle;
use futures::future::AbortRegistration;
use rand::Rng;
use vstd::prelude::*;

verus! {

/// Lower bound, in milliseconds, of the delay range used by default.
pub const DEFAULT_MIN_DELAY_MS: u16 = 2000;

/// Upper bound (exclusive), in milliseconds, of the delay range used by default.
pub const DEFAULT_MAX_DELAY_MS: u16 = 7000;

/// `futures::future::AbortHandle`, carried as an opaque value: nothing is
/// known of what it holds.
#[verifier::external_type_specification]
#[verifier::external_body]
pub struct ExAbortHandle(AbortHandle);

/// `futures::future::AbortRegistration`, carried as an opaque value: nothing
/// is known of what it holds.
#[verifier::external_type_specification]
#[verifier::external_body]
pub struct ExAbortRegistration(AbortRegistration);

/// Half-open range `[min_ms, max_ms)` of delays, never empty.
#[derive(Clone, Copy, Debug)]
pub struct DelayRange {
    min_ms: u16,
    max_ms: u16,
}

impl DelayRange {
    #[verifier::type_invariant]
    spec fn ordered(self) -> bool {
        self.min_ms < self.max_ms
    }

    /// Smallest delay of the range.
    pub closed spec fn lower(self) -> u16 {
        self.min_ms
    }

    /// First value above the range.
    pub closed spec fn upper(self) -> u16 {
        self.max_ms
    }

    /// Whether `delay_ms` lies in the range.
    pub open spec fn contains(self, delay_ms: u16) -> bool {
        self.lower() <= delay_ms < self.upper()
    }

    /// The delay that a raw sample selects: the sample is folded onto the
    /// width of the range and offset by its lower bound.
    pub open spec fn delay_of(self, sample: u16) -> u16 {
        (self.lower() + sample % ((self.upper() - self.lower()) as u16)) as u16
    }

    /// The range `[min_ms, max_ms)`, or `None` when it would be empty.
    pub fn new(min_ms: u16, max_ms: u16) -> (range: Option<DelayRange>)
        ensures
            range is Some <==> min_ms < max_ms,
            range matches Some(r) ==> r.lower() == min_ms && r.upper() == max_ms,
    {
        if min_ms < max_ms {
            Some(DelayRange { min_ms, max_ms })
        } else {
            None
        }
    }

    /// The range from `DEFAULT_MIN_DELAY_MS` up to `DEFAULT_MAX_DELAY_MS`.
    pub fn standard() -> (range: DelayRange)
        ensures
            range.lower() == DEFAULT_MIN_DELAY_MS,
            range.upper() == DEFAULT_MAX_DELAY_MS,
    {
        DelayRange { min_ms: DEFAULT_MIN_DELAY_MS, max_ms: DEFAULT_MAX_DELAY_MS }
    }

    /// Smallest delay of the range.
    pub fn min_ms(&self) -> (min_ms: u16)
        ensures
            min_ms == self.lower(),
            min_ms < self.upper(),
    {
        proof {
            use_type_invariant(self);
        }
        self.min_ms
    }

    /// First value above the range.
    pub fn max_ms(&self) -> (max_ms: u16)
        ensures
            max_ms == self.upper(),
            self.lower() < max_ms,
    {
        proof {
            use_type_invariant(self);
        }
        self.max_ms
    }

    /// Maps a raw sample onto the range. Every sample gives a delay inside
    /// the range, and samples below the width of the range give each delay
    /// once.
    pub fn delay_for_sample(&self, sample: u16) -> (delay_ms: u16)
        ensures
            delay_ms == self.delay_of(sample),
            self.contains(delay_ms),
            delay_ms - self.lower() == sample % ((self.upper() - self.lower()) as u16),
    {
        proof {
            use_type_invariant(self);
        }
        let width: u16 = self.max_ms - self.min_ms;
        self.min_ms + sample % width
    }
}

/// Draws one sample from the calling thread's generator, through
/// `rand::thread_rng` and `Rng::gen`. The value is anything a `u16` can hold;
/// nothing is claimed of it. The generator is seeded by the system on first
/// use and gives up only where the system has no entropy to offer.
#[verifier::external_body]
pub(crate) fn random_sample() -> (sample: u16) {
    rand::thread_rng().gen::<u16>()
}

/// Creates a linked cancellation pair with `AbortHandle::new_pair`. Nothing is
/// claimed of the pair beyond its types.
#[verifier::external_body]
fn new_abort_pair() -> (pair: (AbortHandle, AbortRegistration)) {
    AbortHandle::new_pair()
}

/// Invokes `AbortHandle::abort` on the handle, which marks the linked task as
/// aborted and wakes it. The call returns nothing and nothing is claimed of it.
#[verifier::external_body]
fn abort_task(handle: &AbortHandle) {
    handle.abort()
}

/// The cancellation handle of an armed round, with the instant at which the
/// timer was scheduled.
#[derive(Debug)]
pub struct PendingTimer {
    handle: AbortHandle,
    scheduled_at_ms: u128,
}

/// What the runner of the timer needs: how long to sleep before emitting the
/// timer-fired event, and the registration under which the sleep can be
/// aborted.
#[derive(Debug)]
pub struct TimerTask {
    pub delay_ms: u16,
    pub registration: AbortRegistration,
}

impl PendingTimer {
    /// Instant at which the timer was scheduled.
    pub closed spec fn scheduled_at(self) -> u128 {
        self.scheduled_at_ms
    }

    /// Instant at which the timer was scheduled.
    pub fn scheduled_at_ms(&self) -> (at_ms: u128)
        ensures
            at_ms == self.scheduled_at(),
    {
        self.scheduled_at_ms
    }

    /// Cancels the timer: its task, if it has not emitted yet, never will.
    /// The timer is used up either way.
    pub fn cancel(self) {
        abort_task(&self.handle);
    }
}

/// Schedules a timer at `now_ms` whose delay is the one that `sample` selects
/// from `range`.
pub fn schedule_with_sample(range: &DelayRange, now_ms: u128, sample: u16) -> (scheduled: (
    PendingTimer,
    TimerTask,
))
    ensures
        scheduled.0.scheduled_at() == now_ms,
        scheduled.1.delay_ms == range.delay_of(sample),
        range.contains(scheduled.1.delay_ms),
{
    let delay_ms = range.delay_for_sample(sample);
    let (handle, registration) = new_abort_pair();
    (PendingTimer { handle, scheduled_at_ms: now_ms }, TimerTask { delay_ms, registration })
}

/// Schedules a timer at `now_ms` with a delay drawn at random from `range`.
pub fn schedule_fire(range: &DelayRange, now_ms: u128) -> (scheduled: (PendingTimer, TimerTask))
    ensures
        scheduled.0.scheduled_at() == now_ms,
        range.contains(scheduled.1.delay_ms),
        exists|sample: u16| scheduled.1.delay_ms == range.delay_of(sample),
{
    let sample = random_sample();
    schedule_with_sample(range, now_ms, sample)
}

} // verus!
