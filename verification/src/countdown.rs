use bevy::time::Timer;
use bevy::time::TimerMode;
use std::time::Duration;
use vstd::prelude::*;

verus! {

/// `bevy::time::Timer`, carried as an opaque value.
#[verifier::external_type_specification]
#[verifier::external_body]
pub struct ExTimer(Timer);

/// What a timer holds, with times in nanoseconds.
pub ghost struct TimerState {
    /// Length of the run.
    pub duration: nat,
    /// Time counted so far.
    pub elapsed: nat,
    /// Whether the run has ended.
    pub finished: bool,
    /// Whether the run ended on the latest tick.
    pub just_finished: bool,
    /// Whether ticking is switched off.
    pub paused: bool,
    /// Whether the timer starts over when a run ends.
    pub repeating: bool,
}

/// The fields of a `bevy::time::Timer`.
pub uninterp spec fn timer_state(timer: Timer) -> TimerState;

/// A timer that runs once and is not paused, with times that fit `u64`
/// nanoseconds.
pub open spec fn runs_once(s: TimerState) -> bool {
    &&& !s.paused
    &&& !s.repeating
    &&& s.elapsed <= s.duration <= u64::MAX
    &&& s.finished ==> s.elapsed == s.duration
    &&& s.just_finished ==> s.finished
}

/// State of a fresh run of `nanos` nanoseconds.
pub open spec fn fresh(nanos: nat) -> TimerState {
    TimerState {
        duration: nanos,
        elapsed: 0,
        finished: false,
        just_finished: false,
        paused: false,
        repeating: false,
    }
}

/// State after `delta` nanoseconds pass on a timer that runs once: the
/// count stops at the duration, and the tick that reaches it is the only
/// one on which the timer has just finished.
pub open spec fn ticked(s: TimerState, delta: nat) -> TimerState {
    if s.finished {
        TimerState { just_finished: false, ..s }
    } else if s.elapsed + delta >= s.duration {
        TimerState { elapsed: s.duration, finished: true, just_finished: true, ..s }
    } else {
        TimerState { elapsed: s.elapsed + delta, finished: false, just_finished: false, ..s }
    }
}

/// State after a timer is set back to the start of its run.
pub open spec fn rewound(s: TimerState) -> TimerState {
    TimerState { elapsed: 0, finished: false, just_finished: false, ..s }
}

/// `Timer::new` with a `Duration` of `nanos` nanoseconds and
/// `TimerMode::Once`: a timer of that duration with nothing elapsed, not
/// finished, not paused and not repeating.
#[verifier::external_body]
fn timer_new(nanos: u64) -> (timer: Timer)
    ensures
        timer_state(timer) == fresh(nanos as nat),
{
    Timer::new(Duration::from_nanos(nanos), TimerMode::Once)
}

/// `Timer::tick` by a `Duration` of `nanos` nanoseconds, on an unpaused
/// timer that runs once. A finished timer only forgets that it had just
/// finished. Otherwise the elapsed time grows by `nanos`, and where it
/// reaches the duration it is set to the duration and the timer is finished
/// and has just finished. The times of such a timer fit `u64` nanoseconds,
/// so the sum stays within what a `Duration` holds.
#[verifier::external_body]
fn timer_tick(timer: &mut Timer, nanos: u64)
    requires
        runs_once(timer_state(*old(timer))),
    ensures
        timer_state(*final(timer)) == ticked(timer_state(*old(timer)), nanos as nat),
    no_unwind
{
    timer.tick(Duration::from_nanos(nanos));
}

/// `Timer::just_finished`: whether the latest tick ended the run.
#[verifier::external_body]
fn timer_just_finished(timer: &Timer) -> (r: bool)
    ensures
        r == timer_state(*timer).just_finished,
{
    timer.just_finished()
}

/// `Timer::reset`: the elapsed time returns to zero and the timer is
/// neither finished nor just finished; duration, mode and pause stay.
#[verifier::external_body]
fn timer_reset(timer: &mut Timer)
    ensures
        timer_state(*final(timer)) == rewound(timer_state(*old(timer))),
    no_unwind
{
    timer.reset();
}

/// A one-shot countdown: it runs for a fixed duration and reports the tick
/// on which it expires.
pub struct Countdown {
    timer: Timer,
}

impl Countdown {
    /// What the countdown holds.
    pub closed spec fn view(&self) -> TimerState {
        timer_state(self.timer)
    }

    #[verifier::type_invariant]
    spec fn well_formed(&self) -> bool {
        runs_once(timer_state(self.timer))
    }

    /// A countdown of `nanos` nanoseconds, at its start.
    pub fn new(nanos: u64) -> (r: Countdown)
        ensures
            r@ == fresh(nanos as nat),
    {
        Countdown { timer: timer_new(nanos) }
    }

    /// Lets `nanos` nanoseconds pass. Returns whether the countdown expired
    /// on this tick.
    pub fn tick(&mut self, nanos: u64) -> (expired: bool)
        ensures
            final(self)@ == ticked(old(self)@, nanos as nat),
            expired == final(self)@.just_finished,
    {
        proof {
            use_type_invariant(&*self);
        }
        timer_tick(&mut self.timer, nanos);
        timer_just_finished(&self.timer)
    }

    /// Starts the countdown over with the duration it has.
    pub fn reset(&mut self)
        ensures
            final(self)@ == rewound(old(self)@),
    {
        proof {
            use_type_invariant(&*self);
        }
        timer_reset(&mut self.timer);
    }

    /// Starts the countdown over with a duration of `nanos` nanoseconds.
    pub fn restart(&mut self, nanos: u64)
        ensures
            final(self)@ == fresh(nanos as nat),
    {
        self.timer = timer_new(nanos);
    }
}

} // verus!
