//! The countdown that an entity carries while it decays.

use crate::duration::{Duration, MAX_NANOS};
use vstd::prelude::*;

verus! {

/// What a [`DecayTimer`] holds, with its times in nanoseconds.
pub struct TimerState {
    /// The time counted so far.
    pub elapsed: nat,
    /// The time after which the countdown is over.
    pub total: nat,
    /// Whether the countdown stands still.
    pub paused: bool,
}

impl TimerState {
    /// A running countdown of `total` nanoseconds of which nothing has
    /// elapsed.
    pub open spec fn started(total: nat) -> TimerState {
        TimerState { elapsed: 0, total, paused: false }
    }

    /// The whole time has elapsed.
    pub open spec fn finished(self) -> bool {
        self.elapsed >= self.total
    }

    /// The time that has yet to elapse, and nothing once the countdown is
    /// over.
    pub open spec fn remaining(self) -> nat {
        if self.elapsed <= self.total {
            (self.total - self.elapsed) as nat
        } else {
            0
        }
    }

    /// The countdown after `delta` more nanoseconds have passed. A countdown
    /// that is paused or over stays as it is; another one moves on by
    /// `delta`, but not past its end.
    pub open spec fn tick(self, delta: nat) -> TimerState {
        if self.paused || self.finished() {
            self
        } else if self.elapsed + delta >= self.total {
            TimerState { elapsed: self.total, ..self }
        } else {
            TimerState { elapsed: self.elapsed + delta, ..self }
        }
    }

    /// The same countdown, standing still.
    pub open spec fn pause(self) -> TimerState {
        TimerState { paused: true, ..self }
    }

    /// The same countdown, running.
    pub open spec fn unpause(self) -> TimerState {
        TimerState { paused: false, ..self }
    }
}

/// A countdown that runs once: it moves with each [`tick`](DecayTimer::tick)
/// unless it is paused, and is finished when its whole time has elapsed.
///
/// The view of a `DecayTimer` is its [`TimerState`].
#[derive(Clone, Copy, Debug, PartialEq, Eq)]
pub struct DecayTimer {
    elapsed: Duration,
    total: Duration,
    paused: bool,
}

impl View for DecayTimer {
    type V = TimerState;

    closed spec fn view(&self) -> TimerState {
        TimerState { elapsed: self.elapsed@, total: self.total@, paused: self.paused }
    }
}

impl DecayTimer {
    /// No more time has elapsed than the countdown has in all.
    #[verifier::type_invariant]
    pub open spec fn wf(self) -> bool {
        self@.elapsed <= self@.total <= MAX_NANOS
    }

    /// A running countdown of `duration` of which nothing has elapsed.
    pub fn new(duration: Duration) -> (timer: Self)
        ensures
            timer@ == TimerState::started(duration@),
    {
        proof {
            use_type_invariant(duration);
        }
        DecayTimer { elapsed: Duration::zero(), total: duration, paused: false }
    }

    /// Lets `delta` pass. A countdown that is paused or finished does not
    /// move; another one moves on by `delta` and stops at its end.
    pub fn tick(&mut self, delta: Duration)
        ensures
            final(self)@ == old(self)@.tick(delta@),
    {
        proof {
            use_type_invariant(&*self);
            use_type_invariant(delta);
        }
        if !self.paused && self.elapsed.as_nanos() < self.total.as_nanos() {
            let advanced: Duration = self.elapsed.saturating_add(delta);
            if advanced.as_nanos() >= self.total.as_nanos() {
                self.elapsed = self.total;
            } else {
                self.elapsed = advanced;
            }
        }
    }

    /// Makes the countdown stand still. The time elapsed stays.
    pub fn pause(&mut self)
        ensures
            final(self)@ == old(self)@.pause(),
            final(self)@.remaining() == old(self)@.remaining(),
    {
        proof {
            use_type_invariant(&*self);
        }
        self.paused = true;
    }

    /// Makes the countdown run again. The time elapsed stays.
    pub fn unpause(&mut self)
        ensures
            final(self)@ == old(self)@.unpause(),
            final(self)@.remaining() == old(self)@.remaining(),
    {
        proof {
            use_type_invariant(&*self);
        }
        self.paused = false;
    }

    /// The time that has yet to elapse.
    pub fn remaining(&self) -> (rest: Duration)
        ensures
            rest@ == self@.remaining(),
    {
        self.total.saturating_sub(self.elapsed)
    }

    /// Whether the whole time has elapsed.
    pub fn finished(&self) -> (over: bool)
        ensures
            over == self@.finished(),
    {
        self.elapsed.as_nanos() >= self.total.as_nanos()
    }

    /// Whether the countdown stands still.
    pub fn paused(&self) -> (paused: bool)
        ensures
            paused == self@.paused,
    {
        self.paused
    }

    /// The time counted so far.
    pub fn elapsed(&self) -> (elapsed: Duration)
        ensures
            elapsed@ == self@.elapsed,
    {
        self.elapsed
    }

    /// The time after which the countdown is over.
    pub fn duration(&self) -> (total: Duration)
        ensures
            total@ == self@.total,
    {
        self.total
    }
}

/// Pausing a paused countdown changes nothing, and pausing never changes the
/// time that remains.
pub proof fn lemma_pause_idempotent(timer: TimerState)
    ensures
        timer.pause().pause() == timer.pause(),
        timer.pause().remaining() == timer.remaining(),
        timer.paused ==> timer.pause() == timer,
{
}

/// A paused countdown keeps its remaining time however much time passes.
pub proof fn lemma_paused_keeps_remaining(timer: TimerState, delta: nat)
    ensures
        timer.pause().tick(delta) == timer.pause(),
        timer.pause().tick(delta).remaining() == timer.remaining(),
{
}

/// A countdown that is paused at once and resumed has lost nothing: all of
/// its time remains.
pub proof fn lemma_pause_resume_keeps_all(total: nat)
    ensures
        TimerState::started(total).pause().remaining() == total,
        TimerState::started(total).pause().unpause() == TimerState::started(total),
        TimerState::started(total).pause().unpause().remaining() == total,
{
}

/// Time that passes in two steps counts as much as the same time in one.
pub proof fn lemma_tick_adds_up(timer: TimerState, first: nat, second: nat)
    requires
        timer.elapsed <= timer.total,
    ensures
        timer.tick(first).tick(second) == timer.tick(first + second),
{
}

/// A running countdown is finished after a tick if and only if the tick is
/// at least as long as the time that remained.
pub proof fn lemma_finishes_when_time_is_up(timer: TimerState, delta: nat)
    requires
        timer.elapsed <= timer.total,
        !timer.paused,
    ensures
        timer.tick(delta).finished() <==> delta >= timer.remaining(),
        timer.tick(delta).elapsed <= timer.tick(delta).total,
{
}

} // verus!
