//! The range of time from which an entity's decay time is drawn.

use crate::duration::{Duration, MAX_NANOS, NANOS_PER_MILLI};
use rand::Rng;
use vstd::prelude::*;

verus! {

/// What a [`DecayDuration`] holds: its two bounds, in nanoseconds.
pub struct DurationRange {
    /// The shortest decay time.
    pub min: nat,
    /// The longest decay time.
    pub max: nat,
}

impl DurationRange {
    /// The range between `a` and `b`, whichever of them is the smaller.
    pub open spec fn spanning(a: nat, b: nat) -> DurationRange {
        if a <= b {
            DurationRange { min: a, max: b }
        } else {
            DurationRange { min: b, max: a }
        }
    }

    /// Both bounds are the empty span.
    pub open spec fn is_zero(self) -> bool {
        self.min == 0 && self.max == 0
    }

    /// The range leaves nothing to chance.
    pub open spec fn is_fixed(self) -> bool {
        self.min == self.max
    }

    /// The lower bound in whole milliseconds, rounded down.
    pub open spec fn min_millis(self) -> nat {
        self.min / NANOS_PER_MILLI as nat
    }

    /// The upper bound in whole milliseconds, rounded down.
    pub open spec fn max_millis(self) -> nat {
        self.max / NANOS_PER_MILLI as nat
    }

    /// `millis` is a number of milliseconds that a draw from this range may
    /// give.
    pub open spec fn admits(self, millis: nat) -> bool {
        self.min_millis() <= millis <= self.max_millis()
    }

    /// The decay time, in nanoseconds, that the range resolves to when the
    /// draw gave `millis`: the one bound of a fixed range, whatever was
    /// drawn, and else the drawn number of milliseconds.
    pub open spec fn resolved(self, millis: nat) -> nat {
        if self.is_fixed() {
            self.min
        } else {
            millis * NANOS_PER_MILLI as nat
        }
    }

    /// `nanos` is a decay time that the range can resolve to.
    pub open spec fn may_resolve_to(self, nanos: nat) -> bool {
        if self.is_fixed() {
            nanos == self.min
        } else {
            nanos % NANOS_PER_MILLI as nat == 0 && self.admits(nanos / NANOS_PER_MILLI as nat)
        }
    }
}

/// The shortest and the longest time that an entity takes to decay.
///
/// The view of a `DecayDuration` is its [`DurationRange`].
#[derive(Clone, Copy, Debug, PartialEq, Eq)]
pub struct DecayDuration {
    min: Duration,
    max: Duration,
}

impl View for DecayDuration {
    type V = DurationRange;

    closed spec fn view(&self) -> DurationRange {
        DurationRange { min: self.min@, max: self.max@ }
    }
}

/// Draws a number with `rand::Rng::gen_range` from the thread-local generator
/// that `rand::thread_rng` returns, over the inclusive range `low..=high`.
/// `gen_range` panics on an empty range, which `low <= high` rules out. The
/// number drawn lies in the range; nothing else is known of it, and two draws
/// from the same range may differ.
#[verifier::external_body]
fn sample_inclusive(low: u128, high: u128) -> (sample: u128)
    requires
        low <= high,
    ensures
        low <= sample <= high,
{
    rand::thread_rng().gen_range(low..=high)
}

impl DecayDuration {
    /// The bounds are in order, and both are spans that a [`Duration`] holds.
    #[verifier::type_invariant]
    pub open spec fn wf(self) -> bool {
        self@.min <= self@.max <= MAX_NANOS
    }

    /// The range that holds `duration` alone.
    pub fn new(duration: Duration) -> (range: Self)
        ensures
            range@ == (DurationRange { min: duration@, max: duration@ }),
    {
        Self::randomized(duration, duration)
    }

    /// The range between `min` and `max`. Where `min` is the longer of the
    /// two they change places.
    pub fn randomized(min: Duration, max: Duration) -> (range: Self)
        ensures
            range@ == DurationRange::spanning(min@, max@),
            range@.min <= range@.max,
    {
        if min.as_nanos() > max.as_nanos() {
            Self { min: max, max: min }
        } else {
            Self { min, max }
        }
    }

    /// The shortest decay time.
    pub fn min(&self) -> (min: Duration)
        ensures
            min@ == self@.min,
    {
        self.min
    }

    /// The longest decay time.
    pub fn max(&self) -> (max: Duration)
        ensures
            max@ == self@.max,
    {
        self.max
    }

    /// Whether the range allows no decay time but the empty one.
    pub fn is_zero(&self) -> (zero: bool)
        ensures
            zero == self@.is_zero(),
    {
        self.min.is_zero() && self.max.is_zero()
    }

    /// The decay time for a draw that gave `millis` milliseconds. A fixed
    /// range gives its one bound and does not look at `millis`.
    pub fn resolve_with(&self, millis: u128) -> (duration: Duration)
        requires
            !self@.is_fixed() ==> self@.admits(millis as nat),
        ensures
            duration@ == self@.resolved(millis as nat),
    {
        proof {
            use_type_invariant(self);
        }
        if self.min.as_nanos() == self.max.as_nanos() {
            self.min
        } else {
            Duration::from_nanos(millis * NANOS_PER_MILLI)
        }
    }

    /// Picks one decay time from the range: the one bound of a fixed range,
    /// and else a whole number of milliseconds, drawn at random, between the
    /// two bounds rounded down to milliseconds.
    pub fn resolve(&self) -> (duration: Duration)
        ensures
            self@.may_resolve_to(duration@),
            self@.is_fixed() ==> duration@ == self@.min,
            self@.min_millis() * NANOS_PER_MILLI <= duration@ <= self@.max,
    {
        proof {
            use_type_invariant(self);
        }
        if self.min.as_nanos() == self.max.as_nanos() {
            self.min
        } else {
            let millis: u128 = sample_inclusive(self.min.as_millis(), self.max.as_millis());
            self.resolve_with(millis)
        }
    }
}

impl Default for DecayDuration {
    /// The range that holds the empty span alone.
    fn default() -> (range: Self)
        ensures
            range@ == (DurationRange { min: 0, max: 0 }),
    {
        DecayDuration::new(Duration::zero())
    }
}

/// Whichever way round the two bounds are given, the range that spans them
/// is in order and its bounds are the two that were given.
pub proof fn lemma_spanning_keeps_both(a: nat, b: nat)
    ensures
        DurationRange::spanning(a, b).min <= DurationRange::spanning(a, b).max,
        set![DurationRange::spanning(a, b).min, DurationRange::spanning(a, b).max] == set![a, b],
{
    let r = DurationRange::spanning(a, b);
    assert(set![r.min, r.max] =~= set![a, b]);
}

/// A range whose lower bound is a whole number of milliseconds resolves to
/// nothing outside its bounds.
pub proof fn lemma_resolved_within_bounds(range: DurationRange, nanos: nat)
    requires
        range.min < range.max,
        range.min % NANOS_PER_MILLI as nat == 0,
        range.may_resolve_to(nanos),
    ensures
        range.min <= nanos <= range.max,
{
}

} // verus!
