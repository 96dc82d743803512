//! A span of time with nanosecond resolution.

use vstd::prelude::*;

verus! {

/// Nanoseconds in one second.
pub const NANOS_PER_SEC: u128 = 1_000_000_000;

/// Nanoseconds in one millisecond.
pub const NANOS_PER_MILLI: u128 = 1_000_000;

/// The longest span a [`Duration`] holds: `u64::MAX` seconds and
/// 999,999,999 nanoseconds.
pub const MAX_NANOS: u128 = 18_446_744_073_709_551_615_999_999_999;

/// A non-negative span of time, counted in whole nanoseconds and never longer
/// than [`MAX_NANOS`].
///
/// The view of a `Duration` is its length in nanoseconds.
#[derive(Clone, Copy, Debug, PartialEq, Eq, Structural, PartialOrd, Ord, Hash)]
pub struct Duration {
    nanos: u128,
}

impl View for Duration {
    type V = nat;

    closed spec fn view(&self) -> nat {
        self.nanos as nat
    }
}

impl Duration {
    /// Every `Duration` fits the range of seconds and nanoseconds that
    /// `new` accepts.
    #[verifier::type_invariant]
    pub open spec fn wf(self) -> bool {
        self@ <= MAX_NANOS
    }

    /// The empty span.
    pub fn zero() -> (d: Duration)
        ensures
            d@ == 0,
    {
        Duration { nanos: 0 }
    }

    /// The span of `nanos` nanoseconds, cut off at [`MAX_NANOS`].
    pub fn from_nanos(nanos: u128) -> (d: Duration)
        ensures
            d@ == if nanos <= MAX_NANOS { nanos } else { MAX_NANOS },
    {
        if nanos <= MAX_NANOS {
            Duration { nanos }
        } else {
            Duration { nanos: MAX_NANOS }
        }
    }

    /// The span of `secs` seconds and `nanos` further nanoseconds, cut off at
    /// [`MAX_NANOS`]. `nanos` may exceed one second.
    pub fn new(secs: u64, nanos: u32) -> (d: Duration)
        ensures
            d@ == if secs * NANOS_PER_SEC + nanos <= MAX_NANOS {
                secs * NANOS_PER_SEC + nanos
            } else {
                MAX_NANOS as int
            },
    {
        let whole: u128 = secs as u128 * NANOS_PER_SEC;
        Duration::from_nanos(whole + nanos as u128)
    }

    /// The span of `secs` whole seconds.
    pub fn from_secs(secs: u64) -> (d: Duration)
        ensures
            d@ == secs * NANOS_PER_SEC,
    {
        Duration { nanos: secs as u128 * NANOS_PER_SEC }
    }

    /// The span of `millis` whole milliseconds.
    pub fn from_millis(millis: u64) -> (d: Duration)
        ensures
            d@ == millis * NANOS_PER_MILLI,
    {
        Duration { nanos: millis as u128 * NANOS_PER_MILLI }
    }

    /// The length in nanoseconds.
    pub fn as_nanos(&self) -> (nanos: u128)
        ensures
            nanos == self@,
            nanos <= MAX_NANOS,
    {
        proof {
            use_type_invariant(self);
        }
        self.nanos
    }

    /// The length in whole milliseconds, rounded down.
    pub fn as_millis(&self) -> (millis: u128)
        ensures
            millis == self@ / NANOS_PER_MILLI as nat,
    {
        self.nanos / NANOS_PER_MILLI
    }

    /// The length in whole seconds, rounded down.
    pub fn as_secs(&self) -> (secs: u64)
        ensures
            secs == self@ / NANOS_PER_SEC as nat,
    {
        proof {
            use_type_invariant(self);
        }
        (self.nanos / NANOS_PER_SEC) as u64
    }

    /// The part of the length below one second, in nanoseconds.
    pub fn subsec_nanos(&self) -> (nanos: u32)
        ensures
            nanos == self@ % NANOS_PER_SEC as nat,
            nanos < NANOS_PER_SEC,
    {
        (self.nanos % NANOS_PER_SEC) as u32
    }

    /// Whether the span is empty.
    pub fn is_zero(&self) -> (zero: bool)
        ensures
            zero <==> self@ == 0,
    {
        self.nanos == 0
    }

    /// The sum of the two spans, cut off at [`MAX_NANOS`].
    pub fn saturating_add(self, rhs: Duration) -> (sum: Duration)
        ensures
            sum@ == if self@ + rhs@ <= MAX_NANOS { self@ + rhs@ } else { MAX_NANOS as nat },
    {
        proof {
            use_type_invariant(self);
            use_type_invariant(rhs);
        }
        Duration::from_nanos(self.nanos + rhs.nanos)
    }

    /// What is left of this span after `rhs` is taken away, and the empty
    /// span where `rhs` is the longer one.
    pub fn saturating_sub(self, rhs: Duration) -> (rest: Duration)
        ensures
            rest@ == if rhs@ <= self@ { self@ - rhs@ } else { 0 },
    {
        proof {
            use_type_invariant(self);
        }
        if rhs.nanos <= self.nanos {
            Duration { nanos: self.nanos - rhs.nanos }
        } else {
            Duration { nanos: 0 }
        }
    }
}

} // verus!
