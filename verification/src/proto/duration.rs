//! Spans of time.

use vstd::prelude::*;

verus! {

/// A span of time, counted in whole nanoseconds.
#[derive(Clone, Copy, Debug, PartialEq, Eq, Structural, PartialOrd, Ord, Hash)]
pub struct Duration {
    pub nanos: u128,
}

impl Duration {
    pub const NANOS_PER_MICRO: u128 = 1_000;

    pub const NANOS_PER_MILLI: u128 = 1_000_000;

    pub const NANOS_PER_SEC: u128 = 1_000_000_000;

    /// Nanoseconds of the longest span that clocks and timers can hold:
    /// `u64::MAX` seconds and 999_999_999 nanoseconds.
    pub const MAX_NANOS: u128 = 18_446_744_073_709_551_615_999_999_999;

    pub fn from_nanos(nanos: u128) -> (r: Self)
        ensures
            r.nanos == nanos,
    {
        Duration { nanos }
    }

    pub fn from_micros(micros: u64) -> (r: Self)
        ensures
            r.nanos == micros * Self::NANOS_PER_MICRO,
    {
        Duration { nanos: micros as u128 * Self::NANOS_PER_MICRO }
    }

    pub fn from_millis(millis: u64) -> (r: Self)
        ensures
            r.nanos == millis * Self::NANOS_PER_MILLI,
    {
        Duration { nanos: millis as u128 * Self::NANOS_PER_MILLI }
    }

    pub fn from_secs(secs: u64) -> (r: Self)
        ensures
            r.nanos == secs * Self::NANOS_PER_SEC,
    {
        Duration { nanos: secs as u128 * Self::NANOS_PER_SEC }
    }

    /// Whole microseconds of the span; a remainder is dropped.
    pub fn as_micros(&self) -> (r: u128)
        ensures
            r == self.nanos / Self::NANOS_PER_MICRO,
    {
        self.nanos / Self::NANOS_PER_MICRO
    }

    /// Whole milliseconds of the span; a remainder is dropped.
    pub fn as_millis(&self) -> (r: u128)
        ensures
            r == self.nanos / Self::NANOS_PER_MILLI,
    {
        self.nanos / Self::NANOS_PER_MILLI
    }

    /// The span `factor` times over, or `None` when no timer could hold it.
    pub fn checked_mul(self, factor: u32) -> (r: Option<Self>)
        ensures
            r == (if self.nanos * factor <= Self::MAX_NANOS {
                Some(Duration { nanos: (self.nanos * factor) as u128 })
            } else {
                None::<Duration>
            }),
    {
        match self.nanos.checked_mul(factor as u128) {
            Some(nanos) => if nanos <= Self::MAX_NANOS {
                Some(Duration { nanos })
            } else {
                None
            },
            None => None,
        }
    }
}

impl Default for Duration {
    fn default() -> (r: Self)
        ensures
            r.nanos == 0,
    {
        Duration { nanos: 0 }
    }
}

} // verus!
