//! Two-generation counters and the rules that turn them into rates and
//! usage fractions.

use vstd::prelude::*;

verus! {

/// The fixed-point value that stands for a usage fraction of 1.0.
pub const USAGE_SCALE: u64 = 1_000_000;

/// Activity between two readings of a cumulative counter: the difference when
/// the counter grew, zero when it went back (wrap or reset).
pub open spec fn clamped_delta(previous: int, current: int) -> int {
    if current >= previous {
        current - previous
    } else {
        0
    }
}

/// `busy / total` in units of `1 / USAGE_SCALE`, rounded down and kept within
/// `[0, USAGE_SCALE]`; zero when no tick elapsed.
pub open spec fn usage_fraction(busy: int, total: int) -> int {
    if total <= 0 {
        0
    } else if busy >= total {
        USAGE_SCALE as int
    } else if busy <= 0 {
        0
    } else {
        busy * USAGE_SCALE / total
    }
}

/// The two most recent readings of one cumulative counter.
#[derive(Clone, Copy, Debug, PartialEq, Eq, Structural)]
pub struct CounterPair {
    pub previous: u64,
    pub current: u64,
}

impl CounterPair {
    /// A counter seen once: both generations hold the first reading, so its
    /// first rate is zero.
    pub fn first(value: u64) -> (r: CounterPair)
        ensures
            r.previous == value,
            r.current == value,
    {
        CounterPair { previous: value, current: value }
    }

    /// The counter after one more reading.
    pub open spec fn advanced(self, value: u64) -> CounterPair {
        CounterPair { previous: self.current, current: value }
    }

    /// Installs a new reading; the current one becomes the previous one.
    pub fn advance(&mut self, value: u64)
        ensures
            *final(self) == old(self).advanced(value),
    {
        self.previous = self.current;
        self.current = value;
    }

    /// Activity between the two generations, with a counter that went back
    /// counted as no activity.
    pub fn rate(&self) -> (r: u64)
        ensures
            r == clamped_delta(self.previous as int, self.current as int),
            self.current >= self.previous ==> r == self.current - self.previous,
            self.current < self.previous ==> r == 0,
    {
        if self.current >= self.previous {
            self.current - self.previous
        } else {
            0
        }
    }
}

/// Usage fraction of `busy` ticks out of `total`, for totals of a few
/// counters' deltas.
pub(crate) fn usage_of(busy: u128, total: u128) -> (r: u64)
    requires
        total <= 0x4_0000_0000_0000_0000u128,
    ensures
        r == usage_fraction(busy as int, total as int),
        r <= USAGE_SCALE,
{
    if total == 0 {
        0
    } else if busy >= total {
        USAGE_SCALE
    } else if busy == 0 {
        0
    } else {
        proof {
            let (b, t) = (busy as int, total as int);
            assert(b * (USAGE_SCALE as int) <= t * (USAGE_SCALE as int)) by (nonlinear_arith)
                requires b < t;
            assert(b * (USAGE_SCALE as int) / t <= USAGE_SCALE as int) by (nonlinear_arith)
                requires b < t, t > 0;
        }
        let scaled: u128 = busy * (USAGE_SCALE as u128);
        (scaled / total) as u64
    }
}

/// Fraction of `busy_ticks` out of `total_ticks`, in units of
/// `1 / USAGE_SCALE`, kept within `[0, USAGE_SCALE]`; zero when
/// `total_ticks` is zero.
pub fn percentage(busy_ticks: u64, total_ticks: u64) -> (r: u64)
    ensures
        r == usage_fraction(busy_ticks as int, total_ticks as int),
        r <= USAGE_SCALE,
        total_ticks == 0 ==> r == 0,
        total_ticks > 0 && busy_ticks == total_ticks ==> r == USAGE_SCALE,
{
    usage_of(busy_ticks as u128, total_ticks as u128)
}

} // verus!
