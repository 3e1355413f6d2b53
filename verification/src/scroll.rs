//! The scroll normalizer: three heterogeneous scroll event shapes are
//! converted into one common "scroll step" unit.
//!
//! - Discrete events carry a signed step count; its absolute value is the
//!   number of steps (direction is discarded, only magnitude is tracked).
//! - High-resolution events carry signed units where 120 units equal one
//!   step; a per-axis accumulator keeps the fractional remainder.
//! - Continuous/legacy events have no natural unit; a 100 ms debounce
//!   window turns each accepted delivery into exactly one step.

use vstd::prelude::*;

verus! {

/// High-resolution scroll units per logical scroll step.
pub const UNITS_PER_STEP: u64 = 120;

/// Minimum spacing, in milliseconds, between two counted continuous
/// scroll deliveries.
pub const DEBOUNCE_WINDOW_MS: u64 = 100;

/// The absolute value of a mathematical integer.
pub open spec fn abs_int(x: int) -> int {
    if x < 0 {
        -x
    } else {
        x
    }
}

/// The number of whole steps in an accumulated unit total, truncated
/// toward zero and with the sign discarded.
pub open spec fn whole_steps(units: int) -> int {
    abs_int(units) / (UNITS_PER_STEP as int)
}

/// The remainder left in the accumulator after the whole steps are taken
/// out: the fractional part of `units`, keeping its sign.
pub open spec fn left_over(units: int) -> int {
    if units < 0 {
        -(abs_int(units) % (UNITS_PER_STEP as int))
    } else {
        abs_int(units) % (UNITS_PER_STEP as int)
    }
}

/// A per-axis accumulator for high-resolution scroll units. Two
/// independent instances exist per pointer: one vertical, one horizontal.
pub struct ScrollAccumulator {
    remainder: i32,
}

impl ScrollAccumulator {
    /// The signed remainder, strictly between -120 and 120.
    pub closed spec fn remainder(self) -> int {
        self.remainder as int
    }

    /// The accumulator's invariant: its magnitude is always strictly less
    /// than one step's worth of units.
    pub open spec fn wf(self) -> bool {
        -120 < self.remainder() < 120
    }

    pub fn new() -> (a: ScrollAccumulator)
        ensures
            a.wf(),
            a.remainder() == 0,
    {
        ScrollAccumulator { remainder: 0 }
    }

    /// Feeds one high-resolution delivery of `units` into the accumulator
    /// and returns how many scroll steps it yields: the whole steps in the
    /// accumulated total, sign discarded. The fractional part stays behind
    /// for the next delivery.
    pub fn accumulate(&mut self, units: i32) -> (steps: u64)
        requires
            old(self).wf(),
        ensures
            final(self).wf(),
            steps == whole_steps(old(self).remainder() + units),
            final(self).remainder() == left_over(old(self).remainder() + units),
            steps == 0 ==> final(self).remainder() == old(self).remainder() + units,
    {
        let total: i64 = self.remainder as i64 + units as i64;
        let negative = total < 0;
        let magnitude: u64 = if negative {
            (-total) as u64
        } else {
            total as u64
        };
        let steps: u64 = magnitude / UNITS_PER_STEP;
        let rest: u64 = magnitude % UNITS_PER_STEP;
        self.remainder = if negative {
            -(rest as i32)
        } else {
            rest as i32
        };
        steps
    }
}

/// The last-accepted timestamp of the continuous/legacy scroll path.
///
/// The clock starts with no accepted delivery, so the first continuous
/// event is always counted. The clock is shared by every pointer handler,
/// so duplicate deliveries of one gesture through several live handler
/// instances fall into one debounce window.
pub struct DebounceClock {
    last_accepted_ms: Option<u64>,
}

impl DebounceClock {
    /// The timestamp of the last accepted delivery, if any was accepted.
    pub closed spec fn last_accepted(self) -> Option<u64> {
        self.last_accepted_ms
    }

    /// Whether a delivery at `now_ms` is accepted: always for the first
    /// delivery, and afterwards only when at least the debounce window has
    /// passed since the last accepted one. A timestamp that runs backwards
    /// (possible across execution contexts) is never accepted.
    pub open spec fn accepts(self, now_ms: u64) -> bool {
        match self.last_accepted() {
            Option::None => true,
            Option::Some(last) => now_ms >= last + DEBOUNCE_WINDOW_MS,
        }
    }

    pub fn new() -> (c: DebounceClock)
        ensures
            c.last_accepted() is None,
    {
        DebounceClock { last_accepted_ms: None }
    }

    /// Observes one continuous delivery at `now_ms`. Returns true exactly
    /// when the delivery is accepted (and then counts as one scroll step);
    /// the timestamp is remembered only for accepted deliveries.
    pub fn observe(&mut self, now_ms: u64) -> (accepted: bool)
        ensures
            accepted == old(self).accepts(now_ms),
            accepted ==> final(self).last_accepted() == Some(now_ms),
            !accepted ==> *final(self) == *old(self),
    {
        let accepted = match self.last_accepted_ms {
            Option::None => true,
            Option::Some(last) => now_ms >= last && now_ms - last >= DEBOUNCE_WINDOW_MS,
        };
        if accepted {
            self.last_accepted_ms = Some(now_ms);
        }
        accepted
    }
}

} // verus!
