//! The end-of-run report: elapsed duration, per-category counts, total and
//! actions-per-minute, computed from a counter snapshot.
//!
//! The rate is carried in tenths of an action per minute, so the caller can
//! render it with one decimal digit without any floating-point arithmetic.

use crate::counters::ActionCounters;
use vstd::prelude::*;

verus! {

/// Actions per minute, in tenths: `total / elapsed * 60`, scaled by ten
/// and truncated. An elapsed time of zero yields zero rather than a fault.
pub open spec fn apm_tenths(total: u64, elapsed_secs: u64) -> int {
    if elapsed_secs == 0 {
        0
    } else {
        (total * 600) / (elapsed_secs as int)
    }
}

/// Computes the actions-per-minute rate for the summary, in tenths.
pub fn actions_per_minute_tenths(total: u64, elapsed_secs: u64) -> (rate: u128)
    ensures
        rate == apm_tenths(total, elapsed_secs),
{
    if elapsed_secs == 0 {
        0
    } else {
        (total as u128) * 600 / (elapsed_secs as u128)
    }
}

/// Everything the final report states, as plain values. The process layer
/// only formats these fields; every number here is fixed by `summarize`.
pub struct Summary {
    pub key_presses: u64,
    pub button_clicks: u64,
    pub scroll_steps: u64,
    pub touch_taps: u64,
    /// Key presses + button clicks + touch taps; scroll steps are reported
    /// separately and excluded by policy.
    pub total: u64,
    pub elapsed_secs: u64,
    /// Whole minutes of the elapsed time; the duration is rendered as
    /// minutes and seconds exactly when this is nonzero.
    pub minutes: u64,
    /// Seconds of the elapsed time left over after the whole minutes.
    pub seconds: u64,
    /// Actions per minute, in tenths.
    pub rate_tenths: u128,
}

impl Summary {
    /// What the summary must say for a given counter snapshot and elapsed
    /// time.
    pub open spec fn matches(self, counters: ActionCounters, elapsed_secs: u64) -> bool {
        &&& self.key_presses == counters.key_presses
        &&& self.button_clicks == counters.button_clicks
        &&& self.scroll_steps == counters.scroll_steps
        &&& self.touch_taps == counters.touch_taps
        &&& self.total == counters.spec_total()
        &&& self.elapsed_secs == elapsed_secs
        &&& self.minutes == elapsed_secs / 60
        &&& self.seconds == elapsed_secs % 60
        &&& self.rate_tenths == apm_tenths((counters.spec_total()) as u64, elapsed_secs)
    }
}

/// Builds the end-of-run summary from a counter snapshot and the elapsed
/// time in seconds. The snapshot is authoritative: it is to be read after
/// the running flag has been cleared, when no further increments arrive.
pub fn summarize(counters: &ActionCounters, elapsed_secs: u64) -> (s: Summary)
    requires
        counters.spec_total() <= u64::MAX,
    ensures
        s.matches(*counters, elapsed_secs),
{
    let total = counters.total();
    Summary {
        key_presses: counters.key_presses,
        button_clicks: counters.button_clicks,
        scroll_steps: counters.scroll_steps,
        touch_taps: counters.touch_taps,
        total,
        elapsed_secs,
        minutes: elapsed_secs / 60,
        seconds: elapsed_secs % 60,
        rate_tenths: actions_per_minute_tenths(total, elapsed_secs),
    }
}

} // verus!
