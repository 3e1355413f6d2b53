//! The counter store: four independent, monotonically increasing action
//! counters.
//!
//! Policy on the reported total: `total` sums key presses, button clicks and
//! touch taps. Scroll steps are tracked and reported separately and are not
//! part of the total, because a single wheel gesture produces many steps and
//! would drown out the other categories.

use vstd::prelude::*;

verus! {

/// The four categories of counted input actions.
#[derive(Clone, Copy, PartialEq, Eq, Structural, Debug)]
pub enum ActionCategory {
    KeyPress,
    ButtonClick,
    ScrollStep,
    TouchTap,
}

/// Four independent action counters, one per [`ActionCategory`].
///
/// Counters only ever grow; nothing here resets them.
#[derive(PartialEq, Eq, Structural, Debug)]
pub struct ActionCounters {
    pub key_presses: u64,
    pub button_clicks: u64,
    pub scroll_steps: u64,
    pub touch_taps: u64,
}

impl ActionCounters {
    /// The value of one category's counter.
    pub open spec fn get(self, category: ActionCategory) -> u64 {
        match category {
            ActionCategory::KeyPress => self.key_presses,
            ActionCategory::ButtonClick => self.button_clicks,
            ActionCategory::ScrollStep => self.scroll_steps,
            ActionCategory::TouchTap => self.touch_taps,
        }
    }

    /// The reported total: key presses + button clicks + touch taps.
    /// Scroll steps are excluded by policy (see the module documentation).
    pub open spec fn spec_total(self) -> int {
        self.key_presses + self.button_clicks + self.touch_taps
    }

    pub fn new() -> (c: ActionCounters)
        ensures
            c.key_presses == 0,
            c.button_clicks == 0,
            c.scroll_steps == 0,
            c.touch_taps == 0,
    {
        ActionCounters { key_presses: 0, button_clicks: 0, scroll_steps: 0, touch_taps: 0 }
    }

    /// Adds `n` to one category's counter and leaves the other three alone.
    pub fn increment(&mut self, category: ActionCategory, n: u64)
        requires
            old(self).get(category) + n <= u64::MAX,
        ensures
            final(self).get(category) == old(self).get(category) + n,
            category != ActionCategory::KeyPress
                ==> final(self).key_presses == old(self).key_presses,
            category != ActionCategory::ButtonClick
                ==> final(self).button_clicks == old(self).button_clicks,
            category != ActionCategory::ScrollStep
                ==> final(self).scroll_steps == old(self).scroll_steps,
            category != ActionCategory::TouchTap
                ==> final(self).touch_taps == old(self).touch_taps,
    {
        match category {
            ActionCategory::KeyPress => {
                self.key_presses = self.key_presses + n;
            },
            ActionCategory::ButtonClick => {
                self.button_clicks = self.button_clicks + n;
            },
            ActionCategory::ScrollStep => {
                self.scroll_steps = self.scroll_steps + n;
            },
            ActionCategory::TouchTap => {
                self.touch_taps = self.touch_taps + n;
            },
        }
    }

    /// A point-in-time copy of all four counters, for display or reporting.
    pub fn snapshot(&self) -> (c: ActionCounters)
        ensures
            c == *self,
    {
        ActionCounters {
            key_presses: self.key_presses,
            button_clicks: self.button_clicks,
            scroll_steps: self.scroll_steps,
            touch_taps: self.touch_taps,
        }
    }

    /// Whether the reported total fits in the counter type, so that
    /// `total` may be asked for. Callers outside verified code check this
    /// instead of assuming it.
    pub fn total_fits(&self) -> (r: bool)
        ensures
            r == (self.spec_total() <= u64::MAX),
    {
        if self.key_presses <= u64::MAX - self.button_clicks {
            self.key_presses + self.button_clicks <= u64::MAX - self.touch_taps
        } else {
            false
        }
    }

    /// The reported total. Scroll steps are excluded by policy.
    pub fn total(&self) -> (t: u64)
        requires
            self.spec_total() <= u64::MAX,
        ensures
            t == self.spec_total(),
    {
        self.key_presses + self.button_clicks + self.touch_taps
    }
}

} // verus!
