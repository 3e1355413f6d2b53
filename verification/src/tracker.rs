//! The event-counting engine: one tracker owns the counter store, the two
//! pressed-identifier sets and the scroll normalizer state, and converts
//! each observed event into counter increments.
//!
//! The tracker is purely computational: the process layer decodes protocol
//! events into the plain values taken here, forwards every event unchanged
//! downstream, and supplies timestamps. Handlers across device classes
//! share one tracker.

use crate::counters::{ActionCategory, ActionCounters};
use crate::press::{step_count, PressTransition, PressedSet};
use crate::scroll::{whole_steps, DebounceClock, ScrollAccumulator};
use vstd::prelude::*;

verus! {

/// The state carried by a press or release event. Protocol enumerations
/// are open-ended; an unrecognized state is observed without effect.
#[derive(Clone, Copy, PartialEq, Eq, Structural, Debug)]
pub enum PressState {
    Pressed,
    Released,
    Other,
}

/// The axis named by a pointer axis event. Only the two scroll axes are
/// counted; any other axis is observed without effect.
#[derive(Clone, Copy, PartialEq, Eq, Structural, Debug)]
pub enum PointerAxis {
    VerticalScroll,
    HorizontalScroll,
    Other,
}

/// The whole engine state for one run.
pub struct ActionTracker {
    pub counters: ActionCounters,
    pub pressed_keys: PressedSet,
    pub pressed_buttons: PressedSet,
    pub scroll_vertical: ScrollAccumulator,
    pub scroll_horizontal: ScrollAccumulator,
    pub debounce: DebounceClock,
}

/// The key-dedup state and the key counter are untouched.
pub open spec fn same_keys(pre: ActionTracker, post: ActionTracker) -> bool {
    &&& post.pressed_keys@ == pre.pressed_keys@
    &&& post.counters.key_presses == pre.counters.key_presses
}

/// The button-dedup state and the click counter are untouched.
pub open spec fn same_buttons(pre: ActionTracker, post: ActionTracker) -> bool {
    &&& post.pressed_buttons@ == pre.pressed_buttons@
    &&& post.counters.button_clicks == pre.counters.button_clicks
}

/// The touch counter is untouched.
pub open spec fn same_touch(pre: ActionTracker, post: ActionTracker) -> bool {
    post.counters.touch_taps == pre.counters.touch_taps
}

/// The scroll normalizer state and the scroll counter are untouched.
pub open spec fn same_scroll(pre: ActionTracker, post: ActionTracker) -> bool {
    &&& post.scroll_vertical == pre.scroll_vertical
    &&& post.scroll_horizontal == pre.scroll_horizontal
    &&& post.debounce == pre.debounce
    &&& post.counters.scroll_steps == pre.counters.scroll_steps
}

impl ActionTracker {
    /// Both per-axis accumulators keep their remainder within one step.
    pub open spec fn wf(self) -> bool {
        &&& self.scroll_vertical.wf()
        &&& self.scroll_horizontal.wf()
    }

    /// The accumulator remainder of a scroll axis; an axis that is not
    /// counted carries no accumulator.
    pub open spec fn axis_remainder(self, axis: PointerAxis) -> int {
        match axis {
            PointerAxis::VerticalScroll => self.scroll_vertical.remainder(),
            PointerAxis::HorizontalScroll => self.scroll_horizontal.remainder(),
            PointerAxis::Other => 0,
        }
    }

    pub fn new() -> (t: ActionTracker)
        ensures
            t.wf(),
            t.counters.key_presses == 0,
            t.counters.button_clicks == 0,
            t.counters.scroll_steps == 0,
            t.counters.touch_taps == 0,
            t.pressed_keys@ == Set::<u32>::empty(),
            t.pressed_buttons@ == Set::<u32>::empty(),
            t.scroll_vertical.remainder() == 0,
            t.scroll_horizontal.remainder() == 0,
            t.debounce.last_accepted() is None,
    {
        ActionTracker {
            counters: ActionCounters::new(),
            pressed_keys: PressedSet::new(),
            pressed_buttons: PressedSet::new(),
            scroll_vertical: ScrollAccumulator::new(),
            scroll_horizontal: ScrollAccumulator::new(),
            debounce: DebounceClock::new(),
        }
    }

    /// Observes one keyboard key event. A press counts exactly when the
    /// key was not already held; auto-repeat and duplicate deliveries of a
    /// held key are absorbed. A release never counts, and releasing a key
    /// never seen is a no-op.
    pub fn handle_key(&mut self, key: u32, state: PressState)
        requires
            old(self).wf(),
            old(self).counters.key_presses < u64::MAX,
        ensures
            final(self).wf(),
            same_buttons(*old(self), *final(self)),
            same_touch(*old(self), *final(self)),
            same_scroll(*old(self), *final(self)),
            state is Pressed ==> {
                &&& final(self).pressed_keys@ == old(self).pressed_keys@.insert(key)
                &&& final(self).counters.key_presses == old(self).counters.key_presses
                    + step_count(
                    old(self).pressed_keys@.contains(key),
                    PressTransition::Press,
                )
            },
            state is Released ==> {
                &&& final(self).pressed_keys@ == old(self).pressed_keys@.remove(key)
                &&& final(self).counters.key_presses == old(self).counters.key_presses
            },
            state is Released && !old(self).pressed_keys@.contains(key)
                ==> final(self).pressed_keys@ == old(self).pressed_keys@,
            state is Other ==> same_keys(*old(self), *final(self)),
    {
        match state {
            PressState::Pressed => {
                let counted = self.pressed_keys.press(key);
                if counted {
                    self.counters.increment(ActionCategory::KeyPress, 1);
                }
            },
            PressState::Released => {
                self.pressed_keys.release(key);
            },
            PressState::Other => {},
        }
    }

    /// Observes one pointer button event, with the same dedup rules as
    /// [`Self::handle_key`] but against the shared button set.
    pub fn handle_button(&mut self, button: u32, state: PressState)
        requires
            old(self).wf(),
            old(self).counters.button_clicks < u64::MAX,
        ensures
            final(self).wf(),
            same_keys(*old(self), *final(self)),
            same_touch(*old(self), *final(self)),
            same_scroll(*old(self), *final(self)),
            state is Pressed ==> {
                &&& final(self).pressed_buttons@ == old(self).pressed_buttons@.insert(button)
                &&& final(self).counters.button_clicks == old(self).counters.button_clicks
                    + step_count(
                    old(self).pressed_buttons@.contains(button),
                    PressTransition::Press,
                )
            },
            state is Released ==> {
                &&& final(self).pressed_buttons@ == old(self).pressed_buttons@.remove(button)
                &&& final(self).counters.button_clicks == old(self).counters.button_clicks
            },
            state is Released && !old(self).pressed_buttons@.contains(button)
                ==> final(self).pressed_buttons@ == old(self).pressed_buttons@,
            state is Other ==> same_buttons(*old(self), *final(self)),
    {
        match state {
            PressState::Pressed => {
                let counted = self.pressed_buttons.press(button);
                if counted {
                    self.counters.increment(ActionCategory::ButtonClick, 1);
                }
            },
            PressState::Released => {
                self.pressed_buttons.release(button);
            },
            PressState::Other => {},
        }
    }

    /// Observes one continuous/legacy axis event delivered at `now_ms`.
    /// A delivery on a scroll axis counts as exactly one step when the
    /// debounce clock accepts its timestamp; anything else is observed
    /// without effect. The event itself is forwarded by the caller whether
    /// or not it was counted.
    pub fn handle_axis(&mut self, axis: PointerAxis, now_ms: u64)
        requires
            old(self).wf(),
            old(self).counters.scroll_steps < u64::MAX,
        ensures
            final(self).wf(),
            same_keys(*old(self), *final(self)),
            same_buttons(*old(self), *final(self)),
            same_touch(*old(self), *final(self)),
            final(self).scroll_vertical == old(self).scroll_vertical,
            final(self).scroll_horizontal == old(self).scroll_horizontal,
            axis is Other ==> same_scroll(*old(self), *final(self)),
            !(axis is Other) && old(self).debounce.accepts(now_ms) ==> {
                &&& final(self).counters.scroll_steps == old(self).counters.scroll_steps + 1
                &&& final(self).debounce.last_accepted() == Some(now_ms)
            },
            !(axis is Other) && !old(self).debounce.accepts(now_ms) ==> {
                &&& final(self).counters.scroll_steps == old(self).counters.scroll_steps
                &&& final(self).debounce == old(self).debounce
            },
    {
        match axis {
            PointerAxis::Other => {},
            _ => {
                let accepted = self.debounce.observe(now_ms);
                if accepted {
                    self.counters.increment(ActionCategory::ScrollStep, 1);
                }
            },
        }
    }

    /// Observes one discrete scroll event: the step count's absolute value
    /// goes straight onto the scroll counter; the direction is discarded.
    pub fn handle_axis_discrete(&mut self, discrete: i32)
        requires
            old(self).wf(),
            old(self).counters.scroll_steps + crate::scroll::abs_int(discrete as int) <= u64::MAX,
        ensures
            final(self).wf(),
            same_keys(*old(self), *final(self)),
            same_buttons(*old(self), *final(self)),
            same_touch(*old(self), *final(self)),
            final(self).scroll_vertical == old(self).scroll_vertical,
            final(self).scroll_horizontal == old(self).scroll_horizontal,
            final(self).debounce == old(self).debounce,
            final(self).counters.scroll_steps == old(self).counters.scroll_steps
                + crate::scroll::abs_int(discrete as int),
    {
        let magnitude: u64 = if discrete >= 0 {
            discrete as u64
        } else {
            (-(discrete as i64)) as u64
        };
        self.counters.increment(ActionCategory::ScrollStep, magnitude);
    }

    /// Observes one high-resolution scroll event of `value120` units on
    /// `axis` (120 units make one step). The units go into that axis's
    /// accumulator; every whole step accumulated is counted, sign
    /// discarded, and the fractional remainder stays for the next event.
    pub fn handle_axis_value120(&mut self, axis: PointerAxis, value120: i32)
        requires
            old(self).wf(),
            old(self).counters.scroll_steps + whole_steps(
                old(self).axis_remainder(axis) + value120,
            ) <= u64::MAX,
        ensures
            final(self).wf(),
            same_keys(*old(self), *final(self)),
            same_buttons(*old(self), *final(self)),
            same_touch(*old(self), *final(self)),
            final(self).debounce == old(self).debounce,
            axis is Other ==> same_scroll(*old(self), *final(self)),
            axis is VerticalScroll ==> {
                &&& final(self).scroll_horizontal == old(self).scroll_horizontal
                &&& final(self).scroll_vertical.remainder() == crate::scroll::left_over(
                    old(self).scroll_vertical.remainder() + value120,
                )
                &&& final(self).counters.scroll_steps == old(self).counters.scroll_steps
                    + whole_steps(old(self).scroll_vertical.remainder() + value120)
            },
            axis is HorizontalScroll ==> {
                &&& final(self).scroll_vertical == old(self).scroll_vertical
                &&& final(self).scroll_horizontal.remainder() == crate::scroll::left_over(
                    old(self).scroll_horizontal.remainder() + value120,
                )
                &&& final(self).counters.scroll_steps == old(self).counters.scroll_steps
                    + whole_steps(old(self).scroll_horizontal.remainder() + value120)
            },
    {
        match axis {
            PointerAxis::VerticalScroll => {
                let steps = self.scroll_vertical.accumulate(value120);
                if steps > 0 {
                    self.counters.increment(ActionCategory::ScrollStep, steps);
                }
            },
            PointerAxis::HorizontalScroll => {
                let steps = self.scroll_horizontal.accumulate(value120);
                if steps > 0 {
                    self.counters.increment(ActionCategory::ScrollStep, steps);
                }
            },
            PointerAxis::Other => {},
        }
    }

    /// Observes one touch-down event: every touch down counts as one tap.
    pub fn handle_touch_down(&mut self)
        requires
            old(self).wf(),
            old(self).counters.touch_taps < u64::MAX,
        ensures
            final(self).wf(),
            same_keys(*old(self), *final(self)),
            same_buttons(*old(self), *final(self)),
            same_scroll(*old(self), *final(self)),
            final(self).counters.touch_taps == old(self).counters.touch_taps + 1,
    {
        self.counters.increment(ActionCategory::TouchTap, 1);
    }
}

} // verus!
