use wl_actions::counters::{ActionCategory, ActionCounters};
use wl_actions::lifecycle::Lifecycle;
use wl_actions::press::PressedSet;
use wl_actions::report::{actions_per_minute_tenths, summarize};
use wl_actions::tracker::{ActionTracker, PointerAxis, PressState};

#[test]
fn test_action_counters_basic() {
    let mut counters = ActionCounters::new();

    // Initial state
    assert_eq!(counters.key_presses, 0);
    assert_eq!(counters.button_clicks, 0);
    assert_eq!(counters.scroll_steps, 0);
    assert_eq!(counters.touch_taps, 0);
    assert_eq!(counters.total(), 0);

    // Incrementing
    counters.increment(ActionCategory::KeyPress, 5);
    counters.increment(ActionCategory::ButtonClick, 3);
    assert_eq!(counters.key_presses, 5);
    assert_eq!(counters.button_clicks, 3);
    assert_eq!(counters.total(), 8);
}

#[test]
fn test_shared_pressed_keys() {
    // The shared pressed-key set prevents double-counting.
    let mut pressed_keys = PressedSet::new();
    let mut counters = ActionCounters::new();

    // Two handlers process the same key press.
    if pressed_keys.press(42) {
        counters.increment(ActionCategory::KeyPress, 1);
    }
    if pressed_keys.press(42) {
        counters.increment(ActionCategory::KeyPress, 1);
    }

    // Only counted once.
    assert_eq!(counters.key_presses, 1);

    // Release the key, then press again: counted.
    pressed_keys.release(42);
    if pressed_keys.press(42) {
        counters.increment(ActionCategory::KeyPress, 1);
    }

    assert_eq!(counters.key_presses, 2);
}

#[test]
fn test_shared_pressed_buttons() {
    // The shared pressed-button set prevents double-counting clicks.
    let mut pressed_buttons = PressedSet::new();
    let mut counters = ActionCounters::new();

    // Two handlers process the same button press (BTN_LEFT).
    if pressed_buttons.press(272) {
        counters.increment(ActionCategory::ButtonClick, 1);
    }
    if pressed_buttons.press(272) {
        counters.increment(ActionCategory::ButtonClick, 1);
    }

    // Only counted once.
    assert_eq!(counters.button_clicks, 1);

    // Release the button, then press again: counted.
    pressed_buttons.release(272);
    if pressed_buttons.press(272) {
        counters.increment(ActionCategory::ButtonClick, 1);
    }

    assert_eq!(counters.button_clicks, 2);
}

#[test]
fn press_counts_hold_runs_not_deliveries() {
    // Two maximal held runs out of five press deliveries on one key.
    let mut t = ActionTracker::new();
    t.handle_key(30, PressState::Pressed);
    t.handle_key(30, PressState::Pressed); // auto-repeat
    t.handle_key(30, PressState::Pressed); // duplicate handler delivery
    t.handle_key(30, PressState::Released);
    t.handle_key(30, PressState::Released); // duplicate release
    t.handle_key(30, PressState::Pressed);
    assert_eq!(t.counters.key_presses, 2);
}

#[test]
fn release_of_unseen_identifier_is_noop() {
    let mut t = ActionTracker::new();
    t.handle_key(9, PressState::Released);
    t.handle_button(9, PressState::Released);
    assert_eq!(t.counters.key_presses, 0);
    assert_eq!(t.counters.button_clicks, 0);
    assert_eq!(t.counters.scroll_steps, 0);
    assert_eq!(t.counters.touch_taps, 0);
    assert!(!t.pressed_keys.contains(9));
    assert!(!t.pressed_buttons.contains(9));
}

#[test]
fn unrecognized_press_state_is_ignored() {
    let mut t = ActionTracker::new();
    t.handle_key(5, PressState::Other);
    t.handle_button(5, PressState::Other);
    assert_eq!(t.counters.key_presses, 0);
    assert_eq!(t.counters.button_clicks, 0);
    assert!(!t.pressed_keys.contains(5));
}

#[test]
fn high_resolution_units_make_whole_steps() {
    // Five deliveries of 24 units reach 120 on the fifth: one step, and
    // the remainder returns to zero.
    let mut t = ActionTracker::new();
    for _ in 0..4 {
        t.handle_axis_value120(PointerAxis::VerticalScroll, 24);
        assert_eq!(t.counters.scroll_steps, 0);
    }
    t.handle_axis_value120(PointerAxis::VerticalScroll, 24);
    assert_eq!(t.counters.scroll_steps, 1);

    // 96 more units stay below a whole step; the next 24 complete one.
    t.handle_axis_value120(PointerAxis::VerticalScroll, 96);
    assert_eq!(t.counters.scroll_steps, 1);
    t.handle_axis_value120(PointerAxis::VerticalScroll, 24);
    assert_eq!(t.counters.scroll_steps, 2);
}

#[test]
fn high_resolution_axes_are_independent() {
    let mut t = ActionTracker::new();
    t.handle_axis_value120(PointerAxis::VerticalScroll, 60);
    t.handle_axis_value120(PointerAxis::HorizontalScroll, 60);
    assert_eq!(t.counters.scroll_steps, 0);
    t.handle_axis_value120(PointerAxis::VerticalScroll, 60);
    assert_eq!(t.counters.scroll_steps, 1);
    t.handle_axis_value120(PointerAxis::HorizontalScroll, 60);
    assert_eq!(t.counters.scroll_steps, 2);
}

#[test]
fn high_resolution_sign_is_discarded() {
    // -240 units are two whole steps down; magnitude is what counts.
    let mut t = ActionTracker::new();
    t.handle_axis_value120(PointerAxis::VerticalScroll, -240);
    assert_eq!(t.counters.scroll_steps, 2);
    // -100 leaves a negative remainder; -20 more completes a third step.
    t.handle_axis_value120(PointerAxis::VerticalScroll, -100);
    assert_eq!(t.counters.scroll_steps, 2);
    t.handle_axis_value120(PointerAxis::VerticalScroll, -20);
    assert_eq!(t.counters.scroll_steps, 3);
}

#[test]
fn discrete_steps_count_by_magnitude() {
    // Deliveries of -3 and +3 each add three steps; direction discarded.
    let mut t = ActionTracker::new();
    t.handle_axis_discrete(-3);
    assert_eq!(t.counters.scroll_steps, 3);
    t.handle_axis_discrete(3);
    assert_eq!(t.counters.scroll_steps, 6);
    t.handle_axis_discrete(0);
    assert_eq!(t.counters.scroll_steps, 6);
    t.handle_axis_discrete(i32::MIN);
    assert_eq!(t.counters.scroll_steps, 6 + (1u64 << 31));
}

#[test]
fn continuous_deliveries_are_debounced() {
    // Events at 0 ms and 50 ms yield one counted step; 150 ms a second.
    let mut t = ActionTracker::new();
    t.handle_axis(PointerAxis::VerticalScroll, 0);
    assert_eq!(t.counters.scroll_steps, 1);
    t.handle_axis(PointerAxis::VerticalScroll, 50);
    assert_eq!(t.counters.scroll_steps, 1);
    t.handle_axis(PointerAxis::VerticalScroll, 150);
    assert_eq!(t.counters.scroll_steps, 2);
    // Exactly one window after the last accepted delivery counts again.
    t.handle_axis(PointerAxis::HorizontalScroll, 250);
    assert_eq!(t.counters.scroll_steps, 3);
}

#[test]
fn continuous_non_scroll_axis_is_ignored() {
    let mut t = ActionTracker::new();
    t.handle_axis(PointerAxis::Other, 0);
    t.handle_axis(PointerAxis::Other, 500);
    assert_eq!(t.counters.scroll_steps, 0);
    // The debounce clock saw nothing, so the first scroll delivery counts.
    t.handle_axis(PointerAxis::VerticalScroll, 501);
    assert_eq!(t.counters.scroll_steps, 1);
}

#[test]
fn continuous_backwards_timestamp_is_ignored() {
    let mut t = ActionTracker::new();
    t.handle_axis(PointerAxis::VerticalScroll, 1000);
    assert_eq!(t.counters.scroll_steps, 1);
    t.handle_axis(PointerAxis::VerticalScroll, 400);
    assert_eq!(t.counters.scroll_steps, 1);
}

#[test]
fn touch_down_always_counts() {
    let mut t = ActionTracker::new();
    t.handle_touch_down();
    t.handle_touch_down();
    assert_eq!(t.counters.touch_taps, 2);
    assert_eq!(t.counters.total(), 2);
}

#[test]
fn actions_per_minute_rate() {
    // total 60 over 60 s is 60.0 actions per minute.
    assert_eq!(actions_per_minute_tenths(60, 60), 600);
    // Zero elapsed time yields rate zero, not a fault.
    assert_eq!(actions_per_minute_tenths(60, 0), 0);
    assert_eq!(actions_per_minute_tenths(0, 0), 0);
    // 90 actions over 40 s is 135.0 per minute.
    assert_eq!(actions_per_minute_tenths(90, 40), 1350);
    // One decimal digit of the truncated rate: 7 over 120 s is 3.5.
    assert_eq!(actions_per_minute_tenths(7, 120), 35);
    assert_eq!(60.0_f64, actions_per_minute_tenths(60, 60) as f64 / 10.0);
}

#[test]
fn summary_reports_the_snapshot() {
    let mut t = ActionTracker::new();
    t.handle_key(10, PressState::Pressed);
    t.handle_key(11, PressState::Pressed);
    t.handle_button(272, PressState::Pressed);
    t.handle_axis_discrete(2);
    t.handle_touch_down();

    let s = summarize(&t.counters, 125);
    assert_eq!(s.key_presses, 2);
    assert_eq!(s.button_clicks, 1);
    assert_eq!(s.scroll_steps, 2);
    assert_eq!(s.touch_taps, 1);
    // Scroll steps are excluded from the total by policy.
    assert_eq!(s.total, 4);
    assert_eq!(s.elapsed_secs, 125);
    assert_eq!(s.minutes, 2);
    assert_eq!(s.seconds, 5);
    assert_eq!(s.rate_tenths, actions_per_minute_tenths(4, 125));
}

#[test]
fn summary_duration_under_a_minute() {
    let c = ActionCounters::new();
    let s = summarize(&c, 59);
    assert_eq!(s.minutes, 0);
    assert_eq!(s.seconds, 59);
    assert_eq!(s.total, 0);
    assert_eq!(s.rate_tenths, 0);
}

#[test]
fn report_is_claimed_exactly_once() {
    // Whichever context triggers shutdown first wins the single claim.
    let mut lc = Lifecycle::new();
    assert!(lc.is_running());

    // The interrupt path and the normal path race: both clear the flag,
    // only the first claims the report.
    assert!(lc.begin_shutdown());
    assert!(!lc.begin_shutdown());
    assert!(!lc.is_running());
    assert!(lc.claim_report());
    assert!(!lc.claim_report());
    lc.mark_terminated();
    assert!(!lc.is_running());
}

#[test]
fn summary_totals_match_counts_applied_before_shutdown() {
    let mut t = ActionTracker::new();
    let mut lc = Lifecycle::new();
    t.handle_key(1, PressState::Pressed);
    t.handle_button(272, PressState::Pressed);
    t.handle_touch_down();

    lc.begin_shutdown();
    let snapshot = t.counters.snapshot();
    assert!(lc.claim_report());
    let s = summarize(&snapshot, 1);
    assert_eq!(s.total, 3);
    assert_eq!(s.key_presses, 1);
    assert_eq!(s.button_clicks, 1);
    assert_eq!(s.touch_taps, 1);
}
