//! An event-counting engine for input-device protocol streams.
//!
//! The library converts observed key, button, scroll and touch events into
//! four deduplicated, debounced, unit-normalized action counters, and
//! produces the end-of-run summary. Protocol transport, process spawning
//! and signal handling are left to the surrounding process layer, which
//! feeds plain values into [`tracker::ActionTracker`] and reads the
//! [`report::Summary`] back out.

pub mod counters;
pub mod lifecycle;
pub mod press;
pub mod report;
pub mod scroll;
pub mod tracker;
