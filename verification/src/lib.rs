//! A writing-pace tracker: it watches a text file's word count grow,
//! derives per-poll and cumulative writing statistics, and schedules
//! pomodoro-style breaks at fixed elapsed-time milestones.
//!
//! All durations are held in centiseconds and all rates in hundredths of
//! a word per minute, so every computation is exact integer arithmetic.

pub mod render;
pub mod session;
pub mod words;

use vstd::prelude::*;

verus! {

/// Centiseconds in one minute.
pub const MINUTE_CS: u64 = 6000;

/// Hundredths in one whole word-per-minute.
pub const WPM_SCALE: u64 = 100;

} // verus!
