//! Wall-clock readings and the poll-tick firing window.
//!
//! Each poll tick captures the local hour, minute, weekday and calendar day.
//! A task's scheduled (hour, minute) matches a tick when it equals the
//! current minute or the immediately preceding one: this one-tick slack
//! compensates for poll-interval jitter, so a task is evaluated at least once
//! within its target minute even when a tick lands late. It relies on the
//! poll interval staying under sixty seconds.

use chrono::Datelike;
use chrono::Timelike;
use vstd::prelude::*;

verus! {

/// One capture of the local wall clock.
#[derive(Clone, Copy, PartialEq, Eq, Structural, Debug)]
pub struct ClockReading {
    /// Hour of day, 0 to 23.
    pub hour: i64,
    /// Minute of hour, 0 to 59.
    pub minute: i64,
    /// Day of week, 0 = Sunday through 6 = Saturday.
    pub weekday: i64,
    /// Calendar day as a day count, identifying "today" for the
    /// executed-today suppression. Consecutive days differ by one.
    pub day: i64,
}

impl ClockReading {
    pub open spec fn wf(&self) -> bool {
        &&& 0 <= self.hour <= 23
        &&& 0 <= self.minute <= 59
        &&& 0 <= self.weekday <= 6
    }
}

/// Relies on `chrono::Local::now` and the `Timelike` / `Datelike` accessors:
/// `hour` is 0 to 23, `minute` 0 to 59, `Weekday::num_days_from_sunday` 0 to
/// 6, and `num_days_from_ce` counts calendar days. The reading is the time
/// now, so nothing beyond these ranges holds of it.
#[verifier::external_body]
pub(crate) fn read_local_clock() -> (r: ClockReading)
    ensures
        r.wf(),
{
    let now = chrono::Local::now();
    ClockReading {
        hour: now.hour() as i64,
        minute: now.minute() as i64,
        weekday: now.weekday().num_days_from_sunday() as i64,
        day: now.date_naive().num_days_from_ce() as i64,
    }
}

/// Minutes since midnight for a wall-clock hour and minute.
pub open spec fn spec_minutes_of_day(hour: int, minute: int) -> int {
    hour * 60 + minute
}

/// Converts an (hour, minute) pair to minutes since midnight.
pub fn minutes_of_day(hour: i64, minute: i64) -> (r: i64)
    requires
        0 <= hour <= 23,
        0 <= minute <= 59,
    ensures
        r == spec_minutes_of_day(hour as int, minute as int),
        0 <= r < 24 * 60,
{
    hour * 60 + minute
}

/// The minute slot immediately before (hour, minute), rolling over minute 0
/// to the previous hour's 59 and hour 0 to 23.
pub open spec fn spec_prev_slot(hour: int, minute: int) -> (int, int) {
    if minute == 0 {
        (if hour == 0 { 23int } else { hour - 1 }, 59int)
    } else {
        (hour, minute - 1)
    }
}

/// Whether a task scheduled at (task_hour, task_minute) falls in the firing
/// window of the tick at (now_hour, now_minute): the current minute or the
/// immediately preceding one.
pub open spec fn spec_window_matches(
    task_hour: int,
    task_minute: int,
    now_hour: int,
    now_minute: int,
) -> bool {
    ||| (task_hour == now_hour && task_minute == now_minute)
    ||| (task_hour, task_minute) == spec_prev_slot(now_hour, now_minute)
}

/// Tests a task's scheduled time against the tick's firing window.
pub fn window_matches(task_hour: i64, task_minute: i64, now_hour: i64, now_minute: i64) -> (r: bool)
    requires
        0 <= now_hour <= 23,
        0 <= now_minute <= 59,
    ensures
        r == spec_window_matches(
            task_hour as int,
            task_minute as int,
            now_hour as int,
            now_minute as int,
        ),
{
    if now_minute == 0 {
        (task_hour == now_hour && task_minute == 0)
            || (task_hour == (if now_hour == 0 { 23 } else { now_hour - 1 }) && task_minute == 59)
    } else {
        (task_hour == now_hour && task_minute == now_minute)
            || (task_hour == now_hour && task_minute == now_minute - 1)
    }
}

} // verus!
