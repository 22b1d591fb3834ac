//! Repeat-mode evaluator: which days a cadence fires on, and whether two
//! cadences can ever select the same day.

use vstd::prelude::*;
use crate::days::DaySet;
use crate::days::lemma_intersects_symmetric;
use crate::days::spec_has_weekend_day;
use crate::days::spec_has_workday;
use crate::days::spec_intersects;
use crate::model::RepeatMode;

verus! {

/// Whether a cadence includes the given weekday (0 = Sunday through
/// 6 = Saturday). `Once` counts as always eligible here; the scheduler
/// separately suppresses it as soon as any history row exists for the task.
/// A custom cadence without a day set never fires.
pub open spec fn spec_should_fire_today(
    mode: RepeatMode,
    custom_days: Option<DaySet>,
    weekday: i64,
) -> bool {
    match mode {
        RepeatMode::Daily => true,
        RepeatMode::Weekday => 1 <= weekday <= 5,
        RepeatMode::Weekend => weekday == 0 || weekday == 6,
        RepeatMode::Custom => custom_days matches Some(ds) && ds@.contains(weekday),
        RepeatMode::Once => true,
    }
}

/// Answers "does this cadence include day-of-week `weekday`?".
pub fn should_fire_today(mode: RepeatMode, custom_days: &Option<DaySet>, weekday: i64) -> (r: bool)
    ensures
        r == spec_should_fire_today(mode, *custom_days, weekday),
{
    match mode {
        RepeatMode::Daily => true,
        RepeatMode::Weekday => 1 <= weekday && weekday <= 5,
        RepeatMode::Weekend => weekday == 0 || weekday == 6,
        RepeatMode::Custom => {
            match custom_days {
                Some(ds) => ds.contains_day(weekday),
                None => false,
            }
        },
        RepeatMode::Once => true,
    }
}

/// Whether two cadences can ever coincide on a day, for conflict detection.
/// `Once` collides with anything (the time overlap then decides), as does
/// `Daily`; `Weekday` and `Weekend` never collide with each other; a custom
/// cadence collides with what its day set reaches. An absent day set reaches
/// nothing.
pub open spec fn spec_cadences_may_collide(
    mode1: RepeatMode,
    days1: Option<DaySet>,
    mode2: RepeatMode,
    days2: Option<DaySet>,
) -> bool {
    if mode1 is Once || mode2 is Once {
        true
    } else if mode1 is Daily || mode2 is Daily {
        true
    } else {
        match (mode1, mode2) {
            (RepeatMode::Weekday, RepeatMode::Weekday) => true,
            (RepeatMode::Weekday, RepeatMode::Custom) => days2 matches Some(ds)
                && spec_has_workday(ds@),
            (RepeatMode::Custom, RepeatMode::Weekday) => days1 matches Some(ds)
                && spec_has_workday(ds@),
            (RepeatMode::Weekend, RepeatMode::Weekend) => true,
            (RepeatMode::Weekend, RepeatMode::Custom) => days2 matches Some(ds)
                && spec_has_weekend_day(ds@),
            (RepeatMode::Custom, RepeatMode::Weekend) => days1 matches Some(ds)
                && spec_has_weekend_day(ds@),
            (RepeatMode::Custom, RepeatMode::Custom) => days1 matches Some(a) && days2 matches Some(
                b,
            ) && spec_intersects(a@, b@),
            _ => false,
        }
    }
}

/// Answers "can these two cadences ever select the same day?".
pub fn cadences_may_collide(
    mode1: RepeatMode,
    days1: &Option<DaySet>,
    mode2: RepeatMode,
    days2: &Option<DaySet>,
) -> (r: bool)
    ensures
        r == spec_cadences_may_collide(mode1, *days1, mode2, *days2),
{
    if matches!(mode1, RepeatMode::Once) || matches!(mode2, RepeatMode::Once) {
        return true;
    }
    if matches!(mode1, RepeatMode::Daily) || matches!(mode2, RepeatMode::Daily) {
        return true;
    }
    match (mode1, mode2) {
        (RepeatMode::Weekday, RepeatMode::Weekday) => true,
        (RepeatMode::Weekday, RepeatMode::Custom) => {
            match days2 {
                Some(ds) => ds.has_workday(),
                None => false,
            }
        },
        (RepeatMode::Custom, RepeatMode::Weekday) => {
            match days1 {
                Some(ds) => ds.has_workday(),
                None => false,
            }
        },
        (RepeatMode::Weekend, RepeatMode::Weekend) => true,
        (RepeatMode::Weekend, RepeatMode::Custom) => {
            match days2 {
                Some(ds) => ds.has_weekend_day(),
                None => false,
            }
        },
        (RepeatMode::Custom, RepeatMode::Weekend) => {
            match days1 {
                Some(ds) => ds.has_weekend_day(),
                None => false,
            }
        },
        (RepeatMode::Custom, RepeatMode::Custom) => {
            match (days1, days2) {
                (Some(a), Some(b)) => a.intersects(b),
                _ => false,
            }
        },
        _ => false,
    }
}

/// The collision rule misses no coincidence: whenever the two cadences both
/// include one and the same real weekday, they are reported as possibly
/// colliding. (The converse does not hold — `Once` is deliberately treated
/// as colliding with everything, leaving the time overlap to decide.)
pub proof fn lemma_collision_covers_coincidence(
    mode1: RepeatMode,
    days1: Option<DaySet>,
    mode2: RepeatMode,
    days2: Option<DaySet>,
    weekday: i64,
)
    requires
        0 <= weekday <= 6,
        spec_should_fire_today(mode1, days1, weekday),
        spec_should_fire_today(mode2, days2, weekday),
    ensures
        spec_cadences_may_collide(mode1, days1, mode2, days2),
{
    if mode1 is Custom && mode2 is Custom {
        let a = days1->0;
        let b = days2->0;
        assert(a@.contains(weekday) && b@.contains(weekday));
        assert(spec_intersects(a@, b@));
    }
}

/// Cadence collision is a symmetric relation: swapping the two cadences
/// never changes the answer.
pub proof fn lemma_collision_symmetric(
    mode1: RepeatMode,
    days1: Option<DaySet>,
    mode2: RepeatMode,
    days2: Option<DaySet>,
)
    ensures
        spec_cadences_may_collide(mode1, days1, mode2, days2) == spec_cadences_may_collide(
            mode2,
            days2,
            mode1,
            days1,
        ),
{
    if mode1 is Custom && mode2 is Custom && days1 is Some && days2 is Some {
        lemma_intersects_symmetric(days1->0@, days2->0@);
    }
}

} // verus!
