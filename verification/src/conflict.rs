//! Task-conflict detection.
//!
//! A candidate schedule conflicts with an existing enabled task when their
//! cadences can coincide on a day and their playback intervals overlap.
//! An interval starts at the scheduled minute-of-day and runs for the task's
//! effective duration: the explicit override when present, else the summed
//! playlist length rounded up to whole minutes. Intervals past midnight are
//! deliberately not wrapped, so a run crossing midnight is not tested
//! against early-morning tasks — a documented limitation kept because the
//! override may legitimately describe a multi-hour ambient session.

use vstd::prelude::*;
use crate::days::DaySet;
use crate::evaluator::cadences_may_collide;
use crate::evaluator::lemma_collision_symmetric;
use crate::evaluator::spec_cadences_may_collide;
use crate::model::PlaylistItem;
use crate::model::RepeatMode;
use crate::model::ScheduledTask;
use crate::model::TaskConflict;
use crate::time::minutes_of_day;
use crate::time::spec_minutes_of_day;

verus! {

/// Whole seconds rounded up to whole minutes.
pub open spec fn spec_minutes_ceil(total_seconds: int) -> int {
    (total_seconds + 59) / 60
}

/// Converts a playlist's summed seconds to its minute estimate, rounding up.
pub fn minutes_ceil(total_seconds: i64) -> (r: i64)
    requires
        0 <= total_seconds <= i64::MAX - 59,
    ensures
        r == spec_minutes_ceil(total_seconds as int),
        0 <= r,
{
    (total_seconds + 59) / 60
}

/// The summed duration, in seconds, of a playlist's entries.
pub open spec fn spec_total_seconds(items: Seq<PlaylistItem>) -> int
    decreases items.len(),
{
    if items.len() == 0 {
        0
    } else {
        spec_total_seconds(items.drop_last()) + items.last().duration
    }
}

/// With no negative durations, every prefix sum is itself non-negative.
proof fn lemma_total_seconds_nonneg(items: Seq<PlaylistItem>, k: int)
    requires
        0 <= k <= items.len(),
        forall|i: int| 0 <= i < items.len() ==> 0 <= (#[trigger] items[i]).duration,
    ensures
        0 <= spec_total_seconds(items.take(k)),
    decreases k,
{
    if k > 0 {
        lemma_total_seconds_nonneg(items, k - 1);
        assert(items.take(k).drop_last() =~= items.take(k - 1));
        assert(items.take(k).last() == items[k - 1]);
    }
}

/// With no negative durations, a prefix never sums to more than the whole.
proof fn lemma_total_seconds_prefix(items: Seq<PlaylistItem>, k: int)
    requires
        0 <= k <= items.len(),
        forall|i: int| 0 <= i < items.len() ==> 0 <= (#[trigger] items[i]).duration,
    ensures
        spec_total_seconds(items.take(k)) <= spec_total_seconds(items),
    decreases items.len() - k,
{
    if k == items.len() {
        assert(items.take(k) =~= items);
    } else {
        lemma_total_seconds_prefix(items, k + 1);
        assert(items.take(k + 1).drop_last() =~= items.take(k));
        assert(items.take(k + 1).last() == items[k]);
    }
}

/// Sums the durations of a playlist's entries.
pub fn playlist_total_seconds(items: &Vec<PlaylistItem>) -> (r: i64)
    requires
        forall|i: int| 0 <= i < items@.len() ==> 0 <= (#[trigger] items@[i]).duration,
        spec_total_seconds(items@) <= i64::MAX,
    ensures
        r == spec_total_seconds(items@),
        0 <= r,
{
    let mut sum: i64 = 0;
    let mut i: usize = 0;
    while i < items.len()
        invariant
            0 <= i <= items@.len(),
            forall|j: int| 0 <= j < items@.len() ==> 0 <= (#[trigger] items@[j]).duration,
            spec_total_seconds(items@) <= i64::MAX,
            sum == spec_total_seconds(items@.take(i as int)),
            0 <= sum,
        decreases items@.len() - i,
    {
        proof {
            lemma_total_seconds_prefix(items@, i + 1);
            lemma_total_seconds_nonneg(items@, i + 1);
            assert(items@.take(i + 1).drop_last() =~= items@.take(i as int));
            assert(items@.take(i + 1).last() == items@[i as int]);
        }
        sum = sum + items[i].duration;
        i += 1;
    }
    proof {
        assert(items@.take(items@.len() as int) =~= items@);
    }
    sum
}

/// A task's effective duration in minutes: the explicit override when
/// present, else the playlist's summed seconds rounded up.
pub open spec fn spec_effective_duration(duration_minutes: Option<i64>, playlist_seconds: int) -> int {
    match duration_minutes {
        Some(d) => d as int,
        None => spec_minutes_ceil(playlist_seconds),
    }
}

/// Resolves a task's effective duration in minutes.
pub fn effective_duration_minutes(duration_minutes: &Option<i64>, playlist_seconds: i64) -> (r: i64)
    requires
        0 <= playlist_seconds <= i64::MAX - 59,
        (*duration_minutes matches Some(d) ==> 0 <= d),
    ensures
        r == spec_effective_duration(*duration_minutes, playlist_seconds as int),
        0 <= r,
{
    match duration_minutes {
        Some(d) => *d,
        None => minutes_ceil(playlist_seconds),
    }
}

/// Half-open interval overlap: [s1, e1) meets [s2, e2).
pub open spec fn spec_intervals_overlap(s1: int, e1: int, s2: int, e2: int) -> bool {
    s1 < e2 && s2 < e1
}

/// A candidate schedule as the conflict detector sees it: the schedule
/// fields of a (possibly unsaved) task, plus its playlist's summed seconds.
pub struct CandidateSchedule {
    pub hour: i64,
    pub minute: i64,
    pub repeat_mode: RepeatMode,
    pub custom_days: Option<DaySet>,
    pub duration_minutes: Option<i64>,
    /// Summed seconds of the candidate's target playlist.
    pub playlist_seconds: i64,
}

impl CandidateSchedule {
    pub open spec fn wf(&self) -> bool {
        &&& 0 <= self.hour <= 23
        &&& 0 <= self.minute <= 59
        &&& 0 <= self.playlist_seconds <= i64::MAX - 59
        &&& (self.duration_minutes matches Some(d) ==> 0 <= d <= i64::MAX - 1440)
    }

    /// Where the candidate's playback interval starts, in minutes past
    /// midnight.
    pub open spec fn spec_start(&self) -> int {
        spec_minutes_of_day(self.hour as int, self.minute as int)
    }

    /// Where it ends: start plus effective duration (not wrapped at
    /// midnight).
    pub open spec fn spec_end(&self) -> int {
        self.spec_start() + spec_effective_duration(
            self.duration_minutes,
            self.playlist_seconds as int,
        )
    }
}

/// An existing task paired with its playlist's summed seconds, as loaded
/// from the store for conflict checking.
pub struct TaskWithLength {
    pub task: ScheduledTask,
    pub playlist_seconds: i64,
}

impl TaskWithLength {
    pub open spec fn wf(&self) -> bool {
        &&& self.task.wf()
        &&& 0 <= self.playlist_seconds <= i64::MAX - 59
    }

    /// The same schedule seen as a candidate, for the symmetric reading of
    /// conflict detection.
    pub open spec fn spec_as_candidate(&self) -> CandidateSchedule {
        CandidateSchedule {
            hour: self.task.hour,
            minute: self.task.minute,
            repeat_mode: self.task.repeat_mode,
            custom_days: self.task.custom_days,
            duration_minutes: self.task.duration_minutes,
            playlist_seconds: self.playlist_seconds,
        }
    }
}

/// Whether the candidate conflicts with one existing task: colliding
/// cadences and overlapping intervals.
pub open spec fn spec_schedules_conflict(c: CandidateSchedule, e: TaskWithLength) -> bool {
    &&& spec_cadences_may_collide(
        c.repeat_mode,
        c.custom_days,
        e.task.repeat_mode,
        e.task.custom_days,
    )
    &&& spec_intervals_overlap(
        c.spec_start(),
        c.spec_end(),
        e.spec_as_candidate().spec_start(),
        e.spec_as_candidate().spec_end(),
    )
}

/// Whether an existing task is examined at all: it must be enabled and not
/// be the task being edited.
pub open spec fn spec_considered(t: ScheduledTask, excluding: Option<i64>) -> bool {
    &&& t.is_enabled
    &&& !(excluding matches Some(id) && t.id == id)
}

/// The report for one conflicting task.
pub open spec fn spec_conflict_of(t: ScheduledTask) -> TaskConflict {
    TaskConflict { task_id: t.id, task_name: t.name, hour: t.hour, minute: t.minute }
}

/// All conflicts of the candidate against the list, in list order.
pub open spec fn spec_find_conflicts(
    c: CandidateSchedule,
    existing: Seq<TaskWithLength>,
    excluding: Option<i64>,
) -> Seq<TaskConflict>
    decreases existing.len(),
{
    if existing.len() == 0 {
        Seq::<TaskConflict>::empty()
    } else {
        let pre = spec_find_conflicts(c, existing.drop_last(), excluding);
        let e = existing.last();
        if spec_considered(e.task, excluding) && spec_schedules_conflict(c, e) {
            pre.push(spec_conflict_of(e.task))
        } else {
            pre
        }
    }
}

/// Reports every enabled task (other than the one being edited) whose
/// cadence can coincide with the candidate's and whose playback interval
/// overlaps it. Read-only: safe to call on every keystroke of an editing
/// form.
pub fn find_conflicts(
    candidate: &CandidateSchedule,
    existing: &Vec<TaskWithLength>,
    excluding: Option<i64>,
) -> (r: Vec<TaskConflict>)
    requires
        candidate.wf(),
        forall|i: int| 0 <= i < existing@.len() ==> (#[trigger] existing@[i]).wf(),
    ensures
        r@ == spec_find_conflicts(*candidate, existing@, excluding),
{
    let candidate_duration = effective_duration_minutes(
        &candidate.duration_minutes,
        candidate.playlist_seconds,
    );
    let start = minutes_of_day(candidate.hour, candidate.minute);
    let end = start + candidate_duration;
    let mut r: Vec<TaskConflict> = Vec::new();
    let mut i: usize = 0;
    while i < existing.len()
        invariant
            0 <= i <= existing@.len(),
            candidate.wf(),
            forall|j: int| 0 <= j < existing@.len() ==> (#[trigger] existing@[j]).wf(),
            start == candidate.spec_start(),
            end == candidate.spec_end(),
            r@ == spec_find_conflicts(*candidate, existing@.take(i as int), excluding),
        decreases existing@.len() - i,
    {
        let e = &existing[i];
        let mut examine = e.task.is_enabled;
        if examine {
            examine = match excluding {
                Some(id) => e.task.id != id,
                None => true,
            };
        }
        if examine {
            examine = cadences_may_collide(
                candidate.repeat_mode,
                &candidate.custom_days,
                e.task.repeat_mode,
                &e.task.custom_days,
            );
        }
        if examine {
            let e_duration = effective_duration_minutes(
                &e.task.duration_minutes,
                e.playlist_seconds,
            );
            let e_start = minutes_of_day(e.task.hour, e.task.minute);
            let e_end = e_start + e_duration;
            if start < e_end && e_start < end {
                r.push(
                    TaskConflict {
                        task_id: e.task.id,
                        task_name: e.task.name.clone(),
                        hour: e.task.hour,
                        minute: e.task.minute,
                    },
                );
            }
        }
        proof {
            assert(existing@.take(i + 1).drop_last() =~= existing@.take(i as int));
            assert(existing@.take(i + 1).last() == existing@[i as int]);
        }
        i += 1;
    }
    proof {
        assert(existing@.take(existing@.len() as int) =~= existing@);
    }
    r
}

/// Conflict detection is symmetric: seen from either side, two schedules
/// conflict or they do not, together.
pub proof fn lemma_conflict_symmetric(a: TaskWithLength, b: TaskWithLength)
    ensures
        spec_schedules_conflict(a.spec_as_candidate(), b) == spec_schedules_conflict(
            b.spec_as_candidate(),
            a,
        ),
{
    lemma_collision_symmetric(
        a.task.repeat_mode,
        a.task.custom_days,
        b.task.repeat_mode,
        b.task.custom_days,
    );
}

/// The symmetric reading at the query level: checking task A against B
/// reports B exactly when checking B against A reports A, both tasks being
/// enabled and distinct.
pub proof fn lemma_find_conflicts_symmetric(a: TaskWithLength, b: TaskWithLength)
    requires
        a.task.is_enabled,
        b.task.is_enabled,
        a.task.id != b.task.id,
    ensures
        spec_find_conflicts(a.spec_as_candidate(), seq![b], Some(a.task.id)).len() > 0
            <==> spec_find_conflicts(b.spec_as_candidate(), seq![a], Some(b.task.id)).len() > 0,
{
    lemma_conflict_symmetric(a, b);
    assert(spec_find_conflicts(
        a.spec_as_candidate(),
        Seq::<TaskWithLength>::empty(),
        Some(a.task.id),
    ) =~= Seq::<TaskConflict>::empty());
    assert(spec_find_conflicts(
        b.spec_as_candidate(),
        Seq::<TaskWithLength>::empty(),
        Some(b.task.id),
    ) =~= Seq::<TaskConflict>::empty());
    assert(seq![b].drop_last() =~= Seq::<TaskWithLength>::empty());
    assert(seq![a].drop_last() =~= Seq::<TaskWithLength>::empty());
    assert(seq![b].last() == b);
    assert(seq![a].last() == a);
}

} // verus!
