//! The poll-tick firing decision.
//!
//! Each tick captures the wall clock, walks the enabled tasks in evaluation
//! order, and fires every task whose scheduled minute falls in the firing
//! window, whose cadence includes today, and which has not already executed
//! today (for `Once`: has never executed at all). Each firing appends one
//! `Started` history row at the instant the task is judged due, and the row
//! itself is what suppresses any further firing — the idempotency guarantee
//! the lemmas at the bottom state.

use vstd::prelude::*;
use crate::evaluator::should_fire_today;
use crate::evaluator::spec_should_fire_today;
use crate::history::ExecutionHistory;
use crate::history::ExecutionStatus;
use crate::history::HistoryRow;
use crate::history::lemma_count_for_push;
use crate::history::lemma_count_on_day_push;
use crate::history::lemma_no_row_zero_count;
use crate::history::lemma_not_executed_zero_day_count;
use crate::history::spec_count_for;
use crate::history::spec_count_on_day;
use crate::history::spec_executed_on_or_after;
use crate::history::spec_has_row_for;
use crate::model::RepeatMode;
use crate::model::ScheduledTask;
use crate::time::ClockReading;
use crate::time::spec_window_matches;
use crate::time::window_matches;

verus! {

/// What the orchestrator needs of a task the tick judged due.
#[derive(Clone, Copy, PartialEq, Eq, Structural, Debug)]
pub struct FiredTask {
    pub task_id: i64,
    pub playlist_id: i64,
    /// Target volume in percent, 0 to 100.
    pub volume: i64,
    /// Fade-in ramp length in seconds.
    pub fade_in_duration: i64,
}

/// The history row a firing appends.
pub open spec fn spec_started_row(task_id: i64, day: i64) -> HistoryRow {
    HistoryRow { task_id, day, status: ExecutionStatus::Started }
}

/// The hand-off record for a due task.
pub open spec fn spec_fired_of(t: ScheduledTask) -> FiredTask {
    FiredTask {
        task_id: t.id,
        playlist_id: t.playlist_id,
        volume: t.volume,
        fade_in_duration: t.fade_in_duration,
    }
}

/// Whether the task's cadence admits today, with `Once` refined by the
/// history: a one-shot task is eligible only while no row exists for it.
pub open spec fn spec_eligible_today(t: ScheduledTask, weekday: i64, h: Seq<HistoryRow>) -> bool {
    &&& spec_should_fire_today(t.repeat_mode, t.custom_days, weekday)
    &&& (t.repeat_mode is Once ==> !spec_has_row_for(h, t.id))
}

/// Whether the tick at `now` fires the task, judged against the history as
/// it stands when the task is reached.
pub open spec fn spec_task_due(t: ScheduledTask, now: ClockReading, h: Seq<HistoryRow>) -> bool {
    &&& t.is_enabled
    &&& spec_window_matches(t.hour as int, t.minute as int, now.hour as int, now.minute as int)
    &&& spec_eligible_today(t, now.weekday, h)
    &&& !spec_executed_on_or_after(h, t.id, now.day)
}

/// One whole tick over the task list, in list order: the history after all
/// appends, and the due tasks in firing order. Every task's guard sees the
/// rows appended for the tasks before it, so a duplicate entry cannot fire
/// twice within one tick.
pub open spec fn spec_tick(
    tasks: Seq<ScheduledTask>,
    now: ClockReading,
    h: Seq<HistoryRow>,
) -> (Seq<HistoryRow>, Seq<FiredTask>)
    decreases tasks.len(),
{
    if tasks.len() == 0 {
        (h, Seq::<FiredTask>::empty())
    } else {
        let (h1, f1) = spec_tick(tasks.drop_last(), now, h);
        let t = tasks.last();
        if spec_task_due(t, now, h1) {
            (h1.push(spec_started_row(t.id, now.day)), f1.push(spec_fired_of(t)))
        } else {
            (h1, f1)
        }
    }
}

/// Runs one poll tick: walks `tasks` in order, appends a `Started` row for
/// each task judged due, and returns the due tasks in firing order.
pub fn poll_tick(
    tasks: &Vec<ScheduledTask>,
    now: ClockReading,
    history: &mut ExecutionHistory,
) -> (fired: Vec<FiredTask>)
    requires
        now.wf(),
    ensures
        final(history)@ == spec_tick(tasks@, now, old(history)@).0,
        fired@ == spec_tick(tasks@, now, old(history)@).1,
{
    let ghost h0 = history@;
    let mut fired: Vec<FiredTask> = Vec::new();
    let mut i: usize = 0;
    while i < tasks.len()
        invariant
            0 <= i <= tasks@.len(),
            now.wf(),
            old(history)@ == h0,
            history@ == spec_tick(tasks@.take(i as int), now, h0).0,
            fired@ == spec_tick(tasks@.take(i as int), now, h0).1,
        decreases tasks@.len() - i,
    {
        let t = &tasks[i];
        let mut due = t.is_enabled;
        if due {
            due = window_matches(t.hour, t.minute, now.hour, now.minute);
        }
        if due {
            due = should_fire_today(t.repeat_mode, &t.custom_days, now.weekday);
        }
        if due && matches!(t.repeat_mode, RepeatMode::Once) {
            due = !history.has_row_for(t.id);
        }
        if due {
            due = !history.executed_on_or_after(t.id, now.day);
        }
        proof {
            assert(due == spec_task_due(tasks@[i as int], now, history@));
        }
        if due {
            history.record_started(t.id, now.day);
            fired.push(
                FiredTask {
                    task_id: t.id,
                    playlist_id: t.playlist_id,
                    volume: t.volume,
                    fade_in_duration: t.fade_in_duration,
                },
            );
        }
        proof {
            assert(tasks@.take(i + 1).drop_last() =~= tasks@.take(i as int));
            assert(tasks@.take(i + 1).last() == tasks@[i as int]);
        }
        i += 1;
    }
    proof {
        assert(tasks@.take(tasks@.len() as int) =~= tasks@);
    }
    fired
}

/// Runs one poll tick at the wall clock's current reading: captures the
/// local time and hands it to [`poll_tick`]. Returns the reading it used
/// together with the due tasks, so the caller sees which day the appended
/// rows carry.
pub fn poll_tick_now(
    tasks: &Vec<ScheduledTask>,
    history: &mut ExecutionHistory,
) -> (r: (ClockReading, Vec<FiredTask>))
    ensures
        r.0.wf(),
        final(history)@ == spec_tick(tasks@, r.0, old(history)@).0,
        r.1@ == spec_tick(tasks@, r.0, old(history)@).1,
{
    let now = crate::time::read_local_clock();
    let fired = poll_tick(tasks, now, history);
    (now, fired)
}

/// Each hand-off carries exactly one appended row: the history after a tick
/// is the history before it plus one `Started` row per fired task, in
/// firing order, all dated the tick's day.
pub proof fn lemma_tick_appends_one_row_per_firing(
    tasks: Seq<ScheduledTask>,
    now: ClockReading,
    h: Seq<HistoryRow>,
)
    ensures
        spec_tick(tasks, now, h).0 =~= h + spec_tick(tasks, now, h).1.map_values(
            |f: FiredTask| spec_started_row(f.task_id, now.day),
        ),
    decreases tasks.len(),
{
    let (h2, f2) = spec_tick(tasks, now, h);
    let row_of = |f: FiredTask| spec_started_row(f.task_id, now.day);
    if tasks.len() == 0 {
        assert(h2 =~= h + f2.map_values(row_of));
    } else {
        lemma_tick_appends_one_row_per_firing(tasks.drop_last(), now, h);
        let (h1, f1) = spec_tick(tasks.drop_last(), now, h);
        let t = tasks.last();
        if spec_task_due(t, now, h1) {
            assert(f1.push(spec_fired_of(t)).map_values(row_of) =~= f1.map_values(row_of).push(
                spec_started_row(t.id, now.day),
            ));
            assert(h2 =~= h + f2.map_values(row_of));
        }
    }
}

/// A due task's firing is never lost and never doubled within a tick: over
/// a single-task list, the tick appends exactly the one started row and
/// hands the task off exactly when it is due, and touches nothing when it
/// is not.
pub proof fn lemma_tick_fires_due_task(t: ScheduledTask, now: ClockReading, h: Seq<HistoryRow>)
    ensures
        spec_task_due(t, now, h) ==> spec_tick(seq![t], now, h) == (
            h.push(spec_started_row(t.id, now.day)),
            seq![spec_fired_of(t)],
        ),
        !spec_task_due(t, now, h) ==> spec_tick(seq![t], now, h) == (h, Seq::<FiredTask>::empty()),
{
    assert(seq![t].drop_last() =~= Seq::<ScheduledTask>::empty());
    assert(seq![t].last() == t);
    assert(spec_tick(Seq::<ScheduledTask>::empty(), now, h) == (h, Seq::<FiredTask>::empty()));
    if spec_task_due(t, now, h) {
        assert(Seq::<FiredTask>::empty().push(spec_fired_of(t)) =~= seq![spec_fired_of(t)]);
    }
}

/// A one-shot task fires at most once over its whole lifetime: however many
/// ticks run, on whatever days, a task whose id names only `Once` tasks in
/// the list never accumulates more than one history row. Applied tick after
/// tick from the empty log — where every count is zero — this bounds the
/// task's row count at one forever; rewriting a row's status afterwards
/// changes no count (`lemma_counts_ignore_status`).
pub proof fn lemma_once_fires_at_most_once(
    tasks: Seq<ScheduledTask>,
    now: ClockReading,
    h: Seq<HistoryRow>,
    task_id: i64,
)
    requires
        forall|i: int|
            0 <= i < tasks.len() && (#[trigger] tasks[i]).id == task_id ==> tasks[i].repeat_mode
                is Once,
        spec_count_for(h, task_id) <= 1,
    ensures
        spec_count_for(spec_tick(tasks, now, h).0, task_id) <= 1,
    decreases tasks.len(),
{
    if tasks.len() > 0 {
        lemma_once_fires_at_most_once(tasks.drop_last(), now, h, task_id);
        let h1 = spec_tick(tasks.drop_last(), now, h).0;
        let t = tasks.last();
        if spec_task_due(t, now, h1) {
            lemma_count_for_push(h1, spec_started_row(t.id, now.day), task_id);
            if t.id == task_id {
                assert(t == tasks[tasks.len() - 1]);
                assert(t.repeat_mode is Once);
                assert(!spec_has_row_for(h1, task_id));
                lemma_no_row_zero_count(h1, task_id);
            }
        }
    }
}

/// Idempotent firing: one tick never lifts any task's row count for any
/// calendar day above one, so an enabled task whose minute is reached gets
/// exactly one row that day however often the poll runs. Applied tick after
/// tick from the empty log, every (task, day) count stays at most one.
pub proof fn lemma_tick_daily_idempotent(
    tasks: Seq<ScheduledTask>,
    now: ClockReading,
    h: Seq<HistoryRow>,
    task_id: i64,
    day: i64,
)
    requires
        spec_count_on_day(h, task_id, day) <= 1,
    ensures
        spec_count_on_day(spec_tick(tasks, now, h).0, task_id, day) <= 1,
    decreases tasks.len(),
{
    if tasks.len() > 0 {
        lemma_tick_daily_idempotent(tasks.drop_last(), now, h, task_id, day);
        let h1 = spec_tick(tasks.drop_last(), now, h).0;
        let t = tasks.last();
        if spec_task_due(t, now, h1) {
            lemma_count_on_day_push(h1, spec_started_row(t.id, now.day), task_id, day);
            if t.id == task_id && now.day == day {
                assert(!spec_executed_on_or_after(h1, t.id, now.day));
                lemma_not_executed_zero_day_count(h1, task_id, now.day, day);
            }
        }
    }
}

/// The history grown by running a whole sequence of ticks, oldest first:
/// each tick sees some task list and some clock reading and appends what it
/// fires.
pub open spec fn spec_run_schedule(
    ticks: Seq<(Seq<ScheduledTask>, ClockReading)>,
    h: Seq<HistoryRow>,
) -> Seq<HistoryRow>
    decreases ticks.len(),
{
    if ticks.len() == 0 {
        h
    } else {
        spec_tick(ticks.last().0, ticks.last().1, spec_run_schedule(ticks.drop_last(), h)).0
    }
}

/// The lifetime guarantee for one-shot tasks: across any number of poll
/// ticks on any days, starting from the empty log, a task id that only ever
/// names `Once` tasks accumulates at most one history row.
pub proof fn lemma_once_at_most_one_row_ever(
    ticks: Seq<(Seq<ScheduledTask>, ClockReading)>,
    task_id: i64,
)
    requires
        forall|k: int, i: int|
            0 <= k < ticks.len() && 0 <= i < ticks[k].0.len() && (#[trigger] ticks[k].0[i]).id
                == task_id ==> ticks[k].0[i].repeat_mode is Once,
    ensures
        spec_count_for(spec_run_schedule(ticks, Seq::<HistoryRow>::empty()), task_id) <= 1,
    decreases ticks.len(),
{
    if ticks.len() == 0 {
        assert(spec_count_for(Seq::<HistoryRow>::empty(), task_id) == 0);
    } else {
        lemma_once_at_most_one_row_ever(ticks.drop_last(), task_id);
        let h1 = spec_run_schedule(ticks.drop_last(), Seq::<HistoryRow>::empty());
        assert(ticks.last() == ticks[ticks.len() - 1]);
        lemma_once_fires_at_most_once(ticks.last().0, ticks.last().1, h1, task_id);
    }
}

/// The per-day guarantee for every task: across any number of poll ticks,
/// starting from the empty log, no task ever accumulates two history rows
/// dated the same calendar day — however short the poll interval.
pub proof fn lemma_at_most_one_row_per_day_ever(
    ticks: Seq<(Seq<ScheduledTask>, ClockReading)>,
    task_id: i64,
    day: i64,
)
    ensures
        spec_count_on_day(
            spec_run_schedule(ticks, Seq::<HistoryRow>::empty()),
            task_id,
            day,
        ) <= 1,
    decreases ticks.len(),
{
    if ticks.len() == 0 {
        assert(spec_count_on_day(Seq::<HistoryRow>::empty(), task_id, day) == 0);
    } else {
        lemma_at_most_one_row_per_day_ever(ticks.drop_last(), task_id, day);
        let h1 = spec_run_schedule(ticks.drop_last(), Seq::<HistoryRow>::empty());
        lemma_tick_daily_idempotent(ticks.last().0, ticks.last().1, h1, task_id, day);
    }
}

/// The evaluation order of the scheduler: higher priority first, then
/// earlier scheduled time.
pub open spec fn spec_fires_no_later(a: ScheduledTask, b: ScheduledTask) -> bool {
    ||| a.priority > b.priority
    ||| (a.priority == b.priority && a.hour < b.hour)
    ||| (a.priority == b.priority && a.hour == b.hour && a.minute <= b.minute)
}

/// Whether the whole list stands in evaluation order.
pub open spec fn spec_evaluation_ordered(s: Seq<ScheduledTask>) -> bool {
    forall|i: int, j: int| 0 <= i < j < s.len() ==> spec_fires_no_later(s[i], s[j])
}

/// Compares two tasks in evaluation order.
fn fires_no_later(a: &ScheduledTask, b: &ScheduledTask) -> (r: bool)
    ensures
        r == spec_fires_no_later(*a, *b),
{
    a.priority > b.priority || (a.priority == b.priority && (a.hour < b.hour || (a.hour == b.hour
        && a.minute <= b.minute)))
}

/// Sorts the tasks into evaluation order: descending priority, then
/// ascending hour and minute. The result holds exactly the given tasks.
pub fn order_tasks(tasks: Vec<ScheduledTask>) -> (r: Vec<ScheduledTask>)
    ensures
        r@.to_multiset() == tasks@.to_multiset(),
        spec_evaluation_ordered(r@),
{
    broadcast use vstd::seq_lib::group_to_multiset_ensures;

    let ghost orig = tasks@;
    let mut input = tasks;
    let mut out: Vec<ScheduledTask> = Vec::new();
    while input.len() > 0
        invariant
            out@.to_multiset().add(input@.to_multiset()) =~= orig.to_multiset(),
            spec_evaluation_ordered(out@),
            forall|i: int, j: int|
                0 <= i < out@.len() && 0 <= j < input@.len() ==> #[trigger] spec_fires_no_later(
                    out@[i],
                    input@[j],
                ),
        decreases input@.len(),
    {
        let mut m: usize = 0;
        let mut k: usize = 1;
        while k < input.len()
            invariant
                0 <= m < k <= input@.len(),
                forall|j: int|
                    0 <= j < k ==> spec_fires_no_later(input@[m as int], #[trigger] input@[j]),
            decreases input@.len() - k,
        {
            if !fires_no_later(&input[m], &input[k]) {
                proof {
                    assert forall|j: int| 0 <= j <= k implies spec_fires_no_later(
                        input@[k as int],
                        #[trigger] input@[j],
                    ) by {
                        if j < k {
                            assert(spec_fires_no_later(input@[m as int], input@[j]));
                        }
                    }
                }
                m = k;
            }
            k += 1;
        }
        let ghost pre_in = input@;
        let ghost pre_out = out@;
        let t = input.remove(m);
        out.push(t);
        proof {
            broadcast use vstd::seq_lib::group_to_multiset_ensures;

            assert(pre_in[m as int] == t);
            pre_in.remove_ensures(m as int);
            assert(input@ == pre_in.remove(m as int));
            assert forall|j: int| 0 <= j < input@.len() implies spec_fires_no_later(
                t,
                #[trigger] input@[j],
            ) && (exists|l: int| 0 <= l < pre_in.len() && pre_in[l] == input@[j]) by {
                if j < m {
                    assert(input@[j] == pre_in[j]);
                } else {
                    assert(input@[j] == pre_in[j + 1]);
                }
            }
            assert forall|i: int, j: int|
                0 <= i < out@.len() && 0 <= j < input@.len() implies #[trigger] spec_fires_no_later(
                out@[i],
                input@[j],
            ) by {
                let l = choose|l: int| 0 <= l < pre_in.len() && pre_in[l] == input@[j];
                if i < pre_out.len() {
                    assert(out@[i] == pre_out[i]);
                    assert(spec_fires_no_later(pre_out[i], pre_in[l]));
                } else {
                    assert(out@[i] == t);
                }
            }
            assert forall|i: int, j: int| 0 <= i < j < out@.len() implies spec_fires_no_later(
                out@[i],
                out@[j],
            ) by {
                if j < pre_out.len() {
                    assert(spec_fires_no_later(pre_out[i], pre_out[j]));
                } else {
                    assert(out@[j] == t);
                    assert(spec_fires_no_later(pre_out[i], pre_in[m as int]));
                }
            }
            assert(pre_in.contains(t));
            assert(pre_in.to_multiset().count(t) > 0);
            assert(input@.to_multiset() =~= pre_in.to_multiset().remove(t));
            assert(out@ == pre_out.push(t));
            assert(out@.to_multiset() =~= pre_out.to_multiset().insert(t));
            assert(out@.to_multiset().add(input@.to_multiset()) =~= orig.to_multiset());
        }
    }
    proof {
        assert(out@.to_multiset() =~= orig.to_multiset());
    }
    out
}

} // verus!
