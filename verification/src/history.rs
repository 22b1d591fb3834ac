//! In-memory model of the execution-history log.
//!
//! One row is appended at the instant a task is judged due; the row is later
//! updated in place to `Failed` or `Completed`. "Already executed today" is
//! the presence of any row for the task dated on or after today: this is the
//! sole suppression mechanism against duplicate firing, and the store makes
//! it durable across restarts.

use vstd::prelude::*;

verus! {

/// Status of one execution-history row.
#[derive(Clone, Copy, PartialEq, Eq, Structural, Debug)]
pub enum ExecutionStatus {
    /// The task was judged due and playback was handed off.
    Started,
    /// Playback aborted with an error.
    Failed,
    /// The whole playlist run finished.
    Completed,
}

/// One row of the append-only execution log.
#[derive(Clone, Copy, PartialEq, Eq, Structural, Debug)]
pub struct HistoryRow {
    pub task_id: i64,
    /// Calendar day of the firing, as a day count (see `ClockReading::day`).
    pub day: i64,
    pub status: ExecutionStatus,
}

/// The execution log: rows in insertion order.
pub struct ExecutionHistory {
    pub rows: Vec<HistoryRow>,
}

impl View for ExecutionHistory {
    type V = Seq<HistoryRow>;

    open spec fn view(&self) -> Seq<HistoryRow> {
        self.rows@
    }
}

/// Whether any row at all exists for the task.
pub open spec fn spec_has_row_for(h: Seq<HistoryRow>, task_id: i64) -> bool {
    exists|i: int| 0 <= i < h.len() && h[i].task_id == task_id
}

/// Whether a row for the task is dated on or after `day`.
pub open spec fn spec_executed_on_or_after(h: Seq<HistoryRow>, task_id: i64, day: i64) -> bool {
    exists|i: int| 0 <= i < h.len() && h[i].task_id == task_id && h[i].day >= day
}

/// How many rows the log holds for the task, whatever their status.
pub open spec fn spec_count_for(h: Seq<HistoryRow>, task_id: i64) -> nat
    decreases h.len(),
{
    if h.len() == 0 {
        0
    } else {
        spec_count_for(h.drop_last(), task_id) + if h.last().task_id == task_id {
            1nat
        } else {
            0nat
        }
    }
}

/// How many rows the log holds for the task on the given day.
pub open spec fn spec_count_on_day(h: Seq<HistoryRow>, task_id: i64, day: i64) -> nat
    decreases h.len(),
{
    if h.len() == 0 {
        0
    } else {
        spec_count_on_day(h.drop_last(), task_id, day) + if h.last().task_id == task_id
            && h.last().day == day {
            1nat
        } else {
            0nat
        }
    }
}

/// Appending a row raises the task's count by one and leaves every other
/// task's count alone.
pub proof fn lemma_count_for_push(h: Seq<HistoryRow>, r: HistoryRow, task_id: i64)
    ensures
        spec_count_for(h.push(r), task_id) == spec_count_for(h, task_id) + if r.task_id == task_id {
            1nat
        } else {
            0nat
        },
{
    assert(h.push(r).drop_last() =~= h);
}

/// Appending a row raises at most the count of its own (task, day) pair.
pub proof fn lemma_count_on_day_push(h: Seq<HistoryRow>, r: HistoryRow, task_id: i64, day: i64)
    ensures
        spec_count_on_day(h.push(r), task_id, day) == spec_count_on_day(h, task_id, day) + if r.task_id
            == task_id && r.day == day {
            1nat
        } else {
            0nat
        },
{
    assert(h.push(r).drop_last() =~= h);
}

/// A task without any row has count zero.
pub proof fn lemma_no_row_zero_count(h: Seq<HistoryRow>, task_id: i64)
    requires
        !spec_has_row_for(h, task_id),
    ensures
        spec_count_for(h, task_id) == 0,
    decreases h.len(),
{
    if h.len() > 0 {
        assert(h.last() == h[h.len() - 1]);
        assert(h.last().task_id != task_id);
        assert(!spec_has_row_for(h.drop_last(), task_id)) by {
            if spec_has_row_for(h.drop_last(), task_id) {
                let i = choose|i: int|
                    0 <= i < h.drop_last().len() && h.drop_last()[i].task_id == task_id;
                assert(h[i].task_id == task_id);
            }
        }
        lemma_no_row_zero_count(h.drop_last(), task_id);
    }
}

/// A task with no row dated on or after `day` has count zero on every day
/// from `day` on.
pub proof fn lemma_not_executed_zero_day_count(
    h: Seq<HistoryRow>,
    task_id: i64,
    day: i64,
    d: i64,
)
    requires
        !spec_executed_on_or_after(h, task_id, day),
        d >= day,
    ensures
        spec_count_on_day(h, task_id, d) == 0,
    decreases h.len(),
{
    if h.len() > 0 {
        assert(h.last() == h[h.len() - 1]);
        assert(!(h.last().task_id == task_id && h.last().day >= day));
        assert(!spec_executed_on_or_after(h.drop_last(), task_id, day)) by {
            if spec_executed_on_or_after(h.drop_last(), task_id, day) {
                let i = choose|i: int|
                    0 <= i < h.drop_last().len() && h.drop_last()[i].task_id == task_id
                        && h.drop_last()[i].day >= day;
                assert(h[i].task_id == task_id && h[i].day >= day);
            }
        }
        lemma_not_executed_zero_day_count(h.drop_last(), task_id, day, d);
    }
}

/// Rewriting one row's status in place changes no count: counts go by the
/// row's task and day only.
pub proof fn lemma_counts_ignore_status(
    h: Seq<HistoryRow>,
    j: int,
    r: HistoryRow,
    task_id: i64,
    day: i64,
)
    requires
        0 <= j < h.len(),
        r.task_id == h[j].task_id,
        r.day == h[j].day,
    ensures
        spec_count_for(h.update(j, r), task_id) == spec_count_for(h, task_id),
        spec_count_on_day(h.update(j, r), task_id, day) == spec_count_on_day(h, task_id, day),
    decreases h.len(),
{
    let hu = h.update(j, r);
    if j == h.len() - 1 {
        assert(hu.drop_last() =~= h.drop_last());
        assert(hu.last() == r);
    } else {
        assert(hu.drop_last() =~= h.drop_last().update(j, r));
        assert(hu.last() == h.last());
        lemma_counts_ignore_status(h.drop_last(), j, r, task_id, day);
    }
}

/// The latest row index for a task, or -1 when the task has none.
pub open spec fn spec_last_index_for(h: Seq<HistoryRow>, task_id: i64) -> int
    decreases h.len(),
{
    if h.len() == 0 {
        -1
    } else if h.last().task_id == task_id {
        h.len() - 1
    } else {
        spec_last_index_for(h.drop_last(), task_id)
    }
}

/// The latest row index is a valid index of a row for the task, and no row
/// for the task comes after it.
pub proof fn lemma_last_index_properties(h: Seq<HistoryRow>, task_id: i64)
    requires
        spec_has_row_for(h, task_id),
    ensures
        0 <= spec_last_index_for(h, task_id) < h.len(),
        h[spec_last_index_for(h, task_id)].task_id == task_id,
        forall|i: int|
            spec_last_index_for(h, task_id) < i < h.len() ==> h[i].task_id != task_id,
    decreases h.len(),
{
    assert(h.last() == h[h.len() - 1]);
    if h.last().task_id != task_id {
        assert(spec_has_row_for(h.drop_last(), task_id)) by {
            let i = choose|i: int| 0 <= i < h.len() && h[i].task_id == task_id;
            assert(0 <= i < h.len() - 1);
            assert(h.drop_last()[i].task_id == task_id);
        }
        lemma_last_index_properties(h.drop_last(), task_id);
        assert(forall|i: int|
            0 <= i < h.len() - 1 ==> h[i] == h.drop_last()[i]);
    }
}

impl ExecutionHistory {
    /// An empty log.
    pub fn new() -> (r: ExecutionHistory)
        ensures
            r@ =~= Seq::<HistoryRow>::empty(),
    {
        ExecutionHistory { rows: Vec::new() }
    }

    /// Whether any row at all exists for the task.
    pub fn has_row_for(&self, task_id: i64) -> (r: bool)
        ensures
            r == spec_has_row_for(self@, task_id),
    {
        let mut i: usize = 0;
        while i < self.rows.len()
            invariant
                0 <= i <= self.rows@.len(),
                forall|j: int| 0 <= j < i ==> self.rows@[j].task_id != task_id,
            decreases self.rows@.len() - i,
        {
            if self.rows[i].task_id == task_id {
                assert(self@[i as int].task_id == task_id);
                return true;
            }
            i += 1;
        }
        false
    }

    /// Whether a row for the task is dated on or after `day`.
    pub fn executed_on_or_after(&self, task_id: i64, day: i64) -> (r: bool)
        ensures
            r == spec_executed_on_or_after(self@, task_id, day),
    {
        let mut i: usize = 0;
        while i < self.rows.len()
            invariant
                0 <= i <= self.rows@.len(),
                forall|j: int|
                    0 <= j < i ==> !(self.rows@[j].task_id == task_id && self.rows@[j].day
                        >= day),
            decreases self.rows@.len() - i,
        {
            let row = self.rows[i];
            if row.task_id == task_id && row.day >= day {
                assert(self@[i as int].task_id == task_id && self@[i as int].day >= day);
                return true;
            }
            i += 1;
        }
        false
    }

    /// Appends a `Started` row for the task, dated `day`.
    pub fn record_started(&mut self, task_id: i64, day: i64)
        ensures
            final(self)@ == old(self)@.push(
                HistoryRow { task_id, day, status: ExecutionStatus::Started },
            ),
    {
        self.rows.push(HistoryRow { task_id, day, status: ExecutionStatus::Started });
    }

    /// Rewrites the status of the task's latest row, as when a run completes
    /// or fails. A task without rows is left alone.
    pub fn set_latest_status(&mut self, task_id: i64, status: ExecutionStatus)
        ensures
            !spec_has_row_for(old(self)@, task_id) ==> final(self)@ == old(self)@,
            spec_has_row_for(old(self)@, task_id) ==> {
                let j = spec_last_index_for(old(self)@, task_id);
                final(self)@ == old(self)@.update(
                    j,
                    HistoryRow { task_id, day: old(self)@[j].day, status },
                )
            },
    {
        let ghost h0 = self@;
        let mut i: usize = self.rows.len();
        while i > 0
            invariant
                0 <= i <= self.rows@.len(),
                self@ == h0,
                old(self)@ == h0,
                forall|j: int| i <= j < self.rows@.len() ==> self.rows@[j].task_id != task_id,
            decreases i,
        {
            i -= 1;
            if self.rows[i].task_id == task_id {
                let day = self.rows[i].day;
                self.rows[i] = HistoryRow { task_id, day, status };
                proof {
                    assert(spec_has_row_for(h0, task_id)) by {
                        assert(h0[i as int].task_id == task_id);
                    }
                    lemma_last_index_properties(h0, task_id);
                    let j = spec_last_index_for(h0, task_id);
                    assert(j == i as int) by {
                        if j < i as int {
                            assert(h0[i as int].task_id != task_id);
                        }
                        if j > i as int {
                            assert(h0[j].task_id != task_id);
                        }
                    }
                    assert(h0[j].day == day);
                    assert(self@ == h0.update(j, HistoryRow { task_id, day, status }));
                }
                return ;
            }
        }
        proof {
            if spec_has_row_for(h0, task_id) {
                let j = choose|j: int| 0 <= j < h0.len() && h0[j].task_id == task_id;
                assert(h0[j].task_id != task_id);
            }
        }
    }
}

} // verus!
