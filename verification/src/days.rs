//! Day-of-week sets for custom cadences.
//!
//! The store keeps a custom cadence's days as a JSON list of integers
//! (0 = Sunday through 6 = Saturday). The list is parsed once, when a task is
//! loaded, into a [`DaySet`]; all cadence logic then works on the set.

use vstd::prelude::*;

verus! {

/// A set of day-of-week indices, 0 = Sunday through 6 = Saturday.
/// Out-of-range members are kept but never match a real weekday.
#[derive(Clone, Debug)]
pub struct DaySet {
    pub days: Vec<i64>,
}

impl View for DaySet {
    type V = Seq<i64>;

    open spec fn view(&self) -> Seq<i64> {
        self.days@
    }
}

/// Whether two day lists share a member.
pub open spec fn spec_intersects(a: Seq<i64>, b: Seq<i64>) -> bool {
    exists|d: i64| a.contains(d) && b.contains(d)
}

/// Whether a day list holds a working day (Monday through Friday).
pub open spec fn spec_has_workday(s: Seq<i64>) -> bool {
    exists|d: i64| s.contains(d) && 1 <= d <= 5
}

/// Whether a day list holds a weekend day (Sunday or Saturday).
pub open spec fn spec_has_weekend_day(s: Seq<i64>) -> bool {
    exists|d: i64| s.contains(d) && (d == 0 || d == 6)
}

impl DaySet {
    /// Builds a set from its member list.
    pub fn new(days: Vec<i64>) -> (r: DaySet)
        ensures
            r@ == days@,
    {
        DaySet { days }
    }

    /// Whether `d` is a member.
    pub fn contains_day(&self, d: i64) -> (r: bool)
        ensures
            r == self@.contains(d),
    {
        let mut i: usize = 0;
        while i < self.days.len()
            invariant
                0 <= i <= self.days@.len(),
                forall|j: int| 0 <= j < i ==> self.days@[j] != d,
            decreases self.days@.len() - i,
        {
            if self.days[i] == d {
                assert(self@[i as int] == d);
                return true;
            }
            i += 1;
        }
        false
    }

    /// Whether the two sets share a member.
    pub fn intersects(&self, other: &DaySet) -> (r: bool)
        ensures
            r == spec_intersects(self@, other@),
    {
        let mut i: usize = 0;
        while i < self.days.len()
            invariant
                0 <= i <= self.days@.len(),
                forall|j: int| 0 <= j < i ==> !other@.contains(#[trigger] self.days@[j]),
            decreases self.days@.len() - i,
        {
            if other.contains_day(self.days[i]) {
                assert(self@.contains(self@[i as int]));
                return true;
            }
            i += 1;
        }
        assert(!spec_intersects(self@, other@)) by {
            if spec_intersects(self@, other@) {
                let d = choose|d: i64| self@.contains(d) && other@.contains(d);
                let j = choose|j: int| 0 <= j < self@.len() && self@[j] == d;
                assert(!other@.contains(self.days@[j]));
            }
        }
        false
    }

    /// Whether the set holds a working day (1 through 5).
    pub fn has_workday(&self) -> (r: bool)
        ensures
            r == spec_has_workday(self@),
    {
        let mut i: usize = 0;
        while i < self.days.len()
            invariant
                0 <= i <= self.days@.len(),
                forall|j: int| 0 <= j < i ==> !(1 <= #[trigger] self.days@[j] <= 5),
            decreases self.days@.len() - i,
        {
            let d = self.days[i];
            if 1 <= d && d <= 5 {
                assert(self@.contains(self@[i as int]));
                return true;
            }
            i += 1;
        }
        assert(!spec_has_workday(self@)) by {
            if spec_has_workday(self@) {
                let d = choose|d: i64| self@.contains(d) && 1 <= d <= 5;
                let j = choose|j: int| 0 <= j < self@.len() && self@[j] == d;
                assert(!(1 <= self.days@[j] <= 5));
            }
        }
        false
    }

    /// Whether the set holds a weekend day (0 or 6).
    pub fn has_weekend_day(&self) -> (r: bool)
        ensures
            r == spec_has_weekend_day(self@),
    {
        let mut i: usize = 0;
        while i < self.days.len()
            invariant
                0 <= i <= self.days@.len(),
                forall|j: int| 0 <= j < i ==> !(#[trigger] self.days@[j] == 0 || self.days@[j] == 6),
            decreases self.days@.len() - i,
        {
            let d = self.days[i];
            if d == 0 || d == 6 {
                assert(self@.contains(self@[i as int]));
                return true;
            }
            i += 1;
        }
        assert(!spec_has_weekend_day(self@)) by {
            if spec_has_weekend_day(self@) {
                let d = choose|d: i64| self@.contains(d) && (d == 0 || d == 6);
                let j = choose|j: int| 0 <= j < self@.len() && self@[j] == d;
                assert(!(self.days@[j] == 0 || self.days@[j] == 6));
            }
        }
        false
    }
}

/// Sharing a member does not depend on the order of the two lists.
pub proof fn lemma_intersects_symmetric(a: Seq<i64>, b: Seq<i64>)
    ensures
        spec_intersects(a, b) == spec_intersects(b, a),
{
    if spec_intersects(a, b) {
        let d = choose|d: i64| a.contains(d) && b.contains(d);
        assert(b.contains(d) && a.contains(d));
    }
    if spec_intersects(b, a) {
        let d = choose|d: i64| b.contains(d) && a.contains(d);
        assert(a.contains(d) && b.contains(d));
    }
}

/// What parsing a JSON day-list text yields: `Some` of the listed integers in
/// order when the text is a JSON array of integers that fit `i64`, `None`
/// otherwise. The result depends on the characters alone.
pub uninterp spec fn parsed_day_list(s: Seq<char>) -> Option<Seq<i64>>;

/// Relies on `serde_json::from_str::<Vec<i64>>`: deserializing is a pure
/// function of the input text; an error becomes `None`.
#[verifier::external_body]
fn parse_json_day_list(s: &str) -> (r: Option<Vec<i64>>)
    ensures
        r is Some <==> parsed_day_list(s@) is Some,
        r matches Some(v) ==> v@ == parsed_day_list(s@)->0,
{
    serde_json::from_str::<Vec<i64>>(s).ok()
}

/// Parses the stored text of a custom cadence's days into a [`DaySet`].
/// Returns `None` when the text is absent or not a JSON list of integers.
pub fn parse_custom_days(text: Option<&str>) -> (r: Option<DaySet>)
    ensures
        match text {
            None => r is None,
            Some(t) => {
                &&& r is Some <==> parsed_day_list(t@) is Some
                &&& (r matches Some(ds) ==> ds@ == parsed_day_list(t@)->0)
            },
        },
{
    match text {
        None => None,
        Some(t) => {
            match parse_json_day_list(t) {
                Some(v) => Some(DaySet { days: v }),
                None => None,
            }
        },
    }
}

} // verus!
