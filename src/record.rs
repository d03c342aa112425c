//! The saved form of a week: the tasks of each day under the day's name, the
//! order of the days, the active day, the input mode and the draft. Selections
//! are not saved. Restoring checks that every field a week needs is there and
//! drops pending tasks without text.
use crate::list::{StatefulList, StatefulListDone};
use crate::model::{all_nonempty, distinct_texts, texts, App, DayBucket, InputMode, TodoError, DAY_COUNT};
use vstd::prelude::*;

verus! {

/// The saved tasks of one day.
pub struct DayRecord {
    pub name: String,
    pub pending: Vec<String>,
    pub done: Vec<String>,
}

/// A saved week. `days` may list the days in any order; each name in
/// `titles` is looked up among them.
pub struct WeekRecord {
    pub days: Vec<DayRecord>,
    pub titles: Vec<String>,
    pub index: usize,
    pub input_mode: InputMode,
    pub input: String,
}

/// The tasks of `s` that have text, in their order.
pub open spec fn nonempty_only(s: Seq<String>) -> Seq<String> {
    s.filter(|t: String| t@.len() > 0)
}

/// `k` is the first entry of `days` saved under `name`.
pub open spec fn first_entry(days: Seq<DayRecord>, k: int, name: Seq<char>) -> bool {
    &&& 0 <= k < days.len()
    &&& days[k].name@ == name
    &&& forall|j: int| 0 <= j < k ==> days[j].name@ != name
}

/// Some entry of `days` is saved under `name`.
pub open spec fn has_entry(days: Seq<DayRecord>, name: Seq<char>) -> bool {
    exists|k: int| first_entry(days, k, name)
}

/// The first entry of `days` saved under `name`; meaningful when there is one.
pub open spec fn entry_of(days: Seq<DayRecord>, name: Seq<char>) -> int {
    choose|k: int| first_entry(days, k, name)
}

/// Every list of both buckets of `a` has nothing selected.
pub open spec fn all_unselected(a: App) -> bool {
    forall|m: int|
        0 <= m < a.days_tasks@.len() ==> {
            &&& (#[trigger] a.days_tasks@[m]).pending.selected is None
            &&& a.days_tasks@[m].done.selected is None
        }
}

impl WeekRecord {
    /// Seven distinct day names, each saved among `days`, and an active day
    /// among them.
    pub open spec fn valid(self) -> bool {
        &&& self.titles@.len() == DAY_COUNT
        &&& distinct_texts(texts(self.titles@))
        &&& self.index < DAY_COUNT
        &&& forall|m: int|
            0 <= m < DAY_COUNT ==> has_entry(self.days@, #[trigger] self.titles@[m]@)
    }

    /// `a` is the week that this record restores: the same names, active
    /// day, mode and draft; for each name, the tasks saved under it, pending
    /// ones without text left out; nothing selected.
    pub open spec fn restores(self, a: App) -> bool {
        &&& a.titles@ == self.titles@
        &&& a.index == self.index
        &&& a.input_mode == self.input_mode
        &&& a.input == self.input
        &&& a.days_tasks@.len() == self.titles@.len()
        &&& forall|m: int|
            0 <= m < a.days_tasks@.len() ==> {
                let k = entry_of(self.days@, self.titles@[m]@);
                &&& (#[trigger] a.days_tasks@[m]).pending.items@ == nonempty_only(
                    self.days@[k].pending@,
                )
                &&& a.days_tasks@[m].done.items_done_arr@ == self.days@[k].done@
            }
        &&& all_unselected(a)
    }
}

impl App {
    /// `r` saves this week: one entry per day, in order, under the day's
    /// name, holding its tasks; the names, active day, mode and draft as they
    /// are.
    pub open spec fn saved_as(self, r: WeekRecord) -> bool {
        &&& r.days@.len() == if self.days_tasks@.len() <= self.titles@.len() {
            self.days_tasks@.len()
        } else {
            self.titles@.len()
        }
        &&& forall|k: int|
            0 <= k < r.days@.len() ==> {
                &&& (#[trigger] r.days@[k]).name == self.titles@[k]
                &&& r.days@[k].pending@ == self.days_tasks@[k].pending.items@
                &&& r.days@[k].done@ == self.days_tasks@[k].done.items_done_arr@
            }
        &&& r.titles@ == self.titles@
        &&& r.index == self.index
        &&& r.input_mode == self.input_mode
        &&& r.input == self.input
    }

    /// The saved form of this week. A bucket without a name, which a
    /// well-formed week does not have, is not saved.
    pub fn to_record(&self) -> (r: WeekRecord)
        ensures
            self.saved_as(r),
    {
        let mut days: Vec<DayRecord> = Vec::new();
        let mut k: usize = 0;
        while k < self.days_tasks.len() && k < self.titles.len()
            invariant
                k <= self.days_tasks@.len(),
                k <= self.titles@.len(),
                days@.len() == k,
                forall|j: int|
                    0 <= j < k ==> {
                        &&& (#[trigger] days@[j]).name == self.titles@[j]
                        &&& days@[j].pending@ == self.days_tasks@[j].pending.items@
                        &&& days@[j].done@ == self.days_tasks@[j].done.items_done_arr@
                    },
            decreases self.days_tasks@.len() - k,
        {
            let bucket = &self.days_tasks[k];
            days.push(
                DayRecord {
                    name: self.titles[k].clone(),
                    pending: copy_strings(&bucket.pending.items),
                    done: copy_strings(&bucket.done.items_done_arr),
                },
            );
            k = k + 1;
        }
        WeekRecord {
            days,
            titles: copy_strings(&self.titles),
            index: self.index,
            input_mode: self.input_mode,
            input: self.input.clone(),
        }
    }
}

impl App {
    /// Restores a week from its saved form. It fails with `Parse` unless the
    /// record holds seven distinct day names, each saved among its days, and
    /// an active day among them. Pending tasks without text are left out;
    /// everything else is kept as saved, in order, and nothing is selected.
    pub fn from_record(record: &WeekRecord) -> (r: Result<App, TodoError>)
        ensures
            match r {
                Ok(a) => record.valid() && record.restores(a) && a.wf(),
                Err(e) => !record.valid() && e == TodoError::Parse,
            },
    {
        if record.titles.len() != DAY_COUNT || record.index >= DAY_COUNT {
            return Err(TodoError::Parse);
        }
        if !distinct_strings(&record.titles) {
            return Err(TodoError::Parse);
        }
        let mut days_tasks: Vec<DayBucket> = Vec::new();
        let mut m: usize = 0;
        while m < DAY_COUNT
            invariant
                m <= DAY_COUNT,
                record.titles@.len() == DAY_COUNT,
                record.index < DAY_COUNT,
                distinct_texts(texts(record.titles@)),
                days_tasks@.len() == m,
                forall|j: int|
                    0 <= j < m ==> has_entry(record.days@, #[trigger] record.titles@[j]@),
                forall|j: int|
                    0 <= j < m ==> {
                        let k = entry_of(record.days@, record.titles@[j]@);
                        &&& (#[trigger] days_tasks@[j]).pending.items@ == nonempty_only(
                            record.days@[k].pending@,
                        )
                        &&& days_tasks@[j].done.items_done_arr@ == record.days@[k].done@
                        &&& days_tasks@[j].pending.selected is None
                        &&& days_tasks@[j].done.selected is None
                        &&& days_tasks@[j].wf()
                    },
            decreases DAY_COUNT - m,
        {
            let found = find_entry(&record.days, &record.titles[m]);
            let k = match found {
                Some(k) => k,
                None => {
                    proof {
                        let name = record.titles@[m as int]@;
                        if record.valid() {
                            assert(has_entry(record.days@, name));
                            let k = choose|k: int| first_entry(record.days@, k, name);
                            assert(record.days@[k].name@ != name);
                        }
                    }
                    return Err(TodoError::Parse);
                },
            };
            proof {
                lemma_first_entry_unique(record.days@, k as int, record.titles@[m as int]@);
            }
            let pending = keep_nonempty(&record.days[k].pending);
            let done = copy_strings(&record.days[k].done);
            days_tasks.push(
                DayBucket {
                    pending: StatefulList::with_items(pending),
                    done: StatefulListDone::with_items(done),
                },
            );
            proof {
                assert(first_entry(record.days@, k as int, record.titles@[m as int]@));
            }
            m = m + 1;
        }
        let a = App {
            days_tasks,
            titles: copy_strings(&record.titles),
            index: record.index,
            input_mode: record.input_mode,
            input: record.input.clone(),
        };
        Ok(a)
    }
}

impl App {
    /// `other` holds the same day names, active day, mode, draft and tasks
    /// as `self`; selections aside.
    pub open spec fn same_content(self, other: App) -> bool {
        &&& other.titles@ == self.titles@
        &&& other.index == self.index
        &&& other.input_mode == self.input_mode
        &&& other.input == self.input
        &&& other.days_tasks@.len() == self.days_tasks@.len()
        &&& forall|k: int|
            0 <= k < self.days_tasks@.len() ==> {
                &&& (#[trigger] other.days_tasks@[k]).pending.items@
                    == self.days_tasks@[k].pending.items@
                &&& other.days_tasks@[k].done.items_done_arr@
                    == self.days_tasks@[k].done.items_done_arr@
            }
    }
}

/// Saving a well-formed week and restoring what was saved gives the week
/// back: the saved form is accepted, and the restored week has the same day
/// names, active day, mode, draft and tasks, with nothing selected.
pub proof fn lemma_save_then_restore(a: App, r: WeekRecord, b: App)
    requires
        a.wf(),
        a.saved_as(r),
        r.restores(b),
    ensures
        r.valid(),
        a.same_content(b),
        all_unselected(b),
{
    assert forall|m: int| 0 <= m < DAY_COUNT implies first_entry(r.days@, m, r.titles@[m]@) by {
        assert forall|j: int| 0 <= j < m implies r.days@[j].name@ != r.titles@[m]@ by {
            assert(r.days@[j].name == a.titles@[j]);
            assert(texts(a.titles@)[j] != texts(a.titles@)[m]);
        }
        assert(r.days@[m].name == a.titles@[m]);
    }
    assert forall|m: int| 0 <= m < DAY_COUNT implies has_entry(r.days@, #[trigger] r.titles@[m]@) by {
        assert(first_entry(r.days@, m, r.titles@[m]@));
    }
    assert forall|k: int| 0 <= k < a.days_tasks@.len() implies {
        &&& (#[trigger] b.days_tasks@[k]).pending.items@ == a.days_tasks@[k].pending.items@
        &&& b.days_tasks@[k].done.items_done_arr@ == a.days_tasks@[k].done.items_done_arr@
    } by {
        assert(first_entry(r.days@, k, r.titles@[k]@));
        lemma_first_entry_unique(r.days@, k, r.titles@[k]@);
        assert(a.days_tasks@[k].wf());
        lemma_nonempty_only_of_texts(a.days_tasks@[k].pending.items@);
    }
}

/// Leaving out the tasks without text changes nothing when every task has text.
proof fn lemma_nonempty_only_of_texts(s: Seq<String>)
    requires
        all_nonempty(texts(s)),
    ensures
        nonempty_only(s) == s,
    decreases s.len(),
{
    reveal_with_fuel(Seq::filter, 1);
    if s.len() > 0 {
        let init = s.drop_last();
        assert forall|t: int| 0 <= t < init.len() implies #[trigger] texts(init)[t].len() > 0 by {
            assert(texts(s)[t].len() > 0);
        }
        lemma_nonempty_only_of_texts(init);
        assert(texts(s)[s.len() - 1].len() > 0);
        assert(init.push(s.last()) =~= s);
    }
}

/// Only one entry can be the first under a name.
proof fn lemma_first_entry_unique(days: Seq<DayRecord>, k: int, name: Seq<char>)
    requires
        first_entry(days, k, name),
    ensures
        entry_of(days, name) == k,
{
    let c = entry_of(days, name);
    assert(first_entry(days, c, name));
    if c < k {
        assert(days[c].name@ != name);
    } else if k < c {
        assert(days[k].name@ != name);
    }
}

/// The tasks of `s` up to `j + 1` that have text: those up to `j`, and the
/// one at `j` if it has text.
proof fn lemma_nonempty_only_step(s: Seq<String>, j: int)
    requires
        0 <= j < s.len(),
    ensures
        nonempty_only(s.subrange(0, j + 1)) == if s[j]@.len() > 0 {
            nonempty_only(s.subrange(0, j)).push(s[j])
        } else {
            nonempty_only(s.subrange(0, j))
        },
{
    reveal_with_fuel(Seq::filter, 1);
    assert(s.subrange(0, j + 1).drop_last() =~= s.subrange(0, j));
}

/// The tasks of `v` that have text, in order.
fn keep_nonempty(v: &Vec<String>) -> (r: Vec<String>)
    ensures
        r@ == nonempty_only(v@),
        forall|t: int| 0 <= t < r@.len() ==> (#[trigger] r@[t])@.len() > 0,
{
    let mut r: Vec<String> = Vec::new();
    let mut j: usize = 0;
    proof {
        reveal_with_fuel(Seq::filter, 1);
        assert(v@.subrange(0, 0) =~= Seq::<String>::empty());
    }
    while j < v.len()
        invariant
            j <= v@.len(),
            r@ == nonempty_only(v@.subrange(0, j as int)),
            forall|t: int| 0 <= t < r@.len() ==> (#[trigger] r@[t])@.len() > 0,
        decreases v@.len() - j,
    {
        proof {
            lemma_nonempty_only_step(v@, j as int);
        }
        if !v[j].as_str().is_empty() {
            r.push(v[j].clone());
        }
        j = j + 1;
    }
    assert(v@.subrange(0, v@.len() as int) =~= v@);
    r
}

/// The first entry of `days` saved under `name`, if any.
fn find_entry(days: &Vec<DayRecord>, name: &String) -> (r: Option<usize>)
    ensures
        match r {
            Some(k) => first_entry(days@, k as int, name@),
            None => forall|k: int| 0 <= k < days@.len() ==> (#[trigger] days@[k]).name@ != name@,
        },
{
    let mut j: usize = 0;
    while j < days.len()
        invariant
            j <= days@.len(),
            forall|k: int| 0 <= k < j ==> (#[trigger] days@[k]).name@ != name@,
        decreases days@.len() - j,
    {
        if days[j].name == *name {
            return Some(j);
        }
        j = j + 1;
    }
    None
}

/// Whether no text occurs twice in `v`.
fn distinct_strings(v: &Vec<String>) -> (r: bool)
    ensures
        r == distinct_texts(texts(v@)),
{
    let mut b: usize = 0;
    while b < v.len()
        invariant
            b <= v@.len(),
            forall|x: int, y: int| 0 <= x < y < b ==> v@[x]@ != v@[y]@,
        decreases v@.len() - b,
    {
        let mut a: usize = 0;
        while a < b
            invariant
                a <= b < v@.len(),
                forall|x: int, y: int| 0 <= x < y < b ==> v@[x]@ != v@[y]@,
                forall|x: int| 0 <= x < a ==> v@[x]@ != v@[b as int]@,
            decreases b - a,
        {
            if v[a] == v[b] {
                proof {
                    assert(texts(v@)[a as int] == texts(v@)[b as int]);
                }
                return false;
            }
            a = a + 1;
        }
        b = b + 1;
    }
    proof {
        assert forall|x: int, y: int| 0 <= x < y < texts(v@).len() implies texts(v@)[x] != texts(v@)[y] by {
            assert(v@[x]@ != v@[y]@);
        }
    }
    true
}

/// A copy of `v`.
fn copy_strings(v: &Vec<String>) -> (r: Vec<String>)
    ensures
        r@ == v@,
{
    let mut r: Vec<String> = Vec::new();
    let mut j: usize = 0;
    while j < v.len()
        invariant
            j <= v@.len(),
            r@ == v@.subrange(0, j as int),
        decreases v@.len() - j,
    {
        r.push(v[j].clone());
        j = j + 1;
        assert(r@ =~= v@.subrange(0, j as int));
    }
    assert(v@.subrange(0, v@.len() as int) =~= v@);
    r
}

} // verus!
