//! The week: seven named days, each a bucket of pending and completed tasks,
//! with the active day, the input mode and the draft being typed, and the
//! commands that change them.
use crate::list::{names_row, row_of, StatefulList, StatefulListDone};
use crate::selection::{next_selection, previous_selection, selection_after_removal};
use vstd::arithmetic::div_mod::{lemma_fundamental_div_mod_converse, lemma_small_mod};
use vstd::prelude::*;

verus! {

/// How many days a week holds.
pub const DAY_COUNT: usize = 7;

/// Relies on `String::push` (std): the character is added at the end.
pub assume_specification[ String::push ](s: &mut String, ch: char)
    ensures
        final(s)@ == old(s)@.push(ch),
;

/// Relies on `String::pop` (std): the last character is taken off and handed
/// back; an empty string stays empty and gives `None`.
pub assume_specification[ String::pop ](s: &mut String) -> (r: Option<char>)
    ensures
        old(s)@.len() == 0 ==> r is None && final(s)@ == old(s)@,
        old(s)@.len() > 0 ==> r == Some(old(s)@.last()) && final(s)@ == old(s)@.drop_last(),
;

/// Whether keys move the selection (`Normal`) or type into the draft (`Editing`).
#[derive(Clone, Copy, Debug, PartialEq, Eq, Structural)]
pub enum InputMode {
    Normal,
    Editing,
}

/// Which list of the active day receives navigation and removal commands.
/// It belongs to whoever drives the week, not to the week itself, so that
/// both lists keep their own selection when the focus moves.
#[derive(Clone, Copy, Debug, PartialEq, Eq, Structural)]
pub enum Focus {
    Pending,
    Done,
}

/// What can go wrong with the week's commands and with restoring a saved week.
#[derive(Clone, Copy, Debug, PartialEq, Eq, Structural)]
pub enum TodoError {
    /// A command reached for a day that the week does not hold.
    ProtocolMisuse,
    /// A saved week lacks a field it needs, or holds one that cannot be.
    Parse,
}

/// The texts of a sequence of strings.
pub open spec fn texts(s: Seq<String>) -> Seq<Seq<char>> {
    s.map_values(|t: String| t@)
}

/// No text occurs twice.
pub open spec fn distinct_texts(s: Seq<Seq<char>>) -> bool {
    forall|a: int, b: int| 0 <= a < b < s.len() ==> s[a] != s[b]
}

/// Every text has at least one character.
pub open spec fn all_nonempty(s: Seq<Seq<char>>) -> bool {
    forall|t: int| 0 <= t < s.len() ==> #[trigger] s[t].len() > 0
}

/// The names that a fresh week gives its days.
pub open spec fn day_names() -> Seq<Seq<char>> {
    seq!["day1"@, "day2"@, "day3"@, "day4"@, "day5"@, "day6"@, "day7"@]
}

/// The tasks of one day: those still to do and those done.
pub struct DayBucket {
    pub pending: StatefulList<String>,
    pub done: StatefulListDone<String>,
}

impl DayBucket {
    /// Both selections name a row or are absent, and no pending task is empty.
    pub open spec fn wf(self) -> bool {
        &&& self.pending.wf()
        &&& self.done.wf()
        &&& all_nonempty(texts(self.pending.items@))
    }

    /// Both lists empty, nothing selected.
    pub open spec fn is_blank(self) -> bool {
        &&& self.pending.items@.len() == 0
        &&& self.pending.selected is None
        &&& self.done.items_done_arr@.len() == 0
        &&& self.done.selected is None
    }

    /// A day with no tasks.
    pub fn new() -> (r: DayBucket)
        ensures
            r.is_blank(),
            r.wf(),
    {
        DayBucket {
            pending: StatefulList::with_items(Vec::new()),
            done: StatefulListDone::with_items(Vec::new()),
        }
    }

    /// `self` after one step of the selection of the focused list, down when
    /// `forward`, up otherwise; the other list is untouched.
    pub open spec fn stepped(self, new: DayBucket, focus: Focus, forward: bool) -> bool {
        match focus {
            Focus::Pending => {
                &&& new.done == self.done
                &&& new.pending.items@ == self.pending.items@
                &&& new.pending.selected == if forward {
                    next_selection(self.pending.selected, self.pending.items@.len())
                } else {
                    previous_selection(self.pending.selected, self.pending.items@.len())
                }
            },
            Focus::Done => {
                &&& new.pending == self.pending
                &&& new.done.items_done_arr@ == self.done.items_done_arr@
                &&& new.done.selected == if forward {
                    next_selection(self.done.selected, self.done.items_done_arr@.len())
                } else {
                    previous_selection(self.done.selected, self.done.items_done_arr@.len())
                }
            },
        }
    }

    /// `self` with the selection of the focused list cleared.
    pub open spec fn cleared(self, new: DayBucket, focus: Focus) -> bool {
        match focus {
            Focus::Pending => {
                &&& new.done == self.done
                &&& new.pending.items@ == self.pending.items@
                &&& new.pending.selected is None
            },
            Focus::Done => {
                &&& new.pending == self.pending
                &&& new.done.items_done_arr@ == self.done.items_done_arr@
                &&& new.done.selected is None
            },
        }
    }

    /// `self` with the selected task of the focused list removed, the
    /// selection re-established as removal does; unchanged when the selection
    /// names no task.
    pub open spec fn deleted(self, new: DayBucket, focus: Focus) -> bool {
        match focus {
            Focus::Pending => {
                let (items, sel) = (self.pending.items@, self.pending.selected);
                &&& new.done == self.done
                &&& names_row(sel, items.len()) ==> {
                    &&& new.pending.items@ == items.remove(row_of(sel))
                    &&& new.pending.selected == selection_after_removal(
                        row_of(sel) as usize,
                        (items.len() - 1) as nat,
                    )
                }
                &&& !names_row(sel, items.len()) ==> new.pending.items@ == items
                    && new.pending.selected == sel
            },
            Focus::Done => {
                let (items, sel) = (self.done.items_done_arr@, self.done.selected);
                &&& new.pending == self.pending
                &&& names_row(sel, items.len()) ==> {
                    &&& new.done.items_done_arr@ == items.remove(row_of(sel))
                    &&& new.done.selected == selection_after_removal(
                        row_of(sel) as usize,
                        (items.len() - 1) as nat,
                    )
                }
                &&& !names_row(sel, items.len()) ==> new.done.items_done_arr@ == items
                    && new.done.selected == sel
            },
        }
    }

    /// `self` with the selected pending task moved to the end of the done
    /// list, the pending selection re-established as removal does; unchanged
    /// when the selection names no pending task.
    pub open spec fn completed(self, new: DayBucket) -> bool {
        let (items, sel) = (self.pending.items@, self.pending.selected);
        &&& names_row(sel, items.len()) ==> {
            &&& new.pending.items@ == items.remove(row_of(sel))
            &&& new.pending.selected == selection_after_removal(
                row_of(sel) as usize,
                (items.len() - 1) as nat,
            )
            &&& new.done.items_done_arr@ == self.done.items_done_arr@.push(items[row_of(sel)])
            &&& new.done.selected == self.done.selected
        }
        &&& !names_row(sel, items.len()) ==> {
            &&& new.pending.items@ == items
            &&& new.pending.selected == sel
            &&& new.done.items_done_arr@ == self.done.items_done_arr@
            &&& new.done.selected == self.done.selected
        }
    }
}

/// A well-formed week stays well formed when only its active bucket changes,
/// into a well-formed one.
proof fn lemma_wf_after_active_change(before: App, after: App)
    requires
        before.wf(),
        before.keeps_other_days(after),
        after.active().wf(),
    ensures
        after.wf(),
{
    assert forall|k: int| 0 <= k < after.days_tasks@.len() implies #[trigger] after.days_tasks@[k].wf() by {
        if k != after.index {
            assert(before.days_tasks@[k].wf());
        }
    }
}

/// Taking one task out of a list of tasks with text leaves only tasks with text.
proof fn lemma_remove_keeps_nonempty(before: Seq<String>, after: Seq<String>)
    requires
        all_nonempty(texts(before)),
        after == before || exists|i: int| 0 <= i < before.len() && after == before.remove(i),
    ensures
        all_nonempty(texts(after)),
{
    if after != before {
        let i = choose|i: int| 0 <= i < before.len() && after == before.remove(i);
        assert forall|t: int| 0 <= t < after.len() implies #[trigger] texts(after)[t].len() > 0 by {
            if t < i {
                assert(texts(before)[t].len() > 0);
            } else {
                assert(texts(before)[t + 1].len() > 0);
            }
        }
    }
}

/// The week and what is being typed.
pub struct App {
    /// The buckets of the days, in the order of `titles`.
    pub days_tasks: Vec<DayBucket>,
    /// The names of the days; `days_tasks[k]` belongs to `titles[k]`.
    pub titles: Vec<String>,
    /// The active day.
    pub index: usize,
    pub input_mode: InputMode,
    /// The draft being typed.
    pub input: String,
}

impl App {
    /// Seven days under distinct names, an active day among them, and every
    /// bucket well formed.
    pub open spec fn wf(self) -> bool {
        &&& self.days_tasks@.len() == DAY_COUNT
        &&& self.titles@.len() == DAY_COUNT
        &&& self.index < DAY_COUNT
        &&& distinct_texts(texts(self.titles@))
        &&& forall|k: int| 0 <= k < self.days_tasks@.len() ==> #[trigger] self.days_tasks@[k].wf()
    }

    /// The active day names a bucket.
    pub open spec fn has_active(self) -> bool {
        self.index < self.days_tasks@.len()
    }

    /// The bucket of the active day.
    pub open spec fn active(self) -> DayBucket {
        self.days_tasks@[self.index as int]
    }

    /// `new` differs from `self` at most in the active day's bucket, the mode
    /// and the draft.
    pub open spec fn keeps_other_days(self, new: App) -> bool {
        &&& new.days_tasks@.len() == self.days_tasks@.len()
        &&& forall|k: int|
            0 <= k < self.days_tasks@.len() && k != self.index ==> #[trigger] new.days_tasks@[k]
                == self.days_tasks@[k]
        &&& new.titles == self.titles
        &&& new.index == self.index
    }

    /// `new` is `self` with the active bucket changed as `bucket_ok` says, and
    /// `r` is `Ok`; or the active day names no bucket, nothing changed and `r`
    /// reports the misuse. Mode and draft are kept either way.
    pub open spec fn on_active(
        self,
        new: App,
        r: Result<(), TodoError>,
        bucket_ok: bool,
    ) -> bool {
        &&& self.has_active() ==> {
            &&& r is Ok
            &&& self.keeps_other_days(new)
            &&& new.input_mode == self.input_mode
            &&& new.input == self.input
            &&& bucket_ok
        }
        &&& !self.has_active() ==> r == Err::<(), TodoError>(TodoError::ProtocolMisuse) && new
            == self
    }

    /// Days `day1` to `day7`, all empty, the first one active, in normal mode
    /// with an empty draft.
    pub open spec fn is_fresh(self) -> bool {
        &&& self.days_tasks@.len() == DAY_COUNT
        &&& texts(self.titles@) == day_names()
        &&& forall|k: int| 0 <= k < DAY_COUNT ==> (#[trigger] self.days_tasks@[k]).is_blank()
        &&& self.index == 0
        &&& self.input_mode == InputMode::Normal
        &&& self.input@.len() == 0
    }

    /// `new` holds the same days, names and active day as `self`.
    pub open spec fn same_week(self, new: App) -> bool {
        &&& new.days_tasks == self.days_tasks
        &&& new.titles == self.titles
        &&& new.index == self.index
    }

    /// `new` is `self` with the next day active, wrapping from the last day
    /// to the first; an active day past the end moves to the first. A week
    /// without days stays as it is.
    pub open spec fn moved_to_next_day(self, new: App) -> bool {
        let len = self.days_tasks@.len();
        &&& self.has_active() ==> new.index as int == (self.index + 1) % (len as int)
        &&& !self.has_active() && len > 0 ==> new.index == 0
        &&& len == 0 ==> new.index == self.index
        &&& new.days_tasks == self.days_tasks
        &&& new.titles == self.titles
        &&& new.input_mode == self.input_mode
        &&& new.input == self.input
    }

    /// `new` is `self` with the previous day active, wrapping from the first
    /// day to the last; an active day past the end moves to the last. A week
    /// without days stays as it is.
    pub open spec fn moved_to_previous_day(self, new: App) -> bool {
        let len = self.days_tasks@.len();
        &&& self.has_active() && self.index > 0 ==> new.index == self.index - 1
        &&& len > 0 && (self.index == 0 || !self.has_active()) ==> new.index == len - 1
        &&& len == 0 ==> new.index == self.index
        &&& new.days_tasks == self.days_tasks
        &&& new.titles == self.titles
        &&& new.input_mode == self.input_mode
        &&& new.input == self.input
    }

    /// `new` is `self` in `mode`, with the draft kept.
    pub open spec fn with_mode(self, new: App, mode: InputMode) -> bool {
        &&& self.same_week(new)
        &&& new.input_mode == mode
        &&& new.input == self.input
    }

    /// `new` is `self` with `c` added at the end of the draft.
    pub open spec fn with_char_pushed(self, new: App, c: char) -> bool {
        &&& self.same_week(new)
        &&& new.input_mode == self.input_mode
        &&& new.input@ == self.input@.push(c)
    }

    /// `new` is `self` with the last character of the draft taken off; an
    /// empty draft stays empty.
    pub open spec fn with_char_popped(self, new: App) -> bool {
        &&& self.same_week(new)
        &&& new.input_mode == self.input_mode
        &&& self.input@.len() > 0 ==> new.input@ == self.input@.drop_last()
        &&& self.input@.len() == 0 ==> new.input@ == self.input@
    }

    /// `new` is `self` with the draft committed to the active day: a draft
    /// with text is appended to the pending tasks, whose selection stays; the
    /// draft is cleared either way. When the active day names no bucket,
    /// nothing changes and `r` reports the misuse.
    pub open spec fn committed(self, new: App, r: Result<(), TodoError>) -> bool {
        &&& self.has_active() ==> {
            let (before, after) = (self.active(), new.active());
            &&& r is Ok
            &&& self.keeps_other_days(new)
            &&& new.input_mode == self.input_mode
            &&& new.input@.len() == 0
            &&& after.done == before.done
            &&& after.pending.selected == before.pending.selected
            &&& after.pending.items@ == if self.input@.len() > 0 {
                before.pending.items@.push(self.input)
            } else {
                before.pending.items@
            }
        }
        &&& !self.has_active() ==> r == Err::<(), TodoError>(TodoError::ProtocolMisuse) && new
            == self
    }

    /// A fresh week: days `day1` to `day7`, all empty, the first one active,
    /// in normal mode with an empty draft.
    pub fn new() -> (r: App)
        ensures
            r.wf(),
            r.is_fresh(),
    {
        let mut days_tasks: Vec<DayBucket> = Vec::new();
        let mut k: usize = 0;
        while k < DAY_COUNT
            invariant
                k <= DAY_COUNT,
                days_tasks@.len() == k,
                forall|j: int| 0 <= j < k ==> #[trigger] days_tasks@[j].is_blank(),
                forall|j: int| 0 <= j < k ==> #[trigger] days_tasks@[j].wf(),
            decreases DAY_COUNT - k,
        {
            days_tasks.push(DayBucket::new());
            k = k + 1;
        }
        let titles: Vec<String> = vec![
            "day1".to_owned(),
            "day2".to_owned(),
            "day3".to_owned(),
            "day4".to_owned(),
            "day5".to_owned(),
            "day6".to_owned(),
            "day7".to_owned(),
        ];
        proof {
            reveal_strlit("day1");
            reveal_strlit("day2");
            reveal_strlit("day3");
            reveal_strlit("day4");
            reveal_strlit("day5");
            reveal_strlit("day6");
            reveal_strlit("day7");
            assert(texts(titles@) =~= day_names());
            let names = day_names();
            assert forall|a: int| 0 <= a < DAY_COUNT implies #[trigger] names[a].len() == 4
                && names[a][3] == (('1' as u32) + a) as char by {}
            assert forall|a: int, b: int| 0 <= a < b < DAY_COUNT implies names[a] != names[b] by {
                assert(names[a][3] != names[b][3]);
            }
        }
        App { days_tasks, titles, index: 0, input_mode: InputMode::Normal, input: String::new() }
    }

    /// Makes the next day active, wrapping from the last day to the first.
    /// A week without days is left as it is.
    pub fn next(&mut self)
        ensures
            old(self).moved_to_next_day(*final(self)),
            old(self).wf() ==> final(self).wf(),
    {
        let len = self.days_tasks.len();
        if len == 0 {
            return;
        }
        if self.index < len - 1 {
            self.index = self.index + 1;
            proof {
                lemma_small_mod(self.index as nat, len as nat);
            }
        } else {
            if self.index == len - 1 {
                proof {
                    lemma_fundamental_div_mod_converse(len as int, len as int, 1, 0);
                }
            }
            self.index = 0;
        }
    }

    /// Makes the previous day active, wrapping from the first day to the last.
    /// An active day past the end moves to the last day; a week without days
    /// is left as it is.
    pub fn previous(&mut self)
        ensures
            old(self).moved_to_previous_day(*final(self)),
            old(self).wf() ==> final(self).wf(),
    {
        let len = self.days_tasks.len();
        if len == 0 {
            return;
        }
        if 0 < self.index && self.index < len {
            self.index = self.index - 1;
        } else {
            self.index = len - 1;
        }
    }

    /// Moves the selection of the focused list of the active day one row,
    /// down when `forward`, up otherwise, as the lists' `next` and `previous` do.
    pub fn move_selection(&mut self, focus: Focus, forward: bool) -> (r: Result<(), TodoError>)
        ensures
            old(self).on_active(
                *final(self),
                r,
                old(self).active().stepped(final(self).active(), focus, forward),
            ),
            old(self).wf() ==> final(self).wf(),
    {
        if self.index >= self.days_tasks.len() {
            return Err(TodoError::ProtocolMisuse);
        }
        let i = self.index;
        match focus {
            Focus::Pending => if forward {
                self.days_tasks[i].pending.next();
            } else {
                self.days_tasks[i].pending.previous();
            },
            Focus::Done => if forward {
                self.days_tasks[i].done.next();
            } else {
                self.days_tasks[i].done.previous();
            },
        }
        proof {
            if old(self).wf() {
                assert(old(self).active().wf());
                lemma_wf_after_active_change(*old(self), *self);
            }
        }
        Ok(())
    }

    /// Clears the selection of the focused list of the active day.
    pub fn clear_selection(&mut self, focus: Focus) -> (r: Result<(), TodoError>)
        ensures
            old(self).on_active(*final(self), r, old(self).active().cleared(final(self).active(), focus)),
            old(self).wf() ==> final(self).wf(),
    {
        if self.index >= self.days_tasks.len() {
            return Err(TodoError::ProtocolMisuse);
        }
        let i = self.index;
        match focus {
            Focus::Pending => self.days_tasks[i].pending.unselect(),
            Focus::Done => self.days_tasks[i].done.unselect(),
        }
        proof {
            if old(self).wf() {
                assert(old(self).active().wf());
                lemma_wf_after_active_change(*old(self), *self);
            }
        }
        Ok(())
    }

    /// Removes the selected task of the focused list of the active day and
    /// drops it; nothing changes when that list has no selected task.
    pub fn delete_selected(&mut self, focus: Focus) -> (r: Result<(), TodoError>)
        ensures
            old(self).on_active(*final(self), r, old(self).active().deleted(final(self).active(), focus)),
            old(self).wf() ==> final(self).wf(),
    {
        if self.index >= self.days_tasks.len() {
            return Err(TodoError::ProtocolMisuse);
        }
        let i = self.index;
        match focus {
            Focus::Pending => self.days_tasks[i].pending.delete_task(),
            Focus::Done => self.days_tasks[i].done.delete_task(),
        }
        proof {
            if old(self).wf() {
                let (before, after) = (old(self).active(), self.active());
                assert(before.wf());
                lemma_remove_keeps_nonempty(before.pending.items@, after.pending.items@);
                lemma_wf_after_active_change(*old(self), *self);
            }
        }
        Ok(())
    }

    /// Moves the selected pending task of the active day to the end of its
    /// done list; nothing changes when no pending task is selected.
    pub fn complete_selected(&mut self) -> (r: Result<(), TodoError>)
        ensures
            old(self).on_active(*final(self), r, old(self).active().completed(final(self).active())),
            old(self).wf() ==> final(self).wf(),
    {
        if self.index >= self.days_tasks.len() {
            return Err(TodoError::ProtocolMisuse);
        }
        let i = self.index;
        let taken = self.days_tasks[i].pending.task_done();
        match taken {
            Some(task) => self.days_tasks[i].done.append(task),
            None => {},
        }
        proof {
            if old(self).wf() {
                let (before, after) = (old(self).active(), self.active());
                assert(before.wf());
                lemma_remove_keeps_nonempty(before.pending.items@, after.pending.items@);
                lemma_wf_after_active_change(*old(self), *self);
            }
        }
        Ok(())
    }

    /// Appends a draft with text to the pending tasks of the active day, then
    /// clears the draft; an empty draft adds nothing.
    pub fn commit_draft(&mut self) -> (r: Result<(), TodoError>)
        ensures
            old(self).committed(*final(self), r),
            old(self).wf() ==> final(self).wf(),
    {
        if self.index >= self.days_tasks.len() {
            return Err(TodoError::ProtocolMisuse);
        }
        let i = self.index;
        if !self.input.as_str().is_empty() {
            let task = self.input.clone();
            self.days_tasks[i].pending.append(task);
        }
        self.input = String::new();
        proof {
            if old(self).wf() {
                let (before, after) = (old(self).active(), self.active());
                assert(before.wf());
                assert forall|t: int| 0 <= t < after.pending.items@.len() implies #[trigger] texts(
                    after.pending.items@,
                )[t].len() > 0 by {
                    if t < before.pending.items@.len() {
                        assert(texts(before.pending.items@)[t].len() > 0);
                    }
                }
                lemma_wf_after_active_change(*old(self), *self);
            }
        }
        Ok(())
    }

    /// Switches to typing into the draft; the draft is kept.
    pub fn enter_edit_mode(&mut self)
        ensures
            old(self).with_mode(*final(self), InputMode::Editing),
            old(self).wf() ==> final(self).wf(),
    {
        self.input_mode = InputMode::Editing;
    }

    /// Switches back to moving the selection; the draft is kept as it is.
    pub fn exit_edit_mode(&mut self)
        ensures
            old(self).with_mode(*final(self), InputMode::Normal),
            old(self).wf() ==> final(self).wf(),
    {
        self.input_mode = InputMode::Normal;
    }

    /// Adds `c` at the end of the draft.
    pub fn push_draft_char(&mut self, c: char)
        ensures
            old(self).with_char_pushed(*final(self), c),
            old(self).wf() ==> final(self).wf(),
    {
        self.input.push(c);
    }

    /// Takes the last character off the draft; an empty draft stays empty.
    pub fn pop_draft_char(&mut self)
        ensures
            old(self).with_char_popped(*final(self)),
            old(self).wf() ==> final(self).wf(),
    {
        let _ = self.input.pop();
    }

    /// Replaces the whole week with a fresh one.
    pub fn reset(&mut self)
        ensures
            final(self).is_fresh(),
            final(self).wf(),
    {
        *self = App::new();
    }
}

} // verus!
