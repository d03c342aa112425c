//! Lists with an optional highlighted row: the pending list of a day, and the
//! list of what was completed that day.
use crate::selection::{
    next_selection, previous_selection, selection_after_removal, selection_in_bounds,
};
use vstd::prelude::*;

verus! {

/// Whether `sel` names a row of a list of `len` rows, so that a removal
/// through it takes a row out.
pub open spec fn names_row(sel: Option<usize>, len: nat) -> bool {
    match sel {
        Some(i) => i < len,
        None => false,
    }
}

/// The index that a selection names; meaningful where `names_row` holds.
pub open spec fn row_of(sel: Option<usize>) -> int {
    match sel {
        Some(i) => i as int,
        None => 0,
    }
}

/// Index of the row below the selection, wrapping to the first.
fn step_down(sel: Option<usize>, len: usize) -> (r: usize)
    requires
        len > 0,
    ensures
        Some(r) == next_selection(sel, len as nat),
{
    match sel {
        None => 0,
        Some(i) => if i < len - 1 {
            i + 1
        } else {
            0
        },
    }
}

/// Index of the row above the selection, wrapping to the last.
fn step_up(sel: Option<usize>, len: usize) -> (r: usize)
    requires
        len > 0,
    ensures
        Some(r) == previous_selection(sel, len as nat),
{
    match sel {
        None => 0,
        Some(i) => if 0 < i && i < len {
            i - 1
        } else {
            len - 1
        },
    }
}

/// The selection to hold once the row at `i` is gone and `new_len` rows are left.
fn reselect(i: usize, new_len: usize) -> (r: Option<usize>)
    ensures
        r == selection_after_removal(i, new_len as nat),
{
    if new_len == 0 {
        None
    } else if i < new_len {
        Some(i)
    } else {
        Some(0)
    }
}

/// Two removals in a row through the selection take out two different rows
/// of the original list: the second takes the row that stood at `k`, with
/// `k != i`, and what is left is the original without rows `i` and `k`.
pub proof fn lemma_two_removals_take_distinct_rows<T>(items: Seq<T>, i: usize)
    requires
        i < items.len(),
    ensures
        ({
            let rest = items.remove(i as int);
            let sel = selection_after_removal(i, rest.len());
            names_row(sel, rest.len()) ==> {
                let j = row_of(sel);
                let k = if j < i {
                    j
                } else {
                    j + 1
                };
                &&& k != i
                &&& 0 <= k < items.len()
                &&& rest[j] == items[k]
                &&& rest.remove(j) == items.remove(if k < i {
                    i as int
                } else {
                    k
                }).remove(if k < i {
                    k
                } else {
                    i as int
                })
            }
        }),
{
    let rest = items.remove(i as int);
    let sel = selection_after_removal(i, rest.len());
    if names_row(sel, rest.len()) {
        let j = row_of(sel);
        if j < i {
            assert(rest.remove(j) =~= items.remove(i as int).remove(j));
        } else {
            assert(rest.remove(j) =~= items.remove(j + 1).remove(i as int));
        }
    }
}

/// The pending tasks of a day, with the row that commands act on.
pub struct StatefulList<T> {
    pub selected: Option<usize>,
    pub items: Vec<T>,
}

/// The completed tasks of a day, with the row that commands act on.
pub struct StatefulListDone<T> {
    pub selected: Option<usize>,
    pub items_done_arr: Vec<T>,
}

impl<T> StatefulList<T> {
    /// The selection names a row, or is absent.
    pub open spec fn wf(&self) -> bool {
        selection_in_bounds(self.selected, self.items@.len())
    }

    /// A list holding `items`, with nothing selected.
    pub fn with_items(items: Vec<T>) -> (r: StatefulList<T>)
        ensures
            r.items@ == items@,
            r.selected is None,
            r.wf(),
    {
        StatefulList { selected: None, items }
    }

    /// Moves the selection one row down, wrapping from the last row to the
    /// first; selects the first row when nothing was selected. An empty list
    /// is left as it is.
    pub fn next(&mut self)
        ensures
            final(self).items@ == old(self).items@,
            final(self).selected == next_selection(old(self).selected, old(self).items@.len()),
            old(self).wf() ==> final(self).wf(),
    {
        let len = self.items.len();
        if len == 0 {
            return;
        }
        let i = step_down(self.selected, len);
        self.selected = Some(i);
    }

    /// Moves the selection one row up, wrapping from the first row to the
    /// last; selects the first row when nothing was selected. An empty list
    /// is left as it is.
    pub fn previous(&mut self)
        ensures
            final(self).items@ == old(self).items@,
            final(self).selected == previous_selection(
                old(self).selected,
                old(self).items@.len(),
            ),
            old(self).wf() ==> final(self).wf(),
    {
        let len = self.items.len();
        if len == 0 {
            return;
        }
        let i = step_up(self.selected, len);
        self.selected = Some(i);
    }

    /// Clears the selection.
    pub fn unselect(&mut self)
        ensures
            final(self).items@ == old(self).items@,
            final(self).selected is None,
            final(self).wf(),
    {
        self.selected = None;
    }

    /// Adds `task` at the end; the selection stays where it was.
    pub fn append(&mut self, task: T)
        ensures
            final(self).items@ == old(self).items@.push(task),
            final(self).selected == old(self).selected,
            old(self).wf() ==> final(self).wf(),
    {
        self.items.push(task);
    }

    /// Takes the selected task out of the list and hands it back. The task
    /// that followed it becomes selected; the first one when the last was
    /// taken; none when the list is now empty. With no selection, or one past
    /// the end, nothing changes and nothing comes back.
    pub fn task_done(&mut self) -> (r: Option<T>)
        ensures
            names_row(old(self).selected, old(self).items@.len()) ==> {
                let i = row_of(old(self).selected);
                &&& r == Some(old(self).items@[i])
                &&& final(self).items@ == old(self).items@.remove(i)
                &&& final(self).selected == selection_after_removal(
                    i as usize,
                    (old(self).items@.len() - 1) as nat,
                )
            },
            !names_row(old(self).selected, old(self).items@.len()) ==> {
                &&& r is None
                &&& final(self).items@ == old(self).items@
                &&& final(self).selected == old(self).selected
            },
            old(self).wf() ==> final(self).wf(),
    {
        let i = match self.selected {
            Some(i) => i,
            None => {
                return None;
            },
        };
        if i >= self.items.len() {
            return None;
        }
        let removed = self.items.remove(i);
        self.selected = None;
        self.selected = reselect(i, self.items.len());
        Some(removed)
    }

    /// Removes the selected task and drops it, as `task_done` does without
    /// handing the task back.
    pub fn delete_task(&mut self)
        ensures
            names_row(old(self).selected, old(self).items@.len()) ==> {
                let i = row_of(old(self).selected);
                &&& final(self).items@ == old(self).items@.remove(i)
                &&& final(self).selected == selection_after_removal(
                    i as usize,
                    (old(self).items@.len() - 1) as nat,
                )
            },
            !names_row(old(self).selected, old(self).items@.len()) ==> {
                &&& final(self).items@ == old(self).items@
                &&& final(self).selected == old(self).selected
            },
            old(self).wf() ==> final(self).wf(),
    {
        let _ = self.task_done();
    }
}

impl<T> StatefulListDone<T> {
    /// The selection names a row, or is absent.
    pub open spec fn wf(&self) -> bool {
        selection_in_bounds(self.selected, self.items_done_arr@.len())
    }

    /// A list holding `items`, with nothing selected.
    pub fn with_items(items: Vec<T>) -> (r: StatefulListDone<T>)
        ensures
            r.items_done_arr@ == items@,
            r.selected is None,
            r.wf(),
    {
        StatefulListDone { selected: None, items_done_arr: items }
    }

    /// Moves the selection one row down, wrapping from the last row to the
    /// first; selects the first row when nothing was selected. An empty list
    /// is left as it is.
    pub fn next(&mut self)
        ensures
            final(self).items_done_arr@ == old(self).items_done_arr@,
            final(self).selected == next_selection(
                old(self).selected,
                old(self).items_done_arr@.len(),
            ),
            old(self).wf() ==> final(self).wf(),
    {
        let len = self.items_done_arr.len();
        if len == 0 {
            return;
        }
        let i = step_down(self.selected, len);
        self.selected = Some(i);
    }

    /// Moves the selection one row up, wrapping from the first row to the
    /// last; selects the first row when nothing was selected. An empty list
    /// is left as it is.
    pub fn previous(&mut self)
        ensures
            final(self).items_done_arr@ == old(self).items_done_arr@,
            final(self).selected == previous_selection(
                old(self).selected,
                old(self).items_done_arr@.len(),
            ),
            old(self).wf() ==> final(self).wf(),
    {
        let len = self.items_done_arr.len();
        if len == 0 {
            return;
        }
        let i = step_up(self.selected, len);
        self.selected = Some(i);
    }

    /// Clears the selection.
    pub fn unselect(&mut self)
        ensures
            final(self).items_done_arr@ == old(self).items_done_arr@,
            final(self).selected is None,
            final(self).wf(),
    {
        self.selected = None;
    }

    /// Adds `task` at the end; the selection stays where it was.
    pub fn append(&mut self, task: T)
        ensures
            final(self).items_done_arr@ == old(self).items_done_arr@.push(task),
            final(self).selected == old(self).selected,
            old(self).wf() ==> final(self).wf(),
    {
        self.items_done_arr.push(task);
    }

    /// Takes the selected task out of the list and hands it back. The task
    /// that followed it becomes selected; the first one when the last was
    /// taken; none when the list is now empty. With no selection, or one past
    /// the end, nothing changes and nothing comes back.
    pub fn remove_selected(&mut self) -> (r: Option<T>)
        ensures
            names_row(old(self).selected, old(self).items_done_arr@.len()) ==> {
                let i = row_of(old(self).selected);
                &&& r == Some(old(self).items_done_arr@[i])
                &&& final(self).items_done_arr@ == old(self).items_done_arr@.remove(i)
                &&& final(self).selected == selection_after_removal(
                    i as usize,
                    (old(self).items_done_arr@.len() - 1) as nat,
                )
            },
            !names_row(old(self).selected, old(self).items_done_arr@.len()) ==> {
                &&& r is None
                &&& final(self).items_done_arr@ == old(self).items_done_arr@
                &&& final(self).selected == old(self).selected
            },
            old(self).wf() ==> final(self).wf(),
    {
        let i = match self.selected {
            Some(i) => i,
            None => {
                return None;
            },
        };
        if i >= self.items_done_arr.len() {
            return None;
        }
        let removed = self.items_done_arr.remove(i);
        self.selected = None;
        self.selected = reselect(i, self.items_done_arr.len());
        Some(removed)
    }

    /// Removes the selected task and drops it, as `remove_selected` does
    /// without handing the task back.
    pub fn delete_task(&mut self)
        ensures
            names_row(old(self).selected, old(self).items_done_arr@.len()) ==> {
                let i = row_of(old(self).selected);
                &&& final(self).items_done_arr@ == old(self).items_done_arr@.remove(i)
                &&& final(self).selected == selection_after_removal(
                    i as usize,
                    (old(self).items_done_arr@.len() - 1) as nat,
                )
            },
            !names_row(old(self).selected, old(self).items_done_arr@.len()) ==> {
                &&& final(self).items_done_arr@ == old(self).items_done_arr@
                &&& final(self).selected == old(self).selected
            },
            old(self).wf() ==> final(self).wf(),
    {
        let _ = self.remove_selected();
    }
}

} // verus!
