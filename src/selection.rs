//! The arithmetic of a highlighted row: how a selection moves, wraps and is
//! re-established after a row goes away, stated over plain indices.
use vstd::arithmetic::div_mod::{lemma_add_mod_noop, lemma_fundamental_div_mod_converse, lemma_small_mod};
use vstd::prelude::*;

verus! {

/// A selection is usable on a list of `len` rows when it names one of them;
/// an empty list has no selection.
pub open spec fn selection_in_bounds(sel: Option<usize>, len: nat) -> bool {
    match sel {
        None => true,
        Some(i) => i < len,
    }
}

/// The selection after one step down: the first row when nothing was
/// selected, else the row below, wrapping from the last row to the first.
/// An empty list keeps its selection.
pub open spec fn next_selection(sel: Option<usize>, len: nat) -> Option<usize> {
    if len == 0 {
        sel
    } else {
        match sel {
            None => Some(0usize),
            Some(i) => if i + 1 < len {
                Some((i + 1) as usize)
            } else {
                Some(0usize)
            },
        }
    }
}

/// The selection after one step up: the first row when nothing was selected,
/// else the row above, wrapping from the first row to the last. A selection
/// past the end moves to the last row. An empty list keeps its selection.
pub open spec fn previous_selection(sel: Option<usize>, len: nat) -> Option<usize> {
    if len == 0 {
        sel
    } else {
        match sel {
            None => Some(0usize),
            Some(i) => if 0 < i && i < len {
                Some((i - 1) as usize)
            } else {
                Some((len - 1) as usize)
            },
        }
    }
}

/// The selection after the row at `i` was taken out, leaving `new_len` rows:
/// the row that followed it, which now sits at `i`; the first row when the
/// last one went; nothing when the list is now empty.
pub open spec fn selection_after_removal(i: usize, new_len: nat) -> Option<usize> {
    if new_len == 0 {
        None
    } else if i < new_len {
        Some(i)
    } else {
        Some(0usize)
    }
}

/// `k` steps down from `sel`.
pub open spec fn next_repeated(sel: Option<usize>, len: nat, k: nat) -> Option<usize>
    decreases k,
{
    if k == 0 {
        sel
    } else {
        next_selection(next_repeated(sel, len, (k - 1) as nat), len)
    }
}

/// On a list with rows and no selection, a step down then a step up selects
/// the last row, and a step up then a step down selects the second row (the
/// first, when there is only one).
pub proof fn lemma_step_there_and_back_unselected(len: nat)
    requires
        0 < len <= usize::MAX,
    ensures
        previous_selection(next_selection(None, len), len) == Some((len - 1) as usize),
        next_selection(previous_selection(None, len), len) == Some(
            if len > 1 {
                1usize
            } else {
                0usize
            },
        ),
{
}

/// From a selected row, `k` steps down land `k` rows further on, counted
/// modulo the length.
pub proof fn lemma_next_repeated_offset(s: usize, len: nat, k: nat)
    requires
        s < len <= usize::MAX,
    ensures
        next_repeated(Some(s), len, k) == Some(((s + k) % (len as int)) as usize),
    decreases k,
{
    if k == 0 {
        lemma_small_mod(s as nat, len);
    } else {
        lemma_next_repeated_offset(s, len, (k - 1) as nat);
        let a: int = s + k - 1;
        let r: int = a % (len as int);
        assert(0 <= r < len);
        lemma_add_mod_noop(a, 1, len as int);
        if len == 1 {
            assert(r == 0);
            lemma_fundamental_div_mod_converse(a + 1, 1, a + 1, 0);
        } else {
            lemma_small_mod(1, len);
            if r + 1 < len {
                lemma_small_mod((r + 1) as nat, len);
            } else {
                lemma_fundamental_div_mod_converse(r + 1, len as int, 1, 0);
            }
        }
    }
}

/// Taking `len` steps down from a selected row comes back to that row.
pub proof fn lemma_next_cycle_returns(s: usize, len: nat)
    requires
        s < len <= usize::MAX,
    ensures
        next_repeated(Some(s), len, len) == Some(s),
{
    lemma_next_repeated_offset(s, len, len);
    lemma_fundamental_div_mod_converse(s + len, len as int, 1, s as int);
}

} // verus!
