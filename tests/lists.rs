use week_planner::list::{StatefulList, StatefulListDone};

fn list_of(items: &[&str]) -> StatefulList<String> {
    StatefulList::with_items(items.iter().map(|s| s.to_string()).collect())
}

fn done_of(items: &[&str]) -> StatefulListDone<String> {
    StatefulListDone::with_items(items.iter().map(|s| s.to_string()).collect())
}

#[test]
fn with_items_starts_unselected() {
    let l = list_of(&["a", "b"]);
    assert_eq!(l.selected, None);
    assert_eq!(l.items, vec!["a".to_string(), "b".to_string()]);
    let d = done_of(&["x"]);
    assert_eq!(d.selected, None);
    assert_eq!(d.items_done_arr, vec!["x".to_string()]);
}

#[test]
fn next_then_previous_from_unselected_selects_last() {
    let mut l = list_of(&["a", "b", "c"]);
    l.next();
    assert_eq!(l.selected, Some(0));
    l.previous();
    assert_eq!(l.selected, Some(2));
}

#[test]
fn previous_then_next_from_unselected_selects_second() {
    let mut l = list_of(&["a", "b", "c"]);
    l.previous();
    assert_eq!(l.selected, Some(0));
    l.next();
    assert_eq!(l.selected, Some(1));
}

#[test]
fn next_repeated_length_times_returns_to_start() {
    let mut l = list_of(&["a", "b", "c", "d"]);
    l.selected = Some(2);
    for _ in 0..4 {
        l.next();
    }
    assert_eq!(l.selected, Some(2));
    let mut d = done_of(&["a", "b", "c"]);
    d.selected = Some(1);
    for _ in 0..3 {
        d.next();
    }
    assert_eq!(d.selected, Some(1));
}

#[test]
fn next_wraps_from_last_to_first() {
    let mut l = list_of(&["a", "b"]);
    l.selected = Some(1);
    l.next();
    assert_eq!(l.selected, Some(0));
}

#[test]
fn previous_wraps_from_first_to_last() {
    let mut d = done_of(&["a", "b", "c"]);
    d.selected = Some(0);
    d.previous();
    assert_eq!(d.selected, Some(2));
    d.previous();
    assert_eq!(d.selected, Some(1));
}

#[test]
fn navigation_on_empty_lists_keeps_no_selection() {
    let mut l: StatefulList<String> = StatefulList::with_items(Vec::new());
    l.next();
    assert_eq!(l.selected, None);
    l.previous();
    assert_eq!(l.selected, None);
    let mut d: StatefulListDone<String> = StatefulListDone::with_items(Vec::new());
    d.next();
    assert_eq!(d.selected, None);
    d.previous();
    assert_eq!(d.selected, None);
}

#[test]
fn single_row_list_stays_on_its_row() {
    let mut l = list_of(&["only"]);
    l.next();
    l.next();
    assert_eq!(l.selected, Some(0));
    l.previous();
    assert_eq!(l.selected, Some(0));
}

#[test]
fn unselect_clears_selection() {
    let mut l = list_of(&["a", "b"]);
    l.next();
    l.unselect();
    assert_eq!(l.selected, None);
    let mut d = done_of(&["a"]);
    d.next();
    d.unselect();
    assert_eq!(d.selected, None);
}

#[test]
fn append_adds_at_end_and_keeps_selection() {
    let mut l = list_of(&["a"]);
    l.next();
    l.append("b".to_string());
    assert_eq!(l.items, vec!["a".to_string(), "b".to_string()]);
    assert_eq!(l.selected, Some(0));
    let mut d = done_of(&[]);
    d.append("z".to_string());
    assert_eq!(d.items_done_arr, vec!["z".to_string()]);
    assert_eq!(d.selected, None);
}

#[test]
fn task_done_removes_exactly_the_selected_task() {
    let mut l = list_of(&["a", "b", "c", "d"]);
    l.selected = Some(1);
    let taken = l.task_done();
    assert_eq!(taken, Some("b".to_string()));
    assert_eq!(l.items, vec!["a".to_string(), "c".to_string(), "d".to_string()]);
    assert_eq!(l.selected, Some(1));
}

#[test]
fn task_done_twice_takes_two_different_tasks() {
    let mut l = list_of(&["a", "b", "c"]);
    l.selected = Some(0);
    let first = l.task_done();
    let second = l.task_done();
    assert_eq!(first, Some("a".to_string()));
    assert_eq!(second, Some("b".to_string()));
    assert_ne!(first, second);
    assert_eq!(l.items, vec!["c".to_string()]);
}

#[test]
fn task_done_of_last_row_selects_first() {
    let mut l = list_of(&["a", "b", "c"]);
    l.selected = Some(2);
    assert_eq!(l.task_done(), Some("c".to_string()));
    assert_eq!(l.selected, Some(0));
}

#[test]
fn task_done_of_only_row_leaves_no_selection() {
    let mut l = list_of(&["a"]);
    l.selected = Some(0);
    assert_eq!(l.task_done(), Some("a".to_string()));
    assert!(l.items.is_empty());
    assert_eq!(l.selected, None);
}

#[test]
fn task_done_without_selection_gives_nothing() {
    let mut l = list_of(&["a", "b"]);
    assert_eq!(l.task_done(), None);
    assert_eq!(l.items.len(), 2);
    assert_eq!(l.selected, None);
}

#[test]
fn task_done_with_selection_past_end_gives_nothing() {
    let mut l = list_of(&["a", "b"]);
    l.selected = Some(5);
    assert_eq!(l.task_done(), None);
    assert_eq!(l.items.len(), 2);
    assert_eq!(l.selected, Some(5));
}

#[test]
fn delete_task_on_empty_lists_changes_nothing() {
    let mut l: StatefulList<String> = StatefulList::with_items(Vec::new());
    l.delete_task();
    assert!(l.items.is_empty());
    assert_eq!(l.selected, None);
    let mut d: StatefulListDone<String> = StatefulListDone::with_items(Vec::new());
    d.delete_task();
    assert!(d.items_done_arr.is_empty());
    assert_eq!(d.selected, None);
}

#[test]
fn delete_task_removes_the_selected_done_task() {
    let mut d = done_of(&["a", "b", "c"]);
    d.selected = Some(1);
    d.delete_task();
    assert_eq!(d.items_done_arr, vec!["a".to_string(), "c".to_string()]);
    assert_eq!(d.selected, Some(1));
    let mut l = list_of(&["x", "y"]);
    l.selected = Some(1);
    l.delete_task();
    assert_eq!(l.items, vec!["x".to_string()]);
    assert_eq!(l.selected, Some(0));
}

#[test]
fn remove_selected_hands_back_the_done_task() {
    let mut d = done_of(&["a", "b"]);
    d.selected = Some(0);
    assert_eq!(d.remove_selected(), Some("a".to_string()));
    assert_eq!(d.items_done_arr, vec!["b".to_string()]);
    assert_eq!(d.selected, Some(0));
    let mut none = done_of(&["a"]);
    assert_eq!(none.remove_selected(), None);
    assert_eq!(none.items_done_arr.len(), 1);
}
