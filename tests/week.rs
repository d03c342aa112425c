use week_planner::controller::{command_for, Action, Command, Key};
use week_planner::model::{App, Focus, InputMode, TodoError, DAY_COUNT};

fn pending(app: &App, day: usize) -> Vec<String> {
    app.days_tasks[day].pending.items.clone()
}

fn done(app: &App, day: usize) -> Vec<String> {
    app.days_tasks[day].done.items_done_arr.clone()
}

fn type_text(app: &mut App, text: &str) {
    for c in text.chars() {
        app.push_draft_char(c);
    }
}

#[test]
fn new_week_has_seven_empty_days() {
    let app = App::new();
    assert_eq!(app.days_tasks.len(), DAY_COUNT);
    let names: Vec<&str> = app.titles.iter().map(|t| t.as_str()).collect();
    assert_eq!(names, vec!["day1", "day2", "day3", "day4", "day5", "day6", "day7"]);
    assert_eq!(app.index, 0);
    assert_eq!(app.input_mode, InputMode::Normal);
    assert!(app.input.is_empty());
    for day in 0..DAY_COUNT {
        assert!(pending(&app, day).is_empty());
        assert!(done(&app, day).is_empty());
        assert_eq!(app.days_tasks[day].pending.selected, None);
        assert_eq!(app.days_tasks[day].done.selected, None);
    }
}

#[test]
fn commit_then_complete_moves_buy_milk_to_done() {
    let mut app = App::new();
    app.enter_edit_mode();
    type_text(&mut app, "Buy milk");
    assert_eq!(app.commit_draft(), Ok(()));
    assert_eq!(pending(&app, 0), vec!["Buy milk".to_string()]);
    assert!(app.input.is_empty());
    app.exit_edit_mode();
    assert_eq!(app.move_selection(Focus::Pending, true), Ok(()));
    assert_eq!(app.days_tasks[0].pending.selected, Some(0));
    assert_eq!(app.complete_selected(), Ok(()));
    assert!(pending(&app, 0).is_empty());
    assert_eq!(done(&app, 0), vec!["Buy milk".to_string()]);
}

#[test]
fn seven_next_days_return_to_the_first() {
    let mut app = App::new();
    for step in 1..=7 {
        app.next();
        assert_eq!(app.index, step % 7);
    }
    assert_eq!(app.index, 0);
    assert_eq!(app.titles[app.index], "day1");
}

#[test]
fn previous_day_wraps_to_the_last() {
    let mut app = App::new();
    app.previous();
    assert_eq!(app.index, 6);
    app.previous();
    assert_eq!(app.index, 5);
    app.next();
    app.next();
    assert_eq!(app.index, 0);
}

#[test]
fn delete_selected_on_empty_list_is_a_no_op() {
    let mut app = App::new();
    assert_eq!(app.delete_selected(Focus::Pending), Ok(()));
    assert!(pending(&app, 0).is_empty());
    assert_eq!(app.days_tasks[0].pending.selected, None);
    assert_eq!(app.delete_selected(Focus::Done), Ok(()));
    assert!(done(&app, 0).is_empty());
    assert_eq!(app.days_tasks[0].done.selected, None);
}

#[test]
fn complete_selected_moves_one_task_and_counts_change_by_one() {
    let mut app = App::new();
    for t in ["a", "b", "c"] {
        app.input = t.to_string();
        app.commit_draft().unwrap();
    }
    app.days_tasks[0].done.items_done_arr.push("old".to_string());
    app.days_tasks[0].pending.selected = Some(1);
    assert_eq!(app.complete_selected(), Ok(()));
    assert_eq!(pending(&app, 0), vec!["a".to_string(), "c".to_string()]);
    assert_eq!(done(&app, 0), vec!["old".to_string(), "b".to_string()]);
    assert_eq!(app.days_tasks[0].pending.selected, Some(1));
}

#[test]
fn complete_selected_without_selection_changes_nothing() {
    let mut app = App::new();
    app.input = "a".to_string();
    app.commit_draft().unwrap();
    assert_eq!(app.complete_selected(), Ok(()));
    assert_eq!(pending(&app, 0), vec!["a".to_string()]);
    assert!(done(&app, 0).is_empty());
}

#[test]
fn commit_of_empty_draft_adds_nothing() {
    let mut app = App::new();
    assert_eq!(app.commit_draft(), Ok(()));
    assert!(pending(&app, 0).is_empty());
    assert!(app.input.is_empty());
}

#[test]
fn commands_reach_only_the_active_day() {
    let mut app = App::new();
    app.next();
    app.next();
    app.input = "third".to_string();
    app.commit_draft().unwrap();
    assert_eq!(pending(&app, 2), vec!["third".to_string()]);
    for day in [0, 1, 3, 4, 5, 6] {
        assert!(pending(&app, day).is_empty());
    }
}

#[test]
fn day_selection_is_kept_per_day_and_per_list() {
    let mut app = App::new();
    for t in ["a", "b"] {
        app.input = t.to_string();
        app.commit_draft().unwrap();
    }
    app.days_tasks[0].done.items_done_arr.push("x".to_string());
    app.move_selection(Focus::Pending, true).unwrap();
    app.move_selection(Focus::Pending, true).unwrap();
    app.move_selection(Focus::Done, true).unwrap();
    app.next();
    app.previous();
    assert_eq!(app.days_tasks[0].pending.selected, Some(1));
    assert_eq!(app.days_tasks[0].done.selected, Some(0));
    app.clear_selection(Focus::Pending).unwrap();
    assert_eq!(app.days_tasks[0].pending.selected, None);
    assert_eq!(app.days_tasks[0].done.selected, Some(0));
}

#[test]
fn draft_editing_pushes_and_pops() {
    let mut app = App::new();
    app.enter_edit_mode();
    assert_eq!(app.input_mode, InputMode::Editing);
    type_text(&mut app, "ab");
    app.pop_draft_char();
    assert_eq!(app.input, "a");
    app.pop_draft_char();
    app.pop_draft_char();
    assert_eq!(app.input, "");
    app.push_draft_char('z');
    app.exit_edit_mode();
    assert_eq!(app.input_mode, InputMode::Normal);
    assert_eq!(app.input, "z");
}

#[test]
fn reset_gives_a_fresh_week() {
    let mut app = App::new();
    app.input = "task".to_string();
    app.commit_draft().unwrap();
    app.next();
    app.enter_edit_mode();
    app.input = "draft".to_string();
    app.reset();
    assert_eq!(app.index, 0);
    assert_eq!(app.input_mode, InputMode::Normal);
    assert!(app.input.is_empty());
    assert!(pending(&app, 0).is_empty());
}

#[test]
fn commands_on_a_missing_day_report_misuse() {
    let mut app = App::new();
    app.index = 9;
    assert_eq!(app.commit_draft(), Err(TodoError::ProtocolMisuse));
    assert_eq!(app.complete_selected(), Err(TodoError::ProtocolMisuse));
    assert_eq!(app.delete_selected(Focus::Done), Err(TodoError::ProtocolMisuse));
    assert_eq!(app.move_selection(Focus::Pending, false), Err(TodoError::ProtocolMisuse));
    assert_eq!(app.clear_selection(Focus::Pending), Err(TodoError::ProtocolMisuse));
    app.next();
    assert_eq!(app.index, 0);
}

#[test]
fn keys_map_to_commands_by_mode() {
    assert_eq!(command_for(InputMode::Normal, Key::Char('q')), Command::Quit);
    assert_eq!(command_for(InputMode::Normal, Key::Char('S')), Command::Save);
    assert_eq!(command_for(InputMode::Normal, Key::Char('D')), Command::DeleteSelected);
    assert_eq!(command_for(InputMode::Normal, Key::Enter), Command::CompleteSelected);
    assert_eq!(command_for(InputMode::Normal, Key::Char('x')), Command::Ignore);
    assert_eq!(command_for(InputMode::Editing, Key::Char('q')), Command::PushChar('q'));
    assert_eq!(command_for(InputMode::Editing, Key::Enter), Command::CommitDraft);
    assert_eq!(command_for(InputMode::Editing, Key::Esc), Command::StopEditing);
    assert_eq!(command_for(InputMode::Editing, Key::Left), Command::Ignore);
}

#[test]
fn key_session_adds_completes_and_quits() {
    let mut app = App::new();
    let mut focus = Focus::Pending;
    assert_eq!(app.handle_key(&mut focus, Key::Char('e')), Action::Continue);
    for c in "Call".chars() {
        app.handle_key(&mut focus, Key::Char(c));
    }
    app.handle_key(&mut focus, Key::Enter);
    app.handle_key(&mut focus, Key::Esc);
    assert_eq!(pending(&app, 0), vec!["Call".to_string()]);
    app.handle_key(&mut focus, Key::Down);
    app.handle_key(&mut focus, Key::Enter);
    assert_eq!(done(&app, 0), vec!["Call".to_string()]);
    assert_eq!(app.handle_key(&mut focus, Key::Tab), Action::Continue);
    assert_eq!(focus, Focus::Done);
    app.handle_key(&mut focus, Key::Down);
    assert_eq!(app.days_tasks[0].done.selected, Some(0));
    app.handle_key(&mut focus, Key::Char('D'));
    assert!(done(&app, 0).is_empty());
    assert_eq!(app.handle_key(&mut focus, Key::Char('S')), Action::Save);
    assert_eq!(app.handle_key(&mut focus, Key::Char('q')), Action::Quit);
}

#[test]
fn enter_with_done_list_focused_completes_nothing() {
    let mut app = App::new();
    app.input = "a".to_string();
    app.commit_draft().unwrap();
    app.days_tasks[0].pending.selected = Some(0);
    let mut focus = Focus::Done;
    assert_eq!(app.handle_key(&mut focus, Key::Enter), Action::Continue);
    assert_eq!(pending(&app, 0), vec!["a".to_string()]);
    assert!(done(&app, 0).is_empty());
}

#[test]
fn misuse_is_reported_to_the_driver() {
    let mut app = App::new();
    app.index = 12;
    let mut focus = Focus::Pending;
    assert_eq!(
        app.handle_key(&mut focus, Key::Char('D')),
        Action::Report(TodoError::ProtocolMisuse)
    );
}

#[test]
fn right_and_left_keys_change_day() {
    let mut app = App::new();
    let mut focus = Focus::Pending;
    app.handle_key(&mut focus, Key::Right);
    assert_eq!(app.index, 1);
    app.handle_key(&mut focus, Key::Left);
    app.handle_key(&mut focus, Key::Left);
    assert_eq!(app.index, 6);
    app.handle_key(&mut focus, Key::Char('R'));
    assert_eq!(app.index, 0);
}
