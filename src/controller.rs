//! What a key press does to the week. The driver reads keys, hands each one
//! here with the focus it keeps, and carries out the action that comes back
//! (saving, quitting); the week changes here, one key at a time.
use crate::model::{App, Focus, InputMode, TodoError};
use vstd::prelude::*;

verus! {

/// A key as the week understands it.
#[derive(Clone, Copy, Debug, PartialEq, Eq, Structural)]
pub enum Key {
    Char(char),
    Up,
    Down,
    Left,
    Right,
    Tab,
    Enter,
    Esc,
    Backspace,
    /// Any key that no command uses.
    Other,
}

/// A command of the week.
#[derive(Clone, Copy, Debug, PartialEq, Eq, Structural)]
pub enum Command {
    Save,
    Quit,
    Reset,
    DeleteSelected,
    StartEditing,
    StopEditing,
    MoveDown,
    MoveUp,
    NextDay,
    PreviousDay,
    ClearSelection,
    SwitchList,
    CompleteSelected,
    CommitDraft,
    PushChar(char),
    PopChar,
    Ignore,
}

/// What the driver is to do once a command has been applied.
#[derive(Clone, Copy, Debug, PartialEq, Eq, Structural)]
pub enum Action {
    /// Draw the week and wait for the next key.
    Continue,
    /// Write the saved form of the week, then go on.
    Save,
    /// Stop, without saving.
    Quit,
    /// The command did nothing because of the error; report it and go on.
    Report(TodoError),
}

/// The command that `key` gives in `mode`. In normal mode: `S` saves, `q`
/// quits, `R` resets, `D` deletes, `e` starts editing, `s` clears the
/// selection, Tab switches lists, Enter completes, the arrows move the
/// selection (up, down) and the day (left, right). In editing mode: Esc stops
/// editing, Enter commits the draft, Backspace takes a character off, and any
/// other character is typed.
pub open spec fn key_command(mode: InputMode, key: Key) -> Command {
    match mode {
        InputMode::Normal => match key {
            Key::Char('S') => Command::Save,
            Key::Char('q') => Command::Quit,
            Key::Char('R') => Command::Reset,
            Key::Char('D') => Command::DeleteSelected,
            Key::Char('e') => Command::StartEditing,
            Key::Char('s') => Command::ClearSelection,
            Key::Down => Command::MoveDown,
            Key::Up => Command::MoveUp,
            Key::Right => Command::NextDay,
            Key::Left => Command::PreviousDay,
            Key::Tab => Command::SwitchList,
            Key::Enter => Command::CompleteSelected,
            _ => Command::Ignore,
        },
        InputMode::Editing => match key {
            Key::Esc => Command::StopEditing,
            Key::Enter => Command::CommitDraft,
            Key::Backspace => Command::PopChar,
            Key::Char(c) => Command::PushChar(c),
            _ => Command::Ignore,
        },
    }
}

/// The other list.
pub open spec fn other_list(focus: Focus) -> Focus {
    match focus {
        Focus::Pending => Focus::Done,
        Focus::Done => Focus::Pending,
    }
}

/// What the driver is told after a command on the active day gave `r`.
pub open spec fn outcome(r: Result<(), TodoError>) -> Action {
    match r {
        Ok(()) => Action::Continue,
        Err(e) => Action::Report(e),
    }
}

impl App {
    /// `Ok` when the active day names a bucket, else the misuse.
    pub open spec fn lookup(self) -> Result<(), TodoError> {
        if self.has_active() {
            Ok(())
        } else {
            Err(TodoError::ProtocolMisuse)
        }
    }

    /// `new`, with focus `new_focus` and action `act`, is what applying `cmd`
    /// to `self` with focus `focus` gives.
    pub open spec fn applied(
        self,
        new: App,
        focus: Focus,
        new_focus: Focus,
        cmd: Command,
        act: Action,
    ) -> bool {
        let active_cmd = match cmd {
            Command::MoveDown => self.active().stepped(new.active(), focus, true),
            Command::MoveUp => self.active().stepped(new.active(), focus, false),
            Command::ClearSelection => self.active().cleared(new.active(), focus),
            Command::DeleteSelected => self.active().deleted(new.active(), focus),
            _ => self.active().completed(new.active()),
        };
        match cmd {
            Command::Save => new == self && new_focus == focus && act == Action::Save,
            Command::Quit => new == self && new_focus == focus && act == Action::Quit,
            Command::Reset => new.is_fresh() && new_focus == focus && act == Action::Continue,
            Command::StartEditing => {
                &&& self.with_mode(new, InputMode::Editing)
                &&& new_focus == focus
                &&& act == Action::Continue
            },
            Command::StopEditing => {
                &&& self.with_mode(new, InputMode::Normal)
                &&& new_focus == focus
                &&& act == Action::Continue
            },
            Command::NextDay => {
                &&& self.moved_to_next_day(new)
                &&& new_focus == focus
                &&& act == Action::Continue
            },
            Command::PreviousDay => {
                &&& self.moved_to_previous_day(new)
                &&& new_focus == focus
                &&& act == Action::Continue
            },
            Command::SwitchList => new == self && new_focus == other_list(focus) && act
                == Action::Continue,
            Command::CompleteSelected => if focus == Focus::Pending {
                &&& self.on_active(new, self.lookup(), active_cmd)
                &&& new_focus == focus
                &&& act == outcome(self.lookup())
            } else {
                new == self && new_focus == focus && act == Action::Continue
            },
            Command::CommitDraft => {
                &&& self.committed(new, self.lookup())
                &&& new_focus == focus
                &&& act == outcome(self.lookup())
            },
            Command::PushChar(c) => {
                &&& self.with_char_pushed(new, c)
                &&& new_focus == focus
                &&& act == Action::Continue
            },
            Command::PopChar => {
                &&& self.with_char_popped(new)
                &&& new_focus == focus
                &&& act == Action::Continue
            },
            Command::Ignore => new == self && new_focus == focus && act == Action::Continue,
            _ => {
                &&& self.on_active(new, self.lookup(), active_cmd)
                &&& new_focus == focus
                &&& act == outcome(self.lookup())
            },
        }
    }

    /// Applies `cmd` with the lists of the active day in `focus`: list
    /// commands act on the focused list, completing acts only when the
    /// pending list is focused, and switching lists changes only the focus,
    /// so that each list keeps its selection.
    pub fn apply(&mut self, focus: &mut Focus, cmd: Command) -> (act: Action)
        ensures
            old(self).applied(*final(self), *old(focus), *final(focus), cmd, act),
            old(self).wf() ==> final(self).wf(),
    {
        let f = *focus;
        match cmd {
            Command::Save => Action::Save,
            Command::Quit => Action::Quit,
            Command::Reset => {
                self.reset();
                Action::Continue
            },
            Command::StartEditing => {
                self.enter_edit_mode();
                Action::Continue
            },
            Command::StopEditing => {
                self.exit_edit_mode();
                Action::Continue
            },
            Command::NextDay => {
                self.next();
                Action::Continue
            },
            Command::PreviousDay => {
                self.previous();
                Action::Continue
            },
            Command::SwitchList => {
                *focus = match f {
                    Focus::Pending => Focus::Done,
                    Focus::Done => Focus::Pending,
                };
                Action::Continue
            },
            Command::PushChar(c) => {
                self.push_draft_char(c);
                Action::Continue
            },
            Command::PopChar => {
                self.pop_draft_char();
                Action::Continue
            },
            Command::Ignore => Action::Continue,
            Command::MoveDown => report(self.move_selection(f, true)),
            Command::MoveUp => report(self.move_selection(f, false)),
            Command::ClearSelection => report(self.clear_selection(f)),
            Command::DeleteSelected => report(self.delete_selected(f)),
            Command::CompleteSelected => match f {
                Focus::Pending => report(self.complete_selected()),
                Focus::Done => Action::Continue,
            },
            Command::CommitDraft => report(self.commit_draft()),
        }
    }

    /// Handles one key press with the lists in `focus`: applies the command
    /// that the key gives in the current mode.
    pub fn handle_key(&mut self, focus: &mut Focus, key: Key) -> (act: Action)
        ensures
            old(self).applied(
                *final(self),
                *old(focus),
                *final(focus),
                key_command(old(self).input_mode, key),
                act,
            ),
            old(self).wf() ==> final(self).wf(),
    {
        let cmd = command_for(self.input_mode, key);
        self.apply(focus, cmd)
    }
}

/// The command that `key` gives in `mode`.
pub fn command_for(mode: InputMode, key: Key) -> (c: Command)
    ensures
        c == key_command(mode, key),
{
    match mode {
        InputMode::Normal => match key {
            Key::Char('S') => Command::Save,
            Key::Char('q') => Command::Quit,
            Key::Char('R') => Command::Reset,
            Key::Char('D') => Command::DeleteSelected,
            Key::Char('e') => Command::StartEditing,
            Key::Char('s') => Command::ClearSelection,
            Key::Down => Command::MoveDown,
            Key::Up => Command::MoveUp,
            Key::Right => Command::NextDay,
            Key::Left => Command::PreviousDay,
            Key::Tab => Command::SwitchList,
            Key::Enter => Command::CompleteSelected,
            _ => Command::Ignore,
        },
        InputMode::Editing => match key {
            Key::Esc => Command::StopEditing,
            Key::Enter => Command::CommitDraft,
            Key::Backspace => Command::PopChar,
            Key::Char(c) => Command::PushChar(c),
            _ => Command::Ignore,
        },
    }
}

/// The action for the result of a command on the active day.
fn report(r: Result<(), TodoError>) -> (act: Action)
    ensures
        act == outcome(r),
{
    match r {
        Ok(()) => Action::Continue,
        Err(e) => Action::Report(e),
    }
}

} // verus!
