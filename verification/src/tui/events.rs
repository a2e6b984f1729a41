//! Event handling for the terminal interface.

use crate::tui::app_state::{StateModel, TuiState};
use vstd::prelude::*;

verus! {

/// The key of a key event, as far as the interface tells keys apart.
#[derive(Debug, Clone, Copy, PartialEq, Eq, Structural)]
pub enum Key {
    /// A character key.
    Char(char),
    /// The backspace key.
    Backspace,
    /// The enter key.
    Enter,
    /// The escape key.
    Esc,
    /// Any other key.
    Other,
}

/// An event of the terminal.
#[derive(Debug, Clone, Copy, PartialEq, Eq, Structural)]
pub enum TuiEvent {
    /// A key event; `pressed` tells a press from a release or a repeat.
    Key {
        /// The key.
        key: Key,
        /// Whether the key was pressed.
        pressed: bool,
    },
    /// Anything else: a resize, the mouse, a paste.
    Other,
}

/// The key that was pressed, if the event is the press of a key.
pub open spec fn pressed_key(event: TuiEvent) -> Option<Key> {
    match event {
        TuiEvent::Key { key, pressed } => if pressed {
            Some(key)
        } else {
            None
        },
        TuiEvent::Other => None,
    }
}

/// The state that follows `state` on `event`.
///
/// While the name is entered, a character is appended to it, backspace removes
/// its last character, enter moves on to the confirmation and escape ends.
/// At the confirmation, `y` and escape end and `n` goes back to the entry.
/// Once done, nothing changes. Only presses count.
pub open spec fn next_state(state: StateModel, event: TuiEvent) -> StateModel {
    match state {
        StateModel::Input(name) => match pressed_key(event) {
            Some(Key::Char(c)) => StateModel::Input(name.push(c)),
            Some(Key::Backspace) => StateModel::Input(
                if name.len() > 0 {
                    name.drop_last()
                } else {
                    name
                },
            ),
            Some(Key::Enter) => StateModel::Confirm(name),
            Some(Key::Esc) => StateModel::Done,
            _ => StateModel::Input(name),
        },
        StateModel::Confirm(name) => match pressed_key(event) {
            Some(Key::Char('y')) => StateModel::Done,
            Some(Key::Char('n')) => StateModel::Input(name),
            Some(Key::Esc) => StateModel::Done,
            _ => StateModel::Confirm(name),
        },
        StateModel::Done => StateModel::Done,
    }
}

/// What the event loop does after an event.
#[derive(Debug, Clone, Copy, PartialEq, Eq, Structural)]
pub enum LoopAction {
    /// Draw the state and wait for the next event.
    Continue,
    /// Say that the project would be generated now, then go on.
    Announce,
    /// Leave the interface.
    Quit,
}

/// Whether the key is the character `lower` in lower or in upper case.
pub open spec fn is_letter(key: Key, lower: char, upper: char) -> bool {
    key == Key::Char(lower) || key == Key::Char(upper)
}

/// Whether the key leaves the interface from the confirmation and from the
/// done state: `q` in either case, or escape.
pub open spec fn is_quit_key(key: Key) -> bool {
    is_letter(key, 'q', 'Q') || key == Key::Esc
}

/// What the event loop makes of an event: the state that follows and what to
/// do next.
///
/// While the name is entered, enter moves on to the confirmation, a
/// character is appended, backspace removes the last character and escape
/// leaves. At the confirmation, `y` announces the generation and moves to
/// done, `n` goes back to the entry, and `q` or escape leaves. Once done, `q`
/// or escape leaves. Letters count in either case; only presses count.
pub open spec fn loop_step(state: StateModel, event: TuiEvent) -> (StateModel, LoopAction) {
    match pressed_key(event) {
        None => (state, LoopAction::Continue),
        Some(key) => match state {
            StateModel::Input(name) => match key {
                Key::Enter => (StateModel::Confirm(name), LoopAction::Continue),
                Key::Char(c) => (StateModel::Input(name.push(c)), LoopAction::Continue),
                Key::Backspace => (
                    StateModel::Input(
                        if name.len() > 0 {
                            name.drop_last()
                        } else {
                            name
                        },
                    ),
                    LoopAction::Continue,
                ),
                Key::Esc => (state, LoopAction::Quit),
                Key::Other => (state, LoopAction::Continue),
            },
            StateModel::Confirm(name) => if is_letter(key, 'y', 'Y') {
                (StateModel::Done, LoopAction::Announce)
            } else if is_letter(key, 'n', 'N') {
                (StateModel::Input(name), LoopAction::Continue)
            } else if is_quit_key(key) {
                (state, LoopAction::Quit)
            } else {
                (state, LoopAction::Continue)
            },
            StateModel::Done => if is_quit_key(key) {
                (state, LoopAction::Quit)
            } else {
                (state, LoopAction::Continue)
            },
        },
    }
}

fn letter(key: Key, lower: char, upper: char) -> (is: bool)
    ensures
        is == is_letter(key, lower, upper),
{
    match key {
        Key::Char(c) => c == lower || c == upper,
        _ => false,
    }
}

fn quit_key(key: Key) -> (is: bool)
    ensures
        is == is_quit_key(key),
{
    match key {
        Key::Esc => true,
        other => letter(other, 'q', 'Q'),
    }
}

fn copy_of(state: &TuiState) -> (copy: TuiState)
    ensures
        copy@ == state@,
{
    match state {
        TuiState::Input { project_name } => TuiState::Input { project_name: project_name.clone() },
        TuiState::Confirm { project_name } => TuiState::Confirm {
            project_name: project_name.clone(),
        },
        TuiState::Done => TuiState::Done,
    }
}

/// Takes one event of the event loop and returns the state that follows and
/// what to do next.
pub fn run_step(state: &TuiState, event: &TuiEvent) -> (next: (TuiState, LoopAction))
    ensures
        (next.0@, next.1) == loop_step(state@, *event),
{
    let key = match pressed(event) {
        Some(key) => key,
        None => {
            return (copy_of(state), LoopAction::Continue);
        },
    };
    match state {
        TuiState::Input { project_name } => match key {
            Key::Enter => (state.to_confirm(), LoopAction::Continue),
            Key::Char(c) => {
                let mut name = project_name.clone();
                name.push(c);
                (TuiState::Input { project_name: name }, LoopAction::Continue)
            },
            Key::Backspace => {
                let mut name = project_name.clone();
                name.pop();
                (TuiState::Input { project_name: name }, LoopAction::Continue)
            },
            Key::Esc => (copy_of(state), LoopAction::Quit),
            Key::Other => (copy_of(state), LoopAction::Continue),
        },
        TuiState::Confirm { .. } => {
            if letter(key, 'y', 'Y') {
                (state.to_done(), LoopAction::Announce)
            } else if letter(key, 'n', 'N') {
                (state.to_input(), LoopAction::Continue)
            } else if quit_key(key) {
                (copy_of(state), LoopAction::Quit)
            } else {
                (copy_of(state), LoopAction::Continue)
            }
        },
        TuiState::Done => {
            if quit_key(key) {
                (TuiState::Done, LoopAction::Quit)
            } else {
                (TuiState::Done, LoopAction::Continue)
            }
        },
    }
}

fn pressed(event: &TuiEvent) -> (key: Option<Key>)
    ensures
        key == pressed_key(*event),
{
    match event {
        TuiEvent::Key { key, pressed } => if *pressed {
            Some(*key)
        } else {
            None
        },
        TuiEvent::Other => None,
    }
}

fn handle_input_event(project_name: &str, event: &TuiEvent) -> (next: TuiState)
    ensures
        next@ == next_state(StateModel::Input(project_name@), *event),
{
    let mut name = project_name.to_owned();
    match pressed(event) {
        Some(Key::Char(c)) => {
            name.push(c);
            TuiState::Input { project_name: name }
        },
        Some(Key::Backspace) => {
            name.pop();
            TuiState::Input { project_name: name }
        },
        Some(Key::Enter) => TuiState::Confirm { project_name: name },
        Some(Key::Esc) => TuiState::Done,
        _ => TuiState::Input { project_name: name },
    }
}

fn handle_confirm_event(project_name: &str, event: &TuiEvent) -> (next: TuiState)
    ensures
        next@ == next_state(StateModel::Confirm(project_name@), *event),
{
    match pressed(event) {
        Some(Key::Char(c)) => {
            if c == 'y' {
                TuiState::Done
            } else if c == 'n' {
                TuiState::Input { project_name: project_name.to_owned() }
            } else {
                TuiState::Confirm { project_name: project_name.to_owned() }
            }
        },
        Some(Key::Esc) => TuiState::Done,
        _ => TuiState::Confirm { project_name: project_name.to_owned() },
    }
}

fn handle_done_event(event: &TuiEvent) -> (next: TuiState)
    ensures
        next@ == StateModel::Done,
{
    TuiState::Done
}

/// Handle a single event and return the new state.
pub fn handle_event(state: &TuiState, event: &TuiEvent) -> (next: TuiState)
    ensures
        next@ == next_state(state@, *event),
{
    match state {
        TuiState::Input { project_name } => handle_input_event(project_name.as_str(), event),
        TuiState::Confirm { project_name } => handle_confirm_event(project_name.as_str(), event),
        TuiState::Done => handle_done_event(event),
    }
}

} // verus!
