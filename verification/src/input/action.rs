//! Actions on a text input, and how keys map to them.

use super::{LineDirection, Magnitude};
use crate::ui::{Key, KeyModifiers};
use vstd::prelude::*;

verus! {

/// Set of actions for a text input handler.
#[derive(Copy, Clone, Debug, PartialEq, Eq, Structural)]
pub enum InputAction {
    /// Deletes a part of the input, by magnitude and direction.
    Delete(Magnitude, LineDirection),
    /// Moves the cursor, by magnitude and direction.
    MoveCursor(Magnitude, LineDirection),
    /// Writes a character at the cursor.
    Write(char),
}

/// The action that a key triggers on a text input, if any.
pub open spec fn spec_input_action_from_key(key: Key) -> Option<InputAction> {
    match key {
        Key::Backspace => Some(InputAction::Delete(Magnitude::Char, LineDirection::Left)),
        Key::Char(c, m) => if c == 'h' && m.spec_contains(KeyModifiers { bits: 2 }) {
            None
        } else {
            Some(InputAction::Write(c))
        },
        Key::Delete(m) => if m.spec_contains(KeyModifiers { bits: 2 }) {
            Some(InputAction::Delete(Magnitude::Word, LineDirection::Right))
        } else {
            Some(InputAction::Delete(Magnitude::Char, LineDirection::Right))
        },
        Key::Home => Some(InputAction::MoveCursor(Magnitude::Line, LineDirection::Left)),
        Key::Left(m) => if m.spec_contains(KeyModifiers { bits: 2 }) {
            Some(InputAction::MoveCursor(Magnitude::Word, LineDirection::Left))
        } else {
            Some(InputAction::MoveCursor(Magnitude::Char, LineDirection::Left))
        },
        Key::End => Some(InputAction::MoveCursor(Magnitude::Line, LineDirection::Right)),
        Key::Right(m) => if m.spec_contains(KeyModifiers { bits: 2 }) {
            Some(InputAction::MoveCursor(Magnitude::Word, LineDirection::Right))
        } else {
            Some(InputAction::MoveCursor(Magnitude::Char, LineDirection::Right))
        },
        _ => None,
    }
}

impl InputAction {
    /// The action that a key triggers on a text input, if any. Ctrl+H is ignored, so
    /// that a Ctrl+Backspace that terminals report as Ctrl+H writes nothing.
    pub fn from_key(key: Key, _config: &()) -> (r: Option<InputAction>)
        ensures
            r == spec_input_action_from_key(key),
    {
        let action = match key {
            Key::Backspace => InputAction::Delete(Magnitude::Char, LineDirection::Left),
            Key::Char(c, m) => {
                if c == 'h' && m.contains(KeyModifiers::control()) {
                    return None;
                }
                InputAction::Write(c)
            },
            Key::Delete(m) => {
                if m.contains(KeyModifiers::control()) {
                    InputAction::Delete(Magnitude::Word, LineDirection::Right)
                } else {
                    InputAction::Delete(Magnitude::Char, LineDirection::Right)
                }
            },
            Key::Home => InputAction::MoveCursor(Magnitude::Line, LineDirection::Left),
            Key::Left(m) => {
                if m.contains(KeyModifiers::control()) {
                    InputAction::MoveCursor(Magnitude::Word, LineDirection::Left)
                } else {
                    InputAction::MoveCursor(Magnitude::Char, LineDirection::Left)
                }
            },
            Key::End => InputAction::MoveCursor(Magnitude::Line, LineDirection::Right),
            Key::Right(m) => {
                if m.contains(KeyModifiers::control()) {
                    InputAction::MoveCursor(Magnitude::Word, LineDirection::Right)
                } else {
                    InputAction::MoveCursor(Magnitude::Char, LineDirection::Right)
                }
            },
            _ => return None,
        };
        Some(action)
    }
}

} // verus!
