//! Keys as the prompts read them, and how terminal key events map to them.

use vstd::prelude::*;

pub use crate::ui::KeyModifiers;

verus! {

/// The code of a key in a terminal key event.
#[derive(Copy, Clone, Debug, PartialEq, Eq, Structural)]
pub enum KeyCode {
    /// Backspace.
    Backspace,
    /// Enter.
    Enter,
    /// Arrow left.
    Left,
    /// Arrow right.
    Right,
    /// Arrow up.
    Up,
    /// Arrow down.
    Down,
    /// Home.
    Home,
    /// End.
    End,
    /// Page up.
    PageUp,
    /// Page down.
    PageDown,
    /// Tab.
    Tab,
    /// Shift+Tab.
    BackTab,
    /// Delete.
    Delete,
    /// Insert.
    Insert,
    /// A function key, by number.
    F(u8),
    /// A character.
    Char(char),
    /// Null.
    Null,
    /// Escape.
    Esc,
}

/// A terminal key event: the key and the modifiers held.
#[derive(Copy, Clone, Debug, PartialEq, Eq, Structural)]
pub struct KeyEvent {
    /// The key.
    pub code: KeyCode,
    /// The modifiers held.
    pub modifiers: KeyModifiers,
}

/// A key press as the prompts read it.
#[derive(Copy, Clone, Debug, PartialEq, Eq, Structural)]
pub enum Key {
    /// The user interrupted the prompt.
    Interrupt,
    /// The user canceled the prompt.
    Cancel,
    /// The user submitted the prompt.
    Submit,
    /// Backspace.
    Backspace,
    /// Tab.
    Tab,
    /// Delete.
    Delete(KeyModifiers),
    /// Home.
    Home,
    /// End.
    End,
    /// Page up.
    PageUp,
    /// Page down.
    PageDown,
    /// Arrow up.
    Up(KeyModifiers),
    /// Arrow down.
    Down(KeyModifiers),
    /// Arrow left.
    Left(KeyModifiers),
    /// Arrow right.
    Right(KeyModifiers),
    /// A character.
    Char(char, KeyModifiers),
    /// Any other key.
    Any(KeyCode, KeyModifiers),
}

/// The key that a terminal event stands for.
pub open spec fn spec_key_from_event(event: KeyEvent) -> Key {
    let m = event.modifiers;
    match event.code {
        KeyCode::Char(c) => if c == 'c' && m.bits == 2 {
            Key::Interrupt
        } else if c == '\n' || c == '\r' {
            Key::Submit
        } else if c == '\t' {
            Key::Tab
        } else {
            Key::Char(c, m)
        },
        KeyCode::Esc => Key::Cancel,
        KeyCode::Enter => Key::Submit,
        KeyCode::Tab => Key::Tab,
        KeyCode::Backspace => Key::Backspace,
        KeyCode::Delete => Key::Delete(m),
        KeyCode::Home => Key::Home,
        KeyCode::End => Key::End,
        KeyCode::Up => Key::Up(m),
        KeyCode::Down => Key::Down(m),
        KeyCode::Left => Key::Left(m),
        KeyCode::Right => Key::Right(m),
        code => Key::Any(code, m),
    }
}

impl Key {
    /// The key that a terminal event stands for: Ctrl+C interrupts, Escape cancels, Enter
    /// (or a line feed or carriage return) submits, and the other keys keep their
    /// modifiers where they carry them.
    pub fn from_event(event: KeyEvent) -> (r: Key)
        ensures
            r == spec_key_from_event(event),
    {
        let m = event.modifiers;
        match event.code {
            KeyCode::Char(c) => {
                if c == 'c' && m.bits == 2 {
                    Key::Interrupt
                } else if c == '\n' || c == '\r' {
                    Key::Submit
                } else if c == '\t' {
                    Key::Tab
                } else {
                    Key::Char(c, m)
                }
            },
            KeyCode::Esc => Key::Cancel,
            KeyCode::Enter => Key::Submit,
            KeyCode::Tab => Key::Tab,
            KeyCode::Backspace => Key::Backspace,
            KeyCode::Delete => Key::Delete(m),
            KeyCode::Home => Key::Home,
            KeyCode::End => Key::End,
            KeyCode::Up => Key::Up(m),
            KeyCode::Down => Key::Down(m),
            KeyCode::Left => Key::Left(m),
            KeyCode::Right => Key::Right(m),
            code => Key::Any(code, m),
        }
    }
}

} // verus!
