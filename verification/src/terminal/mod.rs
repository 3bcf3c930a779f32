//! Terminals that prompts draw on: what a back-end must offer, and the
//! crossterm-based implementation.

pub mod crossterm;

use crate::error::InquireResult;
use crate::key::Key;
use crate::ui::{Attributes, Color, Styled};
use vstd::prelude::*;

pub use self::crossterm::CrosstermTerminal;

verus! {

/// Size of a terminal, in columns and rows.
#[derive(Copy, Clone, Debug, PartialEq, Eq, Structural)]
pub struct TerminalSize {
    /// Number of columns.
    pub width: u16,
    /// Number of rows.
    pub height: u16,
}

/// The operations of a terminal that prompts draw on.
pub trait Terminal: Sized {
    /// Moves the cursor up `cnt` lines.
    fn cursor_up(&mut self, cnt: u16) -> std::io::Result<()>;
    /// Moves the cursor down `cnt` lines.
    fn cursor_down(&mut self, cnt: u16) -> std::io::Result<()>;
    /// Moves the cursor to column `idx`, counted from zero.
    fn cursor_move_to_column(&mut self, idx: u16) -> std::io::Result<()>;
    /// Reads the next key press, when this terminal has its keys at hand.
    fn read_key(&mut self) -> std::io::Result<Option<Key>>;
    /// Flushes what was written.
    fn flush(&mut self) -> std::io::Result<()>;
    /// Everything written since the content was last cleared.
    fn get_in_memory_content(&self) -> &str;
    /// Forgets the content written so far.
    fn clear_in_memory_content(&mut self);
    /// Writes text.
    fn write(&mut self, val: &str) -> std::io::Result<()>;
    /// Writes text with its colors and attributes.
    fn write_styled(&mut self, val: &Styled<&str>) -> std::io::Result<()>;
    /// Clears the line the cursor is on.
    fn clear_current_line(&mut self) -> std::io::Result<()>;
    /// Hides the cursor.
    fn cursor_hide(&mut self) -> std::io::Result<()>;
    /// Shows the cursor.
    fn cursor_show(&mut self) -> std::io::Result<()>;
    /// Turns on the given attributes.
    fn set_attributes(&mut self, attributes: Attributes) -> std::io::Result<()>;
    /// Turns off every attribute.
    fn reset_attributes(&mut self) -> std::io::Result<()>;
    /// Sets the foreground color.
    fn set_fg_color(&mut self, color: Color) -> std::io::Result<()>;
    /// Restores the default foreground color.
    fn reset_fg_color(&mut self) -> std::io::Result<()>;
    /// Sets the background color.
    fn set_bg_color(&mut self, color: Color) -> std::io::Result<()>;
    /// Restores the default background color.
    fn reset_bg_color(&mut self) -> std::io::Result<()>;
}

/// The terminal that prompts use by default: a crossterm terminal on standard
/// output, whose keys the caller reads and whose output the caller sends.
pub fn get_default_terminal() -> (r: InquireResult<CrosstermTerminal>)
    ensures
        r matches Ok(t) && t.spec_output() == Seq::<char>::empty() && t.spec_in_memory() == Seq::<char>::empty()
            && !t.spec_has_keys(),
{
    Ok(CrosstermTerminal::new())
}

} // verus!
