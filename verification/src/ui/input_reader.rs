//! Reading the keys a prompt reacts to.

use crate::error::InquireResult;
use crate::ui::Key;
use vstd::prelude::*;

verus! {

/// A source of key presses.
pub trait InputReader: Sized {
    /// Reads the next key press.
    fn read_key(&mut self) -> InquireResult<Key>;
}

} // verus!
