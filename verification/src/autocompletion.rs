//! Auto-completion of the text typed in an input.

use crate::error::CustomUserError;
use vstd::prelude::*;

verus! {

/// What an auto-completion does to the text input: `None` leaves it, and
/// `Some(text)` replaces it with `text`.
pub type Replacement = Option<String>;

/// Suggestions and completions for the text typed, kept up to date as the
/// text changes. Implemented by the users of the library.
pub trait AutoComplete {
    /// Takes note of the text typed now.
    fn update_input(&mut self, input: &str) -> Result<(), CustomUserError>;

    /// The suggestions for the text typed.
    fn get_suggestions(&self) -> Result<Vec<String>, CustomUserError>;

    /// The completion to make, given the highlighted suggestion (its index and
    /// text) if any.
    fn get_completion(&self, selected_suggestion: Option<(usize, &str)>) -> Result<Replacement, CustomUserError>;
}

} // verus!
