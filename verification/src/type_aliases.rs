//! Callbacks that prompts call: option filters.

use crate::strings::{spec_contains, spec_to_lowercase, str_contains, to_lowercase};
use vstd::prelude::*;

verus! {

/// Decides which options stay displayed while the user types a filter.
///
/// It receives the current filter value, the option itself, its string value and
/// its index in the original list, and tells whether the option is displayed.
pub trait Filter<T> {
    /// The decision, as a function of the arguments.
    spec fn spec_filter(&self, filter: Seq<char>, option: T, string_value: Seq<char>, index: usize) -> bool;

    /// Whether the option is displayed for the current filter value.
    fn filter(&self, filter: &str, option: &T, string_value: &str, index: usize) -> (r: bool)
        ensures
            r == self.spec_filter(filter@, *option, string_value@, index),
    ;
}

/// The default filter: an option is displayed when the filter value, lower-cased,
/// occurs in the option's lower-cased string value.
#[derive(Copy, Clone, Debug)]
pub struct DefaultFilter;

/// Whether the lower-cased `filter` occurs in the lower-cased `value`.
pub open spec fn spec_default_filter(filter: Seq<char>, value: Seq<char>) -> bool {
    spec_contains(spec_to_lowercase(value), spec_to_lowercase(filter))
}

/// The default filter ignores case, of the typed text and of the option: texts
/// that are the same once lower-cased keep the same options.
pub proof fn law_default_filter_ignores_case(filter: Seq<char>, other_filter: Seq<char>, value: Seq<char>, other_value: Seq<char>)
    requires
        spec_to_lowercase(filter) == spec_to_lowercase(other_filter),
        spec_to_lowercase(value) == spec_to_lowercase(other_value),
    ensures
        spec_default_filter(filter, value) == spec_default_filter(other_filter, other_value),
{
}

/// The default filter keeps an option exactly when the lower-cased typed text
/// occurs at some position of the lower-cased string value of the option.
pub proof fn law_default_filter_finds_lowercased_text(filter: Seq<char>, value: Seq<char>)
    ensures
        spec_default_filter(filter, value) <==> exists|i: int| 0 <= i
            && i + spec_to_lowercase(filter).len() <= spec_to_lowercase(value).len()
            && #[trigger] spec_to_lowercase(value).subrange(i, i + spec_to_lowercase(filter).len()) == spec_to_lowercase(filter),
{
}

impl<T> Filter<T> for DefaultFilter {
    open spec fn spec_filter(&self, filter: Seq<char>, option: T, string_value: Seq<char>, index: usize) -> bool {
        spec_default_filter(filter, string_value)
    }

    fn filter(&self, filter: &str, option: &T, string_value: &str, index: usize) -> (r: bool) {
        let filter = to_lowercase(filter);
        let value = to_lowercase(string_value);
        str_contains(value.as_str(), filter.as_str())
    }
}

} // verus!

verus! {

/// Suggests completions for the text typed so far.
pub trait Suggester {
    /// The suggestions for `input`.
    fn suggest(&self, input: &str) -> Vec<String>;
}

} // verus!
