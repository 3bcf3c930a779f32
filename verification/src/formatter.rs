//! Formatters: how an answer is shown to the user once the prompt is submitted.

use crate::answer::{join_values, spec_join_values, OptionAnswer};
use crate::list_option::ListOption;
use crate::strings::to_owned_string;
use vstd::prelude::*;

verus! {

/// Formats a text answer.
pub trait StringFormatter {
    /// Whether `text` is what the formatter shows for `value`; unless the
    /// formatter says more, nothing is known of it.
    closed spec fn spec_formats(&self, value: Seq<char>, text: Seq<char>) -> bool {
        true
    }

    /// The text shown for `value`.
    fn format(&self, value: &str) -> (r: String)
        ensures
            self.spec_formats(value@, r@),
    ;
}

/// Formats a yes-or-no answer.
pub trait BoolFormatter {
    /// Whether `text` is what the formatter shows for `value`; unless the
    /// formatter says more, nothing is known of it.
    closed spec fn spec_formats(&self, value: bool, text: Seq<char>) -> bool {
        true
    }

    /// The text shown for `value`.
    fn format(&self, value: bool) -> (r: String)
        ensures
            self.spec_formats(value, r@),
    ;
}

/// Formats the option selected in a select prompt.
pub trait OptionFormatter<T> {
    /// Whether `text` is what the formatter shows for `option`; unless the
    /// formatter says more, nothing is known of it.
    closed spec fn spec_formats(&self, option: ListOption<&T>, text: Seq<char>) -> bool {
        true
    }

    /// The text shown for `option`.
    fn format(&self, option: ListOption<&T>) -> (r: String)
        ensures
            self.spec_formats(option, r@),
    ;
}

/// Formats the options selected in a multi-select prompt.
pub trait MultiOptionFormatter {
    /// Whether `text` is what the formatter shows for `options`; unless the
    /// formatter says more, nothing is known of it.
    closed spec fn spec_formats(&self, options: Seq<OptionAnswer>, text: Seq<char>) -> bool {
        true
    }

    /// The text shown for `options`.
    fn format(&self, options: &[OptionAnswer]) -> (r: String)
        ensures
            self.spec_formats(options@, r@),
    ;
}

/// Shows a text answer as it is.
#[derive(Copy, Clone, Debug)]
pub struct DefaultStringFormatter;

impl DefaultStringFormatter {
    /// The answer itself.
    pub fn format_value(&self, value: &str) -> (r: String)
        ensures
            r@ == value@,
    {
        to_owned_string(value)
    }
}

impl StringFormatter for DefaultStringFormatter {
    open spec fn spec_formats(&self, value: Seq<char>, text: Seq<char>) -> bool {
        text == value
    }

    fn format(&self, value: &str) -> (r: String) {
        self.format_value(value)
    }
}

/// Shows `true` as "Yes" and `false` as "No".
#[derive(Copy, Clone, Debug)]
pub struct DefaultBoolFormatter;

impl DefaultBoolFormatter {
    /// "Yes" or "No".
    pub fn format_value(&self, value: bool) -> (r: String)
        ensures
            r@ == (if value { "Yes"@ } else { "No"@ }),
    {
        if value { to_owned_string("Yes") } else { to_owned_string("No") }
    }
}

impl BoolFormatter for DefaultBoolFormatter {
    open spec fn spec_formats(&self, value: bool, text: Seq<char>) -> bool {
        text == (if value { "Yes"@ } else { "No"@ })
    }

    fn format(&self, value: bool) -> (r: String) {
        self.format_value(value)
    }
}

/// Shows the selected option by its string value.
#[derive(Copy, Clone, Debug)]
pub struct DefaultOptionFormatter;

impl<T: std::fmt::Display> OptionFormatter<T> for DefaultOptionFormatter {
    open spec fn spec_formats(&self, option: ListOption<&T>, text: Seq<char>) -> bool {
        exists|s: String| s@ == text && #[trigger] vstd::string::to_string_from_display_ensures::<T>(option.value, s)
    }

    fn format(&self, option: ListOption<&T>) -> (r: String)
        ensures
            vstd::string::to_string_from_display_ensures::<T>(option.value, r),
    {
        let r = option.value.to_string();
        assert(vstd::string::to_string_from_display_ensures::<T>(option.value, r));
        r
    }
}

/// Shows the selected options by their values, joined by ", ".
#[derive(Copy, Clone, Debug)]
pub struct DefaultMultiOptionFormatter;

impl DefaultMultiOptionFormatter {
    /// The values joined by ", ".
    pub fn format_values(&self, options: &[OptionAnswer]) -> (r: String)
        ensures
            r@ == spec_join_values(options@),
    {
        join_values(options)
    }
}

impl MultiOptionFormatter for DefaultMultiOptionFormatter {
    open spec fn spec_formats(&self, options: Seq<OptionAnswer>, text: Seq<char>) -> bool {
        text == spec_join_values(options)
    }

    fn format(&self, options: &[OptionAnswer]) -> (r: String) {
        self.format_values(options)
    }
}

} // verus!

verus! {

/// Formats a value of a custom type.
pub trait CustomTypeFormatter<T> {
    /// Whether `text` is what the formatter shows for `value`; unless the
    /// formatter says more, nothing is known of it.
    closed spec fn spec_formats(&self, value: T, text: Seq<char>) -> bool {
        true
    }

    /// The text shown for `value`.
    fn format(&self, value: &T) -> (r: String)
        ensures
            self.spec_formats(*value, r@),
    ;
}

/// Shows a value as its `Display` implementation does.
#[derive(Copy, Clone, Debug)]
pub struct DisplayFormatter;

impl<T: std::fmt::Display> CustomTypeFormatter<T> for DisplayFormatter {
    open spec fn spec_formats(&self, value: T, text: Seq<char>) -> bool {
        exists|s: String| s@ == text && #[trigger] vstd::string::to_string_from_display_ensures::<T>(&value, s)
    }

    fn format(&self, value: &T) -> (r: String)
        ensures
            vstd::string::to_string_from_display_ensures::<T>(value, r),
    {
        let r = value.to_string();
        assert(vstd::string::to_string_from_display_ensures::<T>(value, r));
        r
    }
}

/// Shows the default of a yes-or-no prompt as "Y/n" (yes) or "y/N" (no).
#[derive(Copy, Clone, Debug)]
pub struct DefaultBoolValueFormatter;

impl DefaultBoolValueFormatter {
    /// "Y/n" or "y/N".
    pub fn format_default(&self, value: bool) -> (r: String)
        ensures
            r@ == (if value { "Y/n"@ } else { "y/N"@ }),
    {
        if value { to_owned_string("Y/n") } else { to_owned_string("y/N") }
    }
}

impl CustomTypeFormatter<bool> for DefaultBoolValueFormatter {
    open spec fn spec_formats(&self, value: bool, text: Seq<char>) -> bool {
        text == (if value { "Y/n"@ } else { "y/N"@ })
    }

    fn format(&self, value: &bool) -> (r: String) {
        self.format_default(*value)
    }
}

impl CustomTypeFormatter<bool> for DefaultBoolFormatter {
    open spec fn spec_formats(&self, value: bool, text: Seq<char>) -> bool {
        text == (if value { "Yes"@ } else { "No"@ })
    }

    fn format(&self, value: &bool) -> (r: String) {
        self.format_value(*value)
    }
}

} // verus!
