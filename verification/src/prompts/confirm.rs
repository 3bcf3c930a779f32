//! Asking a yes-or-no question.

use super::custom_type::CustomType;
use crate::formatter::{CustomTypeFormatter, DefaultBoolFormatter, DefaultBoolValueFormatter};
use crate::parser::{CustomTypeParser, DefaultBoolParser};
use crate::strings::to_owned_string;
use crate::ui::RenderConfig;
use vstd::prelude::*;

verus! {

/// Message shown when the answer cannot be read as yes or no, by default.
pub const CONFIRM_DEFAULT_ERROR_MESSAGE: &'static str = "Invalid answer, try typing 'y' for yes or 'n' for no";

/// Prompt for a yes-or-no answer: a custom-type prompt for `bool`, whose
/// default parser reads "y", "yes", "n" and "no" in any case and whose default
/// value is shown as "Y/n" or "y/N".
pub struct Confirm<'a> {
    /// Message presented to the user.
    pub message: &'a str,
    /// Answer given when the input is empty.
    pub default: Option<bool>,
    /// Help message.
    pub help_message: Option<&'a str>,
    /// Formats the final answer.
    pub formatter: &'a dyn CustomTypeFormatter<bool>,
    /// Reads the answer from the text.
    pub parser: &'a dyn CustomTypeParser<bool>,
    /// Formats the default value shown beside the prompt.
    pub default_value_formatter: &'a dyn CustomTypeFormatter<bool>,
    /// Message shown when the parser refuses the text.
    pub error_message: String,
}

impl<'a> Confirm<'a> {
    /// A prompt with the given message and the default settings.
    pub fn new(message: &'a str) -> (r: Self)
        ensures
            r.message == message,
            r.default is None,
            r.help_message is None,
            r.error_message@ == CONFIRM_DEFAULT_ERROR_MESSAGE@,
    {
        Confirm {
            message,
            default: None,
            help_message: None,
            formatter: &DefaultBoolFormatter,
            parser: &DefaultBoolParser,
            default_value_formatter: &DefaultBoolValueFormatter,
            error_message: to_owned_string(CONFIRM_DEFAULT_ERROR_MESSAGE),
        }
    }

    /// A prompt with the given message and the default settings, as
    /// [Confirm::new] makes it.
    pub fn from(message: &'a str) -> (r: Self)
        ensures
            r.message == message,
            r.default is None,
            r.help_message is None,
            r.error_message@ == CONFIRM_DEFAULT_ERROR_MESSAGE@,
    {
        Self::new(message)
    }

    /// Sets the answer given when the input is empty.
    pub fn with_default(self, default: bool) -> (r: Self)
        ensures
            r.default == Some(default), r.message == self.message, r.help_message == self.help_message,
            r.error_message == self.error_message,
    {
        let mut s = self;
        s.default = Some(default);
        s
    }

    /// Sets the help message.
    pub fn with_help_message(self, message: &'a str) -> (r: Self)
        ensures
            r.help_message == Some(message), r.message == self.message, r.default == self.default,
            r.error_message == self.error_message,
    {
        let mut s = self;
        s.help_message = Some(message);
        s
    }

    /// Sets the formatter of the answer.
    pub fn with_formatter(self, formatter: &'a dyn CustomTypeFormatter<bool>) -> (r: Self)
        ensures
            r.formatter == formatter,
            r.message == self.message, r.default == self.default, r.help_message == self.help_message,
            r.error_message == self.error_message,
    {
        let mut s = self;
        let mut value = formatter;
        std::mem::swap(&mut s.formatter, &mut value);
        s
    }

    /// Sets the parser.
    pub fn with_parser(self, parser: &'a dyn CustomTypeParser<bool>) -> (r: Self)
        ensures
            r.parser == parser,
            r.message == self.message, r.default == self.default, r.help_message == self.help_message,
            r.error_message == self.error_message,
    {
        let mut s = self;
        let mut value = parser;
        std::mem::swap(&mut s.parser, &mut value);
        s
    }

    /// Sets the formatter of the default value.
    pub fn with_default_value_formatter(self, formatter: &'a dyn CustomTypeFormatter<bool>) -> (r: Self)
        ensures
            r.default_value_formatter == formatter,
            r.message == self.message, r.default == self.default, r.help_message == self.help_message,
            r.error_message == self.error_message,
    {
        let mut s = self;
        let mut value = formatter;
        std::mem::swap(&mut s.default_value_formatter, &mut value);
        s
    }

    /// The custom-type prompt that asks this question.
    pub fn into_custom_type(self) -> (r: CustomType<'a, bool>)
        ensures
            r.message == self.message,
            r.default == self.default,
            r.help_message == self.help_message,
            r.starting_input is None,
            r.placeholder is None,
            r.error_message == self.error_message,
    {
        CustomType {
            message: self.message,
            starting_input: None,
            default: self.default,
            placeholder: None,
            help_message: self.help_message,
            formatter: self.formatter,
            default_value_formatter: self.default_value_formatter,
            parser: self.parser,
            validators: Vec::new(),
            error_message: self.error_message,
            render_config: RenderConfig::default(),
        }
    }
}

} // verus!
