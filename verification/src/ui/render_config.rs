use super::{Color, StyleSheet, Styled};
use vstd::prelude::*;

verus! {

/// Rendering configuration shared by all prompts: the styles and symbols used to
/// draw them.
#[derive(Clone, Debug)]
pub struct RenderConfig {
    /// Prefix added before prompts.
    pub prompt_prefix: Styled<&'static str>,
    /// Style of the prompt message.
    pub prompt: StyleSheet,
    /// Style of the default value, when shown.
    pub default_value: StyleSheet,
    /// Style of the placeholder of text inputs.
    pub placeholder: StyleSheet,
    /// Style of the cursor over a placeholder.
    pub placeholder_cursor: StyleSheet,
    /// Style of the help message.
    pub help_message: StyleSheet,
    /// Character shown in place of each password character when masked.
    pub password_mask: char,
    /// Render configuration of text inputs.
    pub text_input: InputRenderConfig,
    /// Style of the final answer.
    pub answer: StyleSheet,
    /// Render configuration of error messages.
    pub error_message: ErrorMessageRenderConfig,
    /// Prefix of the highlighted option.
    pub option_prefix: Styled<&'static str>,
    /// Checkbox of a selected option.
    pub selected_checkbox: Styled<&'static str>,
    /// Checkbox of an unselected option.
    pub unselected_checkbox: Styled<&'static str>,
    /// Style of options.
    pub option: StyleSheet,
    /// Render configuration of calendars.
    pub calendar: CalendarRenderConfig,
}

/// A stylesheet with no colors and no attributes.
pub open spec fn spec_empty_sheet() -> StyleSheet {
    StyleSheet { fg: None, bg: None, att: super::Attributes { bits: 0 } }
}

/// A stylesheet with only a foreground color.
pub open spec fn spec_fg_sheet(c: Color) -> StyleSheet {
    StyleSheet { fg: Some(c), ..spec_empty_sheet() }
}

/// An unstyled content.
pub open spec fn spec_plain<T>(content: T) -> Styled<T> {
    Styled { content, fg: None, bg: None, att: super::Attributes { bits: 0 } }
}

impl RenderConfig {
    /// A configuration without any color or attribute.
    pub fn empty() -> (r: Self)
        ensures
            r.prompt_prefix == spec_plain("?"),
            r.prompt == spec_empty_sheet(),
            r.default_value == spec_empty_sheet(),
            r.placeholder == spec_empty_sheet(),
            r.placeholder_cursor == spec_empty_sheet(),
            r.help_message == spec_empty_sheet(),
            r.password_mask == '*',
            r.text_input == InputRenderConfig::spec_empty(),
            r.answer == spec_empty_sheet(),
            r.error_message == ErrorMessageRenderConfig::spec_empty(),
            r.option_prefix == spec_plain(">"),
            r.selected_checkbox == spec_plain("[x]"),
            r.unselected_checkbox == spec_plain("[ ]"),
            r.option == spec_empty_sheet(),
            r.calendar == CalendarRenderConfig::spec_empty(),
    {
        Self {
            prompt_prefix: Styled::new("?"),
            prompt: StyleSheet::empty(),
            default_value: StyleSheet::empty(),
            placeholder: StyleSheet::empty(),
            placeholder_cursor: StyleSheet::empty(),
            help_message: StyleSheet::empty(),
            text_input: InputRenderConfig::empty(),
            error_message: ErrorMessageRenderConfig::empty(),
            answer: StyleSheet::empty(),
            password_mask: '*',
            option_prefix: Styled::new(">"),
            selected_checkbox: Styled::new("[x]"),
            unselected_checkbox: Styled::new("[ ]"),
            option: StyleSheet::empty(),
            calendar: CalendarRenderConfig::empty(),
        }
    }

    /// The same configuration with another `prompt_prefix`.
    pub fn with_prompt_prefix(self, prompt_prefix: Styled<&'static str>) -> (r: Self)
        ensures
            r == (RenderConfig { prompt_prefix, ..self }),
    {
        let mut s = self;
        s.prompt_prefix = prompt_prefix;
        s
    }

    /// The same configuration with another `text_input`.
    pub fn with_text_input(self, text_input: InputRenderConfig) -> (r: Self)
        ensures
            r == (RenderConfig { text_input, ..self }),
    {
        let mut s = self;
        s.text_input = text_input;
        s
    }

    /// The same configuration with another `default_value`.
    pub fn with_default_value(self, default_value: StyleSheet) -> (r: Self)
        ensures
            r == (RenderConfig { default_value, ..self }),
    {
        let mut s = self;
        s.default_value = default_value;
        s
    }

    /// The same configuration with another `help_message`.
    pub fn with_help_message(self, help_message: StyleSheet) -> (r: Self)
        ensures
            r == (RenderConfig { help_message, ..self }),
    {
        let mut s = self;
        s.help_message = help_message;
        s
    }

    /// The same configuration with another `answer`.
    pub fn with_answer(self, answer: StyleSheet) -> (r: Self)
        ensures
            r == (RenderConfig { answer, ..self }),
    {
        let mut s = self;
        s.answer = answer;
        s
    }

    /// The same configuration with another `error_message`.
    pub fn with_error_message(self, error_message: ErrorMessageRenderConfig) -> (r: Self)
        ensures
            r == (RenderConfig { error_message, ..self }),
    {
        let mut s = self;
        s.error_message = error_message;
        s
    }

    /// The same configuration with another `option_prefix`.
    pub fn with_option_prefix(self, option_prefix: Styled<&'static str>) -> (r: Self)
        ensures
            r == (RenderConfig { option_prefix, ..self }),
    {
        let mut s = self;
        s.option_prefix = option_prefix;
        s
    }

    /// The same configuration with another `selected_checkbox`.
    pub fn with_selected_checkbox(self, selected_checkbox: Styled<&'static str>) -> (r: Self)
        ensures
            r == (RenderConfig { selected_checkbox, ..self }),
    {
        let mut s = self;
        s.selected_checkbox = selected_checkbox;
        s
    }

    /// The same configuration with another `unselected_checkbox`.
    pub fn with_unselected_checkbox(self, unselected_checkbox: Styled<&'static str>) -> (r: Self)
        ensures
            r == (RenderConfig { unselected_checkbox, ..self }),
    {
        let mut s = self;
        s.unselected_checkbox = unselected_checkbox;
        s
    }

    /// The same configuration with another `option`.
    pub fn with_option(self, option: StyleSheet) -> (r: Self)
        ensures
            r == (RenderConfig { option, ..self }),
    {
        let mut s = self;
        s.option = option;
        s
    }

    /// The same configuration with another `calendar`.
    pub fn with_calendar_config(self, calendar: CalendarRenderConfig) -> (r: Self)
        ensures
            r == (RenderConfig { calendar, ..self }),
    {
        let mut s = self;
        s.calendar = calendar;
        s
    }

}

impl Default for RenderConfig {
    /// The colored configuration.
    fn default() -> (r: Self)
        ensures
            r.prompt_prefix == (Styled { fg: Some(Color::LightGreen), ..spec_plain("?") }),
            r.prompt == spec_empty_sheet(),
            r.default_value == spec_empty_sheet(),
            r.placeholder == spec_fg_sheet(Color::DarkGrey),
            r.placeholder_cursor == (StyleSheet { bg: Some(Color::DarkGrey), ..spec_fg_sheet(Color::Black) }),
            r.help_message == spec_fg_sheet(Color::LightCyan),
            r.password_mask == '*',
            r.text_input == InputRenderConfig::spec_default(),
            r.answer == spec_fg_sheet(Color::LightCyan),
            r.error_message == ErrorMessageRenderConfig::spec_default(),
            r.option_prefix == (Styled { fg: Some(Color::LightCyan), ..spec_plain(">") }),
            r.selected_checkbox == (Styled { fg: Some(Color::LightGreen), ..spec_plain("[x]") }),
            r.unselected_checkbox == spec_plain("[ ]"),
            r.option == spec_empty_sheet(),
            r.calendar == CalendarRenderConfig::spec_default(),
    {
        Self {
            prompt_prefix: Styled::new("?").with_fg(Color::LightGreen),
            prompt: StyleSheet::empty(),
            default_value: StyleSheet::empty(),
            placeholder: StyleSheet::empty().with_fg(Color::DarkGrey),
            placeholder_cursor: StyleSheet::empty().with_fg(Color::Black).with_bg(Color::DarkGrey),
            help_message: StyleSheet::empty().with_fg(Color::LightCyan),
            text_input: InputRenderConfig::default(),
            error_message: ErrorMessageRenderConfig::default(),
            password_mask: '*',
            answer: StyleSheet::empty().with_fg(Color::LightCyan),
            option_prefix: Styled::new(">").with_fg(Color::LightCyan),
            selected_checkbox: Styled::new("[x]").with_fg(Color::LightGreen),
            unselected_checkbox: Styled::new("[ ]"),
            option: StyleSheet::empty(),
            calendar: CalendarRenderConfig::default(),
        }
    }
}

/// Render configuration of text inputs.
#[derive(Copy, Clone, Debug, PartialEq, Eq, Structural)]
pub struct InputRenderConfig {
    /// Style of the text.
    pub text: StyleSheet,
    /// Style of the cursor.
    pub cursor: StyleSheet,
}

impl InputRenderConfig {
    /// The configuration without colors.
    pub open spec fn spec_empty() -> Self {
        InputRenderConfig { text: spec_empty_sheet(), cursor: spec_empty_sheet() }
    }

    /// The colored configuration.
    pub open spec fn spec_default() -> Self {
        InputRenderConfig { text: spec_empty_sheet(), cursor: StyleSheet { bg: Some(Color::Grey), ..spec_fg_sheet(Color::Black) } }
    }

    /// The configuration without colors.
    pub fn empty() -> (r: Self)
        ensures
            r == Self::spec_empty(),
    {
        Self { text: StyleSheet::empty(), cursor: StyleSheet::empty() }
    }

    /// The same configuration with another text style.
    pub fn with_text(self, text: StyleSheet) -> (r: Self)
        ensures
            r == (InputRenderConfig { text, ..self }),
    {
        let mut s = self;
        s.text = text;
        s
    }

    /// The same configuration with another cursor style.
    pub fn with_cursor(self, cursor: StyleSheet) -> (r: Self)
        ensures
            r == (InputRenderConfig { cursor, ..self }),
    {
        let mut s = self;
        s.cursor = cursor;
        s
    }
}

impl Default for InputRenderConfig {
    /// The colored configuration.
    fn default() -> (r: Self)
        ensures
            r == Self::spec_default(),
    {
        Self { text: StyleSheet::empty(), cursor: StyleSheet::empty().with_bg(Color::Grey).with_fg(Color::Black) }
    }
}

/// Render configuration of error messages.
#[derive(Copy, Clone, Debug, PartialEq, Eq)]
pub struct ErrorMessageRenderConfig {
    /// Prefix of the message.
    pub prefix: Styled<&'static str>,
    /// Style of the separator between prefix and message.
    pub separator: StyleSheet,
    /// Style of the message.
    pub message: StyleSheet,
}

impl ErrorMessageRenderConfig {
    /// The configuration without colors.
    pub open spec fn spec_empty() -> Self {
        ErrorMessageRenderConfig { prefix: spec_plain("#"), separator: spec_empty_sheet(), message: spec_empty_sheet() }
    }

    /// The colored configuration.
    pub open spec fn spec_default() -> Self {
        ErrorMessageRenderConfig {
            prefix: Styled { fg: Some(Color::LightRed), ..spec_plain("#") },
            separator: spec_empty_sheet(),
            message: spec_fg_sheet(Color::LightRed),
        }
    }

    /// The configuration without colors.
    pub fn empty() -> (r: Self)
        ensures
            r == Self::spec_empty(),
    {
        Self { prefix: Styled::new("#"), separator: StyleSheet::empty(), message: StyleSheet::empty() }
    }

    /// The same configuration with another prefix.
    pub fn with_prefix(self, prefix: Styled<&'static str>) -> (r: Self)
        ensures
            r == (ErrorMessageRenderConfig { prefix, ..self }),
    {
        let mut s = self;
        s.prefix = prefix;
        s
    }

    /// The same configuration with another separator style.
    pub fn with_separator(self, separator: StyleSheet) -> (r: Self)
        ensures
            r == (ErrorMessageRenderConfig { separator, ..self }),
    {
        let mut s = self;
        s.separator = separator;
        s
    }

    /// The same configuration with another message style.
    pub fn with_message(self, message: StyleSheet) -> (r: Self)
        ensures
            r == (ErrorMessageRenderConfig { message, ..self }),
    {
        let mut s = self;
        s.message = message;
        s
    }
}

impl Default for ErrorMessageRenderConfig {
    /// The colored configuration.
    fn default() -> (r: Self)
        ensures
            r == Self::spec_default(),
    {
        Self {
            prefix: Styled::new("#").with_fg(Color::LightRed),
            separator: StyleSheet::empty(),
            message: StyleSheet::empty().with_fg(Color::LightRed),
        }
    }
}

/// Render configuration of calendars.
#[derive(Copy, Clone, Debug, PartialEq, Eq)]
pub struct CalendarRenderConfig {
    /// Prefix of each calendar line.
    pub prefix: Styled<&'static str>,
    /// Style of the month header.
    pub header: StyleSheet,
    /// Style of the week-day header.
    pub week_header: StyleSheet,
    /// Style of the selected date.
    pub selected_date: StyleSheet,
    /// Style of today's date.
    pub today_date: StyleSheet,
    /// Style of dates of another month.
    pub different_month_date: StyleSheet,
    /// Style of dates that cannot be selected.
    pub unavailable_date: StyleSheet,
}

impl CalendarRenderConfig {
    /// The configuration without colors.
    pub open spec fn spec_empty() -> Self {
        CalendarRenderConfig {
            prefix: spec_plain(">"),
            header: spec_empty_sheet(),
            week_header: spec_empty_sheet(),
            selected_date: spec_empty_sheet(),
            today_date: spec_empty_sheet(),
            different_month_date: spec_empty_sheet(),
            unavailable_date: spec_empty_sheet(),
        }
    }

    /// The colored configuration.
    pub open spec fn spec_default() -> Self {
        CalendarRenderConfig {
            prefix: Styled { fg: Some(Color::LightGreen), ..spec_plain(">") },
            header: spec_empty_sheet(),
            week_header: spec_empty_sheet(),
            selected_date: StyleSheet { bg: Some(Color::Grey), ..spec_fg_sheet(Color::Black) },
            today_date: spec_fg_sheet(Color::LightGreen),
            different_month_date: spec_fg_sheet(Color::DarkGrey),
            unavailable_date: spec_fg_sheet(Color::DarkGrey),
        }
    }

    /// The configuration without colors.
    pub fn empty() -> (r: Self)
        ensures
            r == Self::spec_empty(),
    {
        Self {
            prefix: Styled::new(">"),
            header: StyleSheet::empty(),
            week_header: StyleSheet::empty(),
            selected_date: StyleSheet::empty(),
            today_date: StyleSheet::empty(),
            different_month_date: StyleSheet::empty(),
            unavailable_date: StyleSheet::empty(),
        }
    }

    /// The same configuration with another prefix.
    pub fn with_prefix(self, prefix: Styled<&'static str>) -> (r: Self)
        ensures
            r == (CalendarRenderConfig { prefix, ..self }),
    {
        let mut s = self;
        s.prefix = prefix;
        s
    }
}

impl Default for CalendarRenderConfig {
    /// The colored configuration.
    fn default() -> (r: Self)
        ensures
            r == Self::spec_default(),
    {
        Self {
            prefix: Styled::new(">").with_fg(Color::LightGreen),
            header: StyleSheet::empty(),
            week_header: StyleSheet::empty(),
            selected_date: StyleSheet::empty().with_fg(Color::Black).with_bg(Color::Grey),
            today_date: StyleSheet::empty().with_fg(Color::LightGreen),
            different_month_date: StyleSheet::empty().with_fg(Color::DarkGrey),
            unavailable_date: StyleSheet::empty().with_fg(Color::DarkGrey),
        }
    }
}

} // verus!
