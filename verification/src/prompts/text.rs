//! Asking for a line of text, with optional suggestions.

use super::{keys_of, lemma_ran_empty, lemma_ran_push, ran, KeyDriven, PromptStep, DEFAULT_PAGE_SIZE};
use crate::error::{CustomUserError, InquireError, InquireResult};
use crate::formatter::{DefaultStringFormatter, StringFormatter};
use crate::key::{spec_key_from_event, Key, KeyModifiers};
use crate::strings::to_owned_string;
use crate::terminal::crossterm::spec_unix2dos;
use crate::text_input::{spec_can_handle_key, spec_handle_key, Input, TextInputModel};
use crate::type_aliases::Suggester;
use crate::ui::backend::{error_line_text, help_line_text, list_text, newline_text, prompt_line_text, Backend, CommonBackend, TextBackend};
use crate::ui::RenderConfig;
use crate::validator::{lemma_first_refusal_skip, message_of, spec_first_refusal, ErrorMessage, StringValidator, Validation, Verdict};
use vstd::prelude::*;

verus! {

/// Help message shown while suggestions are displayed and no other is set.
pub const TEXT_SUGGESTIONS_HELP_MESSAGE: &'static str = "↑↓ to move, tab to auto-complete, enter to submit";

/// Message shown when a validator refuses the input without saying why.
pub const DEFAULT_ERROR_MESSAGE: &'static str = "Invalid input";

/// Prompt for a line of text.
///
/// An empty answer is replaced by the default value, if one is set; otherwise
/// every validator must accept the text. Suggestions, when a suggester is set,
/// are listed below the input and can be moved through with the arrows, which
/// puts the highlighted suggestion in the input.
pub struct Text<'a> {
    /// Message presented to the user.
    pub message: &'a str,
    /// Text the input starts with.
    pub initial_value: Option<&'a str>,
    /// Answer given when the input is empty.
    pub default: Option<&'a str>,
    /// Text shown while the input is empty.
    pub placeholder: Option<&'a str>,
    /// Help message.
    pub help_message: Option<&'a str>,
    /// Formats the final answer.
    pub formatter: &'a dyn StringFormatter,
    /// Validators of the answer, applied in order.
    pub validators: Vec<&'a dyn StringValidator>,
    /// Number of suggestions displayed at once.
    pub page_size: usize,
    /// Suggests completions.
    pub suggester: Option<&'a dyn Suggester>,
    /// How the prompt is drawn.
    pub render_config: RenderConfig,
}

impl<'a> Text<'a> {
    /// Whether the settings that builders do not change are those of `other`.
    pub open spec fn same_base(&self, other: &Self) -> bool {
        self.message == other.message
    }

    /// A prompt with the given message and the default settings: no initial
    /// value, default, placeholder, help message, validator or suggester.
    pub fn new(message: &'a str) -> (r: Self)
        ensures
            r.message == message,
            r.initial_value is None,
            r.default is None,
            r.placeholder is None,
            r.help_message is None,
            r.page_size == DEFAULT_PAGE_SIZE,
            r.suggester is None,
    {
        Text {
            message,
            initial_value: None,
            default: None,
            placeholder: None,
            help_message: None,
            formatter: &DefaultStringFormatter,
            validators: Vec::new(),
            page_size: DEFAULT_PAGE_SIZE,
            suggester: None,
            render_config: RenderConfig::default(),
        }
    }

    /// Sets the help message.
    pub fn with_help_message(self, message: &'a str) -> (r: Self)
        ensures
            r.help_message == Some(message), r.same_base(&self),
            r.initial_value == self.initial_value, r.default == self.default,
            r.placeholder == self.placeholder, r.page_size == self.page_size,
    {
        let mut s = self;
        s.help_message = Some(message);
        s
    }

    /// Sets the text the input starts with.
    pub fn with_initial_value(self, message: &'a str) -> (r: Self)
        ensures
            r.initial_value == Some(message), r.same_base(&self),
            r.help_message == self.help_message, r.default == self.default,
            r.placeholder == self.placeholder, r.page_size == self.page_size,
    {
        let mut s = self;
        s.initial_value = Some(message);
        s
    }

    /// Sets the answer given when the input is empty.
    pub fn with_default(self, message: &'a str) -> (r: Self)
        ensures
            r.default == Some(message), r.same_base(&self),
            r.help_message == self.help_message, r.initial_value == self.initial_value,
            r.placeholder == self.placeholder, r.page_size == self.page_size,
    {
        let mut s = self;
        s.default = Some(message);
        s
    }

    /// Sets the text shown while the input is empty.
    pub fn with_placeholder(self, placeholder: &'a str) -> (r: Self)
        ensures
            r.placeholder == Some(placeholder), r.same_base(&self),
            r.help_message == self.help_message, r.initial_value == self.initial_value,
            r.default == self.default, r.page_size == self.page_size,
    {
        let mut s = self;
        s.placeholder = Some(placeholder);
        s
    }

    /// Sets the suggester.
    pub fn with_suggester(self, suggester: &'a dyn Suggester) -> (r: Self)
        ensures
            r.suggester is Some, r.same_base(&self),
            r.help_message == self.help_message, r.initial_value == self.initial_value,
            r.default == self.default, r.placeholder == self.placeholder, r.page_size == self.page_size,
    {
        let mut s = self;
        s.suggester = Some(suggester);
        s
    }

    /// Sets the formatter.
    pub fn with_formatter(self, formatter: &'a dyn StringFormatter) -> (r: Self)
        ensures
            r.formatter == formatter,
            r.same_base(&self),
            r.help_message == self.help_message, r.initial_value == self.initial_value,
            r.default == self.default, r.placeholder == self.placeholder, r.page_size == self.page_size,
    {
        let mut s = self;
        let mut value = formatter;
        std::mem::swap(&mut s.formatter, &mut value);
        s
    }

    /// Sets the number of suggestions displayed at once.
    pub fn with_page_size(self, page_size: usize) -> (r: Self)
        ensures
            r.page_size == page_size, r.same_base(&self),
            r.help_message == self.help_message, r.initial_value == self.initial_value,
            r.default == self.default, r.placeholder == self.placeholder,
    {
        let mut s = self;
        s.page_size = page_size;
        s
    }

    /// Adds a validator, applied after those already set.
    pub fn with_validator(self, validator: &'a dyn StringValidator) -> (r: Self)
        ensures
            r.validators@ == self.validators@.push(validator),
            r.message == self.message,
            r.help_message == self.help_message, r.initial_value == self.initial_value,
            r.default == self.default, r.placeholder == self.placeholder, r.page_size == self.page_size,
    {
        let mut s = self;
        s.validators.push(validator);
        s
    }

    /// Adds validators, in order, after those already set.
    pub fn with_validators(self, validators: &[&'a dyn StringValidator]) -> (r: Self)
        ensures
            r.validators@ == self.validators@ + validators@,
            r.message == self.message,
            r.help_message == self.help_message, r.initial_value == self.initial_value,
            r.default == self.default, r.placeholder == self.placeholder, r.page_size == self.page_size,
    {
        let mut s = self;
        s.validators.extend_from_slice(validators);
        proof {
            assert forall|k: int| 0 <= k < s.validators@.len() implies #[trigger] s.validators@[k]
                == (self.validators@ + validators@)[k] by {
                if k >= self.validators@.len() {
                    let j = k - self.validators@.len();
                    assert(cloned::<&'a dyn StringValidator>(validators@[j], s.validators@[k]));
                }
            }
            assert(s.validators@ =~= self.validators@ + validators@);
        }
        s
    }

    /// Sets how the prompt is drawn.
    pub fn with_render_config(self, render_config: RenderConfig) -> (r: Self)
        ensures
            r.render_config == render_config, r.same_base(&self),
            r.help_message == self.help_message, r.initial_value == self.initial_value,
            r.default == self.default, r.placeholder == self.placeholder, r.page_size == self.page_size,
    {
        let mut s = self;
        s.render_config = render_config;
        s
    }
}

/// The text shown for a refused answer.
pub open spec fn spec_error_text(msg: ErrorMessage) -> Seq<char> {
    match msg {
        ErrorMessage::Custom(s) => s@,
        ErrorMessage::Default => DEFAULT_ERROR_MESSAGE@,
    }
}

/// The running state of a [Text] prompt.
pub struct TextPrompt<'a> {
    message: &'a str,
    default: Option<&'a str>,
    help_message: Option<&'a str>,
    input: Input,
    original_input: Option<Input>,
    formatter: &'a dyn StringFormatter,
    validators: Vec<&'a dyn StringValidator>,
    error: Option<ErrorMessage>,
    suggester: Option<&'a dyn Suggester>,
    suggested_options: Vec<String>,
    cursor_index: usize,
    page_size: usize,
}

impl<'a> TextPrompt<'a> {
    /// The text typed.
    pub closed spec fn spec_input(&self) -> TextInputModel { self.input@ }
    /// The text typed before a suggestion replaced it, if one did.
    pub closed spec fn spec_original_input(&self) -> Option<TextInputModel> {
        match self.original_input { Some(i) => Some(i@), None => None }
    }
    /// The suggestions displayed.
    pub closed spec fn spec_suggestions(&self) -> Seq<Seq<char>> {
        self.suggested_options@.map_values(|s: String| s@)
    }
    /// The highlighted row: zero for the input, `k` for the `k`-th suggestion.
    pub closed spec fn spec_cursor(&self) -> usize { self.cursor_index }
    /// The page size.
    pub closed spec fn spec_page_size(&self) -> usize { self.page_size }
    /// The default answer.
    pub closed spec fn spec_default(&self) -> Option<&'a str> { self.default }
    /// The error of the last refused submission.
    pub closed spec fn spec_error(&self) -> Option<ErrorMessage> { self.error }
    /// The message.
    pub closed spec fn spec_message(&self) -> &'a str { self.message }
    /// Whether `text` is what the prompt's formatter shows for the answer `answer`.
    pub closed spec fn spec_shows(&self, answer: Seq<char>, text: Seq<char>) -> bool {
        self.formatter.spec_formats(answer, text)
    }
    /// Whether a suggester is set.
    pub closed spec fn spec_has_suggester(&self) -> bool { self.suggester is Some }
    /// The help message.
    pub closed spec fn spec_help_message(&self) -> Option<&'a str> { self.help_message }
    /// The validators, in the order they run.
    pub closed spec fn spec_validators(&self) -> Seq<&'a dyn StringValidator> { self.validators@ }

    /// The suggestions on the page that holds the highlight (the first page
    /// while the highlight is on the input), and the highlighted row in it.
    pub open spec fn spec_page(&self) -> (Seq<Seq<char>>, Option<usize>) {
        let sel = if self.spec_cursor() >= 1 { (self.spec_cursor() - 1) as nat } else { 0nat };
        let (start, end, row) = crate::paging::spec_page_bounds(self.spec_page_size() as nat, self.spec_suggestions().len(), sel);
        (self.spec_suggestions().subrange(start as int, end as int),
            if self.spec_cursor() == 0 { None } else { Some(row as usize) })
    }

    /// The text of a frame: the error of the last refused submission if any,
    /// the prompt line with the default and the input, the page of
    /// suggestions, and the help message (the suggestions' one when none is
    /// set and there are suggestions).
    pub open spec fn spec_frame_text(&self, config: RenderConfig) -> Seq<char> {
        let (rows, cursor) = self.spec_page();
        (match self.spec_error() { Some(m) => error_line_text(config, spec_error_text(m)), None => Seq::empty() })
            + prompt_line_text(config, self.spec_message()@, match self.spec_default() { Some(d) => Some(d@), None => None },
                self.spec_input())
            + list_text(rows, cursor, rows.len())
            + match self.spec_help_message() {
                Some(h) => help_line_text(h@),
                None => if self.spec_suggestions().len() > 0 { help_line_text(TEXT_SUGGESTIONS_HELP_MESSAGE@) } else { Seq::empty() },
            }
    }

    /// The state invariant: the highlight is on the input or on a suggestion.
    pub closed spec fn wf(&self) -> bool {
        &&& self.cursor_index <= self.suggested_options@.len()
        &&& self.suggested_options@.len() <= usize::MAX
    }

    /// Starts a prompt: the input holds the initial value (cursor at its end)
    /// and the suggestions are those for an empty input.
    pub fn new(so: Text<'a>) -> (r: Self)
        ensures
            r.wf(),
            r.spec_input().content == match so.initial_value { Some(v) => v@, None => Seq::<char>::empty() },
            r.spec_input().cursor == r.spec_input().length,
            r.spec_original_input() is None,
            r.spec_cursor() == 0,
            r.spec_error() is None,
            r.spec_default() == so.default,
            r.spec_message() == so.message,
            forall|a: Seq<char>, t: Seq<char>| r.spec_shows(a, t) == so.formatter.spec_formats(a, t),
            r.spec_page_size() == so.page_size,
            r.spec_has_suggester() == (so.suggester is Some),
            so.suggester is None ==> r.spec_suggestions().len() == 0,
    {
        let input = match so.initial_value {
            Some(v) => Input::new_with(v),
            None => Input::new_with(""),
        };
        proof {
            reveal_strlit("");
        }
        let suggested_options = match so.suggester {
            Some(s) => s.suggest(""),
            None => Vec::new(),
        };
        let _count = suggested_options.len();
        let mut prompt = TextPrompt {
            message: so.message,
            default: so.default,
            help_message: so.help_message,
            input,
            original_input: None,
            formatter: so.formatter,
            validators: so.validators,
            error: None,
            suggester: so.suggester,
            suggested_options,
            cursor_index: 0,
            page_size: so.page_size,
        };
        let mut formatter = so.formatter;
        std::mem::swap(&mut prompt.formatter, &mut formatter);
        prompt
    }

    /// Asks the suggester again for the current input, and puts the highlight
    /// back on the input.
    fn update_suggestions(&mut self)
        ensures
            final(self).wf() || (!old(self).spec_has_suggester() && final(self).wf() == old(self).wf()),
            old(self).spec_has_suggester() ==> final(self).spec_cursor() == 0,
            !old(self).spec_has_suggester() ==> final(self).spec_cursor() == old(self).spec_cursor()
                && final(self).spec_suggestions() == old(self).spec_suggestions(),
            final(self).spec_input() == old(self).spec_input(),
            final(self).spec_original_input() == old(self).spec_original_input(),
            final(self).spec_default() == old(self).spec_default(),
            final(self).spec_page_size() == old(self).spec_page_size(),
            final(self).spec_has_suggester() == old(self).spec_has_suggester(),
            final(self).spec_message() == old(self).spec_message(),
            final(self).spec_validators() == old(self).spec_validators(),
            final(self).spec_error() == old(self).spec_error(),
    {
        if let Some(suggester) = self.suggester {
            self.suggested_options = suggester.suggest(self.input.content());
            let _count = self.suggested_options.len();
            self.cursor_index = 0;
        }
    }

    /// Puts the highlighted suggestion in the input, keeping what was typed to
    /// restore it when the highlight comes back to the input.
    fn update_current_input(&mut self)
        requires
            old(self).wf(),
        ensures
            final(self).wf(),
            final(self).spec_cursor() == old(self).spec_cursor(),
            final(self).spec_suggestions() == old(self).spec_suggestions(),
            old(self).spec_cursor() == 0 ==> final(self).spec_original_input() is None
                && final(self).spec_input() == match old(self).spec_original_input() {
                    Some(i) => i,
                    None => old(self).spec_input(),
                },
            old(self).spec_cursor() > 0 ==> {
                let s = old(self).spec_suggestions()[old(self).spec_cursor() - 1];
                &&& final(self).spec_input().content == s
                &&& final(self).spec_input().cursor == final(self).spec_input().length
                &&& final(self).spec_original_input() == match old(self).spec_original_input() {
                    Some(i) => Some(i),
                    None => Some(old(self).spec_input()),
                }
            },
            final(self).spec_default() == old(self).spec_default(),
            final(self).spec_page_size() == old(self).spec_page_size(),
            final(self).spec_has_suggester() == old(self).spec_has_suggester(),
            final(self).spec_message() == old(self).spec_message(),
            final(self).spec_validators() == old(self).spec_validators(),
            final(self).spec_error() == old(self).spec_error(),
    {
        if self.cursor_index == 0 {
            if let Some(input) = self.original_input.take() {
                self.input = input;
            }
        } else {
            let suggestion = self.suggested_options[self.cursor_index - 1].as_str();
            if self.original_input.is_none() {
                self.original_input = Some(self.input.clone_input());
            }
            self.input = Input::new_with(suggestion);
        }
    }

    /// Where a navigation key moves the highlight among the input (row zero)
    /// and `len` suggestions: up and down by one row, page up and page down by
    /// `page_size` rows, never past either end; `None` for other keys.
    pub open spec fn spec_moved_cursor(key: Key, cursor: usize, page_size: usize, len: nat) -> Option<usize> {
        let down = |qty: usize| {
            let moved: int = if cursor + qty <= usize::MAX { cursor + qty } else { usize::MAX as int };
            if moved < len { moved as usize } else { len as usize }
        };
        match key {
            Key::Up(m) => if m.bits == 0 { Some(if cursor >= 1 { (cursor - 1) as usize } else { 0usize }) } else { None },
            Key::PageUp => Some(if cursor >= page_size { (cursor - page_size) as usize } else { 0usize }),
            Key::Down(m) => if m.bits == 0 { Some(down(1usize)) } else { None },
            Key::PageDown => Some(down(page_size)),
            _ => None,
        }
    }

    /// The input shown for the highlight: the typed text (or the text kept
    /// from before a suggestion replaced it) while the highlight is on the
    /// input, else the highlighted suggestion with the cursor at its end, the
    /// typed text being kept.
    pub open spec fn shows_highlight(&self, typed: TextInputModel, kept: Option<TextInputModel>) -> bool {
        if self.spec_cursor() == 0 {
            &&& self.spec_original_input() is None
            &&& self.spec_input() == match kept { Some(i) => i, None => typed }
        } else {
            &&& self.spec_input().content == self.spec_suggestions()[self.spec_cursor() - 1]
            &&& self.spec_input().cursor == self.spec_input().length
            &&& self.spec_original_input() == match kept { Some(i) => Some(i), None => Some(typed) }
        }
    }

    /// Moving down onto the first suggestion and back up brings back the text
    /// that was typed: the suggestion replaces it only while highlighted.
    pub proof fn law_down_up_restores_typed(&self, once: &Self, twice: &Self)
        requires
            self.spec_cursor() == 0,
            self.spec_original_input() is None,
            self.spec_suggestions().len() > 0,
            self.changed_by(Key::Down(KeyModifiers { bits: 0 }), once),
            once.changed_by(Key::Up(KeyModifiers { bits: 0 }), twice),
        ensures
            once.spec_cursor() == 1,
            once.spec_input().content == self.spec_suggestions()[0],
            twice.spec_cursor() == 0,
            twice.spec_input() == self.spec_input(),
            twice.spec_original_input() is None,
            twice.spec_suggestions() == self.spec_suggestions(),
    {
    }

    /// What a key that neither submits nor cancels does to the prompt (see
    /// [TextPrompt::on_change]). New suggestions come from the suggester,
    /// of which nothing is known.
    pub open spec fn changed_by(&self, key: Key, after: &Self) -> bool {
        &&& after.spec_default() == self.spec_default()
        &&& after.spec_message() == self.spec_message()
        &&& after.spec_error() == self.spec_error()
        &&& after.spec_page_size() == self.spec_page_size()
        &&& after.spec_has_suggester() == self.spec_has_suggester()
        &&& after.spec_validators() == self.spec_validators()
        &&& match Self::spec_moved_cursor(key, self.spec_cursor(), self.spec_page_size(), self.spec_suggestions().len()) {
            Some(c) => {
                &&& after.spec_cursor() == c
                &&& after.spec_suggestions() == self.spec_suggestions()
                &&& after.shows_highlight(self.spec_input(), self.spec_original_input())
            },
            None => {
                let handled = spec_can_handle_key(self.spec_input(), key);
                let (typed, dirty) = spec_handle_key(self.spec_input(), key);
                if handled && dirty {
                    &&& after.shows_highlight(typed, None)
                    &&& self.spec_has_suggester() ==> after.spec_cursor() == 0
                    &&& !self.spec_has_suggester() ==> after.spec_cursor() == self.spec_cursor()
                        && after.spec_suggestions() == self.spec_suggestions()
                } else {
                    &&& after.spec_cursor() == self.spec_cursor()
                    &&& after.spec_suggestions() == self.spec_suggestions()
                    &&& after.shows_highlight(if handled { typed } else { self.spec_input() }, self.spec_original_input())
                }
            },
        }
    }

    /// Reacts to a key: up and down move the highlight through the input and
    /// the suggestions one row at a time, page up and page down a page at a
    /// time; any other key edits the input, and when it changed the typed text
    /// is the one kept and the suggestions are asked for again. The
    /// highlighted suggestion then replaces the input (or the typed text comes
    /// back when the highlight is on the input).
    pub fn on_change(&mut self, key: Key)
        requires
            old(self).wf(),
        ensures
            final(self).wf(),
            old(self).changed_by(key, &*final(self)),
    {
        match key {
            Key::Up(m) if m.bits == 0 => self.move_cursor_up(1),
            Key::PageUp => self.move_cursor_up(self.page_size),
            Key::Down(m) if m.bits == 0 => self.move_cursor_down(1),
            Key::PageDown => self.move_cursor_down(self.page_size),
            _ => {
                if self.input.can_handle_key(key) {
                    let dirty = self.input.handle_key(key);
                    if dirty {
                        self.original_input = None;
                        self.update_suggestions();
                        if self.cursor_index > self.suggested_options.len() {
                            self.cursor_index = 0;
                        }
                    }
                }
            },
        }
        self.update_current_input();
    }

    fn move_cursor_up(&mut self, qty: usize)
        requires
            old(self).wf(),
        ensures
            final(self).wf(),
            final(self).spec_cursor() == if old(self).spec_cursor() >= qty { (old(self).spec_cursor() - qty) as usize } else { 0usize },
            final(self).spec_suggestions() == old(self).spec_suggestions(),
            final(self).spec_input() == old(self).spec_input(),
            final(self).spec_original_input() == old(self).spec_original_input(),
            final(self).spec_default() == old(self).spec_default(),
            final(self).spec_message() == old(self).spec_message(),
            final(self).spec_validators() == old(self).spec_validators(),
            final(self).spec_error() == old(self).spec_error(),
            final(self).spec_page_size() == old(self).spec_page_size(),
            final(self).spec_has_suggester() == old(self).spec_has_suggester(),
    {
        self.cursor_index = self.cursor_index.saturating_sub(qty);
    }

    fn move_cursor_down(&mut self, qty: usize)
        requires
            old(self).wf(),
        ensures
            final(self).wf(),
            final(self).spec_cursor() == {
                let moved: int = if old(self).spec_cursor() + qty <= usize::MAX { old(self).spec_cursor() + qty } else { usize::MAX as int };
                if moved < old(self).spec_suggestions().len() { moved as usize } else { old(self).spec_suggestions().len() as usize }
            },
            final(self).spec_suggestions() == old(self).spec_suggestions(),
            final(self).spec_input() == old(self).spec_input(),
            final(self).spec_original_input() == old(self).spec_original_input(),
            final(self).spec_default() == old(self).spec_default(),
            final(self).spec_message() == old(self).spec_message(),
            final(self).spec_validators() == old(self).spec_validators(),
            final(self).spec_error() == old(self).spec_error(),
            final(self).spec_page_size() == old(self).spec_page_size(),
            final(self).spec_has_suggester() == old(self).spec_has_suggester(),
    {
        let moved = self.cursor_index.saturating_add(qty);
        let len = self.suggested_options.len();
        self.cursor_index = if moved < len { moved } else { len };
    }

    /// Whether `self` is `other` but for the error shown.
    pub open spec fn same_but_error(&self, other: &Self) -> bool {
        &&& self.spec_input() == other.spec_input()
        &&& self.spec_original_input() == other.spec_original_input()
        &&& self.spec_suggestions() == other.spec_suggestions()
        &&& self.spec_cursor() == other.spec_cursor()
        &&& self.spec_page_size() == other.spec_page_size()
        &&& self.spec_default() == other.spec_default()
        &&& self.spec_message() == other.spec_message()
        &&& self.spec_has_suggester() == other.spec_has_suggester()
        &&& self.spec_help_message() == other.spec_help_message()
        &&& self.spec_validators() == other.spec_validators()
    }

    /// What submitting gives: the default when nothing is typed and one is
    /// set; otherwise the typed text when every validator accepts it, the
    /// message of the first that refuses it, or the error of the first that
    /// fails (validators run in order, and stop at the first that does not
    /// accept).
    pub open spec fn spec_submission(&self, r: Result<Result<String, ErrorMessage>, CustomUserError>) -> bool {
        if self.spec_input().content.len() == 0 && self.spec_default() is Some {
            r matches Ok(Ok(a)) && a@ == self.spec_default()->0@
        } else {
            match spec_first_refusal(self.spec_validators(), self.spec_input().content) {
                None => r matches Ok(Ok(a)) && a@ == self.spec_input().content,
                Some(Verdict::Invalid(m)) => r matches Ok(Err(e)) && message_of(e) == m,
                Some(Verdict::Failed(m)) => r matches Err(e) && e.message@ == m,
                Some(Verdict::Valid) => false,
            }
        }
    }

    /// The answer for the current input: the default when the input is empty
    /// and a default is set; otherwise the input once every validator accepts
    /// it. A validator that refuses gives the message to show, and one that
    /// fails gives its error.
    fn get_final_answer(&self) -> (r: Result<Result<String, ErrorMessage>, CustomUserError>)
        ensures
            self.spec_submission(r),
    {
        let content = self.input.content();
        if content.is_empty() {
            if let Some(val) = self.default {
                return Ok(Ok(to_owned_string(val)));
            }
        }
        let mut i: usize = 0;
        proof {
            assert(self.validators@.skip(0) =~= self.validators@);
        }
        while i < self.validators.len()
            invariant
                i <= self.validators@.len(),
                content@ == self.spec_input().content,
                !(self.spec_input().content.len() == 0 && self.spec_default() is Some),
                spec_first_refusal(self.validators@, content@) == spec_first_refusal(self.validators@.skip(i as int), content@),
            decreases self.validators@.len() - i,
        {
            let verdict = self.validators[i].validate(content);
            proof {
                assert(self.validators@.skip(i as int)[0] == self.validators@[i as int]);
            }
            match verdict {
                Ok(Validation::Valid) => {
                    proof {
                        lemma_first_refusal_skip(self.validators@, content@, i as int);
                    }
                },
                Ok(Validation::Invalid(msg)) => return Ok(Err(msg)),
                Err(e) => return Err(e),
            }
            i = i + 1;
        }
        proof {
            assert(self.validators@.skip(i as int).len() == 0);
        }
        Ok(Ok(to_owned_string(content)))
    }

    /// Handles one key press: Ctrl+C interrupts and ESC cancels the prompt;
    /// enter submits the answer (see `get_final_answer`), or keeps the prompt
    /// open with the validator's message; any other key goes to
    /// [TextPrompt::on_change].
    pub fn handle_key(&mut self, key: Key) -> (r: PromptStep<String>)
        requires
            old(self).wf(),
        ensures
            old(self).handled(key, *final(self), r),
    {
        match key {
            Key::Interrupt => PromptStep::Interrupted,
            Key::Cancel => PromptStep::Canceled,
            Key::Submit => match self.get_final_answer() {
                Ok(Ok(answer)) => PromptStep::Answered(answer),
                Ok(Err(msg)) => {
                    self.error = Some(msg);
                    PromptStep::Continue
                },
                Err(e) => PromptStep::Failed(e),
            },
            _ => {
                self.on_change(key);
                PromptStep::Continue
            },
        }
    }

    /// Draws a frame: the error of the last refused submission if any, the
    /// prompt line with the default and the input, the page of suggestions that
    /// holds the highlight, and the help message (the suggestions' one when
    /// none is set and suggestions are displayed).
    #[verifier::spinoff_prover]
    #[verifier::rlimit(40)]
    pub fn render(&self, backend: &mut Backend) -> (r: InquireResult<()>)
        requires
            self.wf(),
        ensures
            r is Ok,
            final(backend).spec_text() == old(backend).spec_text() + self.spec_frame_text(old(backend).spec_config()),
            final(backend).spec_config() == old(backend).spec_config(),
            final(backend).spec_pending_keys() == old(backend).spec_pending_keys(),
            final(backend).spec_has_keys() == old(backend).spec_has_keys(),
            final(backend).wf() == old(backend).wf(),
    {
        let ghost cfg = backend.spec_config();
        let ghost t0 = backend.spec_text();
        let _ = backend.frame_setup();
        if let Some(err) = &self.error {
            match err {
                ErrorMessage::Custom(s) => { let _ = backend.render_error_message(s.as_str()); },
                ErrorMessage::Default => { let _ = backend.render_error_message(DEFAULT_ERROR_MESSAGE); },
            }
        }
        let ghost err_text = match self.spec_error() { Some(m) => error_line_text(cfg, spec_error_text(m)), None => Seq::empty() };
        assert(backend.spec_text() =~= t0 + err_text);
        let _ = backend.render_prompt(self.message, self.default, &self.input);
        let ghost head = t0 + err_text + prompt_line_text(cfg, self.spec_message()@,
            match self.spec_default() { Some(d) => Some(d@), None => None }, self.spec_input());
        assert(backend.spec_text() =~= head);
        let len = self.suggested_options.len();
        let list_index = self.cursor_index.saturating_sub(1);
        let page = crate::paging::paginate(self.page_size, self.suggested_options.as_slice(), list_index);
        let cursor_on_input = self.cursor_index == 0;
        let ghost rows = self.spec_page().0;
        let ghost cursor = self.spec_page().1;
        assert(rows =~= page.content@.map_values(|v: String| v@));
        let mut k: usize = 0;
        while k < page.content.len()
            invariant
                k <= page.content@.len(),
                rows == page.content@.map_values(|v: String| v@),
                cursor == (if cursor_on_input { None } else { Some(page.selection) }),
                backend.spec_text() == head + list_text(rows, cursor, k as nat),
                backend.spec_config() == old(backend).spec_config(),
                backend.spec_pending_keys() == old(backend).spec_pending_keys(),
                backend.spec_has_keys() == old(backend).spec_has_keys(),
                backend.wf() == old(backend).wf(),
            decreases page.content@.len() - k,
        {
            let focused = !cursor_on_input && page.selection == k;
            let _ = backend.render_suggestion(page.content[k].as_str(), focused);
            proof {
                assert(focused == (cursor == Some(k)));
                assert(head + list_text(rows, cursor, (k + 1) as nat) =~= head + list_text(rows, cursor, k as nat)
                    + (spec_unix2dos((if cursor == Some(k) { "> "@ } else { "  "@ }) + rows[k as int]) + newline_text()));
            }
            k = k + 1;
        }
        let ghost body = head + list_text(rows, cursor, rows.len());
        if let Some(message) = self.help_message {
            let _ = backend.render_help_message(message);
        } else if len > 0 {
            let _ = backend.render_help_message(TEXT_SUGGESTIONS_HELP_MESSAGE);
        }
        proof {
            assert(backend.spec_text() =~= body + match self.spec_help_message() {
                Some(h) => help_line_text(h@),
                None => if self.spec_suggestions().len() > 0 { help_line_text(TEXT_SUGGESTIONS_HELP_MESSAGE@) } else { Seq::empty() },
            });
        }
        let _ = backend.frame_finish();
        Ok(())
    }

    /// Runs the prompt on the keys that the backend's terminal holds: draws a
    /// frame, reads a key and handles it, until a key ends the prompt or the
    /// keys run out (the step is then `Continue`, and the keys still to come
    /// are for the caller to hand over). An answer replaces the prompt with
    /// the prompt and the formatted answer.
    pub fn prompt_with_backend(&mut self, backend: &mut Backend) -> (r: PromptStep<String>)
        requires
            old(self).wf(),
            old(backend).wf(),
        ensures
            final(backend).wf(),
            final(backend).spec_config() == old(backend).spec_config(),
            final(backend).spec_has_keys() == old(backend).spec_has_keys(),
            r is Continue ==> final(self).wf() && (final(backend).spec_pending_keys().len() == 0 || !final(backend).spec_has_keys()),
            !old(backend).spec_has_keys() ==> r is Continue && *final(self) == *old(self),
            old(backend).spec_has_keys() ==> exists|n: int| 0 <= n <= old(backend).spec_pending_keys().len()
                && final(backend).spec_pending_keys() == old(backend).spec_pending_keys().skip(n)
                && (r is Continue ==> n == old(backend).spec_pending_keys().len())
                && #[trigger] ran(*old(self), keys_of(old(backend).spec_pending_keys().take(n)), *final(self), r),
    {
        let ghost mut n: int = 0;
        proof {
            lemma_ran_empty(*self);
            assert(keys_of(old(backend).spec_pending_keys().take(0)) =~= Seq::<Key>::empty());
        }
        loop
            invariant
                self.wf(),
                backend.wf(),
                backend.spec_config() == old(backend).spec_config(),
                backend.spec_has_keys() == old(backend).spec_has_keys(),
                0 <= n <= old(backend).spec_pending_keys().len(),
                backend.spec_has_keys() ==> backend.spec_pending_keys() == old(backend).spec_pending_keys().skip(n),
                !backend.spec_has_keys() ==> n == 0 && *self == *old(self),
                ran(*old(self), keys_of(old(backend).spec_pending_keys().take(n)), *self, PromptStep::Continue),
            decreases backend.spec_pending_keys().len(),
        {
            let _ = self.render(backend);
            let key = match backend.read_key() {
                Ok(Some(k)) => k,
                _ => return PromptStep::Continue,
            };
            let ghost before = *self;
            let step = self.handle_key(key);
            proof {
                let pend = old(backend).spec_pending_keys();
                assert(pend.skip(n)[0] == pend[n]);
                assert(pend.take(n + 1) =~= pend.take(n).push(pend[n]));
                assert(keys_of(pend.take(n + 1)) =~= keys_of(pend.take(n)).push(key));
                lemma_ran_push(*old(self), keys_of(pend.take(n)), before, key, *self, step);
                if !(step is Continue) {
                    assert(ran(*old(self), keys_of(pend.take(n + 1)), *self, step));
                }
                assert(pend.skip(n + 1) =~= pend.skip(n).drop_first());
                n = n + 1;
            }
            match step {
                PromptStep::Continue => {},
                PromptStep::Answered(answer) => {
                    let formatted = self.format_answer(answer.as_str());
                    let _ = backend.finish_prompt(self.message, formatted.as_str());
                    return PromptStep::Answered(answer);
                },
                step => return step,
            }
        }
    }

    /// The text shown for a submitted answer, as the prompt's formatter makes it.
    pub fn format_answer(&self, answer: &str) -> (r: String)
        ensures
            self.spec_shows(answer@, r@),
    {
        self.formatter.format(answer)
    }

    /// The message of the prompt.
    pub fn message(&self) -> (r: &'a str)
        ensures
            r == self.spec_message(),
    {
        self.message
    }
}

/// Configuration settings used in the execution of a text prompt.
#[derive(Copy, Clone, Debug)]
pub struct TextConfig {
    /// Page size of the suggestion list, if it exists.
    pub page_size: usize,
}

impl<'a, 'b> From<&'b Text<'a>> for TextConfig {
    fn from(value: &'b Text<'a>) -> (r: Self) {
        TextConfig { page_size: value.page_size }
    }
}

impl<'a, 'b> vstd::std_specs::convert::FromSpecImpl<&'b Text<'a>> for TextConfig {
    open spec fn obeys_from_spec() -> bool {
        true
    }

    open spec fn from_spec(value: &'b Text<'a>) -> Self {
        TextConfig { page_size: value.page_size }
    }
}

/// Set of actions for a text prompt.
#[derive(Copy, Clone, Debug, PartialEq, Eq, Structural)]
pub enum TextPromptAction {
    /// Action on the value text input handler.
    ValueInput(crate::input::InputAction),
    /// When a suggestion list exists, moves the cursor to the option above.
    MoveToSuggestionAbove,
    /// When a suggestion list exists, moves the cursor to the option below.
    MoveToSuggestionBelow,
    /// When a suggestion list exists, moves the cursor to the page above.
    MoveToSuggestionPageUp,
    /// When a suggestion list exists, moves the cursor to the page below.
    MoveToSuggestionPageDown,
    /// When a suggestion list exists, autocompletes the text input with the current suggestion.
    UseCurrentSuggestion,
}

/// The text-input action of a key, as a text prompt action.
pub open spec fn spec_value_input(key: crate::ui::Key) -> Option<TextPromptAction> {
    match crate::input::action::spec_input_action_from_key(key) {
        Some(a) => Some(TextPromptAction::ValueInput(a)),
        None => None,
    }
}

/// The action of a key in a text prompt: up (or ctrl-p) and down (or ctrl-n)
/// move in the suggestions, page up and page down move by pages, tab takes the
/// highlighted suggestion, and any other key is an action on the text input.
pub open spec fn spec_text_action_from_key(key: crate::ui::Key) -> Option<TextPromptAction> {
    match key {
        crate::ui::Key::Up(m) => if m.bits == 0 { Some(TextPromptAction::MoveToSuggestionAbove) } else { spec_value_input(key) },
        crate::ui::Key::Down(m) => if m.bits == 0 { Some(TextPromptAction::MoveToSuggestionBelow) } else { spec_value_input(key) },
        crate::ui::Key::Char(c, m) => if c == 'p' && m.bits == 2 {
            Some(TextPromptAction::MoveToSuggestionAbove)
        } else if c == 'n' && m.bits == 2 {
            Some(TextPromptAction::MoveToSuggestionBelow)
        } else {
            spec_value_input(key)
        },
        crate::ui::Key::PageUp(_) => Some(TextPromptAction::MoveToSuggestionPageUp),
        crate::ui::Key::PageDown(_) => Some(TextPromptAction::MoveToSuggestionPageDown),
        crate::ui::Key::Tab => Some(TextPromptAction::UseCurrentSuggestion),
        _ => spec_value_input(key),
    }
}

impl TextPromptAction {
    /// The action of a key (see [spec_text_action_from_key]).
    pub fn from_key(key: crate::ui::Key, _config: &TextConfig) -> (r: Option<Self>)
        ensures
            r == spec_text_action_from_key(key),
    {
        let action = match key {
            crate::ui::Key::Up(m) if m.bits == 0 => TextPromptAction::MoveToSuggestionAbove,
            crate::ui::Key::Char('p', m) if m.bits == 2 => TextPromptAction::MoveToSuggestionAbove,
            crate::ui::Key::PageUp(_) => TextPromptAction::MoveToSuggestionPageUp,
            crate::ui::Key::Down(m) if m.bits == 0 => TextPromptAction::MoveToSuggestionBelow,
            crate::ui::Key::Char('n', m) if m.bits == 2 => TextPromptAction::MoveToSuggestionBelow,
            crate::ui::Key::PageDown(_) => TextPromptAction::MoveToSuggestionPageDown,
            crate::ui::Key::Tab => TextPromptAction::UseCurrentSuggestion,
            _ => match crate::input::InputAction::from_key(key, &()) {
                Some(action) => TextPromptAction::ValueInput(action),
                None => return None,
            },
        };
        Some(action)
    }
}

impl<'a> KeyDriven for TextPrompt<'a> {
    type Answer = String;

    /// What handling a key does (see the prompt's `handle_key`).
    open spec fn handled(&self, key: Key, after: Self, r: PromptStep<String>) -> bool {
        &&& after.wf()
        &&& key is Interrupt ==> r is Interrupted
        &&& key is Cancel ==> r is Canceled
        &&& key is Submit ==> if self.spec_input().content.len() == 0 && self.spec_default() is Some {
                r matches PromptStep::Answered(a) && a@ == self.spec_default()->0@
            } else {
                match spec_first_refusal(self.spec_validators(), self.spec_input().content) {
                    None => r matches PromptStep::Answered(a) && a@ == self.spec_input().content,
                    Some(Verdict::Invalid(m)) => r is Continue && after.same_but_error(self)
                        && (after.spec_error() matches Some(e) && message_of(e) == m),
                    Some(Verdict::Failed(m)) => r matches PromptStep::Failed(e) && e.message@ == m,
                    Some(Verdict::Valid) => false,
                }
            }
        &&& !(key is Interrupt || key is Cancel || key is Submit) ==> r is Continue
                    && self.changed_by(key, &after)
    }
}

} // verus!
