//! A multi-selection question: a list of string options with a typed
//! filter, driven by the keys of a termion terminal.

use crate::answer::{join_values, spec_join_values, OptionAnswer};
use crate::error::{InquireError, InquireResult};
use crate::prompts::{filtered_indices, lemma_filtered_indices, PromptStep, DEFAULT_PAGE_SIZE, DEFAULT_VIM_MODE};
use crate::prompts::multiselect::{answers_match, checked_fn, lemma_push_contains};
use crate::question::{spec_answer_text, Answer};
use crate::segmentation::{grapheme_count, graphemes, spec_graphemes, string_views};
use crate::strings::{push_char, push_str, str_eq, to_owned_string};
use crate::type_aliases::{DefaultFilter, Filter};
use crate::basic_terminal::Terminal;
use crate::renderer::{
    colored_token, erased_lines, help_tokens, lemma_printed_chain, lemma_tokens_empty, line_end_tokens,
    multi_option_list, multi_option_tokens, plain_token, prompt_tokens, tokens_sent, Renderer, TokenText,
};
use crate::ui::Color;
use crate::prompts::input::InputOptions;
use vstd::prelude::*;

verus! {

/// A key as a termion terminal reports it.
#[derive(Copy, Clone, Debug, PartialEq, Eq, Structural)]
pub enum TermKey {
    /// Backspace.
    Backspace,
    /// Arrow left.
    Left,
    /// Arrow right.
    Right,
    /// Arrow up.
    Up,
    /// Arrow down.
    Down,
    /// Home.
    Home,
    /// End.
    End,
    /// Page up.
    PageUp,
    /// Page down.
    PageDown,
    /// Shift+Tab.
    BackTab,
    /// Delete.
    Delete,
    /// Insert.
    Insert,
    /// A function key, by number.
    F(u8),
    /// A character (tab, line feed and carriage return included).
    Char(char),
    /// A character with Alt.
    Alt(char),
    /// A character with Ctrl.
    Ctrl(char),
    /// Null.
    Null,
    /// Escape.
    Esc,
}

/// Shows an answer to the user once the prompt is submitted.
pub trait Transformer {
    /// Whether `text` is what the transformer shows for `answer`; unless the
    /// transformer says more, nothing is known of it.
    closed spec fn spec_transforms(&self, answer: Answer, text: Seq<char>) -> bool {
        true
    }

    /// The text shown for `answer`.
    fn transform(&self, answer: &Answer) -> (r: String)
        ensures
            self.spec_transforms(*answer, r@),
    ;
}

/// Shows an answer as [Answer::to_string] does.
#[derive(Copy, Clone, Debug)]
pub struct DefaultTransformer;

impl DefaultTransformer {
    /// The text of the answer.
    pub fn transform_answer(&self, answer: &Answer) -> (r: String)
        ensures
            r@ == spec_answer_text(*answer),
    {
        answer.to_string()
    }
}

impl Transformer for DefaultTransformer {
    open spec fn spec_transforms(&self, answer: Answer, text: Seq<char>) -> bool {
        text == spec_answer_text(answer)
    }

    fn transform(&self, answer: &Answer) -> (r: String) {
        self.transform_answer(answer)
    }
}

/// Settings shared by the questions of a survey; each one set overrides the
/// question's own.
pub struct PromptConfig<'a> {
    /// Page size.
    pub page_size: Option<usize>,
    /// Vim mode.
    pub vim_mode: Option<bool>,
    /// Whether the filter is kept after a selection.
    pub keep_filter: Option<bool>,
    /// Option filter.
    pub filter: Option<&'a dyn Filter<&'a str>>,
    /// Answer transformer.
    pub transformer: Option<&'a dyn Transformer>,
    /// Answer validator of text questions.
    pub validator: Option<&'a dyn crate::prompts::input::AnswerValidator>,
    /// Help message.
    pub help_message: Option<&'a str>,
}

/// Help message shown by default.
pub const MULTISELECT_HELP_MESSAGE: &'static str =
    "↑↓ to move, space to select one, → to all, ← to none, type to filter";

/// The options of a multi-selection question.
#[derive(Copy, Clone)]
pub struct MultiSelectOptions<'a> {
    message: &'a str,
    options: &'a [&'a str],
    default: Option<&'a [usize]>,
    help_message: &'a str,
    page_size: usize,
    vim_mode: bool,
    starting_selection: usize,
    filter: &'a dyn Filter<&'a str>,
    keep_filter: bool,
    transformer: &'a dyn Transformer,
}

/// Why a multi-selection question could not be set up.
#[derive(Clone, Debug, PartialEq, Eq, Structural)]
pub enum OptionsError {
    /// No option was given.
    NoOptions,
    /// A default index is not an option's.
    InvalidIndex,
    /// The starting cursor is not an option's index.
    InvalidStartingCursor,
}

impl<'a> MultiSelectOptions<'a> {
    /// The message.
    pub closed spec fn spec_message(&self) -> &'a str { self.message }
    /// The options.
    pub closed spec fn spec_options(&self) -> Seq<&'a str> { self.options@ }
    /// The default selection.
    pub closed spec fn spec_default(&self) -> Option<&'a [usize]> { self.default }
    /// The help message.
    pub closed spec fn spec_help_message(&self) -> &'a str { self.help_message }
    /// The page size.
    pub closed spec fn spec_page_size(&self) -> usize { self.page_size }
    /// Vim mode.
    pub closed spec fn spec_vim_mode(&self) -> bool { self.vim_mode }
    /// The starting cursor.
    pub closed spec fn spec_starting_selection(&self) -> usize { self.starting_selection }
    /// Whether the filter is kept after a selection.
    pub closed spec fn spec_keep_filter(&self) -> bool { self.keep_filter }
    /// Whether the options are filtered with `f`.
    pub closed spec fn filters_with(&self, f: &'a dyn Filter<&'a str>) -> bool { self.filter == f }
    /// Whether the answer is shown with the transformer `t`.
    pub closed spec fn transforms_with(&self, t: &'a dyn Transformer) -> bool { self.transformer == t }
    /// Whether `self` filters options as `other` does.
    pub closed spec fn same_filter_as(&self, other: &Self) -> bool { self.filter == other.filter }
    /// Whether `self` shows answers as `other` does.
    pub closed spec fn same_transformer_as(&self, other: &Self) -> bool { self.transformer == other.transformer }
    /// Whether `text` is what the transformer shows for the answer `answer`.
    pub closed spec fn spec_shows(&self, answer: Answer, text: Seq<char>) -> bool {
        self.transformer.spec_transforms(answer, text)
    }
    /// Whether `self` filters and shows answers as `other` does.
    pub closed spec fn same_callbacks(&self, other: &Self) -> bool {
        self.filter == other.filter && self.transformer == other.transformer
    }

    /// Whether `self` and `other` agree on everything but what a builder changes.
    pub open spec fn same_base(&self, other: &Self) -> bool {
        &&& self.spec_message() == other.spec_message()
        &&& self.spec_options() == other.spec_options()
    }

    /// Options for asking `message` about `options`, with the default settings;
    /// fails when there is no option.
    pub fn new(message: &'a str, options: &'a [&'a str]) -> (r: Result<Self, OptionsError>)
        ensures
            options@.len() == 0 ==> r == Err::<Self, OptionsError>(OptionsError::NoOptions),
            options@.len() > 0 ==> (r matches Ok(o) && {
                &&& o.spec_message() == message
                &&& o.spec_options() == options@
                &&& o.spec_default() is None
                &&& o.spec_help_message() == MULTISELECT_HELP_MESSAGE
                &&& o.spec_page_size() == DEFAULT_PAGE_SIZE
                &&& o.spec_vim_mode() == DEFAULT_VIM_MODE
                &&& o.spec_starting_selection() == 0
                &&& o.spec_keep_filter() == true
            }),
    {
        if options.len() == 0 {
            return Err(OptionsError::NoOptions);
        }
        Ok(MultiSelectOptions {
            message,
            options,
            default: None,
            help_message: MULTISELECT_HELP_MESSAGE,
            page_size: DEFAULT_PAGE_SIZE,
            vim_mode: DEFAULT_VIM_MODE,
            starting_selection: 0,
            keep_filter: true,
            filter: &DefaultFilter,
            transformer: &DefaultTransformer,
        })
    }

    /// Sets the help message.
    pub fn with_help_message(self, message: &'a str) -> (r: Self)
        ensures
            r.spec_help_message() == message, r.same_base(&self),
            r.spec_default() == self.spec_default(), r.spec_page_size() == self.spec_page_size(),
            r.spec_vim_mode() == self.spec_vim_mode(), r.spec_keep_filter() == self.spec_keep_filter(),
            r.spec_starting_selection() == self.spec_starting_selection(),
    {
        let mut s = self;
        s.help_message = message;
        s
    }

    /// Sets the page size.
    pub fn with_page_size(self, page_size: usize) -> (r: Self)
        ensures
            r.spec_page_size() == page_size, r.same_base(&self),
            r.spec_default() == self.spec_default(), r.spec_help_message() == self.spec_help_message(),
            r.spec_vim_mode() == self.spec_vim_mode(), r.spec_keep_filter() == self.spec_keep_filter(),
            r.spec_starting_selection() == self.spec_starting_selection(),
    {
        let mut s = self;
        s.page_size = page_size;
        s
    }

    /// Enables or disables vim mode.
    pub fn with_vim_mode(self, vim_mode: bool) -> (r: Self)
        ensures
            r.spec_vim_mode() == vim_mode, r.same_base(&self),
            r.spec_default() == self.spec_default(), r.spec_help_message() == self.spec_help_message(),
            r.spec_page_size() == self.spec_page_size(), r.spec_keep_filter() == self.spec_keep_filter(),
            r.spec_starting_selection() == self.spec_starting_selection(),
    {
        let mut s = self;
        s.vim_mode = vim_mode;
        s
    }

    /// Sets whether the filter is kept after a selection.
    pub fn with_keep_filter(self, keep_filter: bool) -> (r: Self)
        ensures
            r.spec_keep_filter() == keep_filter, r.same_base(&self),
            r.spec_default() == self.spec_default(), r.spec_help_message() == self.spec_help_message(),
            r.spec_page_size() == self.spec_page_size(), r.spec_vim_mode() == self.spec_vim_mode(),
            r.spec_starting_selection() == self.spec_starting_selection(),
    {
        let mut s = self;
        s.keep_filter = keep_filter;
        s
    }

    /// Sets the filter.
    pub fn with_filter(self, filter: &'a dyn Filter<&'a str>) -> (r: Self)
        ensures
            r.filters_with(filter),
            r.same_base(&self),
            r.spec_default() == self.spec_default(), r.spec_help_message() == self.spec_help_message(),
            r.spec_page_size() == self.spec_page_size(), r.spec_vim_mode() == self.spec_vim_mode(),
            r.spec_keep_filter() == self.spec_keep_filter(),
            r.spec_starting_selection() == self.spec_starting_selection(),
    {
        let mut s = self;
        s.filter = filter;
        s
    }

    /// Sets the transformer.
    pub fn with_transformer(self, transformer: &'a dyn Transformer) -> (r: Self)
        ensures
            r.transforms_with(transformer),
            r.same_base(&self),
            r.spec_default() == self.spec_default(), r.spec_help_message() == self.spec_help_message(),
            r.spec_page_size() == self.spec_page_size(), r.spec_vim_mode() == self.spec_vim_mode(),
            r.spec_keep_filter() == self.spec_keep_filter(),
            r.spec_starting_selection() == self.spec_starting_selection(),
    {
        let mut s = self;
        s.transformer = transformer;
        s
    }

    /// Sets the options selected from the start; fails when one of the indices
    /// is not an option's.
    pub fn with_default(self, default: &'a [usize]) -> (r: Result<Self, OptionsError>)
        ensures
            (exists|k: int| 0 <= k < default@.len() && #[trigger] default@[k] >= self.spec_options().len())
                ==> r == Err::<Self, OptionsError>(OptionsError::InvalidIndex),
            (forall|k: int| 0 <= k < default@.len() ==> #[trigger] default@[k] < self.spec_options().len())
                ==> (r matches Ok(o) && o.spec_default() == Some(default) && o.same_base(&self)
                && o.spec_help_message() == self.spec_help_message() && o.spec_page_size() == self.spec_page_size()
                && o.spec_vim_mode() == self.spec_vim_mode() && o.spec_keep_filter() == self.spec_keep_filter()
                && o.spec_starting_selection() == self.spec_starting_selection() && o.same_callbacks(&self)),
    {
        let mut k: usize = 0;
        while k < default.len()
            invariant
                k <= default@.len(),
                forall|j: int| 0 <= j < k ==> #[trigger] default@[j] < self.options@.len(),
            decreases default@.len() - k,
        {
            if default[k] >= self.options.len() {
                return Err(OptionsError::InvalidIndex);
            }
            k = k + 1;
        }
        let mut s = self;
        s.default = Some(default);
        Ok(s)
    }

    /// Sets the option highlighted at the start; fails when it is not an option's index.
    pub fn with_starting_cursor(self, starting_cursor: usize) -> (r: Result<Self, OptionsError>)
        ensures
            starting_cursor >= self.spec_options().len() ==> r == Err::<Self, OptionsError>(OptionsError::InvalidStartingCursor),
            starting_cursor < self.spec_options().len() ==> (r matches Ok(o)
                && o.spec_starting_selection() == starting_cursor && o.same_base(&self)
                && o.spec_default() == self.spec_default() && o.spec_help_message() == self.spec_help_message()
                && o.spec_page_size() == self.spec_page_size() && o.spec_vim_mode() == self.spec_vim_mode()
                && o.spec_keep_filter() == self.spec_keep_filter() && o.same_callbacks(&self)),
    {
        if starting_cursor >= self.options.len() {
            return Err(OptionsError::InvalidStartingCursor);
        }
        let mut s = self;
        s.starting_selection = starting_cursor;
        Ok(s)
    }

    /// The question that asks with these options.
    pub fn into_question(self) -> (r: Question<'a>)
        ensures
            r == Question::MultiSelect(self),
    {
        Question::MultiSelect(self)
    }

    /// Applies the settings of a survey: each one set there replaces the question's.
    pub fn with_config(self, global_config: &PromptConfig<'a>) -> (r: Self)
        ensures
            r.same_base(&self),
            r.spec_default() == self.spec_default(),
            r.spec_starting_selection() == self.spec_starting_selection(),
            r.spec_page_size() == match global_config.page_size { Some(p) => p, None => self.spec_page_size() },
            r.spec_vim_mode() == match global_config.vim_mode { Some(v) => v, None => self.spec_vim_mode() },
            r.spec_keep_filter() == match global_config.keep_filter { Some(k) => k, None => self.spec_keep_filter() },
            r.spec_help_message() == match global_config.help_message { Some(h) => h, None => self.spec_help_message() },
            spec_callbacks_configured(r, self, *global_config),
    {
        let mut s = self;
        if let Some(page_size) = global_config.page_size {
            s.page_size = page_size;
        }
        if let Some(vim_mode) = global_config.vim_mode {
            s.vim_mode = vim_mode;
        }
        if let Some(keep_filter) = global_config.keep_filter {
            s.keep_filter = keep_filter;
        }
        if let Some(filter) = global_config.filter {
            s.filter = filter;
        }
        if let Some(transformer) = global_config.transformer {
            s.transformer = transformer;
        }
        if let Some(help_message) = global_config.help_message {
            s.help_message = help_message;
        }
        s
    }
}

/// Whether the options `x` have the filter and the transformer of the
/// settings `c` where it sets them, and those of `y` where it does not.
pub open spec fn spec_callbacks_configured<'a>(x: MultiSelectOptions<'a>, y: MultiSelectOptions<'a>, c: PromptConfig<'a>) -> bool {
    match (c.filter, c.transformer) {
        (Some(f), Some(t)) => x.filters_with(f) && x.transforms_with(t),
        (Some(f), None) => x.filters_with(f) && y.same_transformer_as(&x),
        (None, Some(t)) => x.transforms_with(t) && y.same_filter_as(&x),
        (None, None) => x.same_callbacks(&y),
    }
}

/// The questions a survey can ask.
pub enum Question<'a> {
    /// Select any number of options.
    MultiSelect(MultiSelectOptions<'a>),
    /// Type a line of text.
    Input(InputOptions<'a>),
}

/// Options of a question that a survey can ask.
pub trait QuestionOptions<'a>: Sized {
    /// Applies the settings of a survey.
    fn with_config(self, global_config: &PromptConfig<'a>) -> Self;
    /// The question that asks with these options.
    fn into_question(self) -> Question<'a>;
}

impl<'a> QuestionOptions<'a> for MultiSelectOptions<'a> {
    fn with_config(self, global_config: &PromptConfig<'a>) -> (r: Self)
        ensures
            configured(Question::MultiSelect(r), Question::MultiSelect(self), *global_config),
    {
        MultiSelectOptions::with_config(self, global_config)
    }

    fn into_question(self) -> (r: Question<'a>)
        ensures
            r == Question::MultiSelect(self),
    {
        MultiSelectOptions::into_question(self)
    }
}

impl<'a> QuestionOptions<'a> for InputOptions<'a> {
    fn with_config(self, global_config: &PromptConfig<'a>) -> (r: Self)
        ensures
            configured(Question::Input(r), Question::Input(self), *global_config),
    {
        InputOptions::with_config(self, global_config)
    }

    fn into_question(self) -> (r: Question<'a>)
        ensures
            r == Question::Input(self),
    {
        InputOptions::into_question(self)
    }
}

/// Whether `a` is the question `b` with the settings of a survey applied:
/// each setting given there replaces the question's own.
pub open spec fn configured<'a>(a: Question<'a>, b: Question<'a>, c: PromptConfig<'a>) -> bool {
    match (a, b) {
        (Question::MultiSelect(x), Question::MultiSelect(y)) => {
            &&& x.same_base(&y)
            &&& x.spec_default() == y.spec_default()
            &&& x.spec_starting_selection() == y.spec_starting_selection()
            &&& x.spec_page_size() == match c.page_size { Some(p) => p, None => y.spec_page_size() }
            &&& x.spec_vim_mode() == match c.vim_mode { Some(v) => v, None => y.spec_vim_mode() }
            &&& x.spec_keep_filter() == match c.keep_filter { Some(k) => k, None => y.spec_keep_filter() }
            &&& x.spec_help_message() == match c.help_message { Some(h) => h, None => y.spec_help_message() }
            &&& spec_callbacks_configured(x, y, c)
        },
        (Question::Input(x), Question::Input(y)) => {
            &&& x.spec_message() == y.spec_message()
            &&& x.spec_default() == y.spec_default()
            &&& x.spec_has_suggestor() == y.spec_has_suggestor()
            &&& x.spec_help_message() == match c.help_message { Some(h) => Some(h), None => y.spec_help_message() }
            &&& x.spec_page_size() == y.spec_page_size()
            &&& crate::prompts::input::spec_input_callbacks_configured(x, y, c)
        },
        _ => false,
    }
}

impl<'a> Question<'a> {
    /// Applies the settings of a survey to every question, in order.
    pub fn apply_global_config(questions: Vec<Self>, global_config: &PromptConfig<'a>) -> (r: Vec<Self>)
        ensures
            r@.len() == questions@.len(),
            forall|i: int| 0 <= i < r@.len() ==> configured(#[trigger] r@[i], questions@[i], *global_config),
    {
        let mut questions = questions;
        let ghost orig = questions@;
        let total = questions.len();
        let mut r: Vec<Self> = Vec::new();
        let mut i: usize = 0;
        while questions.len() > 0
            invariant
                total == orig.len(),
                questions@ == orig.skip(i as int),
                i <= orig.len(),
                r@.len() == i,
                forall|j: int| 0 <= j < i ==> configured(#[trigger] r@[j], orig[j], *global_config),
            decreases questions@.len(),
        {
            let q = questions.remove(0);
            proof {
                assert(q == orig[i as int]);
                assert(orig.skip(i as int + 1) =~= orig.skip(i as int).drop_first());
            }
            let applied = match q {
                Question::MultiSelect(opt) => Question::MultiSelect(opt.with_config(global_config)),
                Question::Input(opt) => Question::Input(opt.with_config(global_config)),
            };
            r.push(applied);
            i = i + 1;
        }
        r
    }
}

/// The running state of a multi-selection question.
pub struct MultiSelect<'a> {
    message: &'a str,
    options: &'a [&'a str],
    help_message: &'a str,
    vim_mode: bool,
    cursor_index: usize,
    checked: Vec<bool>,
    page_size: usize,
    keep_filter: bool,
    filter_value: Option<String>,
    filtered_options: Vec<usize>,
    filter: &'a dyn Filter<&'a str>,
    transformer: &'a dyn Transformer,
    renderer: Renderer,
}

/// The text of an optional filter value, empty when there is none.
pub open spec fn filter_text(v: Option<String>) -> Option<Seq<char>> {
    match v {
        Some(s) => Some(s@),
        None => None,
    }
}

/// The grapheme clusters of `s` but the last one, joined.
pub open spec fn spec_drop_last_grapheme(s: Seq<char>) -> Seq<char> {
    let gs = spec_graphemes(s);
    gs.take(if gs.len() > 0 { gs.len() - 1 } else { 0 }).flatten_alt()
}

impl<'a> MultiSelect<'a> {
    /// The options.
    pub closed spec fn spec_options(&self) -> Seq<&'a str> { self.options@ }
    /// Which options are selected.
    pub closed spec fn spec_checked(&self) -> Seq<bool> { self.checked@ }
    /// The displayed options.
    pub closed spec fn spec_filtered(&self) -> Seq<usize> { self.filtered_options@ }
    /// The highlighted row.
    pub closed spec fn spec_cursor(&self) -> usize { self.cursor_index }
    /// The typed filter, if any.
    pub closed spec fn spec_filter_value(&self) -> Option<Seq<char>> { filter_text(self.filter_value) }
    /// Vim mode.
    pub closed spec fn spec_vim_mode(&self) -> bool { self.vim_mode }
    /// Whether the filter is kept after a selection.
    pub closed spec fn spec_keep_filter(&self) -> bool { self.keep_filter }

    /// Which options are displayed for the filter value `value`.
    pub closed spec fn spec_keep_fn(&self, value: Option<Seq<char>>) -> spec_fn(int) -> bool {
        let f = self.filter;
        let options = self.options@;
        |i: int| match value {
            Some(v) => f.spec_filter(v, options[i], options[i]@, i as usize),
            None => true,
        }
    }

    /// The options displayed for the filter value `value`.
    pub closed spec fn spec_filter_result(&self, value: Option<Seq<char>>) -> Seq<usize> {
        filtered_indices(self.spec_keep_fn(value), self.options@.len())
    }

    /// The state invariant: one mark per option, and the displayed options are
    /// those the filter keeps for the current filter value.
    pub closed spec fn wf(&self) -> bool {
        &&& self.checked@.len() == self.options@.len()
        &&& self.filtered_options@ == self.spec_filter_result(filter_text(self.filter_value))
    }

    /// The message.
    pub closed spec fn spec_message(&self) -> &'a str { self.message }
    /// Whether `text` is what the transformer shows for the answer `answer`.
    pub closed spec fn spec_shows(&self, answer: Answer, text: Seq<char>) -> bool {
        self.transformer.spec_transforms(answer, text)
    }
    /// The help message.
    pub closed spec fn spec_help_message(&self) -> &'a str { self.help_message }
    /// The page size.
    pub closed spec fn spec_page_size(&self) -> usize { self.page_size }
    /// How many lines the last frame drawn has.
    pub closed spec fn spec_lines(&self) -> usize { self.renderer.spec_lines() }

    /// Whether the page that holds the highlight can be drawn: when the
    /// displayed options overflow a page, the highlight is on one of them or
    /// in the first half page.
    pub open spec fn spec_render_ready(&self) -> bool {
        self.spec_filtered().len() > self.spec_page_size() ==> self.spec_cursor() < self.spec_page_size() / 2
            || self.spec_cursor() < self.spec_filtered().len()
    }

    /// Whether `self` is `other` with only the renderer's line count changed.
    closed spec fn same_but_renderer(&self, other: &Self) -> bool {
        &&& self.message == other.message
        &&& self.options == other.options
        &&& self.help_message == other.help_message
        &&& self.vim_mode == other.vim_mode
        &&& self.cursor_index == other.cursor_index
        &&& self.checked == other.checked
        &&& self.page_size == other.page_size
        &&& self.keep_filter == other.keep_filter
        &&& self.filter_value == other.filter_value
        &&& self.filtered_options == other.filtered_options
        &&& self.filter == other.filter
        &&& self.transformer == other.transformer
    }

    /// Tells whether the page can be drawn (see [MultiSelect::spec_render_ready]).
    pub fn render_ready(&self) -> (r: bool)
        ensures
            r == self.spec_render_ready(),
    {
        !(self.filtered_options.len() > self.page_size) || self.cursor_index < self.page_size / 2
            || self.cursor_index < self.filtered_options.len()
    }

    /// The rows of the page that holds the highlight (whether each option is
    /// selected, and its text), and the row of the highlight in it.
    pub open spec fn spec_page(&self) -> (Seq<(bool, Seq<char>)>, nat) {
        let (start, end, sel) = crate::paging::spec_page_bounds(self.spec_page_size() as nat, self.spec_filtered().len(),
            self.spec_cursor() as nat);
        (self.spec_filtered().subrange(start as int, end as int).map_values(
            |i: usize| (self.spec_checked()[i as int], self.spec_options()[i as int]@)), sel)
    }

    /// What a frame shows: the prompt line with the typed filter, the page of
    /// options with their checkboxes, and the help message.
    pub open spec fn spec_frame(&self) -> Seq<TokenText> {
        let (rows, sel) = self.spec_page();
        prompt_tokens(self.spec_message()@, None, self.spec_filter_value())
            + multi_option_list(rows, sel, rows.len())
            + help_tokens(self.spec_help_message()@)
    }

    /// Draws a frame (see [MultiSelect::spec_frame]) after erasing the
    /// previous one.
    pub fn render(&mut self, terminal: &mut Terminal) -> (r: Result<(), std::io::Error>)
        requires
            old(self).wf(),
            old(self).spec_render_ready(),
        ensures
            r is Ok,
            ({
                let erased = old(terminal).spec_output() + erased_lines(old(self).spec_lines() as nat);
                &&& erased.len() <= final(terminal).spec_output().len()
                &&& final(terminal).spec_output().take(erased.len() as int) == erased
                &&& tokens_sent(old(terminal).spec_dull(), old(self).spec_frame(), final(terminal).spec_output().skip(erased.len() as int))
            }),
            final(terminal).same_but_output(old(terminal)),
            final(self).wf(),
            final(self).spec_options() == old(self).spec_options(),
            final(self).spec_checked() == old(self).spec_checked(),
            final(self).spec_filtered() == old(self).spec_filtered(),
            final(self).spec_cursor() == old(self).spec_cursor(),
            final(self).spec_filter_value() == old(self).spec_filter_value(),
            final(self).spec_vim_mode() == old(self).spec_vim_mode(),
            final(self).spec_keep_filter() == old(self).spec_keep_filter(),
            final(self).spec_message() == old(self).spec_message(),
            final(self).spec_help_message() == old(self).spec_help_message(),
            final(self).spec_page_size() == old(self).spec_page_size(),
    {
        let _ = self.renderer.reset_prompt(terminal);
        let ghost t1 = *terminal;
        proof {
            let o = t1.spec_output();
            assert(o.take(o.len() as int) =~= o);
            lemma_tokens_empty(t1.spec_dull(), o.skip(o.len() as int));
        }
        let ghost before = *terminal;
        match &self.filter_value {
            Some(filter) => {
                let _ = self.renderer.print_prompt(terminal, self.message, None, Some(filter.as_str()));
            },
            None => {
                let _ = self.renderer.print_prompt(terminal, self.message, None, None);
            },
        }
        let ghost head = prompt_tokens(self.spec_message()@, None, self.spec_filter_value());
        proof {
            lemma_printed_chain(t1, before, *terminal, Seq::empty(), head);
            assert(Seq::<TokenText>::empty() + head =~= head);
        }
        let n = self.options.len();
        proof {
            lemma_filtered_indices(self.spec_keep_fn(filter_text(self.filter_value)), self.options@.len());
        }
        let page = crate::paging::paginate(self.page_size, self.filtered_options.as_slice(), self.cursor_index);
        let ghost rows = self.spec_page().0;
        assert(rows.len() == page.content@.len());
        let mut k: usize = 0;
        while k < page.content.len()
            invariant
                self.wf(),
                self.same_but_renderer(old(self)),
                n == self.options@.len(),
                k <= page.content@.len(),
                rows == self.spec_page().0,
                rows.len() == page.content@.len(),
                forall|j: int| 0 <= j < page.content@.len() ==> (#[trigger] page.content@[j]) < n
                    && rows[j] == (self.checked@[page.content@[j] as int], self.options@[page.content@[j] as int]@),
                page.selection == self.spec_page().1,
                Renderer::printed(terminal, &t1, head + multi_option_list(rows, page.selection as nat, k as nat)),
            decreases page.content@.len() - k,
        {
            let idx = page.content[k];
            let ghost prev = *terminal;
            let _ = self.renderer.print_multi_option(terminal, page.selection == k, self.checked[idx], self.options[idx]);
            proof {
                let p = multi_option_tokens(page.selection == k, rows[k as int].0, rows[k as int].1);
                lemma_printed_chain(t1, prev, *terminal, head + multi_option_list(rows, page.selection as nat, k as nat), p);
                assert(head + multi_option_list(rows, page.selection as nat, k as nat) + p
                    =~= head + multi_option_list(rows, page.selection as nat, (k + 1) as nat));
            }
            k = k + 1;
        }
        let ghost body = head + multi_option_list(rows, page.selection as nat, rows.len());
        let ghost prev = *terminal;
        let _ = self.renderer.print_help(terminal, self.help_message);
        proof {
            lemma_printed_chain(t1, prev, *terminal, body, help_tokens(self.spec_help_message()@));
        }
        let _ = terminal.flush();
        Ok(())
    }

    /// Replaces the frame by the prompt with its answer.
    pub fn cleanup(&mut self, terminal: &mut Terminal, answer: &str) -> (r: Result<(), std::io::Error>)
        ensures
            r is Ok,
            ({
                let erased = old(terminal).spec_output() + erased_lines(old(self).spec_lines() as nat);
                &&& erased.len() <= final(terminal).spec_output().len()
                &&& final(terminal).spec_output().take(erased.len() as int) == erased
                &&& tokens_sent(old(terminal).spec_dull(),
                    seq![colored_token("? "@, Color::DarkGreen), plain_token(old(self).spec_message()@),
                        colored_token(" "@ + answer@, Color::DarkCyan)] + line_end_tokens(),
                    final(terminal).spec_output().skip(erased.len() as int))
            }),
            final(terminal).same_but_output(old(terminal)),
            final(self).spec_lines() == 1,
    {
        let _ = self.renderer.reset_prompt(terminal);
        let _ = self.renderer.print_prompt_answer(terminal, self.message, answer);
        Ok(())
    }

    /// Starts the question: every option displayed, the default ones selected.
    pub fn from_options(mso: MultiSelectOptions<'a>) -> (r: Self)
        requires
            mso.spec_default() matches Some(d) ==> forall|k: int| 0 <= k < d@.len() ==> #[trigger] d@[k] < mso.spec_options().len(),
        ensures
            r.wf(),
            r.spec_options() == mso.spec_options(),
            r.spec_cursor() == mso.spec_starting_selection(),
            r.spec_filter_value() is None,
            r.spec_filtered() == Seq::new(mso.spec_options().len(), |i: int| i as usize),
            forall|a: Answer, t: Seq<char>| r.spec_shows(a, t) == mso.spec_shows(a, t),
            forall|i: int| 0 <= i < mso.spec_options().len() ==> #[trigger] r.spec_checked()[i] == match mso.spec_default() {
                Some(d) => d@.contains(i as usize),
                None => false,
            },
    {
        let n = mso.options.len();
        let mut checked: Vec<bool> = Vec::new();
        let mut i: usize = 0;
        while i < n
            invariant
                i <= n,
                checked@.len() == i,
                forall|j: int| 0 <= j < i ==> !(#[trigger] checked@[j]),
            decreases n - i,
        {
            checked.push(false);
            i = i + 1;
        }
        if let Some(d) = mso.default {
            let mut k: usize = 0;
            while k < d.len()
                invariant
                    n == mso.options@.len(),
                    forall|j: int| 0 <= j < d@.len() ==> #[trigger] d@[j] < n,
                    checked@.len() == n,
                    k <= d@.len(),
                    forall|j: int| 0 <= j < n ==> #[trigger] checked@[j] == d@.take(k as int).contains(j as usize),
                decreases d@.len() - k,
            {
                let idx = d[k];
                checked.set(idx, true);
                proof {
                    assert forall|j: int| 0 <= j < n implies #[trigger] checked@[j] == d@.take(k as int + 1).contains(j as usize) by {
                        assert(d@.take(k as int + 1) =~= d@.take(k as int).push(idx));
                        lemma_push_contains(d@.take(k as int), idx, j as usize);
                    }
                }
                k = k + 1;
            }
            assert(d@.take(d@.len() as int) =~= d@);
        }
        let mut filtered_options: Vec<usize> = Vec::new();
        let mut i: usize = 0;
        while i < n
            invariant
                i <= n,
                filtered_options@ == Seq::new(i as nat, |j: int| j as usize),
            decreases n - i,
        {
            filtered_options.push(i);
            assert(filtered_options@ =~= Seq::new((i + 1) as nat, |j: int| j as usize));
            i = i + 1;
        }
        let mut r = MultiSelect {
            message: mso.message,
            options: mso.options,
            help_message: mso.help_message,
            vim_mode: mso.vim_mode,
            cursor_index: mso.starting_selection,
            checked,
            page_size: mso.page_size,
            keep_filter: mso.keep_filter,
            filter_value: None,
            filtered_options,
            filter: mso.filter,
            transformer: mso.transformer,
            renderer: Renderer::default(),
        };
        let mut transformer = mso.transformer;
        std::mem::swap(&mut r.transformer, &mut transformer);
        proof {
            r.lemma_filter_none_upto(n as nat);
        }
        r
    }

    proof fn lemma_filter_none_upto(&self, k: nat)
        ensures
            filtered_indices(self.spec_keep_fn(None), k) == Seq::new(k, |i: int| i as usize),
        decreases k,
    {
        if k > 0 {
            self.lemma_filter_none_upto((k - 1) as nat);
            assert(filtered_indices(self.spec_keep_fn(None), k) =~= Seq::new(k, |i: int| i as usize));
        }
    }

    /// The options displayed for the current filter value.
    fn filter_options(&self) -> (r: Vec<usize>)
        ensures
            r@ == self.spec_filter_result(filter_text(self.filter_value)),
    {
        let n = self.options.len();
        let ghost keep = self.spec_keep_fn(filter_text(self.filter_value));
        let mut r: Vec<usize> = Vec::new();
        let mut i: usize = 0;
        while i < n
            invariant
                n == self.options@.len(),
                keep == self.spec_keep_fn(filter_text(self.filter_value)),
                i <= n,
                r@ == filtered_indices(keep, i as nat),
            decreases n - i,
        {
            let shown = match &self.filter_value {
                Some(val) => self.filter.filter(val.as_str(), &self.options[i], self.options[i], i),
                None => true,
            };
            if shown {
                r.push(i);
            }
            i = i + 1;
        }
        r
    }

    /// Whether two filter values are the same.
    fn same_filter(a: &Option<String>, b: &Option<String>) -> (r: bool)
        ensures
            r == (filter_text(*a) == filter_text(*b)),
    {
        match (a, b) {
            (Some(x), Some(y)) => str_eq(x.as_str(), y.as_str()),
            (None, None) => true,
            _ => false,
        }
    }

    /// Where a key moves the highlight: up (the up arrow, or `k` in vim mode)
    /// one row, wrapping to the last row; down (the down arrow, tab, or `j` in
    /// vim mode) one row, wrapping to the first; other keys leave it.
    pub open spec fn spec_cursor_after(&self, key: TermKey) -> usize {
        let cursor = self.spec_cursor();
        let up = if cursor >= 1 { (cursor - 1) as usize } else { (self.spec_filtered().len() - 1) as usize };
        let down = {
            let moved: int = if cursor < usize::MAX { cursor + 1 } else { usize::MAX as int };
            if moved == self.spec_filtered().len() { 0usize } else { moved as usize }
        };
        match key {
            TermKey::Up => up,
            TermKey::Down => down,
            TermKey::Char(c) => if c == 'k' && self.spec_vim_mode() {
                up
            } else if c == '\t' || (c == 'j' && self.spec_vim_mode()) {
                down
            } else {
                cursor
            },
            _ => cursor,
        }
    }

    /// The filter once a key is applied: Ctrl+W and Ctrl+X (as characters)
    /// clear it, backspace drops its last grapheme, a selection change (space
    /// on a displayed option, left, right) clears it unless it is kept, and any
    /// other character is appended to it.
    pub open spec fn spec_filter_after(&self, key: TermKey) -> Option<Seq<char>> {
        let cleared = if self.spec_keep_filter() { self.spec_filter_value() } else { None };
        match key {
            TermKey::Char(c) => if c == '\t' || ((c == 'j' || c == 'k') && self.spec_vim_mode()) {
                self.spec_filter_value()
            } else if c == ' ' {
                if self.spec_cursor() < self.spec_filtered().len() { cleared } else { self.spec_filter_value() }
            } else if c == '\x17' || c == '\x18' {
                None
            } else {
                Some(match self.spec_filter_value() {
                    Some(v) => v.push(c),
                    None => seq![c],
                })
            },
            TermKey::Backspace => match self.spec_filter_value() {
                Some(v) => Some(spec_drop_last_grapheme(v)),
                None => None,
            },
            TermKey::Left | TermKey::Right => cleared,
            _ => self.spec_filter_value(),
        }
    }

    /// The selection once a key is applied: space toggles the highlighted
    /// option, right selects exactly the displayed options, left deselects all.
    pub open spec fn spec_checked_after(&self, key: TermKey) -> Seq<bool> {
        let n = self.spec_options().len();
        match key {
            TermKey::Char(c) => if c == ' ' && self.spec_cursor() < self.spec_filtered().len() {
                let idx = self.spec_filtered()[self.spec_cursor() as int];
                self.spec_checked().update(idx as int, !self.spec_checked()[idx as int])
            } else {
                self.spec_checked()
            },
            TermKey::Left => Seq::new(n, |i: int| false),
            TermKey::Right => Seq::new(n, |i: int| self.spec_filtered().contains(i as usize)),
            _ => self.spec_checked(),
        }
    }

    /// What a key other than Ctrl+C and enter does to the prompt (see
    /// [MultiSelect::on_change]): when the filter changed, the highlight is
    /// pulled back onto the last displayed option if it fell off a non-empty
    /// list (the displayed options always being those the filter keeps).
    pub open spec fn changed_by(&self, key: TermKey, after: &Self) -> bool {
        let moved = self.spec_cursor_after(key);
        let filter = self.spec_filter_after(key);
        &&& after.spec_options() == self.spec_options()
        &&& after.spec_vim_mode() == self.spec_vim_mode()
        &&& after.spec_keep_filter() == self.spec_keep_filter()
        &&& after.spec_filter_value() == filter
        &&& after.spec_checked() == self.spec_checked_after(key)
        &&& after.spec_cursor() == if filter == self.spec_filter_value() {
            moved
        } else {
            let len = after.spec_filtered().len();
            if len > 0 && len <= moved { (len - 1) as usize } else { moved }
        }
        &&& filter == self.spec_filter_value() ==> after.spec_filtered() == self.spec_filtered()
    }

    /// Pressing space twice leaves the selection as it was, when the filter is
    /// kept (or there is none): the highlight stays on the same option, which
    /// is toggled back.
    pub proof fn law_toggle_twice_restores(&self, once: &Self, twice: &Self)
        requires
            self.wf(),
            self.spec_options().len() <= usize::MAX,
            self.spec_keep_filter() || self.spec_filter_value() is None,
            self.changed_by(TermKey::Char(' '), once),
            once.changed_by(TermKey::Char(' '), twice),
        ensures
            twice.spec_checked() == self.spec_checked(),
            twice.spec_cursor() == self.spec_cursor(),
            twice.spec_filter_value() == self.spec_filter_value(),
    {
        lemma_filtered_indices(self.spec_keep_fn(filter_text(self.filter_value)), self.options@.len());
        assert(self.spec_filter_after(TermKey::Char(' ')) == self.spec_filter_value());
        assert(self.spec_cursor_after(TermKey::Char(' ')) == self.spec_cursor());
        assert(once.spec_filtered() == self.spec_filtered());
        assert(once.spec_cursor() == self.spec_cursor());
        assert(once.spec_filter_after(TermKey::Char(' ')) == once.spec_filter_value());
        assert(once.spec_cursor_after(TermKey::Char(' ')) == once.spec_cursor());
        if self.spec_cursor() < self.spec_filtered().len() {
            let idx = self.spec_filtered()[self.spec_cursor() as int];
            assert(once.spec_checked() == self.spec_checked().update(idx as int, !self.spec_checked()[idx as int]));
            assert(twice.spec_checked() =~= self.spec_checked());
        }
    }

    /// Reacts to a key, as the prompt's loop does with every key but Ctrl+C and
    /// enter:
    /// - up (and `k` in vim mode) moves the highlight up, wrapping to the last row;
    /// - down, tab (and `j`) move it down, wrapping to the first row;
    /// - space toggles the highlighted option;
    /// - Ctrl+W and Ctrl+X (as characters) clear the filter;
    /// - backspace drops the last grapheme of the filter;
    /// - right selects exactly the displayed options and left deselects all, both
    ///   clearing the filter unless it is kept;
    /// - any other character is appended to the filter.
    /// When the filter changed, the options are filtered again and the highlight is
    /// pulled back onto the last one if it fell off a non-empty list.
    ///
    /// Moving up from the first row of an empty list is left out: the prompt
    /// computes the last row of an empty list there.
    pub fn on_change(&mut self, key: TermKey)
        requires
            old(self).wf(),
            (key is Up || (key == TermKey::Char('k') && old(self).spec_vim_mode())) ==>
                !(old(self).spec_cursor() == 0 && old(self).spec_filtered().len() == 0),
        ensures
            final(self).wf(),
            old(self).changed_by(key, &*final(self)),
    {
        let old_filter = self.filter_value.clone();
        let n = self.options.len();
        proof {
            lemma_filtered_indices(self.spec_keep_fn(filter_text(self.filter_value)), self.options@.len());
        }
        match key {
            TermKey::Up => self.move_cursor_up(),
            TermKey::Char('k') if self.vim_mode => self.move_cursor_up(),
            TermKey::Char('\t') | TermKey::Down => self.move_cursor_down(),
            TermKey::Char('j') if self.vim_mode => self.move_cursor_down(),
            TermKey::Char(' ') => self.toggle_cursor_selection(),
            TermKey::Char('\x17') | TermKey::Char('\x18') => {
                self.filter_value = None;
            },
            TermKey::Backspace => {
                if let Some(filter) = &self.filter_value {
                    let gs = graphemes(filter.as_str());
                    let len = gs.len();
                    let new_len = len.saturating_sub(1);
                    let mut kept = String::new();
                    let mut i: usize = 0;
                    let ghost views = string_views(gs@);
                    while i < new_len
                        invariant
                            views == string_views(gs@),
                            new_len <= gs@.len(),
                            i <= new_len,
                            kept@ == views.take(i as int).flatten_alt(),
                        decreases new_len - i,
                    {
                        proof {
                            crate::segmentation::lemma_flatten_alt_take_succ(views, i as int);
                        }
                        push_str(&mut kept, gs[i].as_str());
                        i = i + 1;
                    }
                    self.filter_value = Some(kept);
                }
            },
            TermKey::Right => {
                let mut checked: Vec<bool> = Vec::new();
                let mut i: usize = 0;
                while i < n
                    invariant
                        i <= n,
                        checked@.len() == i,
                        forall|j: int| 0 <= j < i ==> !(#[trigger] checked@[j]),
                    decreases n - i,
                {
                    checked.push(false);
                    i = i + 1;
                }
                let mut k: usize = 0;
                while k < self.filtered_options.len()
                    invariant
                        n == self.options@.len(),
                        checked@.len() == n,
                        k <= self.filtered_options@.len(),
                        forall|j: int| 0 <= j < self.filtered_options@.len() ==> #[trigger] self.filtered_options@[j] < n,
                        forall|j: int| 0 <= j < n ==> #[trigger] checked@[j] == self.filtered_options@.take(k as int).contains(j as usize),
                    decreases self.filtered_options@.len() - k,
                {
                    let idx = self.filtered_options[k];
                    checked.set(idx, true);
                    proof {
                        assert forall|j: int| 0 <= j < n implies #[trigger] checked@[j]
                            == self.filtered_options@.take(k as int + 1).contains(j as usize) by {
                            assert(self.filtered_options@.take(k as int + 1) =~= self.filtered_options@.take(k as int).push(idx));
                            lemma_push_contains(self.filtered_options@.take(k as int), idx, j as usize);
                        }
                    }
                    k = k + 1;
                }
                assert(self.filtered_options@.take(self.filtered_options@.len() as int) =~= self.filtered_options@);
                assert(checked@ =~= Seq::new(n as nat, |i: int| self.filtered_options@.contains(i as usize)));
                self.checked = checked;
                if !self.keep_filter {
                    self.filter_value = None;
                }
            },
            TermKey::Left => {
                let mut checked: Vec<bool> = Vec::new();
                let mut i: usize = 0;
                while i < n
                    invariant
                        i <= n,
                        checked@ == Seq::new(i as nat, |j: int| false),
                    decreases n - i,
                {
                    checked.push(false);
                    assert(checked@ =~= Seq::new((i + 1) as nat, |j: int| false));
                    i = i + 1;
                }
                self.checked = checked;
                if !self.keep_filter {
                    self.filter_value = None;
                }
            },
            TermKey::Char(c) => {
                match &mut self.filter_value {
                    Some(val) => push_char(val, c),
                    None => {
                        let mut s = String::new();
                        push_char(&mut s, c);
                        self.filter_value = Some(s);
                    },
                }
            },
            _ => {},
        }
        if !Self::same_filter(&self.filter_value, &old_filter) {
            let options = self.filter_options();
            proof {
                lemma_filtered_indices(self.spec_keep_fn(filter_text(self.filter_value)), self.options@.len());
            }
            if options.len() > 0 && options.len() <= self.cursor_index {
                self.cursor_index = options.len() - 1;
            }
            self.filtered_options = options;
        }
    }

    fn move_cursor_up(&mut self)
        requires
            !(old(self).cursor_index == 0 && old(self).filtered_options@.len() == 0),
        ensures
            final(self).cursor_index == if old(self).cursor_index >= 1 {
                (old(self).cursor_index - 1) as usize
            } else {
                (old(self).filtered_options@.len() - 1) as usize
            },
            final(self).options == old(self).options,
            final(self).checked == old(self).checked,
            final(self).filter_value == old(self).filter_value,
            final(self).filtered_options == old(self).filtered_options,
            final(self).vim_mode == old(self).vim_mode,
            final(self).keep_filter == old(self).keep_filter,
            final(self).filter == old(self).filter,
    {
        self.cursor_index = match self.cursor_index.checked_sub(1) {
            Some(c) => c,
            None => self.filtered_options.len() - 1,
        };
    }

    fn move_cursor_down(&mut self)
        ensures
            final(self).cursor_index == {
                let moved: int = if old(self).cursor_index < usize::MAX { old(self).cursor_index + 1 } else { usize::MAX as int };
                if moved == old(self).filtered_options@.len() { 0usize } else { moved as usize }
            },
            final(self).options == old(self).options,
            final(self).checked == old(self).checked,
            final(self).filter_value == old(self).filter_value,
            final(self).filtered_options == old(self).filtered_options,
            final(self).vim_mode == old(self).vim_mode,
            final(self).keep_filter == old(self).keep_filter,
            final(self).filter == old(self).filter,
    {
        self.cursor_index = self.cursor_index.saturating_add(1);
        if self.cursor_index == self.filtered_options.len() {
            self.cursor_index = 0;
        }
    }

    fn toggle_cursor_selection(&mut self)
        requires
            old(self).checked@.len() == old(self).options@.len(),
            forall|j: int| 0 <= j < old(self).filtered_options@.len() ==>
                #[trigger] old(self).filtered_options@[j] < old(self).options@.len(),
        ensures
            old(self).cursor_index >= old(self).filtered_options@.len() ==> final(self).checked == old(self).checked
                && final(self).filter_value == old(self).filter_value,
            old(self).cursor_index < old(self).filtered_options@.len() ==> {
                let idx = old(self).filtered_options@[old(self).cursor_index as int];
                &&& final(self).checked@ == old(self).checked@.update(idx as int, !old(self).checked@[idx as int])
                &&& final(self).filter_value == if old(self).keep_filter { old(self).filter_value } else { None }
            },
            final(self).cursor_index == old(self).cursor_index,
            final(self).options == old(self).options,
            final(self).filtered_options == old(self).filtered_options,
            final(self).vim_mode == old(self).vim_mode,
            final(self).keep_filter == old(self).keep_filter,
            final(self).filter == old(self).filter,
            final(self).message == old(self).message,
            final(self).help_message == old(self).help_message,
            final(self).page_size == old(self).page_size,
            final(self).transformer == old(self).transformer,
            final(self).renderer == old(self).renderer,
    {
        if self.cursor_index >= self.filtered_options.len() {
            return;
        }
        let idx = self.filtered_options[self.cursor_index];
        let was = self.checked[idx];
        self.checked.set(idx, !was);
        if !self.keep_filter {
            self.filter_value = None;
        }
    }

    /// The selected options, in order, as a multiple-options answer.
    pub fn get_final_answer(&self) -> (r: Answer)
        requires
            self.wf(),
        ensures
            r matches Answer::MultipleOptions(a) && answers_match(a@, self.spec_options(), self.spec_checked()),
    {
        let n = self.options.len();
        let ghost keep = checked_fn(self.checked@);
        let mut selected: Vec<OptionAnswer> = Vec::new();
        let mut i: usize = 0;
        while i < n
            invariant
                n == self.options@.len(),
                self.checked@.len() == n,
                keep == checked_fn(self.checked@),
                i <= n,
                crate::prompts::multiselect::answers_at(selected@, self.options@, filtered_indices(keep, i as nat)),
            decreases n - i,
        {
            let ghost prev = selected@;
            if self.checked[i] {
                selected.push(OptionAnswer::new(i, self.options[i]));
            }
            proof {
                let fi = filtered_indices(keep, (i + 1) as nat);
                let fp = filtered_indices(keep, i as nat);
                assert(keep(i as int) == self.checked@[i as int]);
                assert forall|k: int| 0 <= k < selected@.len() implies (#[trigger] selected@[k]).index == fi[k]
                    && selected@[k].value@ == self.options@[fi[k] as int]@ by {
                    if k < fp.len() {
                        assert(selected@[k] == prev[k]);
                    }
                }
            }
            i = i + 1;
        }
        Answer::MultipleOptions(selected)
    }

    /// Whether [MultiSelect::handle_key] can take the key: moving up needs a
    /// displayed option to wrap to when the highlight is on the first row.
    pub fn key_allowed(&self, key: TermKey) -> (r: bool)
        ensures
            r == ((key is Up || (key == TermKey::Char('k') && self.spec_vim_mode())) ==>
                !(self.spec_cursor() == 0 && self.spec_filtered().len() == 0)),
    {
        let up = match key {
            TermKey::Up => true,
            TermKey::Char('k') => self.vim_mode,
            _ => false,
        };
        !up || !(self.cursor_index == 0 && self.filtered_options.len() == 0)
    }

    /// Handles one key press: Ctrl+C interrupts the prompt, enter (a line feed
    /// or carriage return) answers with the selection, and any other key goes to
    /// [MultiSelect::on_change].
    pub fn handle_key(&mut self, key: TermKey) -> (r: PromptStep<Answer>)
        requires
            old(self).wf(),
            (key is Up || (key == TermKey::Char('k') && old(self).spec_vim_mode())) ==>
                !(old(self).spec_cursor() == 0 && old(self).spec_filtered().len() == 0),
        ensures
            final(self).wf(),
            key == TermKey::Ctrl('c') ==> r is Interrupted,
            key == TermKey::Char('\n') || key == TermKey::Char('\r') ==> (r matches PromptStep::Answered(a)
                && a matches Answer::MultipleOptions(v) && answers_match(v@, old(self).spec_options(), old(self).spec_checked())),
            !(key == TermKey::Ctrl('c') || key == TermKey::Char('\n') || key == TermKey::Char('\r')) ==> r is Continue
                && old(self).changed_by(key, &*final(self)),
    {
        match key {
            TermKey::Ctrl('c') => PromptStep::Interrupted,
            TermKey::Char('\n') | TermKey::Char('\r') => PromptStep::Answered(self.get_final_answer()),
            _ => {
                self.on_change(key);
                PromptStep::Continue
            },
        }
    }

    /// The text shown for the answer, as the transformer makes it.
    pub fn transform_answer(&self, answer: &Answer) -> (r: String)
        ensures
            self.spec_shows(*answer, r@),
    {
        self.transformer.transform(answer)
    }
}

} // verus!
