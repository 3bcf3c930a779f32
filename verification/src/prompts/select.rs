//! Selecting one option among many.

use super::{
    cursor_down, cursor_in_list, cursor_up, filtered_indices, lemma_cursor_down_in_list,
    lemma_cursor_up_in_list, lemma_filtered_indices, spec_cursor_down, spec_cursor_up,
    keys_of, lemma_ran_empty, lemma_ran_push, ran, KeyDriven, PromptStep, DEFAULT_PAGE_SIZE, DEFAULT_VIM_MODE,
};
use crate::error::{InquireError, InquireResult};
use crate::formatter::{DefaultOptionFormatter, OptionFormatter};
use crate::key::{spec_key_from_event, Key, KeyModifiers};
use crate::list_option::ListOption;
use crate::strings::to_owned_string;
use crate::text_input::{spec_can_handle_key, spec_handle_key, Input, TextInputModel};
use crate::type_aliases::{DefaultFilter, Filter};
use crate::terminal::crossterm::spec_unix2dos;
use crate::ui::backend::{input_text, list_text, newline_text, prompt_text, Backend, CommonBackend, SelectBackend};
use crate::ui::RenderConfig;
use crate::utils::{paginate, spec_page_bounds};
use vstd::prelude::*;

verus! {

/// Help message shown by default.
pub const SELECT_DEFAULT_HELP_MESSAGE: &'static str = "↑↓ to move, enter to select, type to filter";

/// Prompt for selecting one option among many.
///
/// The user moves the highlight with the arrows (and, in vim mode, `j`/`k`),
/// types to filter the options, and submits the highlighted one with enter.
/// The options must not be empty, and the starting cursor must point at one of
/// them.
#[verifier::reject_recursive_types(T)]
pub struct Select<'a, T> {
    /// Message presented to the user.
    pub message: &'a str,
    /// Options displayed to the user.
    pub options: Vec<T>,
    /// Help message shown below the options.
    pub help_message: Option<&'a str>,
    /// Number of options displayed at once.
    pub page_size: usize,
    /// Whether `j` and `k` also move the highlight.
    pub vim_mode: bool,
    /// Index of the option highlighted at the start.
    pub starting_cursor: usize,
    /// Decides which options stay displayed for the typed filter.
    pub filter: &'a dyn Filter<T>,
    /// Formats the final answer.
    pub formatter: &'a dyn OptionFormatter<T>,
    /// How the prompt is drawn.
    pub render_config: RenderConfig,
}

impl<'a, T: std::fmt::Display> Select<'a, T> {
    /// A prompt with the given message and options and the default settings:
    /// the default help message, page size and vim mode, the cursor on the first
    /// option, the default filter and formatter, and the default render configuration.
    pub fn new(message: &'a str, options: Vec<T>) -> (r: Self)
        ensures
            r.message == message,
            r.options == options,
            r.help_message == Some(SELECT_DEFAULT_HELP_MESSAGE),
            r.page_size == DEFAULT_PAGE_SIZE,
            r.vim_mode == DEFAULT_VIM_MODE,
            r.starting_cursor == 0,
    {
        Select {
            message,
            options,
            help_message: Some(SELECT_DEFAULT_HELP_MESSAGE),
            page_size: DEFAULT_PAGE_SIZE,
            vim_mode: DEFAULT_VIM_MODE,
            starting_cursor: 0,
            filter: &DefaultFilter,
            formatter: &DefaultOptionFormatter,
            render_config: RenderConfig::default(),
        }
    }
}

impl<'a, T> Select<'a, T> {
    /// Whether `other` has the same settings as `self` but for the fields that a
    /// builder changes.
    pub open spec fn same_options(&self, other: &Self) -> bool {
        &&& self.message == other.message
        &&& self.options == other.options
    }

    /// Sets the help message.
    pub fn with_help_message(self, message: &'a str) -> (r: Self)
        ensures
            r.help_message == Some(message),
            r.same_options(&self),
            r.page_size == self.page_size,
            r.vim_mode == self.vim_mode,
            r.starting_cursor == self.starting_cursor,
            r.render_config == self.render_config,
    {
        let mut s = self;
        s.help_message = Some(message);
        s
    }

    /// Removes the help message.
    pub fn without_help_message(self) -> (r: Self)
        ensures
            r.help_message == None::<&str>,
            r.same_options(&self),
            r.page_size == self.page_size,
            r.vim_mode == self.vim_mode,
            r.starting_cursor == self.starting_cursor,
            r.render_config == self.render_config,
    {
        let mut s = self;
        s.help_message = None;
        s
    }

    /// Sets the page size.
    pub fn with_page_size(self, page_size: usize) -> (r: Self)
        ensures
            r.page_size == page_size,
            r.same_options(&self),
            r.help_message == self.help_message,
            r.vim_mode == self.vim_mode,
            r.starting_cursor == self.starting_cursor,
            r.render_config == self.render_config,
    {
        let mut s = self;
        s.page_size = page_size;
        s
    }

    /// Enables or disables vim mode.
    pub fn with_vim_mode(self, vim_mode: bool) -> (r: Self)
        ensures
            r.vim_mode == vim_mode,
            r.same_options(&self),
            r.help_message == self.help_message,
            r.page_size == self.page_size,
            r.starting_cursor == self.starting_cursor,
            r.render_config == self.render_config,
    {
        let mut s = self;
        s.vim_mode = vim_mode;
        s
    }

    /// Sets the filter.
    pub fn with_filter(self, filter: &'a dyn Filter<T>) -> (r: Self)
        ensures
            r.filter == filter,
            r.same_options(&self),
            r.help_message == self.help_message,
            r.page_size == self.page_size,
            r.vim_mode == self.vim_mode,
            r.starting_cursor == self.starting_cursor,
            r.render_config == self.render_config,
    {
        let mut s = self;
        let mut value = filter;
        std::mem::swap(&mut s.filter, &mut value);
        s
    }

    /// Sets the formatter.
    pub fn with_formatter(self, formatter: &'a dyn OptionFormatter<T>) -> (r: Self)
        ensures
            r.formatter == formatter,
            r.same_options(&self),
            r.help_message == self.help_message,
            r.page_size == self.page_size,
            r.vim_mode == self.vim_mode,
            r.starting_cursor == self.starting_cursor,
            r.render_config == self.render_config,
    {
        let mut s = self;
        let mut value = formatter;
        std::mem::swap(&mut s.formatter, &mut value);
        s
    }

    /// Sets the index of the option highlighted at the start.
    pub fn with_starting_cursor(self, starting_cursor: usize) -> (r: Self)
        ensures
            r.starting_cursor == starting_cursor,
            r.same_options(&self),
            r.help_message == self.help_message,
            r.page_size == self.page_size,
            r.vim_mode == self.vim_mode,
            r.render_config == self.render_config,
    {
        let mut s = self;
        s.starting_cursor = starting_cursor;
        s
    }

    /// Sets how the prompt is drawn.
    pub fn with_render_config(self, render_config: RenderConfig) -> (r: Self)
        ensures
            r.render_config == render_config,
            r.same_options(&self),
            r.help_message == self.help_message,
            r.page_size == self.page_size,
            r.vim_mode == self.vim_mode,
            r.starting_cursor == self.starting_cursor,
    {
        let mut s = self;
        s.render_config = render_config;
        s
    }
}

/// The running state of a [Select] prompt.
#[verifier::reject_recursive_types(T)]
pub struct SelectPrompt<'a, T> {
    message: &'a str,
    options: Vec<T>,
    string_options: Vec<String>,
    filtered_options: Vec<usize>,
    help_message: Option<&'a str>,
    vim_mode: bool,
    cursor_index: usize,
    page_size: usize,
    input: Input,
    filter: &'a dyn Filter<T>,
    formatter: &'a dyn OptionFormatter<T>,
    filtered_with: Ghost<Seq<char>>,
}

/// A navigation key: how many rows it moves, whether it wraps, and whether it moves up.
pub open spec fn spec_navigation(key: Key, vim_mode: bool, page_size: usize) -> Option<(usize, bool, bool)> {
    match key {
        Key::Up(m) => if m.bits == 0 { Some((1usize, true, true)) } else { None },
        Key::Char(c, m) => if c == 'k' && m.bits == 0 && vim_mode {
            Some((1usize, true, true))
        } else if c == 'j' && m.bits == 0 && vim_mode {
            Some((1usize, true, false))
        } else {
            None
        },
        Key::PageUp => Some((page_size, false, true)),
        Key::Home => Some((usize::MAX, false, true)),
        Key::Down(m) => if m.bits == 0 { Some((1usize, true, false)) } else { None },
        Key::PageDown => Some((page_size, false, false)),
        Key::End => Some((usize::MAX, false, false)),
        _ => None,
    }
}

impl<'a, T> SelectPrompt<'a, T> {
    /// The options.
    pub closed spec fn spec_options(&self) -> Seq<T> {
        self.options@
    }

    /// The string forms of the options.
    pub closed spec fn spec_strings(&self) -> Seq<Seq<char>> {
        self.string_options@.map_values(|s: String| s@)
    }

    /// The string forms of the options, as strings.
    pub closed spec fn spec_string_values(&self) -> Seq<String> {
        self.string_options@
    }

    /// The indices of the displayed options, in order.
    pub closed spec fn spec_filtered(&self) -> Seq<usize> {
        self.filtered_options@
    }

    /// The row of the highlighted option among the displayed ones.
    pub closed spec fn spec_cursor(&self) -> usize {
        self.cursor_index
    }

    /// The filter text typed so far.
    pub closed spec fn spec_input(&self) -> TextInputModel {
        self.input@
    }

    /// Whether vim mode is on.
    pub closed spec fn spec_vim_mode(&self) -> bool {
        self.vim_mode
    }

    /// The page size.
    pub closed spec fn spec_page_size(&self) -> usize {
        self.page_size
    }

    /// The message.
    pub closed spec fn spec_message(&self) -> &'a str {
        self.message
    }

    /// Whether `text` is what the prompt's formatter shows for the answer `answer`.
    pub closed spec fn spec_shows(&self, answer: ListOption<T>, text: Seq<char>) -> bool {
        self.formatter.spec_formats((ListOption { index: answer.index, value: &answer.value }), text)
    }

    /// The displayed options for the typed text `typed`.
    pub closed spec fn spec_filter_result(&self, typed: Seq<char>) -> Seq<usize> {
        filtered_indices(self.spec_keep_fn(typed), self.options@.len())
    }

    /// Which options are displayed for the typed text `typed`.
    pub closed spec fn spec_keep_fn(&self, typed: Seq<char>) -> spec_fn(int) -> bool {
        let f = self.filter;
        let options = self.options@;
        let strings = self.string_options@;
        |i: int| typed.len() == 0 || f.spec_filter(typed, options[i], strings[i]@, i as usize)
    }

    /// The state invariant: one string per option, the displayed options are those
    /// the filter keeps for the text last filtered with, and the highlight is on
    /// one of them (or at the start when none is displayed).
    pub closed spec fn wf(&self) -> bool {
        &&& self.string_options@.len() == self.options@.len()
        &&& self.filtered_options@ == self.spec_filter_result(self.filtered_with@)
        &&& cursor_in_list(self.cursor_index, self.filtered_options@.len())
    }

    /// Whether only the cursor may have changed from `old`.
    pub open spec fn same_but_cursor(&self, old: &Self) -> bool {
        &&& self.spec_options() == old.spec_options()
        &&& self.spec_strings() == old.spec_strings()
        &&& self.spec_filtered() == old.spec_filtered()
        &&& self.spec_input() == old.spec_input()
        &&& self.spec_vim_mode() == old.spec_vim_mode()
        &&& self.spec_page_size() == old.spec_page_size()
        &&& self.spec_message() == old.spec_message()
    }
}

impl<'a, T: std::fmt::Display> SelectPrompt<'a, T> {
    /// Starts a prompt: fails with `InvalidConfiguration` when there are no
    /// options or the starting cursor is not the index of one; otherwise every
    /// option is displayed and the starting one is highlighted.
    pub fn new(so: Select<'a, T>) -> (r: InquireResult<Self>)
        ensures
            so.options@.len() == 0 ==> r matches Err(InquireError::InvalidConfiguration(_)),
            so.options@.len() > 0 && so.starting_cursor >= so.options@.len() ==> r matches Err(
                InquireError::InvalidConfiguration(_),
            ),
            so.options@.len() > 0 && so.starting_cursor < so.options@.len() ==> (r matches Ok(p) && {
                &&& p.wf()
                &&& p.spec_options() == so.options@
                &&& p.spec_cursor() == so.starting_cursor
                &&& p.spec_filtered() == Seq::new(so.options@.len(), |i: int| i as usize)
                &&& p.spec_input().content == Seq::<char>::empty()
                &&& p.spec_input().cursor == 0
                &&& p.spec_vim_mode() == so.vim_mode
                &&& p.spec_page_size() == so.page_size
                &&& p.spec_message() == so.message
                &&& forall|o: ListOption<T>, t: Seq<char>|
                    p.spec_shows(o, t) == so.formatter.spec_formats((ListOption { index: o.index, value: &o.value }), t)
                &&& forall|i: int| 0 <= i < so.options@.len() ==>
                    vstd::string::to_string_from_display_ensures::<T>(&so.options@[i], #[trigger] p.spec_string_values()[i])
            }),
    {
        if so.options.len() == 0 {
            return Err(InquireError::InvalidConfiguration(to_owned_string("Available options can not be empty")));
        }
        if so.starting_cursor >= so.options.len() {
            return Err(InquireError::InvalidConfiguration(
                to_owned_string("Starting cursor index is out-of-bounds for the length of options"),
            ));
        }
        let n = so.options.len();
        let mut string_options: Vec<String> = Vec::new();
        let mut filtered_options: Vec<usize> = Vec::new();
        let mut i: usize = 0;
        while i < n
            invariant
                n == so.options@.len(),
                i <= n,
                string_options@.len() == i,
                filtered_options@ == Seq::new(i as nat, |j: int| j as usize),
                forall|j: int| 0 <= j < i ==>
                    vstd::string::to_string_from_display_ensures::<T>(&so.options@[j], #[trigger] string_options@[j]),
            decreases n - i,
        {
            string_options.push(so.options[i].to_string());
            filtered_options.push(i);
            assert(filtered_options@ =~= Seq::new((i + 1) as nat, |j: int| j as usize));
            i = i + 1;
        }
        let mut p = SelectPrompt {
            message: so.message,
            options: so.options,
            string_options,
            filtered_options,
            help_message: so.help_message,
            vim_mode: so.vim_mode,
            cursor_index: so.starting_cursor,
            page_size: so.page_size,
            input: Input::new(),
            filter: so.filter,
            formatter: so.formatter,
            filtered_with: Ghost(Seq::empty()),
        };
        let mut formatter = so.formatter;
        std::mem::swap(&mut p.formatter, &mut formatter);
        proof {
            p.lemma_filter_all();
        }
        Ok(p)
    }
}

impl<'a, T> SelectPrompt<'a, T> {
    /// With nothing typed, every option is displayed.
    proof fn lemma_filter_all(&self)
        ensures
            self.spec_filter_result(Seq::empty()) == Seq::new(self.spec_options().len(), |i: int| i as usize),
    {
        self.lemma_filter_all_upto(self.options@.len());
    }

    proof fn lemma_filter_all_upto(&self, k: nat)
        ensures
            filtered_indices(self.spec_keep_fn(Seq::empty()), k)
                == Seq::new(k, |i: int| i as usize),
        decreases k,
    {
        if k > 0 {
            self.lemma_filter_all_upto((k - 1) as nat);
            assert(filtered_indices(self.spec_keep_fn(Seq::empty()), k)
                =~= Seq::new(k, |i: int| i as usize));
        }
    }

    /// The indices of the options displayed for the text typed now.
    fn filter_options(&self) -> (r: Vec<usize>)
        requires
            self.string_options@.len() == self.options@.len(),
        ensures
            r@ == self.spec_filter_result(self.input@.content),
    {
        let content = self.input.content();
        let n = self.options.len();
        let ghost keep = self.spec_keep_fn(self.input@.content);
        let mut r: Vec<usize> = Vec::new();
        let mut i: usize = 0;
        while i < n
            invariant
                n == self.options@.len(),
                self.string_options@.len() == n,
                content@ == self.input@.content,
                keep == self.spec_keep_fn(self.input@.content),
                i <= n,
                r@ == filtered_indices(keep, i as nat),
            decreases n - i,
        {
            let shown = content.is_empty() || self.filter.filter(
                content,
                &self.options[i],
                self.string_options[i].as_str(),
                i,
            );
            proof {
                let typed = self.input@.content;
                assert(content@ == typed);
                assert(self.string_options@[i as int]@ == self.string_options[i as int]@);
                assert(shown == (typed.len() == 0 || self.filter.spec_filter(typed, self.options@[i as int], self.string_options@[i as int]@, i)));
                assert(shown == keep(i as int));
            }
            if shown {
                r.push(i);
            }
            i = i + 1;
        }
        r
    }

    /// Moves the highlight up `qty` rows.
    fn move_cursor_up(&mut self, qty: usize, wrap: bool)
        requires
            old(self).wf(),
        ensures
            final(self).wf(),
            final(self).spec_cursor() == spec_cursor_up(old(self).spec_cursor(), qty, wrap, old(self).spec_filtered().len()),
            final(self).same_but_cursor(old(self)),
    {
        proof {
            lemma_cursor_up_in_list(self.cursor_index, qty, wrap, self.filtered_options@.len());
        }
        self.cursor_index = cursor_up(self.cursor_index, qty, wrap, self.filtered_options.len());
    }

    /// Moves the highlight down `qty` rows.
    fn move_cursor_down(&mut self, qty: usize, wrap: bool)
        requires
            old(self).wf(),
        ensures
            final(self).wf(),
            final(self).spec_cursor() == spec_cursor_down(old(self).spec_cursor(), qty, wrap, old(self).spec_filtered().len()),
            final(self).same_but_cursor(old(self)),
    {
        let len = self.filtered_options.len();
        proof {
            lemma_cursor_down_in_list(self.cursor_index, qty, wrap, len as nat);
        }
        self.cursor_index = cursor_down(self.cursor_index, qty, wrap, len);
    }

    /// What a key that neither submits nor cancels does to the prompt: a
    /// navigation key moves the highlight and nothing else; any other key
    /// edits the filter text as the text input does, and filters the options
    /// again when the text changed.
    pub open spec fn changed_by(&self, key: Key, after: &Self) -> bool {
        &&& spec_navigation(key, self.spec_vim_mode(), self.spec_page_size()) matches Some(nav) ==> {
            &&& after.same_but_cursor(self)
            &&& after.spec_cursor() == if nav.2 {
                spec_cursor_up(self.spec_cursor(), nav.0, nav.1, self.spec_filtered().len())
            } else {
                spec_cursor_down(self.spec_cursor(), nav.0, nav.1, self.spec_filtered().len())
            }
        }
        &&& spec_navigation(key, self.spec_vim_mode(), self.spec_page_size()) is None ==> {
            let (input, dirty) = spec_handle_key(self.spec_input(), key);
            let handled = spec_can_handle_key(self.spec_input(), key);
            &&& after.spec_options() == self.spec_options()
            &&& after.spec_strings() == self.spec_strings()
            &&& after.spec_vim_mode() == self.spec_vim_mode()
            &&& after.spec_page_size() == self.spec_page_size()
            &&& after.spec_message() == self.spec_message()
            &&& !handled ==> *after == *self
            &&& handled ==> after.spec_input() == input
            &&& handled && !dirty ==> after.spec_filtered() == self.spec_filtered()
                && after.spec_cursor() == self.spec_cursor()
            &&& handled && dirty ==> {
                let filtered = self.spec_filter_result(input.content);
                &&& after.spec_filtered() == filtered
                &&& after.spec_cursor() == if filtered.len() <= self.spec_cursor() {
                    if filtered.len() == 0 { 0usize } else { (filtered.len() - 1) as usize }
                } else {
                    self.spec_cursor()
                }
            }
        }
    }

    /// Reacts to a key that neither submits nor cancels: navigation keys move
    /// the highlight; any other key edits the filter text, and when the text
    /// changed the displayed options are filtered again, with the highlight
    /// pulled back onto the last one if it fell off the list.
    pub fn on_change(&mut self, key: Key)
        requires
            old(self).wf(),
        ensures
            final(self).wf(),
            old(self).changed_by(key, &*final(self)),
    {
        let nav = match key {
            Key::Up(m) => if m.bits == 0 { Some((1usize, true, true)) } else { None },
            Key::Char(c, m) => {
                if c == 'k' && m.bits == 0 && self.vim_mode {
                    Some((1usize, true, true))
                } else if c == 'j' && m.bits == 0 && self.vim_mode {
                    Some((1usize, true, false))
                } else {
                    None
                }
            },
            Key::PageUp => Some((self.page_size, false, true)),
            Key::Home => Some((usize::MAX, false, true)),
            Key::Down(m) => if m.bits == 0 { Some((1usize, true, false)) } else { None },
            Key::PageDown => Some((self.page_size, false, false)),
            Key::End => Some((usize::MAX, false, false)),
            _ => None,
        };
        match nav {
            Some((qty, wrap, up)) => {
                if up {
                    self.move_cursor_up(qty, wrap);
                } else {
                    self.move_cursor_down(qty, wrap);
                }
            },
            None => {
                if !self.input.can_handle_key(key) {
                    return;
                }
                let dirty = self.input.handle_key(key);
                if dirty {
                    let options = self.filter_options();
                    let n = self.options.len();
                    proof {
                        lemma_filtered_indices(self.spec_keep_fn(self.input@.content), self.options@.len());
                    }
                    if options.len() <= self.cursor_index {
                        self.cursor_index = options.len().saturating_sub(1);
                    }
                    self.filtered_options = options;
                    self.filtered_with = Ghost(self.input@.content);
                }
            },
        }
    }

    /// Whether an option is highlighted, i.e. there is one to submit.
    pub fn has_answer_highlighted(&self) -> (r: bool)
        ensures
            r == (self.spec_cursor() < self.spec_filtered().len()),
    {
        self.cursor_index < self.filtered_options.len()
    }

    /// Takes the highlighted option out of the prompt, with its index in the
    /// original list.
    fn get_final_answer(&mut self) -> (r: ListOption<T>)
        requires
            old(self).wf(),
            old(self).spec_cursor() < old(self).spec_filtered().len(),
        ensures
            r.index == old(self).spec_filtered()[old(self).spec_cursor() as int],
            r.value == old(self).spec_options()[r.index as int],
    {
        let n = self.options.len();
        proof {
            lemma_filtered_indices(self.spec_keep_fn(self.filtered_with@), self.options@.len());
        }
        let index = self.filtered_options[self.cursor_index];
        let value = self.options.swap_remove(index);
        ListOption::new(index, value)
    }

    /// Handles one key press: Ctrl+C interrupts and ESC cancels the prompt;
    /// enter submits the highlighted option, or does nothing when none is
    /// displayed; any other key goes to [SelectPrompt::on_change].
    pub fn handle_key(&mut self, key: Key) -> (r: PromptStep<ListOption<T>>)
        requires
            old(self).wf(),
        ensures
            old(self).handled(key, *final(self), r),
    {
        match key {
            Key::Interrupt => PromptStep::Interrupted,
            Key::Cancel => PromptStep::Canceled,
            Key::Submit => {
                if self.has_answer_highlighted() {
                    PromptStep::Answered(self.get_final_answer())
                } else {
                    PromptStep::Continue
                }
            },
            _ => {
                self.on_change(key);
                PromptStep::Continue
            },
        }
    }

    /// The options of the page that holds the highlight, as their strings.
    pub closed spec fn spec_page_rows(&self) -> Seq<Seq<char>> {
        let (start, end, cursor) = spec_page_bounds(self.page_size as nat, self.filtered_options@.len(), Some(self.cursor_index));
        self.filtered_options@.subrange(start as int, end as int).map_values(|i: usize| self.string_options@[i as int]@)
    }

    /// The row of the highlight in its page.
    pub closed spec fn spec_page_cursor(&self) -> Option<usize> {
        spec_page_bounds(self.page_size as nat, self.filtered_options@.len(), Some(self.cursor_index)).2
    }

    /// The help message.
    pub closed spec fn spec_help_message(&self) -> Option<&'a str> {
        self.help_message
    }

    /// Draws a frame: the prompt line with the typed filter, the page of options
    /// that holds the highlight (marked), and the help message if any.
    pub fn render(&self, backend: &mut Backend) -> (r: InquireResult<()>)
        requires
            self.wf(),
        ensures
            r is Ok,
            final(backend).spec_text() == old(backend).spec_text()
                + prompt_text(old(backend).spec_config().prompt_prefix.content@, self.spec_message()@)
                + input_text(self.spec_input().content, self.spec_input().cursor) + newline_text()
                + list_text(self.spec_page_rows(), self.spec_page_cursor(), self.spec_page_rows().len())
                + match self.spec_help_message() {
                    Some(h) => spec_unix2dos("["@) + spec_unix2dos(h@) + spec_unix2dos("]"@) + newline_text(),
                    None => Seq::empty(),
                },
            final(backend).spec_config() == old(backend).spec_config(),
            final(backend).spec_pending_keys() == old(backend).spec_pending_keys(),
            final(backend).spec_has_keys() == old(backend).spec_has_keys(),
            final(backend).wf() == old(backend).wf(),
    {
        let ghost start_text = backend.spec_text();
        let _ = backend.frame_setup();
        let _ = backend.render_select_prompt(self.message, &self.input);
        let ghost head = backend.spec_text();
        let len = self.filtered_options.len();
        let n = self.options.len();
        proof {
            lemma_filtered_indices(self.spec_keep_fn(self.filtered_with@), self.options@.len());
        }
        let page = paginate(self.page_size, self.filtered_options.as_slice(), Some(self.cursor_index));
        let ghost rows = self.spec_page_rows();
        let mut k: usize = 0;
        while k < page.content.len()
            invariant
                self.wf(),
                n == self.options@.len(),
                rows == self.spec_page_rows(),
                rows.len() == page.content@.len(),
                forall|j: int| 0 <= j < page.content@.len() ==> (#[trigger] page.content@[j]) < n
                    && rows[j] == self.string_options@[page.content@[j] as int]@,
                page.cursor == self.spec_page_cursor(),
                k <= page.content@.len(),
                backend.spec_text() == head + list_text(rows, page.cursor, k as nat),
                backend.spec_config() == old(backend).spec_config(),
                backend.spec_pending_keys() == old(backend).spec_pending_keys(),
                backend.spec_has_keys() == old(backend).spec_has_keys(),
                backend.wf() == old(backend).wf(),
            decreases page.content@.len() - k,
        {
            let idx = page.content[k];
            let focused = match page.cursor {
                Some(c) => c == k,
                None => false,
            };
            let _ = backend.render_option(self.string_options[idx].as_str(), focused);
            proof {
                assert(focused == (page.cursor == Some(k)));
                assert(head + list_text(rows, page.cursor, (k + 1) as nat) =~= head + list_text(rows, page.cursor, k as nat)
                    + (spec_unix2dos((if page.cursor == Some(k) { "> "@ } else { "  "@ }) + rows[k as int]) + newline_text()));
            }
            k = k + 1;
        }
        if let Some(help) = self.help_message {
            let _ = backend.render_help_message(help);
        }
        let _ = backend.frame_finish();
        proof {
            assert(backend.spec_text() =~= start_text
                + prompt_text(old(backend).spec_config().prompt_prefix.content@, self.spec_message()@)
                + input_text(self.spec_input().content, self.spec_input().cursor) + newline_text()
                + list_text(self.spec_page_rows(), self.spec_page_cursor(), self.spec_page_rows().len())
                + match self.spec_help_message() {
                    Some(h) => spec_unix2dos("["@) + spec_unix2dos(h@) + spec_unix2dos("]"@) + newline_text(),
                    None => Seq::empty(),
                });
        }
        Ok(())
    }

    /// Runs the prompt on the keys that the backend's terminal holds: draws a
    /// frame, reads a key and handles it, until a key ends the prompt or the
    /// keys run out (the step is then `Continue`, and the keys still to come
    /// are for the caller to hand over). An answer replaces the prompt with
    /// the prompt and the formatted answer.
    pub fn prompt_with_backend(&mut self, backend: &mut Backend) -> (r: PromptStep<ListOption<T>>)
        requires
            old(self).wf(),
            old(backend).wf(),
        ensures
            final(backend).wf(),
            final(backend).spec_config() == old(backend).spec_config(),
            final(backend).spec_has_keys() == old(backend).spec_has_keys(),
            r is Continue ==> final(self).wf() && (final(backend).spec_pending_keys().len() == 0 || !final(backend).spec_has_keys()),
            !old(backend).spec_has_keys() ==> r is Continue && *final(self) == *old(self),
            old(backend).spec_has_keys() ==> exists|n: int| 0 <= n <= old(backend).spec_pending_keys().len()
                && final(backend).spec_pending_keys() == old(backend).spec_pending_keys().skip(n)
                && (r is Continue ==> n == old(backend).spec_pending_keys().len())
                && #[trigger] ran(*old(self), keys_of(old(backend).spec_pending_keys().take(n)), *final(self), r),
    {
        let ghost mut n: int = 0;
        proof {
            lemma_ran_empty(*self);
            assert(keys_of(old(backend).spec_pending_keys().take(0)) =~= Seq::<Key>::empty());
        }
        loop
            invariant
                self.wf(),
                backend.wf(),
                backend.spec_config() == old(backend).spec_config(),
                backend.spec_has_keys() == old(backend).spec_has_keys(),
                0 <= n <= old(backend).spec_pending_keys().len(),
                backend.spec_has_keys() ==> backend.spec_pending_keys() == old(backend).spec_pending_keys().skip(n),
                !backend.spec_has_keys() ==> n == 0 && *self == *old(self),
                ran(*old(self), keys_of(old(backend).spec_pending_keys().take(n)), *self, PromptStep::Continue),
            decreases backend.spec_pending_keys().len(),
        {
            let _ = self.render(backend);
            let key = match backend.read_key() {
                Ok(Some(k)) => k,
                _ => return PromptStep::Continue,
            };
            let ghost before = *self;
            let step = self.handle_key(key);
            proof {
                let pend = old(backend).spec_pending_keys();
                assert(pend.skip(n)[0] == pend[n]);
                assert(pend.take(n + 1) =~= pend.take(n).push(pend[n]));
                assert(keys_of(pend.take(n + 1)) =~= keys_of(pend.take(n)).push(key));
                lemma_ran_push(*old(self), keys_of(pend.take(n)), before, key, *self, step);
                if !(step is Continue) {
                    assert(ran(*old(self), keys_of(pend.take(n + 1)), *self, step));
                }
                assert(pend.skip(n + 1) =~= pend.skip(n).drop_first());
                n = n + 1;
            }
            match step {
                PromptStep::Continue => {},
                PromptStep::Answered(answer) => {
                    let formatted = self.format_answer(&answer);
                    let _ = backend.finish_prompt(self.message, formatted.as_str());
                    return PromptStep::Answered(answer);
                },
                step => return step,
            }
        }
    }

    /// The text shown for a submitted answer, as the prompt's formatter makes it.
    pub fn format_answer(&self, answer: &ListOption<T>) -> (r: String)
        ensures
            self.spec_shows(*answer, r@),
    {
        self.formatter.format(answer.as_ref())
    }

    /// The message of the prompt.
    pub fn message(&self) -> (r: &'a str)
        ensures
            r == self.spec_message(),
    {
        self.message
    }
}

impl<'a, T> KeyDriven for SelectPrompt<'a, T> {
    type Answer = ListOption<T>;

    /// What handling a key does (see the prompt's `handle_key`).
    open spec fn handled(&self, key: Key, after: Self, r: PromptStep<ListOption<T>>) -> bool {
        &&& key is Interrupt ==> r is Interrupted
        &&& key is Cancel ==> r is Canceled
        &&& key is Submit && self.spec_cursor() < self.spec_filtered().len() ==> (r matches PromptStep::Answered(a)
                    && a.index == self.spec_filtered()[self.spec_cursor() as int]
                    && a.value == self.spec_options()[a.index as int])
        &&& key is Submit && self.spec_cursor() >= self.spec_filtered().len() ==> r is Continue
                    && after == *self
        &&& !(key is Interrupt || key is Cancel || key is Submit) ==> r is Continue && after.wf()
                    && self.changed_by(key, &after)
    }
}

} // verus!
