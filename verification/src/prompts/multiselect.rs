//! Selecting any number of options from a list.

use super::{filtered_indices, keys_of, lemma_filtered_indices, lemma_ran_empty, lemma_ran_push, ran, KeyDriven, PromptStep, DEFAULT_PAGE_SIZE, DEFAULT_VIM_MODE};
use crate::answer::OptionAnswer;
use crate::error::{InquireError, InquireResult};
use crate::formatter::{DefaultMultiOptionFormatter, MultiOptionFormatter};
use crate::key::{spec_key_from_event, Key};
use crate::strings::to_owned_string;
use crate::text_input::{spec_can_handle_key, spec_handle_key, Input, TextInputModel};
use crate::type_aliases::{DefaultFilter, Filter};
use crate::terminal::crossterm::spec_unix2dos;
use crate::ui::backend::{checkbox_list_text, input_text, newline_text, prompt_text, Backend, CommonBackend, MultiSelectBackend};
use crate::validator::OptionAnswerValidator;
use vstd::prelude::*;

verus! {

/// Help message shown by default.
pub const MULTISELECT_DEFAULT_HELP_MESSAGE: &'static str =
    "↑↓ to move, space to select one, → to all, ← to none, type to filter";

/// Whether the filter is kept after a selection, by default.
pub const DEFAULT_KEEP_FILTER: bool = true;

/// Prompt for selecting any number of options from a list.
///
/// Space toggles the highlighted option, the right arrow selects every
/// displayed option and the left arrow clears the selection; typing filters
/// the options; enter submits the selection, which the validator may refuse.
pub struct MultiSelect<'a> {
    /// Message presented to the user.
    pub message: &'a str,
    /// Options displayed to the user.
    pub options: &'a [&'a str],
    /// Indices of the options selected from the start.
    pub default: Option<&'a [usize]>,
    /// Help message shown below the options.
    pub help_message: Option<&'a str>,
    /// Number of options displayed at once.
    pub page_size: usize,
    /// Whether `j` and `k` also move the highlight.
    pub vim_mode: bool,
    /// Index of the option highlighted at the start.
    pub starting_cursor: usize,
    /// Decides which options stay displayed for the typed filter.
    pub filter: &'a dyn Filter<&'a str>,
    /// Whether the typed filter is kept after a selection.
    pub keep_filter: bool,
    /// Formats the final answer.
    pub formatter: &'a dyn MultiOptionFormatter,
    /// Validates the selection on submission.
    pub validator: Option<&'a dyn OptionAnswerValidator>,
}

impl<'a> MultiSelect<'a> {
    /// A prompt with the given message and options and the default settings.
    pub fn new(message: &'a str, options: &'a [&'a str]) -> (r: Self)
        ensures
            r.message == message,
            r.options == options,
            r.default == None::<&[usize]>,
            r.help_message == Some(MULTISELECT_DEFAULT_HELP_MESSAGE),
            r.page_size == DEFAULT_PAGE_SIZE,
            r.vim_mode == DEFAULT_VIM_MODE,
            r.starting_cursor == 0,
            r.keep_filter == DEFAULT_KEEP_FILTER,
            r.validator is None,
    {
        MultiSelect {
            message,
            options,
            default: None,
            help_message: Some(MULTISELECT_DEFAULT_HELP_MESSAGE),
            page_size: DEFAULT_PAGE_SIZE,
            vim_mode: DEFAULT_VIM_MODE,
            starting_cursor: 0,
            filter: &DefaultFilter,
            keep_filter: DEFAULT_KEEP_FILTER,
            formatter: &DefaultMultiOptionFormatter,
            validator: None,
        }
    }

    /// Whether the settings that builders do not change are those of `other`.
    pub open spec fn same_base(&self, other: &Self) -> bool {
        &&& self.message == other.message
        &&& self.options == other.options
    }

    /// Sets the help message.
    pub fn with_help_message(self, message: &'a str) -> (r: Self)
        ensures
            r.help_message == Some(message),
            r.same_base(&self), r.default == self.default, r.page_size == self.page_size,
            r.vim_mode == self.vim_mode, r.starting_cursor == self.starting_cursor,
            r.keep_filter == self.keep_filter,
    {
        let mut s = self;
        s.help_message = Some(message);
        s
    }

    /// Removes the help message.
    pub fn without_help_message(self) -> (r: Self)
        ensures
            r.help_message == None::<&str>,
            r.same_base(&self), r.default == self.default, r.page_size == self.page_size,
            r.vim_mode == self.vim_mode, r.starting_cursor == self.starting_cursor,
            r.keep_filter == self.keep_filter,
    {
        let mut s = self;
        s.help_message = None;
        s
    }

    /// Sets the page size.
    pub fn with_page_size(self, page_size: usize) -> (r: Self)
        ensures
            r.page_size == page_size,
            r.same_base(&self), r.default == self.default, r.help_message == self.help_message,
            r.vim_mode == self.vim_mode, r.starting_cursor == self.starting_cursor,
            r.keep_filter == self.keep_filter,
    {
        let mut s = self;
        s.page_size = page_size;
        s
    }

    /// Enables or disables vim mode.
    pub fn with_vim_mode(self, vim_mode: bool) -> (r: Self)
        ensures
            r.vim_mode == vim_mode,
            r.same_base(&self), r.default == self.default, r.help_message == self.help_message,
            r.page_size == self.page_size, r.starting_cursor == self.starting_cursor,
            r.keep_filter == self.keep_filter,
    {
        let mut s = self;
        s.vim_mode = vim_mode;
        s
    }

    /// Sets whether the typed filter is kept after a selection.
    pub fn with_keep_filter(self, keep_filter: bool) -> (r: Self)
        ensures
            r.keep_filter == keep_filter,
            r.same_base(&self), r.default == self.default, r.help_message == self.help_message,
            r.page_size == self.page_size, r.vim_mode == self.vim_mode,
            r.starting_cursor == self.starting_cursor,
    {
        let mut s = self;
        s.keep_filter = keep_filter;
        s
    }

    /// Sets the filter.
    pub fn with_filter(self, filter: &'a dyn Filter<&'a str>) -> (r: Self)
        ensures
            r.filter == filter,
            r.same_base(&self), r.default == self.default, r.help_message == self.help_message,
            r.page_size == self.page_size, r.vim_mode == self.vim_mode,
            r.starting_cursor == self.starting_cursor, r.keep_filter == self.keep_filter,
    {
        let mut s = self;
        let mut value = filter;
        std::mem::swap(&mut s.filter, &mut value);
        s
    }

    /// Sets the formatter.
    pub fn with_formatter(self, formatter: &'a dyn MultiOptionFormatter) -> (r: Self)
        ensures
            r.formatter == formatter,
            r.same_base(&self), r.default == self.default, r.help_message == self.help_message,
            r.page_size == self.page_size, r.vim_mode == self.vim_mode,
            r.starting_cursor == self.starting_cursor, r.keep_filter == self.keep_filter,
    {
        let mut s = self;
        let mut value = formatter;
        std::mem::swap(&mut s.formatter, &mut value);
        s
    }

    /// Sets the validator of the selection.
    pub fn with_validator(self, validator: &'a dyn OptionAnswerValidator) -> (r: Self)
        ensures
            r.validator is Some,
            r.same_base(&self), r.default == self.default, r.help_message == self.help_message,
            r.page_size == self.page_size, r.vim_mode == self.vim_mode,
            r.starting_cursor == self.starting_cursor, r.keep_filter == self.keep_filter,
    {
        let mut s = self;
        s.validator = Some(validator);
        s
    }

    /// Sets the indices of the options selected from the start.
    pub fn with_default(self, default: &'a [usize]) -> (r: Self)
        ensures
            r.default == Some(default),
            r.same_base(&self), r.help_message == self.help_message,
            r.page_size == self.page_size, r.vim_mode == self.vim_mode,
            r.starting_cursor == self.starting_cursor, r.keep_filter == self.keep_filter,
    {
        let mut s = self;
        s.default = Some(default);
        s
    }

    /// Sets the index of the option highlighted at the start.
    pub fn with_starting_cursor(self, starting_cursor: usize) -> (r: Self)
        ensures
            r.starting_cursor == starting_cursor,
            r.same_base(&self), r.default == self.default, r.help_message == self.help_message,
            r.page_size == self.page_size, r.vim_mode == self.vim_mode,
            r.keep_filter == self.keep_filter,
    {
        let mut s = self;
        s.starting_cursor = starting_cursor;
        s
    }
}

/// The selection marks with the mark of option `idx` flipped.
pub open spec fn toggled(checked: Seq<bool>, idx: int) -> Seq<bool> {
    checked.update(idx, !checked[idx])
}

/// Selecting an option twice (space twice on the same highlighted option)
/// gives back the selection it started from, and flips no other option.
pub proof fn law_toggle_twice_restores(checked: Seq<bool>, idx: int)
    requires
        0 <= idx < checked.len(),
    ensures
        toggled(toggled(checked, idx), idx) == checked,
        forall|j: int| 0 <= j < checked.len() && j != idx ==> #[trigger] toggled(checked, idx)[j] == checked[j],
{
    assert(toggled(toggled(checked, idx), idx) =~= checked);
}

/// Whether a default selection names an index that is not an option's.
pub open spec fn default_out_of_bounds(default: Option<&[usize]>, n: nat) -> bool {
    match default {
        Some(d) => exists|k: int| 0 <= k < d@.len() && #[trigger] d@[k] >= n,
        None => false,
    }
}

/// Which options are marked in `checked`.
pub open spec fn checked_fn(checked: Seq<bool>) -> spec_fn(int) -> bool {
    |i: int| checked[i]
}

/// Whether an answer list holds, in order, the options at the indices `idx`.
pub open spec fn answers_at(answers: Seq<OptionAnswer>, options: Seq<&str>, idx: Seq<usize>) -> bool {
    &&& answers.len() == idx.len()
    &&& forall|k: int| 0 <= k < answers.len() ==> (#[trigger] answers[k]).index == idx[k]
        && answers[k].value@ == options[idx[k] as int]@
}

/// A sequence with `x` pushed holds exactly what it held and `x`.
pub proof fn lemma_push_contains<A>(s: Seq<A>, x: A, y: A)
    ensures
        s.push(x).contains(y) <==> (s.contains(y) || x == y),
{
    if s.contains(y) {
        let i = choose|i: int| 0 <= i < s.len() && s[i] == y;
        assert(s.push(x)[i] == y);
    }
    if x == y {
        assert(s.push(x)[s.len() as int] == y);
    }
    if s.push(x).contains(y) {
        let i = choose|i: int| 0 <= i < s.push(x).len() && s.push(x)[i] == y;
        if i < s.len() {
            assert(s[i] == y);
        }
    }
}

/// Whether an answer list holds the options marked in `checked`, in order.
pub open spec fn answers_match(answers: Seq<OptionAnswer>, options: Seq<&str>, checked: Seq<bool>) -> bool {
    answers_at(answers, options, filtered_indices(checked_fn(checked), options.len()))
}

/// The running state of a [MultiSelect] prompt.
pub struct MultiSelectPrompt<'a> {
    message: &'a str,
    options: &'a [&'a str],
    help_message: Option<&'a str>,
    vim_mode: bool,
    cursor_index: usize,
    checked: Vec<bool>,
    page_size: usize,
    keep_filter: bool,
    input: Input,
    filtered_options: Vec<usize>,
    filter: &'a dyn Filter<&'a str>,
    formatter: &'a dyn MultiOptionFormatter,
    validator: Option<&'a dyn OptionAnswerValidator>,
    error: Option<String>,
    filtered_with: Ghost<Seq<char>>,
}

impl<'a> MultiSelectPrompt<'a> {
    /// The options.
    pub closed spec fn spec_options(&self) -> Seq<&'a str> {
        self.options@
    }

    /// Which options are selected, by index.
    pub closed spec fn spec_checked(&self) -> Seq<bool> {
        self.checked@
    }

    /// The indices of the displayed options, in order.
    pub closed spec fn spec_filtered(&self) -> Seq<usize> {
        self.filtered_options@
    }

    /// The row of the highlighted option among the displayed ones.
    pub closed spec fn spec_cursor(&self) -> usize {
        self.cursor_index
    }

    /// The filter text typed so far.
    pub closed spec fn spec_input(&self) -> TextInputModel {
        self.input@
    }

    /// Whether vim mode is on.
    pub closed spec fn spec_vim_mode(&self) -> bool {
        self.vim_mode
    }

    /// Whether the filter is kept after a selection.
    pub closed spec fn spec_keep_filter(&self) -> bool {
        self.keep_filter
    }

    /// The error shown since the last refused submission.
    pub closed spec fn spec_error(&self) -> Option<String> {
        self.error
    }

    /// The validator's message for a refused selection.
    pub closed spec fn spec_refusal(&self, answers: Seq<OptionAnswer>) -> Seq<char> {
        match self.validator {
            Some(v) => v.spec_refusal(answers),
            None => Seq::empty(),
        }
    }

    /// Whether `self` checks selections with the validator of `other`.
    pub closed spec fn same_validator(&self, other: &Self) -> bool {
        self.validator == other.validator
    }

    /// Whether `self` is `other` but for the error shown.
    pub open spec fn same_but_error(&self, other: &Self) -> bool {
        &&& self.same_validator(other)
        &&& self.spec_options() == other.spec_options()
        &&& self.spec_checked() == other.spec_checked()
        &&& self.spec_filtered() == other.spec_filtered()
        &&& self.spec_input() == other.spec_input()
        &&& self.spec_cursor() == other.spec_cursor()
        &&& self.spec_vim_mode() == other.spec_vim_mode()
        &&& self.spec_keep_filter() == other.spec_keep_filter()
        &&& self.spec_page_size() == other.spec_page_size()
    }

    /// Whether a validator is set, and what it accepts.
    pub closed spec fn spec_accepts(&self, answers: Seq<OptionAnswer>) -> bool {
        match self.validator {
            Some(v) => v.spec_accepts(answers),
            None => true,
        }
    }

    /// Which options are displayed for the typed text `typed`.
    pub closed spec fn spec_keep_fn(&self, typed: Seq<char>) -> spec_fn(int) -> bool {
        let f = self.filter;
        let options = self.options@;
        |i: int| typed.len() == 0 || f.spec_filter(typed, options[i], options[i]@, i as usize)
    }

    /// The displayed options for the typed text `typed`.
    pub closed spec fn spec_filter_result(&self, typed: Seq<char>) -> Seq<usize> {
        filtered_indices(self.spec_keep_fn(typed), self.options@.len())
    }

    /// The state invariant: one mark per option, and the displayed options are
    /// those the filter kept for the text last filtered with.
    pub closed spec fn wf(&self) -> bool {
        &&& self.checked@.len() == self.options@.len()
        &&& self.filtered_options@ == self.spec_filter_result(self.filtered_with@)
    }

    /// Whether only the cursor may have changed from `old`.
    pub open spec fn same_but_cursor(&self, old: &Self) -> bool {
        &&& self.spec_options() == old.spec_options()
        &&& self.spec_checked() == old.spec_checked()
        &&& self.spec_filtered() == old.spec_filtered()
        &&& self.spec_input() == old.spec_input()
        &&& self.spec_vim_mode() == old.spec_vim_mode()
        &&& self.spec_keep_filter() == old.spec_keep_filter()
        &&& self.spec_page_size() == old.spec_page_size()
        &&& self.spec_error() == old.spec_error()
        &&& self.same_validator(old)
    }

    /// Starts a prompt: fails with `InvalidConfiguration` when there are no
    /// options or a default index is not the index of an option; otherwise every
    /// option is displayed and the default ones are selected.
    pub fn new(mso: MultiSelect<'a>) -> (r: InquireResult<Self>)
        ensures
            mso.options@.len() == 0 ==> r matches Err(InquireError::InvalidConfiguration(_)),
            mso.options@.len() > 0 && default_out_of_bounds(mso.default, mso.options@.len())
                ==> r matches Err(InquireError::InvalidConfiguration(_)),
            r is Ok ==> (r matches Ok(p) && {
                &&& p.wf()
                &&& mso.options@.len() > 0
                &&& p.spec_options() == mso.options@
                &&& p.spec_cursor() == mso.starting_cursor
                &&& p.spec_filtered() == Seq::new(mso.options@.len(), |i: int| i as usize)
                &&& p.spec_input().content == Seq::<char>::empty()
                &&& p.spec_vim_mode() == mso.vim_mode
                &&& p.spec_keep_filter() == mso.keep_filter
                &&& p.spec_error() is None
                &&& forall|o: Seq<OptionAnswer>, t: Seq<char>| p.spec_shows(o, t) == mso.formatter.spec_formats(o, t)
                &&& forall|i: int| 0 <= i < mso.options@.len() ==> #[trigger] p.spec_checked()[i] == match mso.default {
                    Some(d) => d@.contains(i as usize),
                    None => false,
                }
            }),
            r is Err ==> mso.options@.len() == 0 || default_out_of_bounds(mso.default, mso.options@.len()),
    {
        let n = mso.options.len();
        if n == 0 {
            return Err(InquireError::InvalidConfiguration(to_owned_string("Available options can not be empty")));
        }
        let mut checked: Vec<bool> = Vec::new();
        let mut i: usize = 0;
        while i < n
            invariant
                n == mso.options@.len(),
                i <= n,
                checked@.len() == i,
                forall|j: int| 0 <= j < i ==> !(#[trigger] checked@[j]),
            decreases n - i,
        {
            checked.push(false);
            i = i + 1;
        }
        match mso.default {
            Some(d) => {
                let mut k: usize = 0;
                while k < d.len()
                    invariant
                        n == mso.options@.len(),
                        mso.default == Some(d),
                        checked@.len() == n,
                        k <= d@.len(),
                        forall|j: int| 0 <= j < k ==> #[trigger] d@[j] < n,
                        forall|j: int| 0 <= j < n ==> #[trigger] checked@[j] == d@.take(k as int).contains(j as usize),
                    decreases d@.len() - k,
                {
                    let idx = d[k];
                    if idx >= n {
                        assert(d@[k as int] >= mso.options@.len());
                        assert(exists|k2: int| 0 <= k2 < d@.len() && #[trigger] d@[k2] >= mso.options@.len());
                        assert(mso.default matches Some(d2) && d2 == d);
                        assert(default_out_of_bounds(mso.default, mso.options@.len()));
                        return Err(InquireError::InvalidConfiguration(
                            to_owned_string("Default index is out-of-bounds for the length of options"),
                        ));
                    }
                    checked.set(idx, true);
                    proof {
                        assert forall|j: int| 0 <= j < n implies #[trigger] checked@[j] == d@.take(k as int + 1).contains(j as usize) by {
                            assert(d@.take(k as int + 1) =~= d@.take(k as int).push(idx));
                            lemma_push_contains(d@.take(k as int), idx, j as usize);
                        }
                    }
                    k = k + 1;
                }
                assert(d@.take(d@.len() as int) =~= d@);
            },
            None => {},
        }
        let mut filtered_options: Vec<usize> = Vec::new();
        let mut i: usize = 0;
        while i < n
            invariant
                i <= n,
                filtered_options@ == Seq::new(i as nat, |j: int| j as usize),
            decreases n - i,
        {
            filtered_options.push(i);
            assert(filtered_options@ =~= Seq::new((i + 1) as nat, |j: int| j as usize));
            i = i + 1;
        }
        let mut p = MultiSelectPrompt {
            message: mso.message,
            options: mso.options,
            help_message: mso.help_message,
            vim_mode: mso.vim_mode,
            cursor_index: mso.starting_cursor,
            checked,
            page_size: mso.page_size,
            keep_filter: mso.keep_filter,
            input: Input::new(),
            filtered_options,
            filter: mso.filter,
            formatter: mso.formatter,
            validator: mso.validator,
            error: None,
            filtered_with: Ghost(Seq::empty()),
        };
        let mut formatter = mso.formatter;
        std::mem::swap(&mut p.formatter, &mut formatter);
        proof {
            p.lemma_filter_all_upto(n as nat);
        }
        Ok(p)
    }

    proof fn lemma_filter_all_upto(&self, k: nat)
        ensures
            filtered_indices(self.spec_keep_fn(Seq::empty()), k) == Seq::new(k, |i: int| i as usize),
        decreases k,
    {
        if k > 0 {
            self.lemma_filter_all_upto((k - 1) as nat);
            assert(filtered_indices(self.spec_keep_fn(Seq::empty()), k) =~= Seq::new(k, |i: int| i as usize));
        }
    }

    /// The indices of the options displayed for the text typed now.
    fn filter_options(&self) -> (r: Vec<usize>)
        ensures
            r@ == self.spec_filter_result(self.input@.content),
    {
        let content = self.input.content();
        let n = self.options.len();
        let ghost keep = self.spec_keep_fn(self.input@.content);
        let mut r: Vec<usize> = Vec::new();
        let mut i: usize = 0;
        while i < n
            invariant
                n == self.options@.len(),
                content@ == self.input@.content,
                keep == self.spec_keep_fn(self.input@.content),
                i <= n,
                r@ == filtered_indices(keep, i as nat),
            decreases n - i,
        {
            let shown = content.is_empty() || self.filter.filter(content, &self.options[i], self.options[i], i);
            if shown {
                r.push(i);
            }
            i = i + 1;
        }
        r
    }

    /// Moves the highlight up one row, wrapping to the last displayed option.
    fn move_cursor_up(&mut self)
        requires
            old(self).wf(),
        ensures
            final(self).wf(),
            final(self).same_but_cursor(old(self)),
            final(self).spec_cursor() == if old(self).spec_cursor() >= 1 {
                (old(self).spec_cursor() - 1) as usize
            } else if old(self).spec_filtered().len() >= 1 {
                (old(self).spec_filtered().len() - 1) as usize
            } else {
                0usize
            },
    {
        self.cursor_index = match self.cursor_index.checked_sub(1) {
            Some(c) => c,
            None => match self.filtered_options.len().checked_sub(1) {
                Some(c) => c,
                None => 0,
            },
        };
    }

    /// Moves the highlight down one row, wrapping to the first displayed option.
    fn move_cursor_down(&mut self)
        requires
            old(self).wf(),
        ensures
            final(self).wf(),
            final(self).same_but_cursor(old(self)),
            final(self).spec_cursor() == {
                let moved: int = if old(self).spec_cursor() < usize::MAX { old(self).spec_cursor() + 1 } else { usize::MAX as int };
                if moved >= old(self).spec_filtered().len() { 0usize } else { moved as usize }
            },
    {
        self.cursor_index = self.cursor_index.saturating_add(1);
        if self.cursor_index >= self.filtered_options.len() {
            self.cursor_index = 0;
        }
    }

    /// Empties the typed filter unless it is to be kept.
    fn clear_filter_unless_kept(&mut self)
        requires
            old(self).wf(),
        ensures
            final(self).wf(),
            final(self).spec_input() == if old(self).spec_keep_filter() {
                old(self).spec_input()
            } else {
                TextInputModel { content: Seq::empty(), cursor: 0, length: 0 }
            },
            final(self).spec_options() == old(self).spec_options(),
            final(self).spec_checked() == old(self).spec_checked(),
            final(self).spec_filtered() == old(self).spec_filtered(),
            final(self).spec_cursor() == old(self).spec_cursor(),
            final(self).spec_vim_mode() == old(self).spec_vim_mode(),
            final(self).spec_keep_filter() == old(self).spec_keep_filter(),
            final(self).spec_page_size() == old(self).spec_page_size(),
            final(self).spec_error() == old(self).spec_error(),
            final(self).same_validator(old(self)),
    {
        if !self.keep_filter {
            self.input.clear();
        }
    }

    /// Selects or deselects the highlighted option, if any.
    fn toggle_cursor_selection(&mut self)
        requires
            old(self).wf(),
        ensures
            final(self).wf(),
            old(self).spec_cursor() >= old(self).spec_filtered().len() ==> *final(self) == *old(self),
            old(self).spec_cursor() < old(self).spec_filtered().len() ==> {
                let idx = old(self).spec_filtered()[old(self).spec_cursor() as int];
                &&& final(self).spec_checked() == toggled(old(self).spec_checked(), idx as int)
                &&& final(self).spec_input() == if old(self).spec_keep_filter() {
                    old(self).spec_input()
                } else {
                    TextInputModel { content: Seq::empty(), cursor: 0, length: 0 }
                }
                &&& final(self).spec_filtered() == old(self).spec_filtered()
                &&& final(self).spec_cursor() == old(self).spec_cursor()
            },
            final(self).spec_options() == old(self).spec_options(),
            final(self).spec_vim_mode() == old(self).spec_vim_mode(),
            final(self).spec_keep_filter() == old(self).spec_keep_filter(),
            final(self).spec_page_size() == old(self).spec_page_size(),
            final(self).spec_error() == old(self).spec_error(),
            final(self).same_validator(old(self)),
    {
        if self.cursor_index >= self.filtered_options.len() {
            return;
        }
        let n = self.options.len();
        proof {
            lemma_filtered_indices(self.spec_keep_fn(self.filtered_with@), self.options@.len());
        }
        let idx = self.filtered_options[self.cursor_index];
        let was = self.checked[idx];
        self.checked.set(idx, !was);
        self.clear_filter_unless_kept();
    }

    /// Whether a key moves the highlight: `Some(true)` up (the up arrow, or
    /// `k` in vim mode), `Some(false)` down (the down arrow, or `j` in vim
    /// mode), `None` for other keys.
    pub open spec fn spec_cursor_move(key: Key, vim_mode: bool) -> Option<bool> {
        match key {
            Key::Up(m) => if m.bits == 0 { Some(true) } else { None },
            Key::Down(m) => if m.bits == 0 { Some(false) } else { None },
            Key::Char(c, m) => if m.bits == 0 && vim_mode && c == 'k' {
                Some(true)
            } else if m.bits == 0 && vim_mode && c == 'j' {
                Some(false)
            } else {
                None
            },
            _ => None,
        }
    }

    /// The typed filter once a selection changed: kept, or emptied.
    pub open spec fn spec_filter_after_selection(&self) -> TextInputModel {
        if self.spec_keep_filter() {
            self.spec_input()
        } else {
            TextInputModel { content: Seq::empty(), cursor: 0, length: 0 }
        }
    }

    /// What a key that neither submits nor cancels does to the prompt (see
    /// [MultiSelectPrompt::on_change]).
    pub open spec fn changed_by(&self, key: Key, after: &Self) -> bool {
        let n = self.spec_options().len();
        &&& after.spec_options() == self.spec_options()
        &&& after.spec_vim_mode() == self.spec_vim_mode()
        &&& after.spec_keep_filter() == self.spec_keep_filter()
        &&& after.spec_page_size() == self.spec_page_size()
        &&& after.spec_error() == self.spec_error()
        &&& after.same_validator(self)
        &&& match Self::spec_cursor_move(key, self.spec_vim_mode()) {
            Some(up) => {
                &&& after.same_but_cursor(self)
                &&& after.spec_cursor() == if up {
                    if self.spec_cursor() >= 1 {
                        (self.spec_cursor() - 1) as usize
                    } else if self.spec_filtered().len() >= 1 {
                        (self.spec_filtered().len() - 1) as usize
                    } else {
                        0usize
                    }
                } else {
                    let moved: int = if self.spec_cursor() < usize::MAX { self.spec_cursor() + 1 } else { usize::MAX as int };
                    if moved >= self.spec_filtered().len() { 0usize } else { moved as usize }
                }
            },
            None => if key matches Key::Char(c, m) && c == ' ' && m.bits == 0 {
                if self.spec_cursor() < self.spec_filtered().len() {
                    &&& after.spec_checked() == toggled(self.spec_checked(), self.spec_filtered()[self.spec_cursor() as int] as int)
                    &&& after.spec_input() == self.spec_filter_after_selection()
                    &&& after.spec_filtered() == self.spec_filtered()
                    &&& after.spec_cursor() == self.spec_cursor()
                } else {
                    *after == *self
                }
            } else if key matches Key::Right(m) && m.bits == 0 {
                &&& after.spec_checked().len() == n
                &&& forall|i: int| 0 <= i < n ==> (#[trigger] after.spec_checked()[i]) == self.spec_filtered().contains(i as usize)
                &&& after.spec_input() == self.spec_filter_after_selection()
                &&& after.spec_filtered() == self.spec_filtered()
                &&& after.spec_cursor() == self.spec_cursor()
            } else if key matches Key::Left(m) && m.bits == 0 {
                &&& after.spec_checked() == Seq::new(n, |i: int| false)
                &&& after.spec_input() == self.spec_filter_after_selection()
                &&& after.spec_filtered() == self.spec_filtered()
                &&& after.spec_cursor() == self.spec_cursor()
            } else {
                let (typed, dirty) = spec_handle_key(self.spec_input(), key);
                let handled = spec_can_handle_key(self.spec_input(), key);
                &&& after.spec_checked() == self.spec_checked()
                &&& !handled ==> *after == *self
                &&& handled ==> after.spec_input() == typed
                &&& handled && !dirty ==> after.spec_filtered() == self.spec_filtered()
                    && after.spec_cursor() == self.spec_cursor()
                &&& handled && dirty ==> {
                    let filtered = self.spec_filter_result(typed.content);
                    &&& after.spec_filtered() == filtered
                    &&& after.spec_cursor() == if filtered.len() > 0 && filtered.len() <= self.spec_cursor() {
                        (filtered.len() - 1) as usize
                    } else {
                        self.spec_cursor()
                    }
                }
            },
        }
    }

    /// Reacts to a key: arrows (and `j`/`k` in vim mode) move the highlight,
    /// space toggles the highlighted option, the right arrow selects exactly the
    /// displayed options and the left arrow deselects all (both clear the typed
    /// filter unless it is kept); any other key edits the filter text, and when
    /// it changed the options are filtered again, with the highlight pulled back
    /// onto the last one if it fell off a non-empty list.
    pub fn on_change(&mut self, key: Key)
        requires
            old(self).wf(),
        ensures
            final(self).wf(),
            old(self).spec_render_ready() ==> final(self).spec_render_ready(),
            old(self).changed_by(key, &*final(self)),
    {
        match key {
            Key::Up(m) if m.bits == 0 => self.move_cursor_up(),
            Key::Char('k', m) if m.bits == 0 && self.vim_mode => self.move_cursor_up(),
            Key::Down(m) if m.bits == 0 => self.move_cursor_down(),
            Key::Char('j', m) if m.bits == 0 && self.vim_mode => self.move_cursor_down(),
            Key::Char(' ', m) if m.bits == 0 => self.toggle_cursor_selection(),
            Key::Right(m) if m.bits == 0 => {
                let n = self.options.len();
                proof {
                    lemma_filtered_indices(self.spec_keep_fn(self.filtered_with@), self.options@.len());
                }
                let mut checked: Vec<bool> = Vec::new();
                let mut i: usize = 0;
                while i < n
                    invariant
                        n == self.options@.len(),
                        i <= n,
                        checked@.len() == i,
                        forall|j: int| 0 <= j < i ==> !(#[trigger] checked@[j]),
                    decreases n - i,
                {
                    checked.push(false);
                    i = i + 1;
                }
                let mut k: usize = 0;
                while k < self.filtered_options.len()
                    invariant
                        n == self.options@.len(),
                        checked@.len() == n,
                        k <= self.filtered_options@.len(),
                        forall|j: int| 0 <= j < self.filtered_options@.len() ==> #[trigger] self.filtered_options@[j] < n,
                        forall|j: int| 0 <= j < n ==> #[trigger] checked@[j] == self.filtered_options@.take(k as int).contains(j as usize),
                    decreases self.filtered_options@.len() - k,
                {
                    let idx = self.filtered_options[k];
                    checked.set(idx, true);
                    proof {
                        assert forall|j: int| 0 <= j < n implies #[trigger] checked@[j]
                            == self.filtered_options@.take(k as int + 1).contains(j as usize) by {
                            assert(self.filtered_options@.take(k as int + 1) =~= self.filtered_options@.take(k as int).push(idx));
                            lemma_push_contains(self.filtered_options@.take(k as int), idx, j as usize);
                        }
                    }
                    k = k + 1;
                }
                assert(self.filtered_options@.take(self.filtered_options@.len() as int) =~= self.filtered_options@);
                self.checked = checked;
                self.clear_filter_unless_kept();
            },
            Key::Left(m) if m.bits == 0 => {
                let n = self.options.len();
                let mut checked: Vec<bool> = Vec::new();
                let mut i: usize = 0;
                while i < n
                    invariant
                        i <= n,
                        checked@ == Seq::new(i as nat, |j: int| false),
                    decreases n - i,
                {
                    checked.push(false);
                    assert(checked@ =~= Seq::new((i + 1) as nat, |j: int| false));
                    i = i + 1;
                }
                self.checked = checked;
                self.clear_filter_unless_kept();
            },
            _ => {
                if !self.input.can_handle_key(key) {
                    return;
                }
                let dirty = self.input.handle_key(key);
                if dirty {
                    let options = self.filter_options();
                    let n = self.options.len();
                    proof {
                        lemma_filtered_indices(self.spec_keep_fn(self.input@.content), self.options@.len());
                    }
                    if options.len() > 0 && options.len() <= self.cursor_index {
                        self.cursor_index = options.len() - 1;
                    }
                    self.filtered_options = options;
                    self.filtered_with = Ghost(self.input@.content);
                }
            },
        }
    }

    /// The selected options, in order, once the validator (if any) accepts them;
    /// otherwise the validator's message.
    fn get_final_answer(&self) -> (r: Result<Vec<OptionAnswer>, String>)
        requires
            self.wf(),
        ensures
            r matches Ok(a) ==> answers_match(a@, self.spec_options(), self.spec_checked()) && self.spec_accepts(a@),
            r matches Err(m) ==> exists|a: Seq<OptionAnswer>| answers_match(a, self.spec_options(), self.spec_checked())
                && !self.spec_accepts(a) && m@ == #[trigger] self.spec_refusal(a),
    {
        let n = self.options.len();
        let ghost keep = checked_fn(self.checked@);
        let mut selected: Vec<OptionAnswer> = Vec::new();
        let mut i: usize = 0;
        while i < n
            invariant
                n == self.options@.len(),
                self.checked@.len() == n,
                keep == checked_fn(self.checked@),
                i <= n,
                answers_at(selected@, self.options@, filtered_indices(keep, i as nat)),
            decreases n - i,
        {
            let ghost prev = selected@;
            if self.checked[i] {
                selected.push(OptionAnswer::new(i, self.options[i]));
            }
            proof {
                let fi = filtered_indices(keep, (i + 1) as nat);
                let fp = filtered_indices(keep, i as nat);
                assert(keep(i as int) == self.checked@[i as int]);
                assert forall|k: int| 0 <= k < selected@.len() implies (#[trigger] selected@[k]).index == fi[k]
                    && selected@[k].value@ == self.options@[fi[k] as int]@ by {
                    if k < fp.len() {
                        assert(selected@[k] == prev[k]);
                    }
                }
            }
            i = i + 1;
        }
        assert(self.options@.take(n as int) =~= self.options@);
        match self.validator {
            Some(v) => {
                match v.validate(selected.as_slice()) {
                    Ok(()) => Ok(selected),
                    Err(e) => {
                        assert(answers_match(selected@, self.spec_options(), self.spec_checked()) && !self.spec_accepts(selected@)
                            && e@ == self.spec_refusal(selected@));
                        Err(e)
                    },
                }
            },
            None => Ok(selected),
        }
    }

    /// Handles one key press: ctrl-c interrupts; ESC cancels; enter submits the selection when the
    /// validator accepts it, and otherwise keeps the prompt open with the
    /// validator's message as the error; any other key goes to
    /// [MultiSelectPrompt::on_change].
    pub fn handle_key(&mut self, key: Key) -> (r: PromptStep<Vec<OptionAnswer>>)
        requires
            old(self).wf(),
        ensures
            old(self).handled(key, *final(self), r),
    {
        match key {
            Key::Interrupt => PromptStep::Interrupted,
            Key::Cancel => PromptStep::Canceled,
            Key::Submit => match self.get_final_answer() {
                Ok(answer) => PromptStep::Answered(answer),
                Err(err) => {
                    self.error = Some(err);
                    PromptStep::Continue
                },
            },
            _ => {
                self.on_change(key);
                PromptStep::Continue
            },
        }
    }

    /// Whether the page that holds the highlight can be drawn: when the
    /// displayed options overflow a page, the highlight is on one of them or in
    /// the first half page.
    pub open spec fn spec_render_ready(&self) -> bool {
        self.spec_filtered().len() > self.spec_page_size() ==> self.spec_cursor() < self.spec_page_size() / 2
            || self.spec_cursor() < self.spec_filtered().len()
    }

    /// Tells whether the page can be drawn (see [MultiSelectPrompt::spec_render_ready]).
    pub fn render_ready(&self) -> (r: bool)
        ensures
            r == self.spec_render_ready(),
    {
        !(self.filtered_options.len() > self.page_size) || self.cursor_index < self.page_size / 2
            || self.cursor_index < self.filtered_options.len()
    }

    /// The page size.
    pub closed spec fn spec_page_size(&self) -> usize {
        self.page_size
    }

    /// The message.
    pub closed spec fn spec_message(&self) -> &'a str {
        self.message
    }

    /// Whether `text` is what the prompt's formatter shows for the answer `answer`.
    pub closed spec fn spec_shows(&self, answer: Seq<OptionAnswer>, text: Seq<char>) -> bool {
        self.formatter.spec_formats(answer, text)
    }

    /// The help message.
    pub closed spec fn spec_help_message(&self) -> Option<&'a str> {
        self.help_message
    }

    /// Where the page that holds the highlight starts and ends, and the row of
    /// the highlight in it.
    pub open spec fn spec_page(&self) -> (nat, nat, nat) {
        crate::paging::spec_page_bounds(self.spec_page_size() as nat, self.spec_filtered().len(), self.spec_cursor() as nat)
    }

    /// The texts of the options of the page that holds the highlight.
    pub closed spec fn spec_page_rows(&self) -> Seq<Seq<char>> {
        let (start, end, cursor) = self.spec_page();
        self.filtered_options@.subrange(start as int, end as int).map_values(|i: usize| self.options@[i as int]@)
    }

    /// Whether each option of that page is selected.
    pub closed spec fn spec_page_checked(&self) -> Seq<bool> {
        let (start, end, cursor) = self.spec_page();
        self.filtered_options@.subrange(start as int, end as int).map_values(|i: usize| self.checked@[i as int])
    }

    /// Draws a frame: the error of the last refused submission if any, the
    /// prompt line with the typed filter, the page of options that holds the
    /// highlight with their checkboxes, and the help message if any.
    ///
    /// When the displayed options overflow a page, the highlight must be on one
    /// of them or in the first half page.
    pub fn render(&self, backend: &mut Backend) -> (r: InquireResult<()>)
        requires
            self.wf(),
            self.spec_render_ready(),
        ensures
            r is Ok,
            final(backend).spec_text() == old(backend).spec_text()
                + match self.spec_error() {
                    Some(e) => spec_unix2dos(old(backend).spec_config().error_message.prefix.content@) + spec_unix2dos(" "@)
                        + spec_unix2dos(e@) + newline_text(),
                    None => Seq::empty(),
                }
                + prompt_text(old(backend).spec_config().prompt_prefix.content@, self.spec_message()@)
                + input_text(self.spec_input().content, self.spec_input().cursor) + newline_text()
                + checkbox_list_text(self.spec_page_rows(), self.spec_page_checked(), self.spec_page().2, self.spec_page_rows().len())
                + match self.spec_help_message() {
                    Some(h) => spec_unix2dos("["@) + spec_unix2dos(h@) + spec_unix2dos("]"@) + newline_text(),
                    None => Seq::empty(),
                },
            final(backend).spec_config() == old(backend).spec_config(),
            final(backend).spec_pending_keys() == old(backend).spec_pending_keys(),
            final(backend).spec_has_keys() == old(backend).spec_has_keys(),
            final(backend).wf() == old(backend).wf(),
    {
        let ghost start_text = backend.spec_text();
        let _ = backend.frame_setup();
        if let Some(err) = &self.error {
            let _ = backend.render_error_message(err.as_str());
        }
        let _ = backend.render_multiselect_prompt(self.message, &self.input);
        let ghost head = backend.spec_text();
        let n = self.options.len();
        proof {
            lemma_filtered_indices(self.spec_keep_fn(self.filtered_with@), self.options@.len());
        }
        let page = crate::paging::paginate(self.page_size, self.filtered_options.as_slice(), self.cursor_index);
        let ghost rows = self.spec_page_rows();
        let ghost marks = self.spec_page_checked();
        let mut k: usize = 0;
        while k < page.content.len()
            invariant
                self.wf(),
                n == self.options@.len(),
                rows == self.spec_page_rows(),
                marks == self.spec_page_checked(),
                rows.len() == page.content@.len(),
                marks.len() == page.content@.len(),
                forall|j: int| 0 <= j < page.content@.len() ==> (#[trigger] page.content@[j]) < n
                    && rows[j] == self.options@[page.content@[j] as int]@
                    && marks[j] == self.checked@[page.content@[j] as int],
                page.selection == self.spec_page().2,
                k <= page.content@.len(),
                backend.spec_text() == head + checkbox_list_text(rows, marks, page.selection as nat, k as nat),
                backend.spec_config() == old(backend).spec_config(),
                backend.spec_pending_keys() == old(backend).spec_pending_keys(),
                backend.spec_has_keys() == old(backend).spec_has_keys(),
                backend.wf() == old(backend).wf(),
            decreases page.content@.len() - k,
        {
            let idx = page.content[k];
            let _ = backend.render_multi_option(self.options[idx], page.selection == k, self.checked[idx]);
            proof {
                assert(head + checkbox_list_text(rows, marks, page.selection as nat, (k + 1) as nat)
                    =~= head + checkbox_list_text(rows, marks, page.selection as nat, k as nat)
                    + (spec_unix2dos(if page.selection == k { "> "@ } else { "  "@ })
                    + spec_unix2dos(if marks[k as int] { "[x] "@ } else { "[ ] "@ })
                    + spec_unix2dos(rows[k as int]) + newline_text()));
            }
            k = k + 1;
        }
        if let Some(help) = self.help_message {
            let _ = backend.render_help_message(help);
        }
        let _ = backend.frame_finish();
        proof {
            assert(backend.spec_text() =~= start_text
                + match self.spec_error() {
                    Some(e) => spec_unix2dos(old(backend).spec_config().error_message.prefix.content@) + spec_unix2dos(" "@)
                        + spec_unix2dos(e@) + newline_text(),
                    None => Seq::empty(),
                }
                + prompt_text(old(backend).spec_config().prompt_prefix.content@, self.spec_message()@)
                + input_text(self.spec_input().content, self.spec_input().cursor) + newline_text()
                + checkbox_list_text(self.spec_page_rows(), self.spec_page_checked(), self.spec_page().2, self.spec_page_rows().len())
                + match self.spec_help_message() {
                    Some(h) => spec_unix2dos("["@) + spec_unix2dos(h@) + spec_unix2dos("]"@) + newline_text(),
                    None => Seq::empty(),
                });
        }
        Ok(())
    }

    /// Runs the prompt on the keys that the backend's terminal holds: draws a
    /// frame, reads a key and handles it, until a key ends the prompt or the
    /// keys run out (the step is then `Continue`, and the keys still to come
    /// are for the caller to hand over). An answer replaces the prompt with
    /// the prompt and the formatted answer.
    pub fn prompt_with_backend(&mut self, backend: &mut Backend) -> (r: PromptStep<Vec<OptionAnswer>>)
        requires
            old(self).wf(),
            old(self).spec_render_ready(),
            old(backend).wf(),
        ensures
            final(backend).wf(),
            final(backend).spec_config() == old(backend).spec_config(),
            final(backend).spec_has_keys() == old(backend).spec_has_keys(),
            r is Continue ==> final(self).wf() && (final(backend).spec_pending_keys().len() == 0 || !final(backend).spec_has_keys()),
            !old(backend).spec_has_keys() ==> r is Continue && *final(self) == *old(self),
            old(backend).spec_has_keys() ==> exists|n: int| 0 <= n <= old(backend).spec_pending_keys().len()
                && final(backend).spec_pending_keys() == old(backend).spec_pending_keys().skip(n)
                && (r is Continue ==> n == old(backend).spec_pending_keys().len())
                && #[trigger] ran(*old(self), keys_of(old(backend).spec_pending_keys().take(n)), *final(self), r),
    {
        let ghost mut n: int = 0;
        proof {
            lemma_ran_empty(*self);
            assert(keys_of(old(backend).spec_pending_keys().take(0)) =~= Seq::<Key>::empty());
        }
        loop
            invariant
                self.wf(),
                self.spec_render_ready(),
                backend.wf(),
                backend.spec_config() == old(backend).spec_config(),
                backend.spec_has_keys() == old(backend).spec_has_keys(),
                0 <= n <= old(backend).spec_pending_keys().len(),
                backend.spec_has_keys() ==> backend.spec_pending_keys() == old(backend).spec_pending_keys().skip(n),
                !backend.spec_has_keys() ==> n == 0 && *self == *old(self),
                ran(*old(self), keys_of(old(backend).spec_pending_keys().take(n)), *self, PromptStep::Continue),
            decreases backend.spec_pending_keys().len(),
        {
            let _ = self.render(backend);
            let key = match backend.read_key() {
                Ok(Some(k)) => k,
                _ => return PromptStep::Continue,
            };
            let ghost before = *self;
            let step = self.handle_key(key);
            proof {
                let pend = old(backend).spec_pending_keys();
                assert(pend.skip(n)[0] == pend[n]);
                assert(pend.take(n + 1) =~= pend.take(n).push(pend[n]));
                assert(keys_of(pend.take(n + 1)) =~= keys_of(pend.take(n)).push(key));
                lemma_ran_push(*old(self), keys_of(pend.take(n)), before, key, *self, step);
                if !(step is Continue) {
                    assert(ran(*old(self), keys_of(pend.take(n + 1)), *self, step));
                }
                assert(pend.skip(n + 1) =~= pend.skip(n).drop_first());
                n = n + 1;
            }
            match step {
                PromptStep::Continue => {},
                PromptStep::Answered(answer) => {
                    let formatted = self.format_answer(answer.as_slice());
                    let _ = backend.finish_prompt(self.message, formatted.as_str());
                    return PromptStep::Answered(answer);
                },
                step => return step,
            }
        }
    }

    /// The text shown for a submitted answer, as the prompt's formatter makes it.
    pub fn format_answer(&self, answer: &[OptionAnswer]) -> (r: String)
        ensures
            self.spec_shows(answer@, r@),
    {
        self.formatter.format(answer)
    }
}

/// Configuration settings used in the execution of a multi-select prompt.
#[derive(Copy, Clone, Debug)]
pub struct MultiSelectConfig {
    /// Whether to use vim-style keybindings.
    pub vim_mode: bool,
    /// Page size of the list of options.
    pub page_size: usize,
    /// Whether to keep the filter text when an option is selected.
    pub keep_filter: bool,
    /// Whether to reset the cursor to the first option on filter input change.
    pub reset_cursor: bool,
}

impl<'a, 'b> From<&'b MultiSelect<'a>> for MultiSelectConfig {
    /// The settings of a multi-select prompt; this prompt keeps the highlight
    /// where it is when the filter changes (it pulls it back onto the last
    /// option only when it fell off the list), so `reset_cursor` is off.
    fn from(value: &'b MultiSelect<'a>) -> (r: Self) {
        MultiSelectConfig {
            vim_mode: value.vim_mode,
            page_size: value.page_size,
            keep_filter: value.keep_filter,
            reset_cursor: false,
        }
    }
}

impl<'a, 'b> vstd::std_specs::convert::FromSpecImpl<&'b MultiSelect<'a>> for MultiSelectConfig {
    open spec fn obeys_from_spec() -> bool {
        true
    }

    open spec fn from_spec(value: &'b MultiSelect<'a>) -> Self {
        MultiSelectConfig {
            vim_mode: value.vim_mode,
            page_size: value.page_size,
            keep_filter: value.keep_filter,
            reset_cursor: false,
        }
    }
}

impl<'a> KeyDriven for MultiSelectPrompt<'a> {
    type Answer = Vec<OptionAnswer>;

    /// What handling a key does (see the prompt's `handle_key`).
    open spec fn handled(&self, key: Key, after: Self, r: PromptStep<Vec<OptionAnswer>>) -> bool {
        &&& after.wf()
        &&& self.spec_render_ready() && r is Continue ==> after.spec_render_ready()
        &&& key is Interrupt ==> r is Interrupted
        &&& key is Cancel ==> r is Canceled
        &&& key is Submit ==> match r {
                    PromptStep::Answered(a) => answers_match(a@, self.spec_options(), self.spec_checked())
                        && self.spec_accepts(a@),
                    PromptStep::Continue => after.same_but_error(self) && (after.spec_error() matches Some(e)
                        && exists|a: Seq<OptionAnswer>| answers_match(a, self.spec_options(), self.spec_checked())
                            && !self.spec_accepts(a) && e@ == #[trigger] self.spec_refusal(a)),
                    _ => false
            }
        &&& !(key is Interrupt || key is Cancel || key is Submit) ==> r is Continue
                    && self.changed_by(key, &after)
    }
}

} // verus!
