//! A text-input question: a line of text edited at its end, with
//! suggestions, driven by the keys of a termion terminal.

use super::{PromptStep, DEFAULT_PAGE_SIZE};
use crate::multiselect::{spec_drop_last_grapheme, DefaultTransformer, PromptConfig, TermKey, Transformer};
use crate::question::Answer;
use crate::segmentation::{graphemes, lemma_flatten_alt_take_succ, string_views};
use crate::strings::{push_char, push_str, to_owned_string};
use crate::type_aliases::Suggester;
use crate::error::InquireResult;
use crate::paging::{paginate, spec_page_bounds};
use crate::ui::renderer::{
    erased_lines, error_pieces, help_pieces, lemma_drew_chain, lemma_pieces_empty, option_list, option_pieces,
    pieces_sent, prompt_pieces, sat_count, Piece, Renderer,
};
use vstd::prelude::*;

verus! {

/// The help message shown under the suggestions when none is set.
pub const INPUT_DEFAULT_HELP_MESSAGE: &'static str = "↑↓ to move, tab to auto-complete, enter to submit";

/// Validates the answer of a question; an error carries the message shown.
pub trait AnswerValidator {
    /// Whether the answer is accepted.
    spec fn spec_accepts(&self, answer: Answer) -> bool;

    /// Accepts the answer, or explains why not.
    fn validate(&self, answer: &Answer) -> (r: Result<(), String>)
        ensures
            (r is Ok) == self.spec_accepts(*answer),
    ;
}

/// Accepts every answer.
#[derive(Copy, Clone, Debug)]
pub struct AcceptAll;

impl AnswerValidator for AcceptAll {
    open spec fn spec_accepts(&self, answer: Answer) -> bool {
        true
    }

    fn validate(&self, answer: &Answer) -> (r: Result<(), String>) {
        Ok(())
    }
}

/// Whether the options `x` have the transformer and the validator of the
/// settings `c` where it sets them, and those of `y` where it does not.
pub open spec fn spec_input_callbacks_configured<'a>(x: InputOptions<'a>, y: InputOptions<'a>, c: PromptConfig<'a>) -> bool {
    &&& match c.transformer {
        Some(t) => x.transforms_with(t),
        None => x.same_transformer_as(&y),
    }
    &&& match c.validator {
        Some(v) => x.validates_with(v),
        None => x.same_validator_as(&y),
    }
}

/// The options of a text-input question.
pub struct InputOptions<'a> {
    message: &'a str,
    default: Option<&'a str>,
    help_message: Option<&'a str>,
    transformer: &'a dyn Transformer,
    validator: &'a dyn AnswerValidator,
    page_size: usize,
    suggestor: Option<&'a dyn Suggester>,
}

impl<'a> InputOptions<'a> {
    /// The message.
    pub closed spec fn spec_message(&self) -> &'a str { self.message }
    /// The default answer.
    pub closed spec fn spec_default(&self) -> Option<&'a str> { self.default }
    /// The help message.
    pub closed spec fn spec_help_message(&self) -> Option<&'a str> { self.help_message }
    /// Whether a suggester is set.
    pub closed spec fn spec_has_suggestor(&self) -> bool { self.suggestor is Some }
    /// The page size.
    pub closed spec fn spec_page_size(&self) -> usize { self.page_size }
    /// Whether `self` shows answers as `other` does.
    pub closed spec fn same_transformer_as(&self, other: &Self) -> bool { self.transformer == other.transformer }
    /// Whether `self` checks answers as `other` does.
    pub closed spec fn same_validator_as(&self, other: &Self) -> bool { self.validator == other.validator }
    /// Whether the answer is shown with the transformer `t`.
    pub closed spec fn transforms_with(&self, t: &'a dyn Transformer) -> bool { self.transformer == t }
    /// Whether the answer is checked with the validator `v`.
    pub closed spec fn validates_with(&self, v: &'a dyn AnswerValidator) -> bool { self.validator == v }
    /// Whether `text` is what the transformer shows for the answer `answer`.
    pub closed spec fn spec_shows(&self, answer: Answer, text: Seq<char>) -> bool {
        self.transformer.spec_transforms(answer, text)
    }

    /// A question with the given message: no default, help message or
    /// suggester, every answer accepted and shown as it is.
    pub fn new(message: &'a str) -> (r: Self)
        ensures
            r.spec_message() == message,
            r.spec_default() is None,
            r.spec_help_message() is None,
            !r.spec_has_suggestor(),
            r.spec_page_size() == DEFAULT_PAGE_SIZE,
    {
        InputOptions {
            message,
            default: None,
            help_message: None,
            transformer: &DefaultTransformer,
            validator: &AcceptAll,
            page_size: DEFAULT_PAGE_SIZE,
            suggestor: None,
        }
    }

    /// Sets the help message.
    pub fn with_help_message(self, message: &'a str) -> (r: Self)
        ensures
            r.spec_help_message() == Some(message), r.spec_message() == self.spec_message(),
            r.spec_default() == self.spec_default(), r.spec_has_suggestor() == self.spec_has_suggestor(),
    {
        let mut s = self;
        s.help_message = Some(message);
        s
    }

    /// Sets the answer given when nothing is typed.
    pub fn with_default(self, message: &'a str) -> (r: Self)
        ensures
            r.spec_default() == Some(message), r.spec_message() == self.spec_message(),
            r.spec_help_message() == self.spec_help_message(), r.spec_has_suggestor() == self.spec_has_suggestor(),
    {
        let mut s = self;
        s.default = Some(message);
        s
    }

    /// Sets the suggester.
    pub fn with_suggestor(self, suggestor: &'a dyn Suggester) -> (r: Self)
        ensures
            r.spec_has_suggestor(), r.spec_message() == self.spec_message(),
            r.spec_help_message() == self.spec_help_message(), r.spec_default() == self.spec_default(),
    {
        let mut s = self;
        s.suggestor = Some(suggestor);
        s
    }

    /// Sets the transformer of the answer.
    pub fn with_transformer(self, transformer: &'a dyn Transformer) -> (r: Self)
        ensures
            r.transforms_with(transformer),
            r.spec_message() == self.spec_message(), r.spec_default() == self.spec_default(),
            r.spec_help_message() == self.spec_help_message(), r.spec_has_suggestor() == self.spec_has_suggestor(),
    {
        let mut s = self;
        s.transformer = transformer;
        s
    }

    /// Sets the validator of the answer.
    pub fn with_validator(self, validator: &'a dyn AnswerValidator) -> (r: Self)
        ensures
            r.validates_with(validator),
            r.spec_message() == self.spec_message(), r.spec_default() == self.spec_default(),
            r.spec_help_message() == self.spec_help_message(), r.spec_has_suggestor() == self.spec_has_suggestor(),
    {
        let mut s = self;
        s.validator = validator;
        s
    }

    /// The question that asks with these options.
    pub fn into_question(self) -> (r: crate::multiselect::Question<'a>)
        ensures
            r == crate::multiselect::Question::Input(self),
    {
        crate::multiselect::Question::Input(self)
    }

    /// Applies the help message of a survey's settings, when set there.
    pub fn with_config(self, global_config: &PromptConfig<'a>) -> (r: Self)
        ensures
            r.spec_message() == self.spec_message(), r.spec_default() == self.spec_default(),
            r.spec_has_suggestor() == self.spec_has_suggestor(),
            r.spec_help_message() == match global_config.help_message {
                Some(h) => Some(h),
                None => self.spec_help_message(),
            },
            r.spec_page_size() == self.spec_page_size(),
            spec_input_callbacks_configured(r, self, *global_config),
    {
        let mut s = self;
        if let Some(transformer) = global_config.transformer {
            s.transformer = transformer;
        }
        if let Some(validator) = global_config.validator {
            s.validator = validator;
        }
        if let Some(help_message) = global_config.help_message {
            s.help_message = Some(help_message);
        }
        s
    }
}

/// The running state of a text-input question.
pub struct InputPrompt<'a> {
    message: &'a str,
    default: Option<&'a str>,
    help_message: Option<&'a str>,
    content: String,
    transformer: &'a dyn Transformer,
    validator: &'a dyn AnswerValidator,
    error: Option<String>,
    suggestor: Option<&'a dyn Suggester>,
    suggested_options: Vec<String>,
    cursor_index: usize,
    page_size: usize,
}

impl<'a> InputPrompt<'a> {
    /// The text typed.
    pub closed spec fn spec_content(&self) -> Seq<char> { self.content@ }
    /// The suggestions.
    pub closed spec fn spec_suggestions(&self) -> Seq<Seq<char>> {
        self.suggested_options@.map_values(|s: String| s@)
    }
    /// The highlighted suggestion.
    pub closed spec fn spec_cursor(&self) -> usize { self.cursor_index }
    /// The default answer.
    pub closed spec fn spec_default(&self) -> Option<&'a str> { self.default }
    /// Whether `text` is what the transformer shows for the answer `answer`.
    pub closed spec fn spec_shows(&self, answer: Answer, text: Seq<char>) -> bool {
        self.transformer.spec_transforms(answer, text)
    }
    /// Whether a suggester is set.
    pub closed spec fn spec_has_suggestor(&self) -> bool { self.suggestor is Some }
    /// The error of the last refused submission.
    pub closed spec fn spec_error(&self) -> Option<Seq<char>> {
        match self.error { Some(e) => Some(e@), None => None }
    }
    /// What the validator accepts.
    pub closed spec fn spec_accepts(&self, answer: Answer) -> bool {
        self.validator.spec_accepts(answer)
    }

    /// Starts a question with nothing typed and the suggestions for an empty text.
    pub fn new(so: InputOptions<'a>) -> (r: Self)
        ensures
            r.spec_content() == Seq::<char>::empty(),
            r.spec_cursor() == 0,
            r.spec_default() == so.spec_default(),
            r.spec_has_suggestor() == so.spec_has_suggestor(),
            r.spec_error() is None,
            forall|a: Answer, t: Seq<char>| r.spec_shows(a, t) == so.spec_shows(a, t),
    {
        let suggested_options = match so.suggestor {
            Some(s) => s.suggest(""),
            None => Vec::new(),
        };
        let mut prompt = InputPrompt {
            message: so.message,
            default: so.default,
            help_message: so.help_message,
            content: String::new(),
            transformer: so.transformer,
            validator: so.validator,
            error: None,
            suggestor: so.suggestor,
            suggested_options,
            cursor_index: 0,
            page_size: so.page_size,
        };
        let mut transformer = so.transformer;
        std::mem::swap(&mut prompt.transformer, &mut transformer);
        prompt
    }

    /// Asks the suggester again; the highlight is pulled back onto the last
    /// suggestion if it fell off a non-empty list.
    fn update_suggestions(&mut self)
        ensures
            final(self).spec_content() == old(self).spec_content(),
            final(self).spec_default() == old(self).spec_default(),
            final(self).spec_has_suggestor() == old(self).spec_has_suggestor(),
            final(self).spec_error() == old(self).spec_error(),
            final(self).spec_prompt_message() == old(self).spec_prompt_message(),
            final(self).spec_prompt_help() == old(self).spec_prompt_help(),
            final(self).spec_prompt_page_size() == old(self).spec_prompt_page_size(),
            !old(self).spec_has_suggestor() ==> final(self).spec_cursor() == old(self).spec_cursor()
                && final(self).spec_suggestions() == old(self).spec_suggestions(),
            old(self).spec_has_suggestor() && final(self).spec_suggestions().len() > 0 ==> final(self).spec_cursor()
                < final(self).spec_suggestions().len(),
    {
        if let Some(suggestor) = self.suggestor {
            self.suggested_options = suggestor.suggest(self.content.as_str());
            let len = self.suggested_options.len();
            if len > 0 && len <= self.cursor_index {
                self.cursor_index = len - 1;
            }
        }
    }

    /// The text once a key edits it: backspace drops its last grapheme, Ctrl+W
    /// and Ctrl+X (as characters) clear it, any other character is appended;
    /// `None` for keys that do not edit it.
    pub open spec fn spec_content_after(&self, key: TermKey) -> Option<Seq<char>> {
        match key {
            TermKey::Backspace => Some(spec_drop_last_grapheme(self.spec_content())),
            TermKey::Char(c) => if c == '\x17' || c == '\x18' {
                Some(Seq::empty())
            } else {
                Some(self.spec_content().push(c))
            },
            _ => None,
        }
    }

    /// What a key other than Ctrl+C, tab and enter does to the question (see
    /// [InputPrompt::on_change]). New suggestions come from the suggester, of
    /// which nothing is known but that the highlight stays on one of them.
    pub open spec fn changed_by(&self, key: TermKey, after: &Self) -> bool {
        &&& after.spec_default() == self.spec_default()
        &&& after.spec_error() == self.spec_error()
        &&& after.spec_has_suggestor() == self.spec_has_suggestor()
        &&& after.spec_prompt_message() == self.spec_prompt_message()
        &&& after.spec_prompt_help() == self.spec_prompt_help()
        &&& after.spec_prompt_page_size() == self.spec_prompt_page_size()
        &&& match self.spec_content_after(key) {
            Some(content) => {
                &&& after.spec_content() == content
                &&& !self.spec_has_suggestor() ==> after.spec_cursor() == self.spec_cursor()
                    && after.spec_suggestions() == self.spec_suggestions()
                &&& self.spec_has_suggestor() && after.spec_suggestions().len() > 0 ==> after.spec_cursor()
                    < after.spec_suggestions().len()
            },
            None => if key is Up || key is Down {
                &&& after.spec_content() == self.spec_content()
                &&& after.spec_suggestions() == self.spec_suggestions()
                &&& after.spec_cursor() == if key is Up {
                    if self.spec_cursor() >= 1 {
                        (self.spec_cursor() - 1) as usize
                    } else if self.spec_suggestions().len() >= 1 {
                        (self.spec_suggestions().len() - 1) as usize
                    } else {
                        0usize
                    }
                } else {
                    let moved: int = if self.spec_cursor() < usize::MAX { self.spec_cursor() + 1 } else { usize::MAX as int };
                    if moved >= self.spec_suggestions().len() { 0usize } else { moved as usize }
                }
            } else {
                *after == *self
            },
        }
    }

    /// Reacts to a key: backspace drops the last grapheme of the text, Ctrl+W
    /// and Ctrl+X (as characters) clear it and any other character is appended
    /// (each of these asks for suggestions again); up and down move the
    /// highlight through the suggestions, wrapping around.
    pub fn on_change(&mut self, key: TermKey)
        ensures
            old(self).changed_by(key, &*final(self)),
    {
        let mut dirty = false;
        match key {
            TermKey::Backspace => {
                let gs = graphemes(self.content.as_str());
                let new_len = gs.len().saturating_sub(1);
                let ghost views = string_views(gs@);
                let mut kept = String::new();
                let mut i: usize = 0;
                while i < new_len
                    invariant
                        views == string_views(gs@),
                        new_len <= gs@.len(),
                        i <= new_len,
                        kept@ == views.take(i as int).flatten_alt(),
                    decreases new_len - i,
                {
                    proof {
                        lemma_flatten_alt_take_succ(views, i as int);
                    }
                    push_str(&mut kept, gs[i].as_str());
                    i = i + 1;
                }
                self.content = kept;
                dirty = true;
            },
            TermKey::Up => {
                self.cursor_index = match self.cursor_index.checked_sub(1) {
                    Some(c) => c,
                    None => match self.suggested_options.len().checked_sub(1) {
                        Some(c) => c,
                        None => 0,
                    },
                };
            },
            TermKey::Down => {
                self.cursor_index = self.cursor_index.saturating_add(1);
                if self.cursor_index >= self.suggested_options.len() {
                    self.cursor_index = 0;
                }
            },
            TermKey::Char('\x17') | TermKey::Char('\x18') => {
                self.content = String::new();
                dirty = true;
            },
            TermKey::Char(c) => {
                push_char(&mut self.content, c);
                dirty = true;
            },
            _ => {},
        }
        if dirty {
            self.update_suggestions();
        }
    }

    /// Replaces the text by the highlighted suggestion, if there is one.
    pub fn use_select_option(&mut self)
        ensures
            old(self).spec_cursor() < old(self).spec_suggestions().len() ==> final(self).spec_content()
                == old(self).spec_suggestions()[old(self).spec_cursor() as int],
            old(self).spec_cursor() >= old(self).spec_suggestions().len() ==> final(self).spec_content()
                == old(self).spec_content(),
            final(self).spec_default() == old(self).spec_default(),
            final(self).spec_error() == old(self).spec_error(),
    {
        if self.cursor_index < self.suggested_options.len() {
            self.content = self.suggested_options[self.cursor_index].clone();
            self.update_suggestions();
        }
    }

    /// The answer: the default when nothing is typed and one is set; otherwise
    /// the text, once the validator accepts it.
    fn get_final_answer(&self) -> (r: Result<Answer, String>)
        ensures
            self.spec_content().len() == 0 && self.spec_default() is Some ==> (r matches Ok(Answer::Content(s))
                && s@ == self.spec_default()->0@),
            !(self.spec_content().len() == 0 && self.spec_default() is Some) ==> match r {
                Ok(a) => a matches Answer::Content(s) && s@ == self.spec_content() && self.spec_accepts(a),
                Err(_) => exists|a: Answer| #![trigger self.spec_accepts(a)] a matches Answer::Content(s)
                    && s@ == self.spec_content() && !self.spec_accepts(a),
            },
    {
        if self.content.as_str().is_empty() {
            if let Some(val) = self.default {
                return Ok(Answer::Content(to_owned_string(val)));
            }
        }
        let answer = Answer::Content(self.content.clone());
        match self.validator.validate(&answer) {
            Ok(()) => Ok(answer),
            Err(err) => {
                assert(!self.spec_accepts(answer));
                Err(err)
            },
        }
    }

    /// Handles one key press: Ctrl+C interrupts, tab takes the highlighted
    /// suggestion, enter submits (keeping the prompt open with the validator's
    /// message when refused), and any other key goes to [InputPrompt::on_change].
    pub fn handle_key(&mut self, key: TermKey) -> (r: PromptStep<Answer>)
        ensures
            key == TermKey::Ctrl('c') ==> r is Interrupted,
            key == TermKey::Char('\n') || key == TermKey::Char('\r') ==> match r {
                PromptStep::Answered(a) => a matches Answer::Content(s) && (if old(self).spec_content().len() == 0
                    && old(self).spec_default() is Some {
                    s@ == old(self).spec_default()->0@
                } else {
                    s@ == old(self).spec_content()
                }),
                PromptStep::Continue => final(self).spec_error() is Some,
                _ => false,
            },
            !(key == TermKey::Ctrl('c') || key == TermKey::Char('\n') || key == TermKey::Char('\r')) ==> r is Continue,
            key == TermKey::Char('\t') ==> {
                &&& old(self).spec_cursor() < old(self).spec_suggestions().len() ==> final(self).spec_content()
                    == old(self).spec_suggestions()[old(self).spec_cursor() as int]
                &&& old(self).spec_cursor() >= old(self).spec_suggestions().len() ==> final(self).spec_content()
                    == old(self).spec_content()
                &&& final(self).spec_error() == old(self).spec_error()
            },
            !(key == TermKey::Ctrl('c') || key == TermKey::Char('\t') || key == TermKey::Char('\n')
                || key == TermKey::Char('\r')) ==> old(self).changed_by(key, &*final(self)),
    {
        match key {
            TermKey::Ctrl('c') => PromptStep::Interrupted,
            TermKey::Char('\t') => {
                self.use_select_option();
                PromptStep::Continue
            },
            TermKey::Char('\n') | TermKey::Char('\r') => match self.get_final_answer() {
                Ok(answer) => PromptStep::Answered(answer),
                Err(err) => {
                    self.error = Some(err);
                    PromptStep::Continue
                },
            },
            _ => {
                self.on_change(key);
                PromptStep::Continue
            },
        }
    }

    /// The message.
    pub closed spec fn spec_prompt_message(&self) -> &'a str { self.message }
    /// The help message.
    pub closed spec fn spec_prompt_help(&self) -> Option<&'a str> { self.help_message }
    /// The page size.
    pub closed spec fn spec_prompt_page_size(&self) -> usize { self.page_size }

    /// Whether the page of suggestions that holds the highlight can be drawn:
    /// when the suggestions overflow a page, the highlight is on one of them or
    /// in the first half page.
    pub open spec fn spec_render_ready(&self) -> bool {
        self.spec_suggestions().len() > self.spec_prompt_page_size() ==> self.spec_cursor() < self.spec_prompt_page_size() / 2
            || self.spec_cursor() < self.spec_suggestions().len()
    }

    /// The message of the question.
    pub fn message(&self) -> (r: &'a str)
        ensures
            r == self.spec_prompt_message(),
    {
        self.message
    }

    /// Tells whether the page of suggestions can be drawn (see [InputPrompt::spec_render_ready]).
    pub fn render_ready(&self) -> (r: bool)
        ensures
            r == self.spec_render_ready(),
    {
        !(self.suggested_options.len() > self.page_size) || self.cursor_index < self.page_size / 2
            || self.cursor_index < self.suggested_options.len()
    }

    /// The suggestions on the page that holds the highlight, and the row of the
    /// highlight in it.
    pub open spec fn spec_page(&self) -> (Seq<Seq<char>>, nat) {
        let (start, end, sel) = spec_page_bounds(self.spec_prompt_page_size() as nat, self.spec_suggestions().len(),
            self.spec_cursor() as nat);
        (self.spec_suggestions().subrange(start as int, end as int), sel)
    }

    /// What a frame shows: the error of the last refused submission if any,
    /// the prompt line with the default and the typed text, the page of
    /// suggestions, and the help message (a default one when none is set and
    /// there are suggestions).
    pub open spec fn spec_frame(&self) -> Seq<Piece> {
        let (rows, sel) = self.spec_page();
        (match self.spec_error() { Some(e) => error_pieces(e), None => Seq::empty() })
            + prompt_pieces(self.spec_prompt_message()@, match self.spec_default() { Some(d) => Some(d@), None => None },
                Some(self.spec_content()))
            + option_list(rows, sel, rows.len())
            + match self.spec_prompt_help() {
                Some(h) => help_pieces(h@),
                None => if self.spec_suggestions().len() > 0 { help_pieces(INPUT_DEFAULT_HELP_MESSAGE@) } else { Seq::empty() },
            }
    }

    /// How many lines a frame has.
    pub open spec fn spec_frame_lines(&self) -> nat {
        let (rows, sel) = self.spec_page();
        (if self.spec_error() is Some { 1nat } else { 0nat }) + 1 + rows.len()
            + (if self.spec_prompt_help() is Some || self.spec_suggestions().len() > 0 { 1nat } else { 0nat })
    }

    /// Draws a frame (see [InputPrompt::spec_frame]) after erasing the previous one.
    pub fn render(&self, renderer: &mut Renderer) -> (r: InquireResult<()>)
        requires
            self.spec_render_ready(),
        ensures
            r is Ok,
            ({
                let erased = old(renderer).spec_output() + erased_lines(old(renderer).spec_lines() as nat);
                &&& erased.len() <= final(renderer).spec_output().len()
                &&& final(renderer).spec_output().take(erased.len() as int) == erased
                &&& pieces_sent(old(renderer).spec_dull(), self.spec_frame(), final(renderer).spec_output().skip(erased.len() as int))
            }),
            final(renderer).spec_lines() == sat_count(self.spec_frame_lines()),
            final(renderer).spec_dull() == old(renderer).spec_dull(),
            final(renderer).spec_has_keys() == old(renderer).spec_has_keys(),
            final(renderer).spec_pending_keys() == old(renderer).spec_pending_keys(),
            final(renderer).wf() == old(renderer).wf(),
    {
        let _ = renderer.reset_prompt();
        let ghost r1 = *renderer;
        proof {
            let o = r1.spec_output();
            assert(o.take(o.len() as int) =~= o);
            lemma_pieces_empty(r1.spec_dull(), o.skip(o.len() as int));
            assert(r1.drew(&r1, Seq::empty(), 0));
        }
        let ghost mut shown: Seq<Piece> = Seq::empty();
        let ghost mut count: nat = 0;
        if let Some(err) = &self.error {
            let ghost before = *renderer;
            let _ = renderer.print_error_message(err.as_str());
            proof {
                lemma_drew_chain(r1, before, *renderer, shown, error_pieces(err@), 0, 1);
                shown = shown + error_pieces(err@);
                count = 1;
            }
        }
        assert(shown =~= match self.spec_error() { Some(e) => error_pieces(e), None => Seq::empty() });
        let ghost before = *renderer;
        let _ = renderer.print_prompt(self.message, self.default, Some(self.content.as_str()));
        proof {
            let p = prompt_pieces(self.spec_prompt_message()@, match self.spec_default() { Some(d) => Some(d@), None => None },
                Some(self.spec_content()));
            lemma_drew_chain(r1, before, *renderer, shown, p, sat_count(count), renderer.spec_lines());
            shown = shown + p;
            count = count + 1;
        }
        let ghost head = shown;
        let ghost head_count = count;
        let page = paginate(self.page_size, self.suggested_options.as_slice(), self.cursor_index);
        let ghost rows = page.content@.map_values(|v: String| v@);
        assert(rows =~= self.spec_page().0);
        let mut k: usize = 0;
        while k < page.content.len()
            invariant
                k <= page.content@.len(),
                rows == page.content@.map_values(|v: String| v@),
                rows == self.spec_page().0,
                page.selection == self.spec_page().1,
                renderer.drew(&r1, head + option_list(rows, page.selection as nat, k as nat), sat_count(head_count + k as nat)),
                head_count <= 2,
            decreases page.content@.len() - k,
        {
            let ghost prev = *renderer;
            let _ = renderer.print_option(page.selection == k, page.content[k].as_str());
            proof {
                let p = option_pieces(page.selection == k, rows[k as int]);
                lemma_drew_chain(r1, prev, *renderer, head + option_list(rows, page.selection as nat, k as nat), p,
                    sat_count(head_count + k as nat), renderer.spec_lines());
                assert(option_list(rows, page.selection as nat, (k + 1) as nat)
                    == option_list(rows, page.selection as nat, k as nat) + p);
                assert(head + option_list(rows, page.selection as nat, k as nat) + p
                    =~= head + option_list(rows, page.selection as nat, (k + 1) as nat));
            }
            k = k + 1;
        }
        let ghost body = head + option_list(rows, page.selection as nat, rows.len());
        let ghost body_count = head_count + rows.len();
        proof {
            assert(renderer.drew(&r1, body, sat_count(body_count)));
        }
        match self.help_message {
            Some(message) => {
                let ghost prev = *renderer;
                let _ = renderer.print_help(message);
                proof {
                    lemma_drew_chain(r1, prev, *renderer, body, help_pieces(message@), sat_count(body_count), renderer.spec_lines());
                }
            },
            None => {
                if self.suggested_options.len() > 0 {
                    let ghost prev = *renderer;
                    let _ = renderer.print_help(INPUT_DEFAULT_HELP_MESSAGE);
                    proof {
                        lemma_drew_chain(r1, prev, *renderer, body, help_pieces(INPUT_DEFAULT_HELP_MESSAGE@),
                            sat_count(body_count), renderer.spec_lines());
                    }
                } else {
                    assert(body + Seq::<Piece>::empty() =~= body);
                }
            },
        }
        let _ = renderer.flush();
        Ok(())
    }

    /// The text shown for the answer, as the transformer makes it.
    pub fn transform_answer(&self, answer: &Answer) -> (r: String)
        ensures
            self.spec_shows(*answer, r@),
    {
        self.transformer.transform(answer)
    }
}

} // verus!
