//! Asking for a value of any type that can be parsed from text.

use super::{keys_of, lemma_ran_empty, lemma_ran_push, ran, KeyDriven, PromptStep};
use crate::error::{CustomUserError, InquireError, InquireResult};
use crate::formatter::{CustomTypeFormatter, DisplayFormatter};
use crate::input::action::{spec_input_action_from_key, InputAction};
use crate::key::{spec_key_from_event, Key};
use crate::parser::{CustomTypeParser, FromStrParser, ParseFromStr};
use crate::strings::to_owned_string;
use crate::text_input::{spec_can_handle_key, spec_handle_key, Input, TextInputModel};
use crate::ui::backend::{error_line_text, help_line_text, prompt_line_text, Backend, CommonBackend, CustomTypeBackend};
use crate::ui::RenderConfig;
use crate::validator::{lemma_first_value_refusal_skip, spec_first_value_refusal, CustomTypeValidator, ErrorMessage, Validation, Verdict};
use vstd::prelude::*;

verus! {

/// Message shown when the text cannot be parsed, by default.
pub const CUSTOM_TYPE_DEFAULT_ERROR_MESSAGE: &'static str = "Invalid input";

/// Set of actions of a custom-type prompt.
#[derive(Copy, Clone, Debug, PartialEq, Eq, Structural)]
pub enum CustomTypePromptAction {
    /// An action on the text input.
    ValueInput(InputAction),
}

impl CustomTypePromptAction {
    /// The action of a key: the text-input action it triggers, if any.
    pub fn from_key(key: crate::ui::Key) -> (r: Option<Self>)
        ensures
            r == match spec_input_action_from_key(key) {
                Some(a) => Some(CustomTypePromptAction::ValueInput(a)),
                None => None,
            },
    {
        match InputAction::from_key(key, &()) {
            Some(action) => Some(CustomTypePromptAction::ValueInput(action)),
            None => None,
        }
    }
}

/// Prompt for a value of type `T`, typed as text and parsed.
///
/// An empty answer gives the default value when one is set. Otherwise the
/// parser reads the text; when it refuses, the error message is shown and the
/// text cleared; when it succeeds, every validator must accept the value.
#[verifier::reject_recursive_types(T)]
pub struct CustomType<'a, T> {
    /// Message presented to the user.
    pub message: &'a str,
    /// Text the input starts with.
    pub starting_input: Option<&'a str>,
    /// Answer given when the input is empty.
    pub default: Option<T>,
    /// Text shown while the input is empty.
    pub placeholder: Option<&'a str>,
    /// Help message.
    pub help_message: Option<&'a str>,
    /// Formats the final answer.
    pub formatter: &'a dyn CustomTypeFormatter<T>,
    /// Formats the default value shown beside the prompt.
    pub default_value_formatter: &'a dyn CustomTypeFormatter<T>,
    /// Reads the value from the text.
    pub parser: &'a dyn CustomTypeParser<T>,
    /// Validators of the value, applied in order.
    pub validators: Vec<&'a dyn CustomTypeValidator<T>>,
    /// Message shown when the parser refuses the text.
    pub error_message: String,
    /// How the prompt is drawn.
    pub render_config: RenderConfig,
}

impl<'a, T: std::fmt::Display + ParseFromStr> CustomType<'a, T> {
    /// A prompt with the given message and the default settings: the type's own
    /// parser and `Display` formatting, and "Invalid input" as the error message.
    pub fn new(message: &'a str) -> (r: Self)
        ensures
            r.message == message,
            r.starting_input is None,
            r.default is None,
            r.placeholder is None,
            r.help_message is None,
            r.error_message@ == CUSTOM_TYPE_DEFAULT_ERROR_MESSAGE@,
    {
        CustomType {
            message,
            starting_input: None,
            default: None,
            placeholder: None,
            help_message: None,
            formatter: &DisplayFormatter,
            default_value_formatter: &DisplayFormatter,
            parser: &FromStrParser,
            validators: Vec::new(),
            error_message: to_owned_string(CUSTOM_TYPE_DEFAULT_ERROR_MESSAGE),
            render_config: RenderConfig::default(),
        }
    }
}

impl<'a, T> CustomType<'a, T> {
    /// Whether `self` and `other` agree on the settings that builders keep.
    pub open spec fn same_text(&self, other: &Self) -> bool {
        &&& self.message == other.message
        &&& self.starting_input == other.starting_input
        &&& self.placeholder == other.placeholder
        &&& self.help_message == other.help_message
        &&& self.error_message == other.error_message
    }

    /// Sets the text the input starts with.
    pub fn with_starting_input(self, message: &'a str) -> (r: Self)
        ensures
            r.starting_input == Some(message), r.message == self.message, r.default == self.default,
            r.placeholder == self.placeholder, r.help_message == self.help_message,
            r.error_message == self.error_message,
    {
        let mut s = self;
        s.starting_input = Some(message);
        s
    }

    /// Sets the answer given when the input is empty.
    pub fn with_default(self, default: T) -> (r: Self)
        ensures
            r.default == Some(default), r.same_text(&self),
    {
        let mut s = self;
        s.default = Some(default);
        s
    }

    /// Sets the text shown while the input is empty.
    pub fn with_placeholder(self, placeholder: &'a str) -> (r: Self)
        ensures
            r.placeholder == Some(placeholder), r.message == self.message, r.default == self.default,
            r.starting_input == self.starting_input, r.help_message == self.help_message,
            r.error_message == self.error_message,
    {
        let mut s = self;
        s.placeholder = Some(placeholder);
        s
    }

    /// Sets the help message.
    pub fn with_help_message(self, message: &'a str) -> (r: Self)
        ensures
            r.help_message == Some(message), r.message == self.message, r.default == self.default,
            r.starting_input == self.starting_input, r.placeholder == self.placeholder,
            r.error_message == self.error_message,
    {
        let mut s = self;
        s.help_message = Some(message);
        s
    }

    /// Sets the formatter of the answer.
    pub fn with_formatter(self, formatter: &'a dyn CustomTypeFormatter<T>) -> (r: Self)
        ensures
            r.formatter == formatter,
            r.same_text(&self), r.default == self.default,
    {
        let mut s = self;
        let mut value = formatter;
        std::mem::swap(&mut s.formatter, &mut value);
        s
    }

    /// Sets the formatter of the default value.
    pub fn with_default_value_formatter(self, formatter: &'a dyn CustomTypeFormatter<T>) -> (r: Self)
        ensures
            r.default_value_formatter == formatter,
            r.same_text(&self), r.default == self.default,
    {
        let mut s = self;
        let mut value = formatter;
        std::mem::swap(&mut s.default_value_formatter, &mut value);
        s
    }

    /// Sets the parser.
    pub fn with_parser(self, parser: &'a dyn CustomTypeParser<T>) -> (r: Self)
        ensures
            r.parser == parser,
            r.same_text(&self), r.default == self.default,
    {
        let mut s = self;
        let mut value = parser;
        std::mem::swap(&mut s.parser, &mut value);
        s
    }

    /// Adds a validator, applied after those already set.
    pub fn with_validator(self, validator: &'a dyn CustomTypeValidator<T>) -> (r: Self)
        ensures
            r.validators@ == self.validators@.push(validator),
            r.same_text(&self), r.default == self.default,
    {
        let mut s = self;
        s.validators.push(validator);
        s
    }

    /// Adds validators, in order, after those already set.
    pub fn with_validators(self, validators: &[&'a dyn CustomTypeValidator<T>]) -> (r: Self)
        ensures
            r.validators@ == self.validators@ + validators@,
            r.same_text(&self), r.default == self.default,
    {
        let mut s = self;
        s.validators.extend_from_slice(validators);
        proof {
            assert forall|k: int| 0 <= k < s.validators@.len() implies #[trigger] s.validators@[k]
                == (self.validators@ + validators@)[k] by {
                if k >= self.validators@.len() {
                    let j = k - self.validators@.len();
                    assert(cloned::<&'a dyn CustomTypeValidator<T>>(validators@[j], s.validators@[k]));
                }
            }
            assert(s.validators@ =~= self.validators@ + validators@);
        }
        s
    }

    /// Sets the message shown when the parser refuses the text.
    pub fn with_error_message(self, error_message: &str) -> (r: Self)
        ensures
            r.error_message@ == error_message@, r.message == self.message, r.default == self.default,
            r.starting_input == self.starting_input, r.placeholder == self.placeholder,
            r.help_message == self.help_message,
    {
        let mut s = self;
        s.error_message = to_owned_string(error_message);
        s
    }

    /// Sets how the prompt is drawn.
    pub fn with_render_config(self, render_config: RenderConfig) -> (r: Self)
        ensures
            r.render_config == render_config, r.same_text(&self), r.default == self.default,
    {
        let mut s = self;
        s.render_config = render_config;
        s
    }
}

/// What submitting the text gives, before the prompt reacts: the default
/// value, a parsed and accepted value, a message to show, or a failure.
pub enum Submission<T> {
    /// An answer.
    Answer(T),
    /// A message to show; the text is cleared when the parser refused it.
    Refused(String, bool),
    /// A validator failed.
    Failed(CustomUserError),
}

/// The running state of a [CustomType] prompt.
#[verifier::reject_recursive_types(T)]
pub struct CustomTypePrompt<'a, T> {
    message: &'a str,
    error: Option<String>,
    help_message: Option<&'a str>,
    default: Option<T>,
    placeholder: Option<&'a str>,
    input: Input,
    formatter: &'a dyn CustomTypeFormatter<T>,
    default_value_formatter: &'a dyn CustomTypeFormatter<T>,
    parser: &'a dyn CustomTypeParser<T>,
    validators: Vec<&'a dyn CustomTypeValidator<T>>,
    error_message: String,
}

impl<'a, T> CustomTypePrompt<'a, T> {
    /// The text typed.
    pub closed spec fn spec_input(&self) -> TextInputModel { self.input@ }
    /// The default answer.
    pub closed spec fn spec_default(&self) -> Option<T> { self.default }
    /// The error shown since the last refused submission.
    pub closed spec fn spec_error(&self) -> Option<Seq<char>> {
        match self.error { Some(e) => Some(e@), None => None }
    }
    /// The message shown when the parser refuses the text.
    pub closed spec fn spec_error_message(&self) -> Seq<char> { self.error_message@ }
    /// The message.
    pub closed spec fn spec_message(&self) -> &'a str { self.message }
    /// Whether `text` is what the prompt's formatter shows for the answer `answer`.
    pub closed spec fn spec_shows(&self, answer: T, text: Seq<char>) -> bool {
        self.formatter.spec_formats(answer, text)
    }

    /// The help message.
    pub closed spec fn spec_help_message(&self) -> Option<&'a str> { self.help_message }
    /// The validators, in the order they run.
    pub closed spec fn spec_validators(&self) -> Seq<&'a dyn CustomTypeValidator<T>> { self.validators@ }
    /// Whether the prompt's parser can read `input` as `r`.
    pub closed spec fn spec_parses(&self, input: Seq<char>, r: Result<T, ()>) -> bool {
        self.parser.spec_parses(input, r)
    }
    /// Whether `self` reads and checks answers as `other` does: the same
    /// parser, validators and messages.
    pub closed spec fn same_checks(&self, other: &Self) -> bool {
        &&& self.parser == other.parser
        &&& self.validators@ == other.validators@
        &&& self.error_message@ == other.error_message@
    }

    /// What the prompt does with a submission: an answer ends it; a refused
    /// one keeps it open with the message shown (and the text cleared when the
    /// parser refused it), the rest as it was; a failure ends it.
    pub open spec fn spec_submitted(&self, sub: Submission<T>, after: &Self, r: PromptStep<T>) -> bool {
        match sub {
            Submission::Answer(v) => r == PromptStep::Answered(v),
            Submission::Refused(m, clear) => {
                &&& r is Continue
                &&& after.spec_error() == Some(m@)
                &&& after.spec_input() == if clear {
                    TextInputModel { content: Seq::empty(), cursor: 0, length: 0 }
                } else {
                    self.spec_input()
                }
                &&& after.spec_default() == self.spec_default()
                &&& after.spec_error_message() == self.spec_error_message()
                &&& after.spec_message() == self.spec_message()
                &&& after.same_checks(self)
            },
            Submission::Failed(e) => r == PromptStep::<T>::Failed(e),
        }
    }

    /// What submitting gives once the parser read `parsed` from the text: a
    /// refused text is to be cleared, with the prompt's error message; a value
    /// is the answer when every validator accepts it, and otherwise the first
    /// validator that does not accept it gives its message (the prompt's error
    /// message standing for the standard one) or its failure.
    pub open spec fn spec_outcome(&self, parsed: Result<T, ()>, r: Submission<T>) -> bool {
        match parsed {
            Err(()) => r matches Submission::Refused(m, clear) && clear && m@ == self.spec_error_message(),
            Ok(v) => match spec_first_value_refusal(self.spec_validators(), v) {
                None => r == Submission::Answer(v),
                Some(Verdict::Invalid(Some(m))) => r matches Submission::Refused(msg, clear) && !clear && msg@ == m,
                Some(Verdict::Invalid(None)) => r matches Submission::Refused(msg, clear) && !clear
                    && msg@ == self.spec_error_message(),
                Some(Verdict::Failed(m)) => r matches Submission::Failed(e) && e.message@ == m,
                Some(Verdict::Valid) => false,
            },
        }
    }

    /// The text of a frame when the default value is shown as `shown`: the
    /// error of the last refused submission if any, the prompt line with the
    /// default and the input, and the help message if any.
    pub open spec fn spec_frame_text(&self, config: RenderConfig, shown: Option<Seq<char>>) -> Seq<char> {
        (match self.spec_error() { Some(e) => error_line_text(config, e), None => Seq::empty() })
            + prompt_line_text(config, self.spec_message()@, shown, self.spec_input())
            + match self.spec_help_message() { Some(h) => help_line_text(h@), None => Seq::empty() }
    }

    /// Starts a prompt, with the starting input (if any) typed and the cursor
    /// at its end.
    pub fn new(co: CustomType<'a, T>) -> (r: Self)
        ensures
            r.spec_input().content == match co.starting_input { Some(v) => v@, None => Seq::<char>::empty() },
            r.spec_input().cursor == r.spec_input().length,
            r.spec_default() == co.default,
            r.spec_error() is None,
            r.spec_error_message() == co.error_message@,
            r.spec_message() == co.message,
            forall|a: T, t: Seq<char>| r.spec_shows(a, t) == co.formatter.spec_formats(a, t),
    {
        let input = match co.starting_input {
            Some(v) => Input::new_with(v),
            None => Input::new_with(""),
        };
        proof {
            reveal_strlit("");
        }
        let mut prompt = CustomTypePrompt {
            message: co.message,
            error: None,
            help_message: co.help_message,
            default: co.default,
            placeholder: co.placeholder,
            input,
            formatter: co.formatter,
            default_value_formatter: co.default_value_formatter,
            parser: co.parser,
            validators: co.validators,
            error_message: co.error_message,
        };
        let mut formatter = co.formatter;
        std::mem::swap(&mut prompt.formatter, &mut formatter);
        prompt
    }

    /// What a key that neither submits nor cancels does to the prompt: it
    /// edits the text as the text input does, and nothing else changes.
    pub open spec fn changed_by(&self, key: Key, after: &Self) -> bool {
        &&& spec_can_handle_key(self.spec_input(), key) ==> after.spec_input() == spec_handle_key(self.spec_input(), key).0
        &&& !spec_can_handle_key(self.spec_input(), key) ==> after.spec_input() == self.spec_input()
        &&& after.spec_default() == self.spec_default()
        &&& after.spec_error() == self.spec_error()
        &&& after.spec_error_message() == self.spec_error_message()
        &&& after.spec_message() == self.spec_message()
        &&& after.same_checks(self)
    }

    /// Applies a key to the text input.
    pub fn on_change(&mut self, key: Key)
        ensures
            old(self).changed_by(key, &*final(self)),
    {
        if self.input.can_handle_key(key) {
            let _ = self.input.handle_key(key);
        }
    }
}

impl<'a, T: Clone> CustomTypePrompt<'a, T> {
    /// What submitting the current text gives: the default value when the text
    /// is empty and one is set; otherwise the parsed value once every validator
    /// accepts it. A refusing parser gives the error message (and the text is to
    /// be cleared); a refusing validator gives its message.
    fn get_final_answer(&self) -> (r: Submission<T>)
        ensures
            self.spec_input().content.len() == 0 && self.spec_default() is Some ==> (r matches Submission::Answer(v)
                && cloned::<T>(self.spec_default()->0, v)),
            !(self.spec_input().content.len() == 0 && self.spec_default() is Some) ==> exists|parsed: Result<T, ()>|
                self.spec_parses(self.spec_input().content, parsed) && #[trigger] self.spec_outcome(parsed, r),
    {
        if self.input.content().is_empty() {
            if let Some(val) = &self.default {
                return Submission::Answer(val.clone());
            }
        }
        let parsed = self.parser.parse(self.input.content());
        let ghost parsed_view = parsed;
        match parsed {
            Ok(value) => {
                let mut i: usize = 0;
                proof {
                    assert(self.validators@.skip(0) =~= self.validators@);
                }
                while i < self.validators.len()
                    invariant
                        i <= self.validators@.len(),
                        !(self.spec_input().content.len() == 0 && self.spec_default() is Some),
                        parsed_view == Ok::<T, ()>(value),
                        self.spec_parses(self.spec_input().content, parsed_view),
                        spec_first_value_refusal(self.validators@, value)
                            == spec_first_value_refusal(self.validators@.skip(i as int), value),
                    decreases self.validators@.len() - i,
                {
                    let verdict = self.validators[i].validate(&value);
                    proof {
                        assert(self.validators@.skip(i as int)[0] == self.validators@[i as int]);
                    }
                    match verdict {
                        Ok(Validation::Valid) => {
                            proof {
                                lemma_first_value_refusal_skip(self.validators@, value, i as int);
                            }
                        },
                        Ok(Validation::Invalid(ErrorMessage::Custom(msg))) => {
                            let r = Submission::Refused(msg, false);
                            assert(self.spec_outcome(parsed_view, r));
                            return r;
                        },
                        Ok(Validation::Invalid(ErrorMessage::Default)) => {
                            let r = Submission::Refused(self.error_message.clone(), false);
                            assert(self.spec_outcome(parsed_view, r));
                            return r;
                        },
                        Err(e) => {
                            let r = Submission::Failed(e);
                            assert(self.spec_outcome(parsed_view, r));
                            return r;
                        },
                    }
                    i = i + 1;
                }
                proof {
                    assert(self.validators@.skip(i as int).len() == 0);
                }
                let r = Submission::Answer(value);
                assert(self.spec_outcome(parsed_view, r));
                r
            },
            Err(()) => {
                let r = Submission::Refused(self.error_message.clone(), true);
                assert(self.spec_outcome(parsed_view, r));
                r
            },
        }
    }

    /// Handles one key press: ctrl-c interrupts; ESC cancels; enter submits (see above) and, when
    /// the answer is refused, keeps the prompt open with the message shown and,
    /// for a text the parser refused, the text cleared; any other key goes to
    /// [CustomTypePrompt::on_change].
    pub fn handle_key(&mut self, key: Key) -> (r: PromptStep<T>)
        ensures
            old(self).handled(key, *final(self), r),
    {
        match key {
            Key::Interrupt => PromptStep::Interrupted,
            Key::Cancel => PromptStep::Canceled,
            Key::Submit => match self.get_final_answer() {
                Submission::Answer(v) => PromptStep::Answered(v),
                Submission::Refused(msg, clear) => {
                    self.error = Some(msg);
                    if clear {
                        self.input.clear();
                    }
                    PromptStep::Continue
                },
                Submission::Failed(e) => PromptStep::Failed(e),
            },
            _ => {
                self.on_change(key);
                PromptStep::Continue
            },
        }
    }

    /// Draws a frame: the error of the last refused submission if any, the
    /// prompt line with the formatted default and the input, and the help
    /// message if any.
    pub fn render(&self, backend: &mut Backend) -> (r: InquireResult<()>)
        ensures
            r is Ok,
            self.spec_default() is None ==> final(backend).spec_text()
                == old(backend).spec_text() + self.spec_frame_text(old(backend).spec_config(), None),
            self.spec_default() is Some ==> exists|shown: Seq<char>| final(backend).spec_text()
                == old(backend).spec_text() + #[trigger] self.spec_frame_text(old(backend).spec_config(), Some(shown)),
            final(backend).spec_config() == old(backend).spec_config(),
            final(backend).spec_pending_keys() == old(backend).spec_pending_keys(),
            final(backend).spec_has_keys() == old(backend).spec_has_keys(),
            final(backend).wf() == old(backend).wf(),
    {
        let ghost cfg = backend.spec_config();
        let ghost t0 = backend.spec_text();
        let _ = backend.frame_setup();
        if let Some(err) = &self.error {
            let _ = backend.render_error_message(err.as_str());
        }
        let ghost t1 = t0 + match self.spec_error() { Some(e) => error_line_text(cfg, e), None => Seq::empty() };
        assert(backend.spec_text() =~= t1);
        let ghost mut shown_text: Option<Seq<char>> = None;
        match &self.default {
            Some(val) => {
                let shown = self.default_value_formatter.format(val);
                let _ = backend.render_custom_type_prompt(self.message, Some(shown.as_str()), &self.input);
                proof {
                    shown_text = Some(shown@);
                }
            },
            None => {
                let _ = backend.render_custom_type_prompt(self.message, None, &self.input);
            },
        }
        assert(backend.spec_text() =~= t1 + prompt_line_text(cfg, self.spec_message()@, shown_text, self.spec_input()));
        if let Some(message) = self.help_message {
            let _ = backend.render_help_message(message);
        }
        assert(backend.spec_text() =~= t0 + self.spec_frame_text(cfg, shown_text));
        let _ = backend.frame_finish();
        Ok(())
    }

    /// Runs the prompt on the keys that the backend's terminal holds: draws a
    /// frame, reads a key and handles it, until a key ends the prompt or the
    /// keys run out (the step is then `Continue`, and the keys still to come
    /// are for the caller to hand over). An answer replaces the prompt with
    /// the prompt and the formatted answer.
    pub fn prompt_with_backend(&mut self, backend: &mut Backend) -> (r: PromptStep<T>)
        requires
            old(backend).wf(),
        ensures
            final(backend).wf(),
            final(backend).spec_config() == old(backend).spec_config(),
            final(backend).spec_has_keys() == old(backend).spec_has_keys(),
            r is Continue ==> final(backend).spec_pending_keys().len() == 0 || !final(backend).spec_has_keys(),
            !old(backend).spec_has_keys() ==> r is Continue && *final(self) == *old(self),
            old(backend).spec_has_keys() ==> exists|n: int| 0 <= n <= old(backend).spec_pending_keys().len()
                && final(backend).spec_pending_keys() == old(backend).spec_pending_keys().skip(n)
                && (r is Continue ==> n == old(backend).spec_pending_keys().len())
                && #[trigger] ran(*old(self), keys_of(old(backend).spec_pending_keys().take(n)), *final(self), r),
    {
        let ghost mut n: int = 0;
        proof {
            lemma_ran_empty(*self);
            assert(keys_of(old(backend).spec_pending_keys().take(0)) =~= Seq::<Key>::empty());
        }
        loop
            invariant
                backend.wf(),
                backend.spec_config() == old(backend).spec_config(),
                backend.spec_has_keys() == old(backend).spec_has_keys(),
                0 <= n <= old(backend).spec_pending_keys().len(),
                backend.spec_has_keys() ==> backend.spec_pending_keys() == old(backend).spec_pending_keys().skip(n),
                !backend.spec_has_keys() ==> n == 0 && *self == *old(self),
                ran(*old(self), keys_of(old(backend).spec_pending_keys().take(n)), *self, PromptStep::Continue),
            decreases backend.spec_pending_keys().len(),
        {
            let _ = self.render(backend);
            let key = match backend.read_key() {
                Ok(Some(k)) => k,
                _ => return PromptStep::Continue,
            };
            let ghost before = *self;
            let step = self.handle_key(key);
            proof {
                let pend = old(backend).spec_pending_keys();
                assert(pend.skip(n)[0] == pend[n]);
                assert(pend.take(n + 1) =~= pend.take(n).push(pend[n]));
                assert(keys_of(pend.take(n + 1)) =~= keys_of(pend.take(n)).push(key));
                lemma_ran_push(*old(self), keys_of(pend.take(n)), before, key, *self, step);
                if !(step is Continue) {
                    assert(ran(*old(self), keys_of(pend.take(n + 1)), *self, step));
                }
                assert(pend.skip(n + 1) =~= pend.skip(n).drop_first());
                n = n + 1;
            }
            match step {
                PromptStep::Continue => {},
                PromptStep::Answered(v) => {
                    let formatted = self.format_answer(&v);
                    let _ = backend.finish_prompt(self.message, formatted.as_str());
                    return PromptStep::Answered(v);
                },
                step => return step,
            }
        }
    }

    /// The text shown for a submitted answer, as the prompt's formatter makes it.
    pub fn format_answer(&self, answer: &T) -> (r: String)
        ensures
            self.spec_shows(*answer, r@),
    {
        self.formatter.format(answer)
    }

    /// The message of the prompt.
    pub fn message(&self) -> (r: &'a str)
        ensures
            r == self.spec_message(),
    {
        self.message
    }
}

impl<'a, T: Clone> KeyDriven for CustomTypePrompt<'a, T> {
    type Answer = T;

    /// What handling a key does (see the prompt's `handle_key`).
    open spec fn handled(&self, key: Key, after: Self, r: PromptStep<T>) -> bool {
        &&& key is Interrupt ==> r is Interrupted
        &&& key is Cancel ==> r is Canceled
        &&& key is Submit && self.spec_input().content.len() == 0 && self.spec_default() is Some
                    ==> (r matches PromptStep::Answered(v) && cloned::<T>(self.spec_default()->0, v))
        &&& key is Submit && !(self.spec_input().content.len() == 0 && self.spec_default() is Some)
                ==> exists|parsed: Result<T, ()>, sub: Submission<T>| self.spec_parses(self.spec_input().content, parsed)
                    && #[trigger] self.spec_outcome(parsed, sub) && self.spec_submitted(sub, &after, r)
        &&& !(key is Interrupt || key is Cancel || key is Submit) ==> r is Continue
                    && self.changed_by(key, &after)
    }
}

} // verus!
