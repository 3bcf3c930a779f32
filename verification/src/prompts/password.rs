//! Asking for a password.

use super::{keys_of, lemma_ran_empty, lemma_ran_push, ran, KeyDriven, PromptStep};
use crate::error::{CustomUserError, InquireResult};
use crate::formatter::StringFormatter;
use crate::key::{spec_key_from_event, Key, KeyModifiers};
use crate::prompts::text::DEFAULT_ERROR_MESSAGE;
use crate::strings::{push_char, str_eq, to_owned_string};
use crate::text_input::{spec_can_handle_key, spec_handle_key, Input, TextInputModel};
use crate::ui::backend::{error_line_text, help_line_text, newline_text, prompt_line_text, prompt_text, Backend, CommonBackend, PasswordBackend, TextBackend};
use crate::segmentation::spec_graphemes;
use crate::ui::RenderConfig;
use crate::validator::{lemma_first_refusal_skip, spec_first_refusal, ErrorMessage, StringValidator, Validation, Verdict};
use vstd::prelude::*;
use vstd::string::StrSliceExecFns;

verus! {

/// Message of the confirmation stage, by default.
pub const DEFAULT_CONFIRMATION_MESSAGE: &'static str = "Confirmation:";

/// Error shown when the two answers differ, by default.
pub const DEFAULT_CONFIRMATION_ERROR_MESSAGE: &'static str = "The answers don't match.";

/// How the password is shown while typed.
#[derive(Copy, Clone, Debug, PartialEq, Eq, Structural)]
pub enum PasswordDisplayMode {
    /// Nothing is shown.
    Hidden,
    /// Each character is shown as the mask character.
    Masked,
    /// The password is shown as typed.
    Full,
}

/// Shows every password answer as eight asterisks.
#[derive(Copy, Clone, Debug)]
pub struct PasswordFormatter;

impl PasswordFormatter {
    /// "********".
    pub fn format_password(&self, _value: &str) -> (r: String)
        ensures
            r@ == "********"@,
    {
        to_owned_string("********")
    }
}

impl StringFormatter for PasswordFormatter {
    open spec fn spec_formats(&self, value: Seq<char>, text: Seq<char>) -> bool {
        text == "********"@
    }

    fn format(&self, value: &str) -> (r: String) {
        self.format_password(value)
    }
}

/// Prompt for a password.
///
/// The password is hidden by default; with the display toggle enabled, Ctrl+R
/// shows it in full and back. Unless disabled, the password is asked a second
/// time and both answers must match.
pub struct Password<'a> {
    /// Message presented to the user.
    pub message: &'a str,
    /// Message of the confirmation stage.
    pub custom_confirmation_message: Option<&'a str>,
    /// Error shown when the two answers differ.
    pub custom_confirmation_error_message: Option<&'a str>,
    /// Help message.
    pub help_message: Option<&'a str>,
    /// Formats the final answer.
    pub formatter: &'a dyn StringFormatter,
    /// How the password is shown while typed.
    pub display_mode: PasswordDisplayMode,
    /// Whether Ctrl+R toggles the display of the password.
    pub enable_display_toggle: bool,
    /// Whether the password is asked twice.
    pub enable_confirmation: bool,
    /// Validators of the password, applied in order.
    pub validators: Vec<&'a dyn StringValidator>,
    /// How the prompt is drawn.
    pub render_config: RenderConfig,
}

impl<'a> Password<'a> {
    /// Whether `self` and `other` agree on everything but what builders set.
    pub open spec fn same_flags(&self, other: &Self) -> bool {
        &&& self.message == other.message
        &&& self.custom_confirmation_message == other.custom_confirmation_message
        &&& self.custom_confirmation_error_message == other.custom_confirmation_error_message
        &&& self.help_message == other.help_message
        &&& self.display_mode == other.display_mode
        &&& self.enable_display_toggle == other.enable_display_toggle
        &&& self.enable_confirmation == other.enable_confirmation
    }

    /// A prompt with the given message and the default settings: hidden
    /// display without toggle, confirmation enabled, no help message or
    /// validator, and answers shown as asterisks.
    pub fn new(message: &'a str) -> (r: Self)
        ensures
            r.message == message,
            r.custom_confirmation_message is None,
            r.custom_confirmation_error_message is None,
            r.help_message is None,
            r.display_mode == PasswordDisplayMode::Hidden,
            !r.enable_display_toggle,
            r.enable_confirmation,
    {
        Password {
            message,
            custom_confirmation_message: None,
            custom_confirmation_error_message: None,
            help_message: None,
            formatter: &PasswordFormatter,
            display_mode: PasswordDisplayMode::Hidden,
            enable_display_toggle: false,
            enable_confirmation: true,
            validators: Vec::new(),
            render_config: RenderConfig::default(),
        }
    }

    /// Sets the help message.
    pub fn with_help_message(self, message: &'a str) -> (r: Self)
        ensures
            r.help_message == Some(message),
            r.same_flags(&Password { help_message: Some(message), ..self }),
    {
        let mut s = self;
        s.help_message = Some(message);
        s
    }

    /// Enables the display toggle (Ctrl+R).
    pub fn with_display_toggle_enabled(self) -> (r: Self)
        ensures
            r.enable_display_toggle,
            r.same_flags(&Password { enable_display_toggle: true, ..self }),
    {
        let mut s = self;
        s.enable_display_toggle = true;
        s
    }

    /// Asks the password only once.
    pub fn without_confirmation(self) -> (r: Self)
        ensures
            !r.enable_confirmation,
            r.same_flags(&Password { enable_confirmation: false, ..self }),
    {
        let mut s = self;
        s.enable_confirmation = false;
        s
    }

    /// Sets the message of the confirmation stage.
    pub fn with_custom_confirmation_message(self, message: &'a str) -> (r: Self)
        ensures
            r.custom_confirmation_message == Some(message),
            r.same_flags(&Password { custom_confirmation_message: Some(message), ..self }),
    {
        let mut s = self;
        s.custom_confirmation_message = Some(message);
        s
    }

    /// Sets the error shown when the two answers differ.
    pub fn with_custom_confirmation_error_message(self, message: &'a str) -> (r: Self)
        ensures
            r.custom_confirmation_error_message == Some(message),
            r.same_flags(&Password { custom_confirmation_error_message: Some(message), ..self }),
    {
        let mut s = self;
        s.custom_confirmation_error_message = Some(message);
        s
    }

    /// Sets how the password is shown while typed.
    pub fn with_display_mode(self, mode: PasswordDisplayMode) -> (r: Self)
        ensures
            r.display_mode == mode,
            r.same_flags(&Password { display_mode: mode, ..self }),
    {
        let mut s = self;
        s.display_mode = mode;
        s
    }

    /// Sets the formatter of the answer.
    pub fn with_formatter(self, formatter: &'a dyn StringFormatter) -> (r: Self)
        ensures
            r.formatter == formatter,
            r.same_flags(&self),
    {
        let mut s = self;
        let mut value = formatter;
        std::mem::swap(&mut s.formatter, &mut value);
        s
    }

    /// Adds a validator, applied after those already set.
    pub fn with_validator(self, validator: &'a dyn StringValidator) -> (r: Self)
        ensures
            r.validators@ == self.validators@.push(validator),
            r.same_flags(&self),
    {
        let mut s = self;
        s.validators.push(validator);
        s
    }

    /// Adds validators, in order, after those already set.
    pub fn with_validators(self, validators: &[&'a dyn StringValidator]) -> (r: Self)
        ensures
            r.validators@ == self.validators@ + validators@,
            r.same_flags(&self),
    {
        let mut s = self;
        s.validators.extend_from_slice(validators);
        proof {
            assert forall|k: int| 0 <= k < s.validators@.len() implies #[trigger] s.validators@[k]
                == (self.validators@ + validators@)[k] by {
                if k >= self.validators@.len() {
                    let j = k - self.validators@.len();
                    assert(cloned::<&'a dyn StringValidator>(validators@[j], s.validators@[k]));
                }
            }
            assert(s.validators@ =~= self.validators@ + validators@);
        }
        s
    }

    /// Sets how the prompt is drawn.
    pub fn with_render_config(self, render_config: RenderConfig) -> (r: Self)
        ensures
            r.render_config == render_config,
            r.same_flags(&self),
    {
        let mut s = self;
        s.render_config = render_config;
        s
    }
}

/// The display mode after Ctrl+R: hidden and masked passwords are shown in
/// full, and a full one goes back to the mode the prompt started with.
pub open spec fn spec_toggled(mode: PasswordDisplayMode, standard: PasswordDisplayMode) -> PasswordDisplayMode {
    match mode {
        PasswordDisplayMode::Hidden => PasswordDisplayMode::Full,
        PasswordDisplayMode::Masked => PasswordDisplayMode::Full,
        PasswordDisplayMode::Full => standard,
    }
}

/// The running state of a [Password] prompt.
pub struct PasswordPrompt<'a> {
    message: &'a str,
    help_message: Option<&'a str>,
    input: Input,
    confirmation_input: Input,
    confirmation_message: Option<&'a str>,
    confirmation_error_message: &'a str,
    confirmation_stage: bool,
    standard_display_mode: PasswordDisplayMode,
    display_mode: PasswordDisplayMode,
    enable_display_toggle: bool,
    formatter: &'a dyn StringFormatter,
    validators: Vec<&'a dyn StringValidator>,
    error: Option<String>,
    mask: char,
}

impl<'a> PasswordPrompt<'a> {
    /// The password typed.
    pub closed spec fn spec_input(&self) -> TextInputModel { self.input@ }
    /// The password typed again, in the confirmation stage.
    pub closed spec fn spec_confirmation_input(&self) -> TextInputModel { self.confirmation_input@ }
    /// Whether the password is asked twice.
    pub closed spec fn spec_confirms(&self) -> bool { self.confirmation_message is Some }
    /// Whether the prompt is asking the password the second time.
    pub closed spec fn spec_in_confirmation(&self) -> bool { self.confirmation_stage }
    /// How the password is shown now.
    pub closed spec fn spec_display_mode(&self) -> PasswordDisplayMode { self.display_mode }
    /// How the password was shown at the start.
    pub closed spec fn spec_standard_display_mode(&self) -> PasswordDisplayMode { self.standard_display_mode }
    /// Whether Ctrl+R toggles the display.
    pub closed spec fn spec_toggle_enabled(&self) -> bool { self.enable_display_toggle }
    /// The error of the last refused submission.
    pub closed spec fn spec_error(&self) -> Option<Seq<char>> {
        match self.error { Some(e) => Some(e@), None => None }
    }
    /// The error shown when the two answers differ.
    pub closed spec fn spec_confirmation_error(&self) -> Seq<char> { self.confirmation_error_message@ }

    /// The message.
    pub closed spec fn spec_message(&self) -> &'a str { self.message }
    /// Whether `text` is what the prompt's formatter shows for the answer `answer`.
    pub closed spec fn spec_shows(&self, answer: Seq<char>, text: Seq<char>) -> bool {
        self.formatter.spec_formats(answer, text)
    }
    /// The message of the confirmation stage.
    pub closed spec fn spec_confirmation_message(&self) -> Option<&'a str> { self.confirmation_message }
    /// The help message.
    pub closed spec fn spec_help_message(&self) -> Option<&'a str> { self.help_message }
    /// The character that masks the password.
    pub closed spec fn spec_mask(&self) -> char { self.mask }
    /// The validators, in the order they run.
    pub closed spec fn spec_validators(&self) -> Seq<&'a dyn StringValidator> { self.validators@ }

    /// Whether `self` has the settings of `other`: the messages, the
    /// confirmation, the display toggle and the validators.
    pub open spec fn same_settings(&self, other: &Self) -> bool {
        &&& self.spec_confirms() == other.spec_confirms()
        &&& self.spec_confirmation_message() == other.spec_confirmation_message()
        &&& self.spec_confirmation_error() == other.spec_confirmation_error()
        &&& self.spec_standard_display_mode() == other.spec_standard_display_mode()
        &&& self.spec_toggle_enabled() == other.spec_toggle_enabled()
        &&& self.spec_validators() == other.spec_validators()
        &&& self.spec_message() == other.spec_message()
        &&& self.spec_help_message() == other.spec_help_message()
    }

    /// The message shown for a refusal: the validator's, or the standard one.
    pub open spec fn spec_refusal_text(m: Option<Seq<char>>) -> Seq<char> {
        match m {
            Some(t) => t,
            None => DEFAULT_ERROR_MESSAGE@,
        }
    }

    /// The prompt shown and the input it shows: the confirmation message and
    /// the second input in the confirmation stage, the message and the first
    /// input otherwise.
    pub open spec fn spec_shown(&self) -> (Seq<char>, TextInputModel) {
        if self.spec_in_confirmation() && self.spec_confirmation_message() is Some {
            (self.spec_confirmation_message()->0@, self.spec_confirmation_input())
        } else {
            (self.spec_message()@, self.spec_input())
        }
    }

    /// The text of a frame: the error of the last refused submission if any,
    /// the prompt line (without the input when hidden, with one mask character
    /// per character when masked, with the input when in full), and the help
    /// message if any.
    pub open spec fn spec_frame_text(&self, config: RenderConfig) -> Seq<char> {
        let (prompt, input) = self.spec_shown();
        let masked = Seq::new(input.content.len(), |i: int| self.spec_mask());
        (match self.spec_error() { Some(e) => error_line_text(config, e), None => Seq::empty() })
            + match self.spec_display_mode() {
                PasswordDisplayMode::Hidden => prompt_text(config.prompt_prefix.content@, prompt) + newline_text(),
                PasswordDisplayMode::Masked => prompt_line_text(config, prompt, None,
                    TextInputModel { content: masked, cursor: spec_graphemes(masked).len(), length: spec_graphemes(masked).len() }),
                PasswordDisplayMode::Full => prompt_line_text(config, prompt, None, input),
            }
            + match self.spec_help_message() { Some(h) => help_line_text(h@), None => Seq::empty() }
    }

    /// The state invariant: the confirmation stage happens only when the
    /// password is asked twice.
    pub closed spec fn wf(&self) -> bool {
        self.confirmation_stage ==> self.confirmation_message is Some
    }

    /// Starts a prompt with empty inputs.
    pub fn new(so: Password<'a>) -> (r: Self)
        ensures
            r.wf(),
            r.spec_input().content == Seq::<char>::empty(),
            r.spec_confirmation_input().content == Seq::<char>::empty(),
            r.spec_confirms() == so.enable_confirmation,
            !r.spec_in_confirmation(),
            r.spec_display_mode() == so.display_mode,
            r.spec_standard_display_mode() == so.display_mode,
            r.spec_toggle_enabled() == so.enable_display_toggle,
            forall|a: Seq<char>, t: Seq<char>| r.spec_shows(a, t) == so.formatter.spec_formats(a, t),
            r.spec_error() is None,
            r.spec_confirmation_error() == match so.custom_confirmation_error_message {
                Some(m) => m@,
                None => DEFAULT_CONFIRMATION_ERROR_MESSAGE@,
            },
    {
        let confirmation_message = if so.enable_confirmation {
            match so.custom_confirmation_message {
                Some(m) => Some(m),
                None => Some(DEFAULT_CONFIRMATION_MESSAGE),
            }
        } else {
            None
        };
        let mut prompt = PasswordPrompt {
            message: so.message,
            help_message: so.help_message,
            input: Input::new(),
            confirmation_input: Input::new(),
            confirmation_message,
            confirmation_error_message: match so.custom_confirmation_error_message {
                Some(m) => m,
                None => DEFAULT_CONFIRMATION_ERROR_MESSAGE,
            },
            confirmation_stage: false,
            standard_display_mode: so.display_mode,
            display_mode: so.display_mode,
            enable_display_toggle: so.enable_display_toggle,
            formatter: so.formatter,
            validators: so.validators,
            error: None,
            mask: so.render_config.password_mask,
        };
        let mut formatter = so.formatter;
        std::mem::swap(&mut prompt.formatter, &mut formatter);
        prompt
    }

    /// Switches how the password is shown (see [spec_toggled]).
    fn toggle_display_mode(&mut self)
        ensures
            final(self).spec_display_mode() == spec_toggled(old(self).spec_display_mode(), old(self).spec_standard_display_mode()),
            final(self).spec_input() == old(self).spec_input(),
            final(self).spec_confirmation_input() == old(self).spec_confirmation_input(),
            final(self).spec_in_confirmation() == old(self).spec_in_confirmation(),
            final(self).spec_confirms() == old(self).spec_confirms(),
            final(self).spec_standard_display_mode() == old(self).spec_standard_display_mode(),
            final(self).spec_toggle_enabled() == old(self).spec_toggle_enabled(),
            final(self).spec_error() == old(self).spec_error(),
            final(self).spec_confirmation_error() == old(self).spec_confirmation_error(),
            final(self).same_settings(old(self)),
    {
        self.display_mode = match self.display_mode {
            PasswordDisplayMode::Hidden => PasswordDisplayMode::Full,
            PasswordDisplayMode::Masked => PasswordDisplayMode::Full,
            PasswordDisplayMode::Full => self.standard_display_mode,
        };
    }

    /// Whether a key switches the display: Ctrl+R (or Ctrl+Shift+R) with the
    /// toggle enabled.
    pub open spec fn toggles_display(&self, key: Key) -> bool {
        key matches Key::Char(c, m) && (c == 'r' || c == 'R') && m.spec_contains(KeyModifiers { bits: 2 })
            && self.spec_toggle_enabled()
    }

    /// What a key that neither submits nor cancels does to the prompt (see
    /// [PasswordPrompt::on_change]): it switches the display, or edits the
    /// input being typed as the text input does; nothing else changes.
    pub open spec fn changed_by(&self, key: Key, after: &Self) -> bool {
        let edited = |i: TextInputModel| if spec_can_handle_key(i, key) { spec_handle_key(i, key).0 } else { i };
        &&& after.spec_in_confirmation() == self.spec_in_confirmation()
        &&& after.spec_confirms() == self.spec_confirms()
        &&& after.spec_error() == self.spec_error()
        &&& after.spec_standard_display_mode() == self.spec_standard_display_mode()
        &&& after.spec_toggle_enabled() == self.spec_toggle_enabled()
        &&& after.spec_confirmation_error() == self.spec_confirmation_error()
        &&& after.same_settings(self)
        &&& if self.toggles_display(key) {
            &&& after.spec_display_mode() == spec_toggled(self.spec_display_mode(), self.spec_standard_display_mode())
            &&& after.spec_input() == self.spec_input()
            &&& after.spec_confirmation_input() == self.spec_confirmation_input()
        } else if self.spec_in_confirmation() {
            &&& after.spec_display_mode() == self.spec_display_mode()
            &&& after.spec_input() == self.spec_input()
            &&& after.spec_confirmation_input() == edited(self.spec_confirmation_input())
        } else {
            &&& after.spec_display_mode() == self.spec_display_mode()
            &&& after.spec_input() == edited(self.spec_input())
            &&& after.spec_confirmation_input() == self.spec_confirmation_input()
        }
    }

    /// Toggling the display twice, from the mode the prompt started with,
    /// comes back to that mode, and the typed passwords stay as they were.
    pub proof fn law_toggle_twice_restores(&self, key: Key, once: &Self, twice: &Self)
        requires
            self.spec_display_mode() == self.spec_standard_display_mode(),
            self.toggles_display(key),
            self.changed_by(key, once),
            once.changed_by(key, twice),
        ensures
            twice.spec_display_mode() == self.spec_display_mode(),
            once.spec_display_mode() == PasswordDisplayMode::Full,
            twice.spec_input() == self.spec_input(),
            twice.spec_confirmation_input() == self.spec_confirmation_input(),
            twice.spec_standard_display_mode() == self.spec_standard_display_mode(),
    {
    }

    /// Reacts to a key: with the toggle enabled, Ctrl+R (or Ctrl+Shift+R)
    /// switches the display; any other key edits the password being typed (the
    /// second one in the confirmation stage).
    pub fn on_change(&mut self, key: Key)
        requires
            old(self).wf(),
        ensures
            final(self).wf(),
            old(self).changed_by(key, &*final(self)),
    {
        match key {
            Key::Char(c, m) if (c == 'r' || c == 'R') && m.contains(KeyModifiers::control()) && self.enable_display_toggle => {
                self.toggle_display_mode();
            },
            _ => {
                if self.confirmation_stage {
                    if self.confirmation_input.can_handle_key(key) {
                        let _ = self.confirmation_input.handle_key(key);
                    }
                } else if self.input.can_handle_key(key) {
                    let _ = self.input.handle_key(key);
                }
            },
        }
    }

    /// Runs the validators on the password: the password when every one
    /// accepts it, the message of the first that refuses, or the error of the
    /// first that fails.
    fn validate(&self) -> (r: Result<Result<String, String>, CustomUserError>)
        ensures
            match spec_first_refusal(self.spec_validators(), self.spec_input().content) {
                None => r matches Ok(Ok(a)) && a@ == self.spec_input().content,
                Some(Verdict::Invalid(m)) => r matches Ok(Err(msg)) && msg@ == Self::spec_refusal_text(m),
                Some(Verdict::Failed(m)) => r matches Err(e) && e.message@ == m,
                Some(Verdict::Valid) => false,
            },
    {
        let content = self.input.content();
        let mut i: usize = 0;
        proof {
            assert(self.validators@.skip(0) =~= self.validators@);
        }
        while i < self.validators.len()
            invariant
                i <= self.validators@.len(),
                content@ == self.spec_input().content,
                spec_first_refusal(self.validators@, content@) == spec_first_refusal(self.validators@.skip(i as int), content@),
            decreases self.validators@.len() - i,
        {
            let verdict = self.validators[i].validate(content);
            proof {
                assert(self.validators@.skip(i as int)[0] == self.validators@[i as int]);
            }
            match verdict {
                Ok(Validation::Valid) => {
                    proof {
                        lemma_first_refusal_skip(self.validators@, content@, i as int);
                    }
                },
                Ok(Validation::Invalid(ErrorMessage::Custom(msg))) => return Ok(Err(msg)),
                Ok(Validation::Invalid(ErrorMessage::Default)) => return Ok(Err(to_owned_string(DEFAULT_ERROR_MESSAGE))),
                Err(e) => return Err(e),
            }
            i = i + 1;
        }
        proof {
            assert(self.validators@.skip(i as int).len() == 0);
        }
        Ok(Ok(to_owned_string(content)))
    }

    /// Handles one key press: Ctrl+C interrupts and ESC cancels the prompt.
    /// Enter submits: a password the validators accept is the answer, or, when
    /// the password is asked twice, starts the confirmation stage; in that stage
    /// the answer is given when both passwords are the same, and otherwise the
    /// confirmation error is shown and both are typed again.
    pub fn handle_key(&mut self, key: Key) -> (r: PromptStep<String>)
        requires
            old(self).wf(),
        ensures
            old(self).handled(key, *final(self), r),
    {
        match key {
            Key::Interrupt => PromptStep::Interrupted,
            Key::Cancel => PromptStep::Canceled,
            Key::Submit => {
                if self.confirmation_stage {
                    if str_eq(self.input.content(), self.confirmation_input.content()) {
                        PromptStep::Answered(to_owned_string(self.input.content()))
                    } else {
                        self.error = Some(to_owned_string(self.confirmation_error_message));
                        self.input.clear();
                        self.confirmation_input.clear();
                        self.confirmation_stage = false;
                        PromptStep::Continue
                    }
                } else {
                    match self.validate() {
                        Ok(Ok(answer)) => {
                            if self.confirmation_message.is_some() {
                                self.confirmation_stage = true;
                                self.error = None;
                                PromptStep::Continue
                            } else {
                                PromptStep::Answered(answer)
                            }
                        },
                        Ok(Err(msg)) => {
                            self.error = Some(msg);
                            PromptStep::Continue
                        },
                        Err(e) => PromptStep::Failed(e),
                    }
                }
            },
            _ => {
                self.on_change(key);
                PromptStep::Continue
            },
        }
    }

    /// The password being typed as the masked display shows it: one mask
    /// character per character.
    fn masked(&self, input: &Input) -> (r: String)
        ensures
            r@.len() == input@.content.len(),
            forall|i: int| 0 <= i < r@.len() ==> r@[i] == self.mask,
    {
        let content = input.content();
        let n = content.unicode_len();
        let mut s = String::new();
        let mut i: usize = 0;
        while i < n
            invariant
                i <= n,
                n == input@.content.len(),
                s@.len() == i,
                forall|j: int| 0 <= j < s@.len() ==> s@[j] == self.mask,
            decreases n - i,
        {
            push_char(&mut s, self.mask);
            i = i + 1;
        }
        s
    }

    /// Draws a frame: the error of the last refused submission if any, the
    /// prompt line (the confirmation message in the confirmation stage) with
    /// the password as the display mode shows it, and the help message if any.
    pub fn render(&self, backend: &mut Backend) -> (r: InquireResult<()>)
        ensures
            r is Ok,
            final(backend).spec_text() == old(backend).spec_text() + self.spec_frame_text(old(backend).spec_config()),
            final(backend).spec_config() == old(backend).spec_config(),
            final(backend).spec_pending_keys() == old(backend).spec_pending_keys(),
            final(backend).spec_has_keys() == old(backend).spec_has_keys(),
            final(backend).wf() == old(backend).wf(),
    {
        let ghost cfg = backend.spec_config();
        let ghost t0 = backend.spec_text();
        let _ = backend.frame_setup();
        if let Some(err) = &self.error {
            let _ = backend.render_error_message(err.as_str());
        }
        let ghost t1 = t0 + match self.spec_error() { Some(e) => error_line_text(cfg, e), None => Seq::empty() };
        assert(backend.spec_text() =~= t1);
        let (prompt, input) = match (self.confirmation_stage, self.confirmation_message) {
            (true, Some(m)) => (m, &self.confirmation_input),
            _ => (self.message, &self.input),
        };
        assert(prompt@ == self.spec_shown().0 && input@ == self.spec_shown().1);
        match self.display_mode {
            PasswordDisplayMode::Hidden => {
                let _ = backend.render_password_prompt(prompt);
            },
            PasswordDisplayMode::Masked => {
                let masked = self.masked(input);
                assert(masked@ =~= Seq::new(input@.content.len(), |i: int| self.spec_mask()));
                let shown = Input::new_with(masked.as_str());
                let _ = backend.render_prompt(prompt, None, &shown);
            },
            PasswordDisplayMode::Full => {
                let _ = backend.render_prompt(prompt, None, input);
            },
        }
        let ghost (sp, si) = self.spec_shown();
        let ghost masked_seq = Seq::new(si.content.len(), |i: int| self.spec_mask());
        let ghost t2 = t1 + match self.spec_display_mode() {
            PasswordDisplayMode::Hidden => prompt_text(cfg.prompt_prefix.content@, sp) + newline_text(),
            PasswordDisplayMode::Masked => prompt_line_text(cfg, sp, None,
                TextInputModel { content: masked_seq, cursor: spec_graphemes(masked_seq).len(), length: spec_graphemes(masked_seq).len() }),
            PasswordDisplayMode::Full => prompt_line_text(cfg, sp, None, si),
        };
        assert(backend.spec_text() =~= t2);
        if let Some(message) = self.help_message {
            let _ = backend.render_help_message(message);
        }
        assert(backend.spec_text() =~= t2 + match self.spec_help_message() { Some(h) => help_line_text(h@), None => Seq::empty() });
        let _ = backend.frame_finish();
        Ok(())
    }

    /// Runs the prompt on the keys that the backend's terminal holds: draws a
    /// frame, reads a key and handles it, until a key ends the prompt or the
    /// keys run out (the step is then `Continue`, and the keys still to come
    /// are for the caller to hand over). An answer replaces the prompt with
    /// the prompt and the formatted answer.
    pub fn prompt_with_backend(&mut self, backend: &mut Backend) -> (r: PromptStep<String>)
        requires
            old(self).wf(),
            old(backend).wf(),
        ensures
            final(backend).wf(),
            final(backend).spec_config() == old(backend).spec_config(),
            final(backend).spec_has_keys() == old(backend).spec_has_keys(),
            r is Continue ==> final(self).wf() && (final(backend).spec_pending_keys().len() == 0 || !final(backend).spec_has_keys()),
            !old(backend).spec_has_keys() ==> r is Continue && *final(self) == *old(self),
            old(backend).spec_has_keys() ==> exists|n: int| 0 <= n <= old(backend).spec_pending_keys().len()
                && final(backend).spec_pending_keys() == old(backend).spec_pending_keys().skip(n)
                && (r is Continue ==> n == old(backend).spec_pending_keys().len())
                && #[trigger] ran(*old(self), keys_of(old(backend).spec_pending_keys().take(n)), *final(self), r),
    {
        let ghost mut n: int = 0;
        proof {
            lemma_ran_empty(*self);
            assert(keys_of(old(backend).spec_pending_keys().take(0)) =~= Seq::<Key>::empty());
        }
        loop
            invariant
                self.wf(),
                backend.wf(),
                backend.spec_config() == old(backend).spec_config(),
                backend.spec_has_keys() == old(backend).spec_has_keys(),
                0 <= n <= old(backend).spec_pending_keys().len(),
                backend.spec_has_keys() ==> backend.spec_pending_keys() == old(backend).spec_pending_keys().skip(n),
                !backend.spec_has_keys() ==> n == 0 && *self == *old(self),
                ran(*old(self), keys_of(old(backend).spec_pending_keys().take(n)), *self, PromptStep::Continue),
            decreases backend.spec_pending_keys().len(),
        {
            let _ = self.render(backend);
            let key = match backend.read_key() {
                Ok(Some(k)) => k,
                _ => return PromptStep::Continue,
            };
            let ghost before = *self;
            let step = self.handle_key(key);
            proof {
                let pend = old(backend).spec_pending_keys();
                assert(pend.skip(n)[0] == pend[n]);
                assert(pend.take(n + 1) =~= pend.take(n).push(pend[n]));
                assert(keys_of(pend.take(n + 1)) =~= keys_of(pend.take(n)).push(key));
                lemma_ran_push(*old(self), keys_of(pend.take(n)), before, key, *self, step);
                if !(step is Continue) {
                    assert(ran(*old(self), keys_of(pend.take(n + 1)), *self, step));
                }
                assert(pend.skip(n + 1) =~= pend.skip(n).drop_first());
                n = n + 1;
            }
            match step {
                PromptStep::Continue => {},
                PromptStep::Answered(answer) => {
                    let formatted = self.format_answer(answer.as_str());
                    let _ = backend.finish_prompt(self.message, formatted.as_str());
                    return PromptStep::Answered(answer);
                },
                step => return step,
            }
        }
    }

    /// The text shown for a submitted answer, as the prompt's formatter makes it.
    pub fn format_answer(&self, answer: &str) -> (r: String)
        ensures
            self.spec_shows(answer@, r@),
    {
        self.formatter.format(answer)
    }

    /// The message of the prompt.
    pub fn message(&self) -> (r: &'a str)
        ensures
            r == self.spec_message(),
    {
        self.message
    }
}

impl<'a> KeyDriven for PasswordPrompt<'a> {
    type Answer = String;

    /// What handling a key does (see the prompt's `handle_key`).
    open spec fn handled(&self, key: Key, after: Self, r: PromptStep<String>) -> bool {
        &&& after.wf()
        &&& key is Interrupt ==> r is Interrupted
        &&& key is Cancel ==> r is Canceled
        &&& key is Submit && self.spec_in_confirmation() ==> {
                if self.spec_input().content == self.spec_confirmation_input().content {
                    r matches PromptStep::Answered(a) && a@ == self.spec_input().content
                } else {
                    &&& r is Continue
                    &&& after.spec_error() == Some(self.spec_confirmation_error())
                    &&& !after.spec_in_confirmation()
                    &&& after.spec_input() == (TextInputModel { content: Seq::empty(), cursor: 0, length: 0 })
                    &&& after.spec_confirmation_input() == (TextInputModel { content: Seq::empty(), cursor: 0, length: 0 })
                    &&& after.spec_display_mode() == self.spec_display_mode()
                    &&& after.same_settings(self)
                }
            }
        &&& key is Submit && !self.spec_in_confirmation() ==> match spec_first_refusal(self.spec_validators(), self.spec_input().content) {
                None => if self.spec_confirms() {
                    &&& r is Continue
                    &&& after.spec_in_confirmation()
                    &&& after.spec_error() is None
                    &&& after.spec_input() == self.spec_input()
                    &&& after.spec_confirmation_input() == self.spec_confirmation_input()
                    &&& after.spec_display_mode() == self.spec_display_mode()
                    &&& after.same_settings(self)
                } else {
                    r matches PromptStep::Answered(a) && a@ == self.spec_input().content
                },
                Some(Verdict::Invalid(m)) => {
                    &&& r is Continue
                    &&& after.spec_error() == Some(Self::spec_refusal_text(m))
                    &&& !after.spec_in_confirmation()
                    &&& after.spec_input() == self.spec_input()
                    &&& after.spec_confirmation_input() == self.spec_confirmation_input()
                    &&& after.spec_display_mode() == self.spec_display_mode()
                    &&& after.same_settings(self)
                },
                Some(Verdict::Failed(m)) => r matches PromptStep::Failed(e) && e.message@ == m,
                Some(Verdict::Valid) => false,
            }
        &&& !(key is Interrupt || key is Cancel || key is Submit) ==> r is Continue
                    && self.changed_by(key, &after)
    }
}

} // verus!
