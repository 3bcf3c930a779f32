//! Validation of answers before prompts return them.
//!
//! A validator receives the user's input and decides whether it is valid,
//! returning `Ok(Validation::Valid)`, or invalid, returning
//! `Ok(Validation::Invalid(ErrorMessage))` with the message shown to the user.
//! A validator may also fail, and the prompt then returns that error.
//!
//! The built-in validators check how long the answer is. Strings are measured
//! in grapheme clusters, lists by their number of elements.

use crate::decimal::{push_decimal, spec_decimal};
use crate::error::CustomUserError;
use crate::list_option::ListOption;
use crate::segmentation::{grapheme_count, spec_graphemes};
use crate::strings::to_owned_string;
use vstd::prelude::*;

verus! {

/// Message shown to users when their input is not valid.
#[derive(Clone, Debug, PartialEq)]
pub enum ErrorMessage {
    /// No custom message: the standard one of the render configuration is used.
    Default,
    /// Custom error message, used instead of the standard one.
    Custom(String),
}

impl Default for ErrorMessage {
    fn default() -> (r: Self)
        ensures
            r is Default,
    {
        ErrorMessage::Default
    }
}

impl From<String> for ErrorMessage {
    fn from(msg: String) -> (r: Self) {
        ErrorMessage::Custom(msg)
    }
}

impl vstd::std_specs::convert::FromSpecImpl<String> for ErrorMessage {
    open spec fn obeys_from_spec() -> bool {
        true
    }

    open spec fn from_spec(msg: String) -> Self {
        ErrorMessage::Custom(msg)
    }
}

impl ErrorMessage {
    /// A custom message holding a copy of `msg`.
    pub fn custom(msg: &str) -> (r: Self)
        ensures
            r matches ErrorMessage::Custom(m) && m@ == msg@,
    {
        ErrorMessage::Custom(to_owned_string(msg))
    }
}

/// Outcome of a validator that ran to completion.
#[derive(Clone, Debug, PartialEq)]
pub enum Validation {
    /// The input is valid.
    Valid,
    /// The input is not valid; the message explains why.
    Invalid(ErrorMessage),
}

/// What a validator decided, as contracts speak of it: the input is valid; it
/// is not, with the standard message (`None`) or a custom one; or the
/// validator failed, with its error's message.
pub ghost enum Verdict {
    /// The input is valid.
    Valid,
    /// The input is not valid.
    Invalid(Option<Seq<char>>),
    /// The validator failed.
    Failed(Seq<char>),
}

/// The verdict that a validator's result gives.
pub open spec fn verdict_of(r: Result<Validation, CustomUserError>) -> Verdict {
    match r {
        Ok(Validation::Valid) => Verdict::Valid,
        Ok(Validation::Invalid(ErrorMessage::Default)) => Verdict::Invalid(None),
        Ok(Validation::Invalid(ErrorMessage::Custom(m))) => Verdict::Invalid(Some(m@)),
        Err(e) => Verdict::Failed(e.message@),
    }
}

/// A validator of text answers, as used by text and password prompts.
pub trait StringValidator {
    /// What the validator decides for `input`.
    spec fn spec_verdict(&self, input: Seq<char>) -> Verdict;

    /// Decides whether `input` is a valid answer.
    fn validate(&self, input: &str) -> (r: Result<Validation, CustomUserError>)
        ensures
            verdict_of(r) == self.spec_verdict(input@),
    ;
}

/// The message an `ErrorMessage` carries: `None` for the standard one.
pub open spec fn message_of(m: ErrorMessage) -> Option<Seq<char>> {
    match m {
        ErrorMessage::Default => None,
        ErrorMessage::Custom(s) => Some(s@),
    }
}

/// The verdict of the first validator, in order, that does not accept
/// `input`; `None` when every one accepts it.
pub open spec fn spec_first_refusal<'a>(validators: Seq<&'a dyn StringValidator>, input: Seq<char>) -> Option<Verdict>
    decreases validators.len(),
{
    if validators.len() == 0 {
        None
    } else if validators[0].spec_verdict(input) is Valid {
        spec_first_refusal(validators.drop_first(), input)
    } else {
        Some(validators[0].spec_verdict(input))
    }
}

/// Validators before position `i` all accepted: the first refusal is among
/// those from `i` on.
pub proof fn lemma_first_refusal_skip<'a>(validators: Seq<&'a dyn StringValidator>, input: Seq<char>, i: int)
    requires
        0 <= i < validators.len(),
        spec_first_refusal(validators, input) == spec_first_refusal(validators.skip(i), input),
        validators[i].spec_verdict(input) is Valid,
    ensures
        spec_first_refusal(validators, input) == spec_first_refusal(validators.skip(i + 1), input),
{
    assert(validators.skip(i)[0] == validators[i]);
    assert(validators.skip(i).drop_first() =~= validators.skip(i + 1));
}

/// A validator of the options selected in a multi-select prompt.
pub trait MultiOptionValidator<T> {
    /// Decides whether the selection `input` is a valid answer.
    fn validate(&self, input: &[ListOption<&T>]) -> Result<Validation, CustomUserError>;
}

/// The length of an input, as the built-in validators measure it: strings
/// count their grapheme clusters, slices their elements.
pub trait InquireLength {
    /// The measured length.
    spec fn spec_inquire_length(&self) -> nat;

    /// Measures the input.
    fn inquire_length(&self) -> (r: usize)
        ensures
            r == self.spec_inquire_length(),
    ;
}

impl<'a> InquireLength for &'a str {
    open spec fn spec_inquire_length(&self) -> nat {
        spec_graphemes((**self)@).len()
    }

    fn inquire_length(&self) -> (r: usize) {
        grapheme_count(*self)
    }
}

impl<'a, T> InquireLength for &'a [T] {
    open spec fn spec_inquire_length(&self) -> nat {
        (**self)@.len()
    }

    fn inquire_length(&self) -> (r: usize) {
        (**self).len()
    }
}

/// The message that `prefix` followed by the decimal form of `n` spells.
pub open spec fn spec_numbered_message(prefix: Seq<char>, n: usize) -> Seq<char> {
    prefix + spec_decimal(n as nat)
}

fn numbered_message(prefix: &str, n: usize) -> (r: String)
    ensures
        r@ == spec_numbered_message(prefix@, n),
{
    let mut s = to_owned_string(prefix);
    push_decimal(&mut s, n);
    s
}

/// Whether a length check passes.
pub open spec fn spec_length_ok(kind: LengthCheck, limit: usize, len: nat) -> bool {
    match kind {
        LengthCheck::Exact => len == limit,
        LengthCheck::AtMost => len <= limit,
        LengthCheck::AtLeast => len >= limit,
    }
}

/// A length passes the exact check exactly when it passes both the at-most and
/// the at-least checks with the same limit.
pub proof fn law_exact_length_is_both_bounds(limit: usize, len: nat)
    ensures
        spec_length_ok(LengthCheck::Exact, limit, len)
            <==> (spec_length_ok(LengthCheck::AtMost, limit, len) && spec_length_ok(LengthCheck::AtLeast, limit, len)),
{
}

/// How a measured length is compared with the limit of a validator.
#[derive(Clone, Copy, Debug, PartialEq, Eq, Structural)]
pub enum LengthCheck {
    /// The length must equal the limit.
    Exact,
    /// The length must not exceed the limit.
    AtMost,
    /// The length must reach the limit.
    AtLeast,
}

/// Built-in validator on the length of the answer.
///
/// Its default messages are "The length of the response should be N" (exact),
/// "... should be at most N" and "... should be at least N".
#[derive(Clone, Debug)]
pub struct LengthValidator {
    /// How the length is compared with `limit`.
    pub kind: LengthCheck,
    /// The length that the comparison uses.
    pub limit: usize,
    /// Message of the invalid outcome.
    pub message: String,
}

/// The default message of a length validator.
pub open spec fn spec_length_default_message(kind: LengthCheck, limit: usize) -> Seq<char> {
    match kind {
        LengthCheck::Exact => spec_numbered_message("The length of the response should be "@, limit),
        LengthCheck::AtMost => spec_numbered_message("The length of the response should be at most "@, limit),
        LengthCheck::AtLeast => spec_numbered_message("The length of the response should be at least "@, limit),
    }
}

/// What a length validator answers for an input of length `len`.
pub open spec fn spec_length_validation(v: LengthValidator, len: nat) -> Validation {
    if spec_length_ok(v.kind, v.limit, len) {
        Validation::Valid
    } else {
        Validation::Invalid(ErrorMessage::Custom(v.message))
    }
}

impl LengthValidator {
    /// A validator of `kind` with the given limit and its default message.
    pub fn new(kind: LengthCheck, limit: usize) -> (r: Self)
        ensures
            r.kind == kind,
            r.limit == limit,
            r.message@ == spec_length_default_message(kind, limit),
    {
        let message = match kind {
            LengthCheck::Exact => numbered_message("The length of the response should be ", limit),
            LengthCheck::AtMost => numbered_message("The length of the response should be at most ", limit),
            LengthCheck::AtLeast => numbered_message("The length of the response should be at least ", limit),
        };
        LengthValidator { kind, limit, message }
    }

    /// Checks that the answer has exactly `length` elements (the `length!` validator).
    pub fn length(length: usize) -> (r: Self)
        ensures
            r.kind == LengthCheck::Exact,
            r.limit == length,
            r.message@ == spec_length_default_message(LengthCheck::Exact, length),
    {
        Self::new(LengthCheck::Exact, length)
    }

    /// Checks that the answer has at most `length` elements (the `max_length!` validator).
    pub fn max_length(length: usize) -> (r: Self)
        ensures
            r.kind == LengthCheck::AtMost,
            r.limit == length,
            r.message@ == spec_length_default_message(LengthCheck::AtMost, length),
    {
        Self::new(LengthCheck::AtMost, length)
    }

    /// Checks that the answer has at least `length` elements (the `min_length!` validator).
    pub fn min_length(length: usize) -> (r: Self)
        ensures
            r.kind == LengthCheck::AtLeast,
            r.limit == length,
            r.message@ == spec_length_default_message(LengthCheck::AtLeast, length),
    {
        Self::new(LengthCheck::AtLeast, length)
    }

    /// The same validator with a custom message.
    pub fn with_message(self, message: &str) -> (r: Self)
        ensures
            r.kind == self.kind,
            r.limit == self.limit,
            r.message@ == message@,
    {
        LengthValidator { kind: self.kind, limit: self.limit, message: to_owned_string(message) }
    }

    /// Validates an input by its length. Never fails.
    pub fn check<L: InquireLength>(&self, input: &L) -> (r: Result<Validation, CustomUserError>)
        ensures
            r == Ok::<Validation, CustomUserError>(spec_length_validation(*self, input.spec_inquire_length())),
    {
        let len = input.inquire_length();
        let ok = match self.kind {
            LengthCheck::Exact => len == self.limit,
            LengthCheck::AtMost => len <= self.limit,
            LengthCheck::AtLeast => len >= self.limit,
        };
        if ok {
            Ok(Validation::Valid)
        } else {
            Ok(Validation::Invalid(ErrorMessage::Custom(self.message.clone())))
        }
    }
}

impl StringValidator for LengthValidator {
    open spec fn spec_verdict(&self, input: Seq<char>) -> Verdict {
        if spec_length_ok(self.kind, self.limit, spec_graphemes(input).len()) {
            Verdict::Valid
        } else {
            Verdict::Invalid(Some(self.message@))
        }
    }

    fn validate(&self, input: &str) -> (r: Result<Validation, CustomUserError>) {
        self.check(&input)
    }
}

impl<T> MultiOptionValidator<T> for LengthValidator {
    fn validate(&self, input: &[ListOption<&T>]) -> (r: Result<Validation, CustomUserError>) {
        self.check(&input)
    }
}

/// Built-in validator that checks that the answer is not empty (the
/// `required!` validator). Its default message is "A response is required.".
#[derive(Clone, Debug)]
pub struct RequiredValidator {
    /// Message of the invalid outcome.
    pub message: String,
}

/// What the required validator answers: valid exactly when the input is not empty.
pub open spec fn spec_required_validation(v: RequiredValidator, empty: bool) -> Validation {
    if empty {
        Validation::Invalid(ErrorMessage::Custom(v.message))
    } else {
        Validation::Valid
    }
}

impl RequiredValidator {
    /// The validator with its default message.
    pub fn new() -> (r: Self)
        ensures
            r.message@ == "A response is required."@,
    {
        RequiredValidator { message: to_owned_string("A response is required.") }
    }

    /// The validator with a custom message.
    pub fn with_message(message: &str) -> (r: Self)
        ensures
            r.message@ == message@,
    {
        RequiredValidator { message: to_owned_string(message) }
    }

    /// Validates a text answer: invalid exactly when it is empty.
    pub fn check_str(&self, input: &str) -> (r: Result<Validation, CustomUserError>)
        ensures
            r == Ok::<Validation, CustomUserError>(spec_required_validation(*self, input@.len() == 0)),
    {
        if input.is_empty() {
            Ok(Validation::Invalid(ErrorMessage::Custom(self.message.clone())))
        } else {
            Ok(Validation::Valid)
        }
    }

    /// Validates a selection: invalid exactly when nothing is selected.
    pub fn check_slice<T>(&self, input: &[T]) -> (r: Result<Validation, CustomUserError>)
        ensures
            r == Ok::<Validation, CustomUserError>(spec_required_validation(*self, input@.len() == 0)),
    {
        if input.len() == 0 {
            Ok(Validation::Invalid(ErrorMessage::Custom(self.message.clone())))
        } else {
            Ok(Validation::Valid)
        }
    }
}

impl StringValidator for RequiredValidator {
    open spec fn spec_verdict(&self, input: Seq<char>) -> Verdict {
        if input.len() == 0 { Verdict::Invalid(Some(self.message@)) } else { Verdict::Valid }
    }

    fn validate(&self, input: &str) -> (r: Result<Validation, CustomUserError>) {
        self.check_str(input)
    }
}

impl<T> MultiOptionValidator<T> for RequiredValidator {
    fn validate(&self, input: &[ListOption<&T>]) -> (r: Result<Validation, CustomUserError>) {
        self.check_slice(input)
    }
}

} // verus!

verus! {

/// A validator of the options selected in a multi-select prompt, given as
/// answers with their indices and texts; an error carries the message shown
/// to the user.
pub trait OptionAnswerValidator {
    /// Whether the selection is accepted.
    spec fn spec_accepts(&self, answers: Seq<crate::answer::OptionAnswer>) -> bool;

    /// The message that explains why the selection is refused.
    spec fn spec_refusal(&self, answers: Seq<crate::answer::OptionAnswer>) -> Seq<char>;

    /// Accepts the selection, or explains why not.
    fn validate(&self, answers: &[crate::answer::OptionAnswer]) -> (r: Result<(), String>)
        ensures
            (r is Ok) == self.spec_accepts(answers@),
            r matches Err(m) ==> m@ == self.spec_refusal(answers@),
    ;
}

} // verus!

verus! {

/// A validator of the values of a custom-type prompt.
pub trait CustomTypeValidator<T> {
    /// What the validator decides for `input`.
    spec fn spec_verdict(&self, input: T) -> Verdict;

    /// Decides whether `input` is a valid answer.
    fn validate(&self, input: &T) -> (r: Result<Validation, CustomUserError>)
        ensures
            verdict_of(r) == self.spec_verdict(*input),
    ;
}

/// The verdict of the first validator, in order, that does not accept the
/// value `input`; `None` when every one accepts it.
pub open spec fn spec_first_value_refusal<'a, T>(validators: Seq<&'a dyn CustomTypeValidator<T>>, input: T) -> Option<Verdict>
    decreases validators.len(),
{
    if validators.len() == 0 {
        None
    } else if validators[0].spec_verdict(input) is Valid {
        spec_first_value_refusal(validators.drop_first(), input)
    } else {
        Some(validators[0].spec_verdict(input))
    }
}

/// Validators before position `i` all accepted the value: the first refusal
/// is among those from `i` on.
pub proof fn lemma_first_value_refusal_skip<'a, T>(validators: Seq<&'a dyn CustomTypeValidator<T>>, input: T, i: int)
    requires
        0 <= i < validators.len(),
        spec_first_value_refusal(validators, input) == spec_first_value_refusal(validators.skip(i), input),
        validators[i].spec_verdict(input) is Valid,
    ensures
        spec_first_value_refusal(validators, input) == spec_first_value_refusal(validators.skip(i + 1), input),
{
    assert(validators.skip(i)[0] == validators[i]);
    assert(validators.skip(i).drop_first() =~= validators.skip(i + 1));
}

} // verus!
