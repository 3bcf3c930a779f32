//! Answers to questions, of whichever kind the question was.

use crate::answer::{join_values, spec_join_values, OptionAnswer};
use crate::strings::to_owned_string;
use vstd::prelude::*;

verus! {

/// The answer to a question.
#[derive(Debug)]
pub enum Answer {
    /// The answer to a yes-or-no question.
    Confirm(bool),
    /// A text answer.
    Content(String),
    /// One option among many.
    Option(OptionAnswer),
    /// Several options among many.
    MultipleOptions(Vec<OptionAnswer>),
}

/// The text shown for an answer: "Yes" or "No", the text, the option's value,
/// or the values of the options joined by ", ".
pub open spec fn spec_answer_text(a: Answer) -> Seq<char> {
    match a {
        Answer::Confirm(v) => if v { "Yes"@ } else { "No"@ },
        Answer::Content(s) => s@,
        Answer::Option(o) => o.value@,
        Answer::MultipleOptions(v) => spec_join_values(v@),
    }
}

impl Answer {
    /// The value of a yes-or-no answer; `None` for any other kind.
    pub fn get_confirm(&self) -> (r: Option<bool>)
        ensures
            r == (match *self {
                Answer::Confirm(v) => Some(v),
                _ => None::<bool>,
            }),
    {
        match self {
            Answer::Confirm(val) => Some(*val),
            _ => None,
        }
    }

    /// The text of a text answer; `None` for any other kind.
    pub fn get_content(&self) -> (r: Option<&str>)
        ensures
            (*self is Content) == (r is Some),
            *self matches Answer::Content(s) ==> r matches Some(t) && t@ == s@,
    {
        match self {
            Answer::Content(val) => Some(val.as_str()),
            _ => None,
        }
    }

    /// The selected option of a single-option answer; `None` for any other kind.
    pub fn get_option(&self) -> (r: Option<&OptionAnswer>)
        ensures
            (*self is Option) == (r is Some),
            *self matches Answer::Option(o) ==> r matches Some(p) && *p == o,
    {
        match self {
            Answer::Option(val) => Some(val),
            _ => None,
        }
    }

    /// The selected options of a multiple-option answer; `None` for any other kind.
    pub fn get_multiple_options(&self) -> (r: Option<&[OptionAnswer]>)
        ensures
            (*self is MultipleOptions) == (r is Some),
            *self matches Answer::MultipleOptions(v) ==> r matches Some(p) && p@ == v@,
    {
        match self {
            Answer::MultipleOptions(val) => Some(val.as_slice()),
            _ => None,
        }
    }

    /// The text shown for the answer.
    pub fn to_string(&self) -> (r: String)
        ensures
            r@ == spec_answer_text(*self),
    {
        match self {
            Answer::Confirm(val) => if *val { to_owned_string("Yes") } else { to_owned_string("No") },
            Answer::Content(val) => val.clone(),
            Answer::Option(option) => option.value.clone(),
            Answer::MultipleOptions(options) => join_values(options.as_slice()),
        }
    }
}

} // verus!
