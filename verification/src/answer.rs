//! Answers of option-list questions: the index of the option and its text.

use crate::strings::{push_str, to_owned_string};
use vstd::prelude::*;

verus! {

/// A selection made by the user among the options presented: where it was in
/// the original collection and its string value.
#[derive(Clone, Debug, PartialEq)]
pub struct OptionAnswer {
    /// Index in the original collection of the selected option.
    pub index: usize,
    /// String value of the selected option.
    pub value: String,
}

impl OptionAnswer {
    /// The answer for the option at `index` with text `value`.
    pub fn new(index: usize, value: &str) -> (r: Self)
        ensures
            r.index == index,
            r.value@ == value@,
    {
        OptionAnswer { index, value: to_owned_string(value) }
    }

    /// One answer per string, indexed by position.
    pub fn from_str_list(vals: &[&str]) -> (r: Vec<OptionAnswer>)
        ensures
            r@.len() == vals@.len(),
            forall|i: int| 0 <= i < r@.len() ==> (#[trigger] r@[i]).index == i && r@[i].value@ == vals@[i]@,
    {
        let mut r: Vec<OptionAnswer> = Vec::new();
        let mut i: usize = 0;
        while i < vals.len()
            invariant
                i <= vals@.len(),
                r@.len() == i,
                forall|j: int| 0 <= j < i ==> (#[trigger] r@[j]).index == j && r@[j].value@ == vals@[j]@,
            decreases vals@.len() - i,
        {
            r.push(OptionAnswer::new(i, vals[i]));
            i = i + 1;
        }
        r
    }

    /// One answer per pair of index and string.
    pub fn from_idx_str_list(vals: &[(usize, &str)]) -> (r: Vec<OptionAnswer>)
        ensures
            r@.len() == vals@.len(),
            forall|i: int| 0 <= i < r@.len() ==> (#[trigger] r@[i]).index == vals@[i].0 && r@[i].value@ == vals@[i].1@,
    {
        let mut r: Vec<OptionAnswer> = Vec::new();
        let mut i: usize = 0;
        while i < vals.len()
            invariant
                i <= vals@.len(),
                r@.len() == i,
                forall|j: int| 0 <= j < i ==> (#[trigger] r@[j]).index == vals@[j].0 && r@[j].value@ == vals@[j].1@,
            decreases vals@.len() - i,
        {
            let (index, value) = vals[i];
            r.push(OptionAnswer::new(index, value));
            i = i + 1;
        }
        r
    }

    /// The text shown for the answer: its value.
    pub fn to_string(&self) -> (r: String)
        ensures
            r@ == self.value@,
    {
        self.value.clone()
    }
}

/// The values of `options` joined by `", "`.
pub open spec fn spec_join_values(options: Seq<OptionAnswer>) -> Seq<char>
    decreases options.len(),
{
    if options.len() == 0 {
        Seq::empty()
    } else if options.len() == 1 {
        options[0].value@
    } else {
        spec_join_values(options.drop_last()) + ", "@ + options.last().value@
    }
}

/// The values of `options` joined by `", "`.
pub fn join_values(options: &[OptionAnswer]) -> (r: String)
    ensures
        r@ == spec_join_values(options@),
{
    let mut r = String::new();
    let mut i: usize = 0;
    while i < options.len()
        invariant
            i <= options@.len(),
            r@ == spec_join_values(options@.take(i as int)),
        decreases options@.len() - i,
    {
        if i > 0 {
            push_str(&mut r, ", ");
        }
        push_str(&mut r, options[i].value.as_str());
        proof {
            assert(options@.take(i as int + 1).drop_last() =~= options@.take(i as int));
        }
        i = i + 1;
    }
    assert(options@.take(options@.len() as int) =~= options@);
    r
}

} // verus!
