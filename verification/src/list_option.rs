//! Options selected by the user in list prompts.

use vstd::prelude::*;

verus! {

/// A selection made by the user: the option's index in the original list and its value.
#[derive(Clone, Debug, PartialEq, Eq)]
pub struct ListOption<T> {
    /// Index of the option in the original (full) list passed to the prompt.
    pub index: usize,
    /// Value of the option.
    pub value: T,
}

impl<T> ListOption<T> {
    /// An option with the given index and value.
    pub fn new(index: usize, value: T) -> (r: Self)
        ensures
            r.index == index,
            r.value == value,
    {
        Self { index, value }
    }

    /// The same option, with its value borrowed.
    pub fn as_ref(&self) -> (r: ListOption<&T>)
        ensures
            r.index == self.index,
            *r.value == self.value,
    {
        ListOption::new(self.index, &self.value)
    }

    /// One option per value, indexed by position.
    pub fn from_list(vals: Vec<T>) -> (r: Vec<ListOption<T>>)
        ensures
            r@.len() == vals@.len(),
            forall|i: int| 0 <= i < r@.len() ==> (#[trigger] r@[i]).index == i && r@[i].value == vals@[i],
    {
        let mut vals = vals;
        let ghost orig = vals@;
        let n = vals.len();
        let mut r: Vec<ListOption<T>> = Vec::new();
        let mut i: usize = 0;
        while vals.len() > 0
            invariant
                vals@ == orig.skip(i as int),
                i <= orig.len(),
                n == orig.len(),
                r@.len() == i,
                forall|j: int| 0 <= j < i ==> (#[trigger] r@[j]).index == j && r@[j].value == orig[j],
            decreases vals@.len(),
        {
            let v = vals.remove(0);
            proof {
                assert(v == orig[i as int]);
                assert(orig.skip(i as int + 1) =~= orig.skip(i as int).drop_first());
            }
            r.push(ListOption { index: i, value: v });
            i = i + 1;
        }
        r
    }
}

} // verus!
