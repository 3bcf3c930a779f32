//! Keys pressed by the user, as prompts see them.

use vstd::prelude::*;
use vstd::string::StrSliceExecFns;

verus! {

/// Modifier keys held while another key is pressed, as a set of bit flags.
#[derive(Copy, Clone, Debug, PartialEq, Eq, Structural)]
pub struct KeyModifiers {
    /// The flags: shift is bit 0, control bit 1, alt bit 2.
    pub bits: u8,
}

impl KeyModifiers {
    /// The shift key.
    pub fn shift() -> (r: KeyModifiers)
        ensures
            r.bits == 1,
    {
        KeyModifiers { bits: 1 }
    }

    /// The control key.
    pub fn control() -> (r: KeyModifiers)
        ensures
            r.bits == 2,
    {
        KeyModifiers { bits: 2 }
    }

    /// The alt key.
    pub fn alt() -> (r: KeyModifiers)
        ensures
            r.bits == 4,
    {
        KeyModifiers { bits: 4 }
    }

    /// No modifier.
    pub fn none() -> (r: KeyModifiers)
        ensures
            r.bits == 0,
    {
        KeyModifiers { bits: 0 }
    }

    /// Whether every flag of `other` is set in `self`.
    pub open spec fn spec_contains(self, other: KeyModifiers) -> bool {
        self.bits & other.bits == other.bits
    }

    /// The set with no flag.
    pub fn empty() -> (r: KeyModifiers)
        ensures
            r.bits == 0,
    {
        KeyModifiers { bits: 0 }
    }

    /// Whether no flag is set.
    pub fn is_empty(&self) -> (r: bool)
        ensures
            r == (self.bits == 0),
    {
        self.bits == 0
    }

    /// Whether every flag of `other` is set in `self`.
    pub fn contains(&self, other: KeyModifiers) -> (r: bool)
        ensures
            r == self.spec_contains(other),
    {
        self.bits & other.bits == other.bits
    }

    /// The flags set in either.
    pub fn union(self, other: KeyModifiers) -> (r: KeyModifiers)
        ensures
            r.bits == self.bits | other.bits,
    {
        KeyModifiers { bits: self.bits | other.bits }
    }
}

/// A key press, with the modifiers held where the key can carry them.
#[derive(Copy, Clone, Debug, PartialEq, Eq, Structural)]
pub enum Key {
    /// Escape.
    Escape,
    /// Enter (also a line feed or carriage return).
    Enter,
    /// Tab.
    Tab,
    /// Backspace.
    Backspace,
    /// Delete.
    Delete(KeyModifiers),
    /// Home.
    Home,
    /// End.
    End,
    /// Page up.
    PageUp(KeyModifiers),
    /// Page down.
    PageDown(KeyModifiers),
    /// Arrow up.
    Up(KeyModifiers),
    /// Arrow down.
    Down(KeyModifiers),
    /// Arrow left.
    Left(KeyModifiers),
    /// Arrow right.
    Right(KeyModifiers),
    /// A character.
    Char(char, KeyModifiers),
    /// Any other key.
    Any,
}

impl Key {
    /// One `Char` key without modifiers for each character of `s`, in order.
    pub fn char_keys_from_str(s: &str) -> (r: Vec<Key>)
        ensures
            r@.len() == s@.len(),
            forall|i: int| 0 <= i < s@.len() ==> r@[i] == Key::Char(s@[i], KeyModifiers { bits: 0 }),
    {
        let n = s.unicode_len();
        let mut r: Vec<Key> = Vec::new();
        let mut i: usize = 0;
        while i < n
            invariant
                n == s@.len(),
                i <= n,
                r@.len() == i,
                forall|j: int| 0 <= j < i ==> r@[j] == Key::Char(s@[j], KeyModifiers { bits: 0 }),
            decreases n - i,
        {
            r.push(Key::Char(s.get_char(i), KeyModifiers::none()));
            i = i + 1;
        }
        r
    }
}

} // verus!
