//! Pagination of option lists, and a digit count.

use crate::decimal::{push_decimal, spec_decimal};
use crate::strings::{push_str, to_owned_string};
use vstd::prelude::*;

verus! {

/// One page of a list of choices.
pub struct Page<'a, T> {
    /// Whether this is the first page.
    pub first: bool,
    /// Whether this is the last page.
    pub last: bool,
    /// Content of the page.
    pub content: &'a [T],
    /// The cursor relative to the page, when the list has one.
    pub cursor: Option<usize>,
    /// Total amount of elements in the original list of choices.
    pub total: usize,
}

/// "true" or "false".
pub open spec fn spec_bool_text(b: bool) -> Seq<char> {
    if b { "true"@ } else { "false"@ }
}

/// The debugging text of a page: its flags, its length (not its elements), its
/// cursor and the total.
pub open spec fn spec_page_debug_text(first: bool, last: bool, len: nat, cursor: Option<usize>, total: usize) -> Seq<char> {
    "Page { first: "@ + spec_bool_text(first) + ", last: "@ + spec_bool_text(last)
        + ", content: \"("@ + spec_decimal(len) + " elements)\", cursor: "@
        + match cursor { Some(c) => "Some("@ + spec_decimal(c as nat) + ")"@, None => "None"@ }
        + ", total: "@ + spec_decimal(total as nat) + " }"@
}

impl<'a, T> Page<'a, T> {
    /// The text that debugging output shows for the page (see
    /// [spec_page_debug_text]).
    pub fn debug_text(&self) -> (r: String)
        ensures
            r@ == spec_page_debug_text(self.first, self.last, self.content@.len(), self.cursor, self.total),
    {
        let mut r = to_owned_string("Page { first: ");
        push_str(&mut r, if self.first { "true" } else { "false" });
        push_str(&mut r, ", last: ");
        push_str(&mut r, if self.last { "true" } else { "false" });
        push_str(&mut r, ", content: \"(");
        push_decimal(&mut r, self.content.len());
        push_str(&mut r, " elements)\", cursor: ");
        match self.cursor {
            Some(c) => {
                push_str(&mut r, "Some(");
                push_decimal(&mut r, c);
                push_str(&mut r, ")");
            },
            None => push_str(&mut r, "None"),
        }
        push_str(&mut r, ", total: ");
        push_decimal(&mut r, self.total);
        push_str(&mut r, " }");
        proof {
            assert(r@ =~= spec_page_debug_text(self.first, self.last, self.content@.len(), self.cursor, self.total));
        }
        r
    }
}

/// Where a page of `page_size` elements of a list of `len` starts and ends, and
/// where the cursor falls in it: the whole list when it fits; otherwise the page
/// is centered on the selection, or begins the list (selection in the first half
/// page, or no selection), or ends it (selection in the last half page).
pub open spec fn spec_page_bounds(page_size: nat, len: nat, sel: Option<usize>) -> (nat, nat, Option<usize>) {
    if len <= page_size {
        (0, len, sel)
    } else {
        match sel {
            Some(index) => if index < page_size / 2 {
                (0, page_size, Some(index))
            } else if len - index - 1 < page_size / 2 {
                ((len - page_size) as nat, len, Some((index - (len - page_size)) as usize))
            } else {
                ((index - page_size / 2) as nat, (index + (page_size - page_size / 2)) as nat, Some((page_size / 2) as usize))
            },
            None => (0, page_size, sel),
        }
    }
}

/// The selected option is always on the page, at the page's cursor, and the
/// page holds as many options as fit: the page size, or the whole list when it
/// is shorter.
pub proof fn law_page_shows_selection(page_size: nat, len: nat, index: usize)
    requires
        page_size > 0,
        index < len,
    ensures
        ({
            let (start, end, cursor) = spec_page_bounds(page_size, len, Some(index));
            &&& start <= index < end <= len
            &&& cursor == Some((index - start) as usize)
            &&& end - start == if len <= page_size { len } else { page_size }
        }),
{
}

/// Splits `choices` in pages of `page_size` and returns the one that holds the
/// selection `sel` (the first page when there is none).
pub fn paginate<T>(page_size: usize, choices: &[T], sel: Option<usize>) -> (r: Page<'_, T>)
    requires
        choices@.len() > page_size ==> match sel {
            Some(index) => index < page_size / 2 || index < choices@.len(),
            None => true,
        },
    ensures
        ({
            let (start, end, cursor) = spec_page_bounds(page_size as nat, choices@.len(), sel);
            &&& start <= end <= choices@.len()
            &&& r.content@ == choices@.subrange(start as int, end as int)
            &&& r.first == (start == 0)
            &&& r.last == (end == choices@.len())
            &&& r.cursor == cursor
            &&& r.total == choices@.len()
        }),
{
    let len = choices.len();
    let (start, end, cursor) = if len <= page_size {
        (0, len, sel)
    } else {
        match sel {
            Some(index) => {
                if index < page_size / 2 {
                    (0, page_size, Some(index))
                } else if len - index - 1 < page_size / 2 {
                    let start = len - page_size;
                    (start, len, Some(index - start))
                } else {
                    let above = page_size / 2;
                    let below = page_size - above;
                    (index - above, index + below, Some(page_size / 2))
                }
            },
            None => (0, page_size, sel),
        }
    };
    Page { first: start == 0, last: end == len, content: &choices[start..end], cursor, total: len }
}

/// Number of decimal digits of `n` (none for zero).
pub open spec fn spec_digits(n: nat) -> nat
    decreases n,
{
    if n == 0 { 0 } else { 1 + spec_digits(n / 10) }
}

/// Ten to the power `k`.
pub open spec fn spec_pow10(k: nat) -> nat
    decreases k,
{
    if k == 0 { 1 } else { 10 * spec_pow10((k - 1) as nat) }
}

/// A number below `10^k` has at most `k` digits.
pub proof fn lemma_digits_bound(n: nat, k: nat)
    requires
        n < spec_pow10(k),
    ensures
        spec_digits(n) <= k,
    decreases k,
{
    if n == 0 {
    } else if k == 0 {
    } else {
        let p = spec_pow10((k - 1) as nat);
        assert(n / 10 < p) by (nonlinear_arith)
            requires n < 10 * p;
        lemma_digits_bound(n / 10, (k - 1) as nat);
    }
}

/// Number of decimal digits of `i` (zero for zero).
pub fn int_log10(i: u64) -> (r: usize)
    ensures
        r == spec_digits(i as nat),
{
    let ghost orig = i as nat;
    let mut i = i;
    let mut len: usize = 0;
    proof {
        reveal_with_fuel(spec_pow10, 21);
        assert(spec_pow10(20) == 100000000000000000000nat);
        lemma_digits_bound(orig, 20);
    }
    while i > 0
        invariant
            len + spec_digits(i as nat) == spec_digits(orig),
            spec_digits(orig) <= 20,
        decreases i,
    {
        i = i / 10;
        len = len + 1;
    }
    len
}

} // verus!
