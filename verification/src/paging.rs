//! Pagination used by the option-list prompts, where a selection always exists.

use vstd::prelude::*;
use vstd::string::StringSliceAdditionalSpecFns;

verus! {

/// One page of a list of choices.
pub struct Page<'a, T> {
    /// Whether this is the first page.
    pub first: bool,
    /// Whether this is the last page.
    pub last: bool,
    /// Content of the page.
    pub content: &'a [T],
    /// The selection relative to the page.
    pub selection: usize,
}

/// Where a page of `page_size` elements of a list of `len` starts and ends, and
/// where the selection falls in it: the whole list when it fits; otherwise the
/// first page when the selection is in the first half page, the last page when it
/// is in the last half page, and a page centered on it in between.
pub open spec fn spec_page_bounds(page_size: nat, len: nat, sel: nat) -> (nat, nat, nat) {
    if len <= page_size {
        (0, len, sel)
    } else if sel < page_size / 2 {
        (0, page_size, sel)
    } else if len - sel - 1 < page_size / 2 {
        ((len - page_size) as nat, len, (sel - (len - page_size)) as nat)
    } else {
        ((sel - page_size / 2) as nat, (sel + (page_size - page_size / 2)) as nat, page_size / 2)
    }
}

/// Splits `choices` in pages of `page_size` and returns the one that holds the
/// selection `sel`.
pub fn paginate<T>(page_size: usize, choices: &[T], sel: usize) -> (r: Page<'_, T>)
    requires
        choices@.len() > page_size ==> sel < page_size / 2 || sel < choices@.len(),
    ensures
        ({
            let (start, end, cursor) = spec_page_bounds(page_size as nat, choices@.len(), sel as nat);
            &&& start <= end <= choices@.len()
            &&& r.content@ == choices@.subrange(start as int, end as int)
            &&& r.first == (start == 0)
            &&& r.last == (end == choices@.len())
            &&& r.selection == cursor
        }),
        sel < choices@.len() && page_size > 0 ==> r.selection < r.content@.len()
            && r.content@[r.selection as int] == choices@[sel as int],
{
    proof {
        if sel < choices@.len() {
            law_page_row_is_selection(page_size as nat, choices@.len(), sel as nat);
        }
    }
    let len = choices.len();
    let (start, end, cursor) = if len <= page_size {
        (0, len, sel)
    } else if sel < page_size / 2 {
        (0, page_size, sel)
    } else if len - sel - 1 < page_size / 2 {
        let start = len - page_size;
        (start, len, sel - start)
    } else {
        let above = page_size / 2;
        let below = page_size - above;
        (sel - above, sel + below, page_size / 2)
    };
    Page { first: start == 0, last: end == len, content: &choices[start..end], selection: cursor }
}

/// The page holds the selected choice, and its selection row is that choice:
/// the page starts `selection` rows before the selected choice (and, for a
/// page of at least one row, ends after it).
pub proof fn law_page_row_is_selection(page_size: nat, len: nat, sel: nat)
    requires
        sel < len,
    ensures
        ({
            let (start, end, cursor) = spec_page_bounds(page_size, len, sel);
            &&& start + cursor == sel
            &&& page_size > 0 ==> start <= sel < end
            &&& end - start == if len <= page_size { len } else { page_size }
        }),
{
}

/// The number of newline bytes in `s`.
pub fn count_newlines_hyperscreaming(s: &str) -> (r: usize)
    ensures
        r == s.spec_bytes().filter(|b: u8| b == 10u8).len(),
{
    let bytes = s.as_bytes();
    let ghost is_newline = |b: u8| b == 10u8;
    let mut count: usize = 0;
    let mut i: usize = 0;
    while i < bytes.len()
        invariant
            bytes@ == s.spec_bytes(),
            is_newline == (|b: u8| b == 10u8),
            i <= bytes@.len(),
            count <= i,
            count == bytes@.take(i as int).filter(is_newline).len(),
        decreases bytes@.len() - i,
    {
        proof {
            assert(bytes@.take(i as int + 1) =~= bytes@.take(i as int).push(bytes@[i as int]));
            bytes@.take(i as int).lemma_filter_push(bytes@[i as int], is_newline);
            assert(is_newline(bytes@[i as int]) == (bytes@[i as int] == 10u8));
        }
        if bytes[i] == 10u8 {
            count = count + 1;
        }
        i = i + 1;
    }
    proof {
        assert(bytes@.take(i as int) =~= bytes@);
    }
    count
}

} // verus!
