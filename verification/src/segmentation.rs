//! Grapheme and word segmentation, as computed by `unicode_segmentation`.

use unicode_segmentation::UnicodeSegmentation;
use vstd::prelude::*;

verus! {

/// The extended grapheme clusters of a string, in order, as
/// `UnicodeSegmentation::graphemes(s, true)` yields them.
pub uninterp spec fn spec_graphemes(s: Seq<char>) -> Seq<Seq<char>>;

/// How many words `UnicodeSegmentation::unicode_words` finds in a string.
pub uninterp spec fn spec_word_count(s: Seq<char>) -> nat;

/// The character sequences held by a sequence of strings.
pub open spec fn string_views(v: Seq<String>) -> Seq<Seq<char>> {
    v.map_values(|g: String| g@)
}

/// Whether a grapheme holds a word character (at least one word is found in it).
pub open spec fn spec_is_alphanumeric(g: Seq<char>) -> bool {
    spec_word_count(g) > 0
}

/// Splits `s` into its extended grapheme clusters with
/// `UnicodeSegmentation::graphemes(s, true)`.
///
/// Trusted: the result holds the clusters named by `spec_graphemes`, and, as the
/// crate's iterator hands out consecutive non-empty slices from the start to
/// the end of `s`, every cluster holds a character and their concatenation is
/// `s` itself.
#[verifier::external_body]
pub(crate) fn graphemes(s: &str) -> (r: Vec<String>)
    ensures
        string_views(r@) == spec_graphemes(s@),
        string_views(r@).flatten_alt() == s@,
        forall|i: int| 0 <= i < r@.len() ==> #[trigger] string_views(r@)[i].len() > 0,
{
    s.graphemes(true).map(String::from).collect()
}

/// Counts the words of `s` with `UnicodeSegmentation::unicode_words`.
///
/// Trusted: the count is the one named by `spec_word_count`.
#[verifier::external_body]
pub(crate) fn unicode_word_count(s: &str) -> (r: usize)
    ensures
        r == spec_word_count(s@),
{
    s.unicode_words().count()
}

/// Whether a grapheme is (part of) a word, i.e. holds an alphanumeric character.
pub fn is_alphanumeric(grapheme: &str) -> (r: bool)
    ensures
        r == spec_is_alphanumeric(grapheme@),
{
    unicode_word_count(grapheme) > 0
}

/// Number of grapheme clusters of `s`.
pub fn grapheme_count(s: &str) -> (r: usize)
    ensures
        r == spec_graphemes(s@).len(),
{
    let g = graphemes(s);
    g.len()
}

/// Concatenating the parts of `x + y` gives the parts of `x` then those of `y`.
pub proof fn lemma_flatten_alt_append(x: Seq<Seq<char>>, y: Seq<Seq<char>>)
    ensures
        (x + y).flatten_alt() == x.flatten_alt() + y.flatten_alt(),
{
    vstd::seq_lib::lemma_flatten_alt_concat(x, y);
}

/// Taking one more part appends that part.
pub proof fn lemma_flatten_alt_take_succ(x: Seq<Seq<char>>, i: int)
    requires
        0 <= i < x.len(),
    ensures
        x.take(i + 1).flatten_alt() == x.take(i).flatten_alt() + x[i],
{
    assert(x.take(i + 1).drop_last() =~= x.take(i));
}

/// A sequence is its first `i` parts followed by the rest.
pub proof fn lemma_flatten_alt_split(x: Seq<Seq<char>>, i: int)
    requires
        0 <= i <= x.len(),
    ensures
        x.flatten_alt() == x.take(i).flatten_alt() + x.skip(i).flatten_alt(),
{
    assert(x =~= x.take(i) + x.skip(i));
    lemma_flatten_alt_append(x.take(i), x.skip(i));
}

} // verus!
