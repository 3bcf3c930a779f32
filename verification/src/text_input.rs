//! The line editor used by the option-list prompts: a text with a grapheme cursor,
//! driven directly by keys.

use crate::input::{
    lemma_next_word_scan_bounds, lemma_next_word_scan_gt, lemma_next_word_scan_shape, lemma_prev_word_scan_lt,
    lemma_prev_word_scan_shape, next_word_scan, others_then_words, prev_word_scan, sat_inc, words_then_others,
};
use crate::key::{Key, KeyModifiers};
use crate::segmentation::{
    grapheme_count, graphemes, is_alphanumeric, lemma_flatten_alt_take_succ, spec_graphemes,
    spec_is_alphanumeric, string_views,
};
use crate::strings::{push_char, push_str, to_owned_string};
use vstd::prelude::*;

verus! {

/// The abstract state of an [Input].
pub struct TextInputModel {
    /// The characters of the text.
    pub content: Seq<char>,
    /// Cursor position, counted in grapheme clusters.
    pub cursor: nat,
    /// Length of the text, counted in grapheme clusters.
    pub length: nat,
}

/// How far a cursor move goes.
#[derive(Copy, Clone, PartialEq, Eq, Structural)]
enum MoveKind {
    Char,
    Word,
    Line,
}

/// The cursor after a word-move to the right.
pub open spec fn spec_next_word(m: TextInputModel) -> nat {
    next_word_scan(spec_graphemes(m.content), m.cursor as int, false, m.length)
}

/// The cursor after a word-move to the left.
pub open spec fn spec_prev_word(m: TextInputModel) -> nat {
    let right = m.length - m.cursor;
    prev_word_scan(spec_graphemes(m.content), right, right, false, m.cursor)
}

/// The graphemes of a text with the one at `at` removed (none when `at` is past the end).
pub open spec fn without_grapheme(gs: Seq<Seq<char>>, at: int) -> Seq<Seq<char>> {
    if 0 <= at < gs.len() { gs.remove(at) } else { gs }
}

/// The state and whether anything changed after deleting the grapheme at the cursor.
pub open spec fn spec_delete(m: TextInputModel) -> (TextInputModel, bool) {
    let gs = spec_graphemes(m.content);
    let kept = without_grapheme(gs, m.cursor as int);
    (TextInputModel { content: kept.flatten_alt(), cursor: m.cursor, length: kept.len() }, m.cursor < gs.len())
}

/// The state after writing `c` at the cursor.
pub open spec fn spec_insert(m: TextInputModel, c: char) -> TextInputModel {
    let gs = spec_graphemes(m.content);
    let cursor = sat_inc(m.cursor);
    if m.cursor >= m.length {
        TextInputModel { content: m.content.push(c), cursor, length: sat_inc(m.length) }
    } else if m.cursor < gs.len() {
        TextInputModel {
            content: gs.take(m.cursor as int).flatten_alt() + seq![c] + gs.skip(m.cursor as int).flatten_alt(),
            cursor,
            length: gs.len() + 1,
        }
    } else {
        TextInputModel { content: gs.flatten_alt(), cursor, length: gs.len() }
    }
}

/// The state and whether it changed after a key press.
pub open spec fn spec_handle_key(m: TextInputModel, key: Key) -> (TextInputModel, bool) {
    match key {
        Key::Backspace => if m.cursor == 0 {
            (m, false)
        } else {
            spec_delete(TextInputModel { cursor: (m.cursor - 1) as nat, ..m })
        },
        Key::Delete(_) => spec_delete(m),
        Key::Home => if m.cursor == 0 { (m, false) } else { (TextInputModel { cursor: 0, ..m }, true) },
        Key::Left(km) => if m.cursor == 0 {
            (m, false)
        } else if km.spec_contains(KeyModifiers { bits: 2 }) {
            (TextInputModel { cursor: spec_prev_word(m), ..m }, true)
        } else {
            (TextInputModel { cursor: (m.cursor - 1) as nat, ..m }, true)
        },
        Key::End => spec_move_forward(m, false),
        Key::Right(km) => spec_move_forward(m, km.spec_contains(KeyModifiers { bits: 2 })),
        Key::Char(c, _) => (spec_insert(m, c), true),
        _ => (m, false),
    }
}

/// The state and whether it changed after moving one grapheme, or one word, to the right.
pub open spec fn spec_move_forward(m: TextInputModel, word: bool) -> (TextInputModel, bool) {
    if m.cursor == m.length {
        (m, false)
    } else if m.cursor > m.length {
        (TextInputModel { cursor: m.length, ..m }, true)
    } else if word {
        (TextInputModel { cursor: spec_next_word(m), ..m }, true)
    } else {
        (TextInputModel { cursor: sat_inc(m.cursor), ..m }, true)
    }
}

/// Whether a key can be handled without the arithmetic overflow or underflow that
/// the editor does not guard against: a word-move to the left needs the cursor
/// within the text, and writing inside the text needs one more grapheme to be
/// countable.
pub open spec fn spec_can_handle_key(m: TextInputModel, key: Key) -> bool {
    match key {
        Key::Left(km) => km.spec_contains(KeyModifiers { bits: 2 }) ==> m.cursor <= m.length,
        Key::Char(_, _) => spec_graphemes(m.content).len() < usize::MAX,
        _ => true,
    }
}

/// Ctrl+Left stops right after the nearest non-word grapheme that precedes a
/// word grapheme before the cursor, or at the start of the line when there is
/// none: the graphemes passed over are the last word before the cursor and the
/// non-word graphemes that follow it.
pub proof fn law_word_left_stops_after_previous_word_start(m: TextInputModel)
    requires
        m.length == spec_graphemes(m.content).len(),
        m.cursor <= m.length,
    ensures
        ({
            let gs = spec_graphemes(m.content);
            let r = spec_prev_word(m) as int;
            &&& r <= m.cursor
            &&& words_then_others(gs, r, m.cursor as int)
            &&& r > 0 ==> r < m.cursor && !spec_is_alphanumeric(gs[r - 1]) && spec_is_alphanumeric(gs[r])
        }),
{
    let right = m.length - m.cursor;
    lemma_prev_word_scan_shape(spec_graphemes(m.content), right, right, false, m.cursor);
}

/// Ctrl+Right stops on the first non-word grapheme that follows a word
/// grapheme after the cursor, or at the end of the line when there is none.
pub proof fn law_word_right_stops_after_next_word(m: TextInputModel)
    requires
        m.length == spec_graphemes(m.content).len(),
        m.cursor <= m.length,
    ensures
        ({
            let gs = spec_graphemes(m.content);
            let r = spec_next_word(m) as int;
            &&& m.cursor <= r <= m.length
            &&& m.cursor < m.length ==> m.cursor < r
            &&& others_then_words(gs, m.cursor as int, r)
            &&& r < m.length ==> !spec_is_alphanumeric(gs[r]) && spec_is_alphanumeric(gs[r - 1])
        }),
{
    let gs = spec_graphemes(m.content);
    lemma_next_word_scan_shape(gs, m.cursor as int, false, m.length, m.cursor as int);
    if m.cursor < m.length {
        lemma_next_word_scan_gt(gs, m.cursor as int, false, m.length, m.cursor as int);
    }
}

/// Arrow left followed by arrow right (without modifiers) gives back the input,
/// when the cursor was within the text and not at its start.
pub proof fn law_arrow_moves_undo(m: TextInputModel)
    requires
        0 < m.cursor <= m.length <= usize::MAX,
    ensures
        spec_handle_key(spec_handle_key(m, Key::Left(KeyModifiers { bits: 0 })).0, Key::Right(KeyModifiers { bits: 0 })).0 == m,
{
    assert(0u8 & 2u8 != 2u8) by (bit_vector);
}

/// Keys that do not edit a line (submitting, canceling, vertical arrows, tab)
/// leave the input as it was and report no change.
pub proof fn law_other_keys_keep_input(m: TextInputModel, key: Key)
    requires
        key is Submit || key is Cancel || key is Interrupt || key is Tab || key is Up || key is Down,
    ensures
        spec_handle_key(m, key) == (m, false),
{
}

/// A key reports a change exactly when it changed the text or moved the
/// cursor, and one that reports none leaves the input as it was; writing a
/// character always lengthens the text by it, and a deletion that reports a
/// change shortens it (for an input whose length counts the graphemes of its
/// text, graphemes that each hold a character, as the segmentation gives them).
#[verifier::spinoff_prover]
pub proof fn law_clean_keys_keep_input(m: TextInputModel, key: Key)
    requires
        m.length == spec_graphemes(m.content).len(),
        spec_graphemes(m.content).flatten_alt() == m.content,
        forall|i: int| 0 <= i < spec_graphemes(m.content).len() ==> #[trigger] spec_graphemes(m.content)[i].len() > 0,
        m.cursor <= m.length <= usize::MAX,
    ensures
        spec_handle_key(m, key).1 <==> (spec_handle_key(m, key).0.content != m.content
            || spec_handle_key(m, key).0.cursor != m.cursor),
        !spec_handle_key(m, key).1 ==> spec_handle_key(m, key).0 == m,
        key is Char ==> spec_handle_key(m, key).0.content.len() == m.content.len() + 1,
        (key is Backspace || key is Delete) && spec_handle_key(m, key).1
            ==> spec_handle_key(m, key).0.content.len() < m.content.len(),
{
    let gs = spec_graphemes(m.content);
    if (key is Backspace || key is Delete) && spec_handle_key(m, key).1 {
        let at: int = if key is Backspace { m.cursor - 1 } else { m.cursor as int };
        assert(0 <= at < gs.len());
        assert(gs.remove(at) =~= gs.take(at) + gs.skip(at + 1));
        crate::segmentation::lemma_flatten_alt_append(gs.take(at), gs.skip(at + 1));
        crate::segmentation::lemma_flatten_alt_split(gs, at);
        assert(gs.skip(at) =~= seq![gs[at]] + gs.skip(at + 1));
        crate::segmentation::lemma_flatten_alt_append(seq![gs[at]], gs.skip(at + 1));
        let one = seq![gs[at]];
        crate::segmentation::lemma_flatten_alt_take_succ(one, 0);
        assert(one.take(1) =~= one);
        assert(one.take(0).flatten_alt() =~= Seq::<char>::empty());
        assert(one.flatten_alt() =~= gs[at]);
    }
    if key is Char && m.cursor < m.length {
        crate::segmentation::lemma_flatten_alt_split(gs, m.cursor as int);
    }
    if key is Delete && m.cursor >= gs.len() {
        assert(without_grapheme(gs, m.cursor as int) == gs);
    }
    if key is Left && m.cursor > 0 {
        let right = m.length - m.cursor;
        lemma_prev_word_scan_lt(gs, right, right, false, m.cursor);
    }
    if (key is Right || key is End) && m.cursor < m.length {
        lemma_next_word_scan_gt(gs, m.cursor as int, false, m.length, m.cursor as int);
    }
    let r = spec_handle_key(m, key);
    if key is Char {
        assert(r.0.content.len() == m.content.len() + 1);
        assert(r.0.content != m.content);
    }
    assert(key is Char ==> (r.1 <==> (r.0.content != m.content || r.0.cursor != m.cursor)));
    assert(key is Backspace ==> (r.1 <==> (r.0.content != m.content || r.0.cursor != m.cursor)));
    assert(key is Delete ==> (r.1 <==> (r.0.content != m.content || r.0.cursor != m.cursor)));
    assert(key is Left ==> (r.1 <==> (r.0.content != m.content || r.0.cursor != m.cursor)));
    assert(key is Right ==> (r.1 <==> (r.0.content != m.content || r.0.cursor != m.cursor)));
    assert(key is End ==> (r.1 <==> (r.0.content != m.content || r.0.cursor != m.cursor)));
    assert(key is Home ==> (r.1 <==> (r.0.content != m.content || r.0.cursor != m.cursor)));
}

/// A line of text with a cursor, both counted in grapheme clusters.
#[derive(Clone, Debug)]
pub struct Input {
    content: String,
    cursor: usize,
    length: usize,
}

impl View for Input {
    type V = TextInputModel;

    closed spec fn view(&self) -> TextInputModel {
        TextInputModel { content: self.content@, cursor: self.cursor as nat, length: self.length as nat }
    }
}

impl Input {
    /// An empty input.
    pub fn new() -> (r: Self)
        ensures
            r@ == (TextInputModel { content: Seq::<char>::empty(), cursor: 0, length: 0 }),
    {
        Self { content: String::new(), cursor: 0, length: 0 }
    }

    /// A copy of the input.
    pub fn clone_input(&self) -> (r: Self)
        ensures
            r@ == self@,
    {
        Input { content: self.content.clone(), cursor: self.cursor, length: self.length }
    }

    /// An input holding `content`, with the cursor at its end.
    pub fn new_with(content: &str) -> (r: Self)
        ensures
            r@.content == content@,
            r@.length == spec_graphemes(content@).len(),
            r@.cursor == r@.length,
    {
        let len = grapheme_count(content);
        Self { content: to_owned_string(content), cursor: len, length: len }
    }

    /// The same input holding `content`; the cursor is kept if it still fits.
    pub fn with_content(self, content: &str) -> (r: Self)
        ensures
            r@.content == content@,
            r@.length == spec_graphemes(content@).len(),
            r@.cursor == (if self@.cursor <= r@.length { self@.cursor } else { r@.length }),
    {
        let mut s = self;
        s.content = to_owned_string(content);
        s.length = grapheme_count(content);
        if s.length < s.cursor {
            s.cursor = s.length;
        }
        s
    }

    /// The same input with the cursor at `cursor`, which must not pass the end.
    pub fn with_cursor(self, cursor: usize) -> (r: Self)
        requires
            cursor <= self@.length,
        ensures
            r@ == (TextInputModel { cursor: cursor as nat, ..self@ }),
    {
        let mut s = self;
        s.cursor = cursor;
        s
    }

    /// Whether `handle_key` can take `key` in the current state (see
    /// [spec_can_handle_key]); true for every key on any text that fits in memory.
    pub fn can_handle_key(&self, key: Key) -> (r: bool)
        ensures
            r == spec_can_handle_key(self@, key),
    {
        match key {
            Key::Left(m) => !m.contains(KeyModifiers::control()) || self.cursor <= self.length,
            Key::Char(_, _) => grapheme_count(self.content.as_str()) < usize::MAX,
            _ => true,
        }
    }

    /// Applies a key and tells whether the input changed.
    pub fn handle_key(&mut self, key: Key) -> (r: bool)
        requires
            spec_can_handle_key(old(self)@, key),
        ensures
            (final(self)@, r) == spec_handle_key(old(self)@, key),
    {
        match key {
            Key::Backspace => self.backspace(),
            Key::Delete(_) => self.delete(),
            Key::Home => self.move_backward(MoveKind::Line),
            Key::Left(m) => {
                if m.contains(KeyModifiers::control()) {
                    self.move_backward(MoveKind::Word)
                } else {
                    self.move_backward(MoveKind::Char)
                }
            },
            Key::End => self.move_forward(MoveKind::Char),
            Key::Right(m) => {
                if m.contains(KeyModifiers::control()) {
                    self.move_forward(MoveKind::Word)
                } else {
                    self.move_forward(MoveKind::Char)
                }
            },
            Key::Char(c, _) => self.insert(c),
            _ => false,
        }
    }

    /// Empties the text and puts the cursor at the start.
    pub fn clear(&mut self)
        ensures
            final(self)@ == (TextInputModel { content: Seq::<char>::empty(), cursor: 0, length: 0 }),
    {
        self.content = String::new();
        self.cursor = 0;
        self.length = 0;
    }

    /// The text before the cursor, the grapheme at the cursor (empty when the cursor
    /// is past the last one) and the text after it.
    pub fn split(&self) -> (r: (String, String, String))
        ensures
            ({
                let gs = spec_graphemes(self@.content);
                let c = self@.cursor as int;
                &&& r.0@ == gs.take(if c < gs.len() { c } else { gs.len() as int }).flatten_alt()
                &&& r.1@ == (if c < gs.len() { gs[c] } else { Seq::<char>::empty() })
                &&& r.2@ == (if c < gs.len() { gs.skip(c + 1).flatten_alt() } else { Seq::<char>::empty() })
            }),
    {
        let gs = graphemes(self.content.as_str());
        let ghost views = string_views(gs@);
        let ghost c = self.cursor as int;
        let mut before = String::new();
        let mut at = String::new();
        let mut after = String::new();
        let mut i: usize = 0;
        while i < gs.len()
            invariant
                views == string_views(gs@),
                c == self.cursor,
                i <= gs@.len(),
                before@ == views.take(if c < i { c } else { i as int }).flatten_alt(),
                at@ == (if c < i { views[c] } else { Seq::<char>::empty() }),
                after@ == (if c < i { views.subrange(c + 1, i as int).flatten_alt() } else { Seq::<char>::empty() }),
            decreases gs.len() - i,
        {
            proof {
                lemma_flatten_alt_take_succ(views, i as int);
                if c < i {
                    assert(views.subrange(c + 1, i as int + 1).drop_last() =~= views.subrange(c + 1, i as int));
                }
                if c == i {
                    assert(views.subrange(c + 1, i as int + 1) =~= Seq::<Seq<char>>::empty());
                }
            }
            if i < self.cursor {
                push_str(&mut before, gs[i].as_str());
            } else if i == self.cursor {
                push_str(&mut at, gs[i].as_str());
            } else {
                push_str(&mut after, gs[i].as_str());
            }
            i = i + 1;
        }
        proof {
            if c < views.len() {
                assert(views.subrange(c + 1, views.len() as int) =~= views.skip(c + 1));
            }
        }
        (before, at, after)
    }

    /// The text.
    pub fn content(&self) -> (r: &str)
        ensures
            r@ == self@.content,
    {
        self.content.as_str()
    }

    /// The cursor position, in grapheme clusters.
    pub fn cursor(&self) -> (r: usize)
        ensures
            r == self@.cursor,
    {
        self.cursor
    }

    fn move_backward(&mut self, kind: MoveKind) -> (r: bool)
        requires
            kind is Word ==> old(self)@.cursor <= old(self)@.length,
        ensures
            old(self)@.cursor == 0 ==> (final(self)@ == old(self)@ && !r),
            old(self)@.cursor != 0 ==> r && final(self)@ == (TextInputModel {
                cursor: match kind {
                    MoveKind::Char => (old(self)@.cursor - 1) as nat,
                    MoveKind::Word => spec_prev_word(old(self)@),
                    MoveKind::Line => 0,
                },
                ..old(self)@
            }),
    {
        if self.cursor == 0 {
            return false;
        }
        match kind {
            MoveKind::Char => self.cursor = self.cursor - 1,
            MoveKind::Word => self.move_prev_word(),
            MoveKind::Line => self.cursor = 0,
        }
        true
    }

    fn move_forward(&mut self, kind: MoveKind) -> (r: bool)
        ensures
            kind is Line ==> (old(self)@.cursor == old(self)@.length ==> (final(self)@ == old(self)@ && !r))
                && (old(self)@.cursor != old(self)@.length ==> (final(self)@ == (TextInputModel { cursor: old(self)@.length, ..old(self)@ }) && r)),
            !(kind is Line) ==> (final(self)@, r) == spec_move_forward(old(self)@, kind is Word),
    {
        if self.cursor == self.length {
            return false;
        } else if self.cursor > self.length {
            self.cursor = self.length;
            return true;
        }
        match kind {
            MoveKind::Char => self.cursor = self.cursor.saturating_add(1),
            MoveKind::Word => self.move_next_word(),
            MoveKind::Line => self.cursor = self.length,
        }
        true
    }

    fn move_next_word(&mut self)
        ensures
            final(self)@ == (TextInputModel { cursor: spec_next_word(old(self)@), ..old(self)@ }),
    {
        let gs = graphemes(self.content.as_str());
        let ghost views = string_views(gs@);
        let mut seen_word = false;
        let mut idx: usize = self.cursor;
        while idx < gs.len()
            invariant
                views == string_views(gs@),
                views == spec_graphemes(self@.content),
                self@ == old(self)@,
                next_word_scan(views, idx as int, seen_word, self@.length) == spec_next_word(self@),
            decreases gs.len() - idx,
        {
            if is_alphanumeric(gs[idx].as_str()) {
                seen_word = true;
            } else if seen_word {
                self.cursor = idx;
                return;
            }
            idx = idx + 1;
        }
        self.cursor = self.length;
    }

    fn move_prev_word(&mut self)
        requires
            old(self)@.cursor <= old(self)@.length,
        ensures
            final(self)@ == (TextInputModel { cursor: spec_prev_word(old(self)@), ..old(self)@ }),
    {
        let gs = graphemes(self.content.as_str());
        let ghost views = string_views(gs@);
        let right = self.length - self.cursor;
        let n = gs.len();
        let mut seen_word = false;
        let mut j: usize = right;
        while j < n
            invariant
                n == gs@.len(),
                views == string_views(gs@),
                views == spec_graphemes(self@.content),
                self@ == old(self)@,
                j >= right,
                right == self@.length - self@.cursor,
                prev_word_scan(views, j as int, right as int, seen_word, self@.cursor) == spec_prev_word(self@),
            decreases n - j,
        {
            if is_alphanumeric(gs[n - 1 - j].as_str()) {
                seen_word = true;
            } else if seen_word {
                self.cursor = self.cursor.saturating_sub(j - right);
                return;
            }
            j = j + 1;
        }
        self.cursor = 0;
    }

    fn insert(&mut self, c: char) -> (r: bool)
        requires
            spec_graphemes(old(self)@.content).len() < usize::MAX,
        ensures
            r,
            final(self)@ == spec_insert(old(self)@, c),
    {
        let at = self.cursor;
        self.cursor = self.cursor.saturating_add(1);
        if at >= self.length {
            push_char(&mut self.content, c);
            self.length = self.length.saturating_add(1);
            return true;
        }
        let gs = graphemes(self.content.as_str());
        let ghost views = string_views(gs@);
        let mut result = String::new();
        let mut length: usize = 0;
        let mut i: usize = 0;
        while i < gs.len()
            invariant
                views == string_views(gs@),
                views == spec_graphemes(old(self)@.content),
                views.len() < usize::MAX,
                i <= gs@.len(),
                length == (if i <= at { i as int } else { i + 1 }),
                result@ == (if i <= at {
                    views.take(i as int).flatten_alt()
                } else {
                    views.take(at as int).flatten_alt() + seq![c] + views.subrange(at as int, i as int).flatten_alt()
                }),
            decreases gs.len() - i,
        {
            proof {
                lemma_flatten_alt_take_succ(views, i as int);
                if i >= at {
                    assert(views.subrange(at as int, i as int + 1).drop_last() =~= views.subrange(at as int, i as int));
                }
            }
            length = length + 1;
            if i == at {
                length = length + 1;
                push_char(&mut result, c);
            }
            push_str(&mut result, gs[i].as_str());
            i = i + 1;
        }
        proof {
            assert(views.take(views.len() as int) =~= views);
            if at < views.len() {
                assert(views.subrange(at as int, views.len() as int) =~= views.skip(at as int));
            }
        }
        self.length = length;
        self.content = result;
        true
    }

    fn backspace(&mut self) -> (r: bool)
        ensures
            (final(self)@, r) == spec_handle_key(old(self)@, Key::Backspace),
    {
        if self.cursor == 0 {
            return false;
        }
        self.cursor = self.cursor - 1;
        self.delete()
    }

    fn delete(&mut self) -> (r: bool)
        ensures
            (final(self)@, r) == spec_delete(old(self)@),
    {
        let at = self.cursor;
        let gs = graphemes(self.content.as_str());
        let ghost views = string_views(gs@);
        let mut result = String::new();
        let mut length: usize = 0;
        let mut dirty = false;
        let mut i: usize = 0;
        while i < gs.len()
            invariant
                views == string_views(gs@),
                i <= gs@.len(),
                result@ == without_grapheme(views.take(i as int), at as int).flatten_alt(),
                length == without_grapheme(views.take(i as int), at as int).len(),
                dirty == (at < i),
            decreases gs.len() - i,
        {
            let ghost prev = without_grapheme(views.take(i as int), at as int);
            let ghost next = without_grapheme(views.take(i as int + 1), at as int);
            if i != at {
                proof {
                    assert(next =~= prev.push(views[i as int]));
                    assert(next.drop_last() =~= prev);
                }
                length = length + 1;
                push_str(&mut result, gs[i].as_str());
            } else {
                proof {
                    assert(next =~= prev);
                }
                dirty = true;
            }
            i = i + 1;
        }
        proof {
            assert(views.take(views.len() as int) =~= views);
        }
        self.length = length;
        self.content = result;
        dirty
    }
}

} // verus!
