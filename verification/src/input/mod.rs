//! Text input handler: a line of text edited by grapheme cluster, with a cursor.

pub mod action;

use crate::segmentation::{
    grapheme_count, graphemes, is_alphanumeric, lemma_flatten_alt_split,
    lemma_flatten_alt_take_succ, spec_graphemes, spec_is_alphanumeric, string_views,
};
use crate::strings::{push_char, push_str, to_owned_string};
use vstd::prelude::*;
use vstd::string::StrSliceExecFns;

pub use action::InputAction;

verus! {

/// How far an action reaches.
#[derive(Clone, Copy, Debug, PartialEq, Eq, Structural)]
pub enum Magnitude {
    /// One grapheme.
    Char,
    /// To the next word boundary.
    Word,
    /// To the start or end of the line.
    Line,
}

/// Direction of an action on the line.
#[derive(Clone, Copy, Debug, PartialEq, Eq, Structural)]
pub enum LineDirection {
    /// Towards the start.
    Left,
    /// Towards the end.
    Right,
}

/// What an action did to the input.
#[derive(Copy, Clone, Debug, PartialEq, Eq, Structural)]
pub enum InputActionResult {
    /// The text changed.
    ContentChanged,
    /// Only the cursor moved.
    PositionChanged,
    /// Nothing changed.
    Clean,
}

impl InputActionResult {
    /// Whether the input has to be drawn again.
    pub fn needs_redraw(&self) -> (r: bool)
        ensures
            r == !(*self is Clean),
    {
        match self {
            InputActionResult::ContentChanged | InputActionResult::PositionChanged => true,
            InputActionResult::Clean => false,
        }
    }
}

/// The abstract state of an [Input].
pub struct InputModel {
    /// The characters of the text.
    pub content: Seq<char>,
    /// The placeholder shown while the text is empty.
    pub placeholder: Option<Seq<char>>,
    /// Cursor position, counted in grapheme clusters.
    pub cursor: nat,
    /// Length of the text, counted in grapheme clusters.
    pub length: nat,
}

/// `x + 1`, saturating at the largest `usize`.
pub open spec fn sat_inc(x: nat) -> nat {
    if x < usize::MAX { x + 1 } else { x }
}

/// `x - y`, saturating at zero.
pub open spec fn sat_sub(x: nat, y: nat) -> nat {
    if x >= y { (x - y) as nat } else { 0 }
}

/// Scans the graphemes from `idx` on: the index of the first non-word grapheme that
/// follows a word grapheme, or `length` when there is none.
pub open spec fn next_word_scan(gs: Seq<Seq<char>>, idx: int, seen: bool, length: nat) -> nat
    decreases gs.len() - idx,
{
    if idx < 0 || idx >= gs.len() {
        length
    } else if spec_is_alphanumeric(gs[idx]) {
        next_word_scan(gs, idx + 1, true, length)
    } else if seen {
        idx as nat
    } else {
        next_word_scan(gs, idx + 1, seen, length)
    }
}

/// Scans the graphemes backwards, skipping the last `right` of them, the `j`-th
/// visited one being at distance `j - right + 1` from the cursor: the cursor moved
/// back to just after the first non-word grapheme that precedes a word grapheme,
/// or 0 when there is none.
pub open spec fn prev_word_scan(gs: Seq<Seq<char>>, j: int, right: int, seen: bool, cursor: nat) -> nat
    decreases gs.len() - j,
{
    if j < 0 || j >= gs.len() {
        0
    } else if spec_is_alphanumeric(gs[gs.len() - 1 - j]) {
        prev_word_scan(gs, j + 1, right, true, cursor)
    } else if seen {
        sat_sub(cursor, (j - right) as nat)
    } else {
        prev_word_scan(gs, j + 1, right, seen, cursor)
    }
}

/// The grapheme index that a word-move to the right reaches.
pub open spec fn spec_next_word_index(m: InputModel) -> nat {
    next_word_scan(spec_graphemes(m.content), m.cursor as int, false, m.length)
}

/// The grapheme index that a word-move to the left reaches.
pub open spec fn spec_prev_word_index(m: InputModel) -> nat {
    let right = m.length - m.cursor;
    prev_word_scan(spec_graphemes(m.content), right, right, false, m.cursor)
}

/// The text with `c` put before grapheme `at`; unchanged when there is no such grapheme.
pub open spec fn inserted(gs: Seq<Seq<char>>, at: int, c: char) -> Seq<char> {
    if 0 <= at < gs.len() {
        gs.take(at).flatten_alt() + seq![c] + gs.skip(at).flatten_alt()
    } else {
        gs.flatten_alt()
    }
}

/// The graphemes kept when those with index in `start..end` are removed.
pub open spec fn kept_graphemes(gs: Seq<Seq<char>>, start: nat, end: nat) -> Seq<Seq<char>> {
    let n = gs.len();
    let s = if start < n { start } else { n };
    let e = if end < n { end } else { n };
    let e = if e < s { s } else { e };
    gs.take(s as int) + gs.skip(e as int)
}

/// The state and result after writing `c` at the cursor.
pub open spec fn spec_insert(m: InputModel, c: char) -> (InputModel, InputActionResult) {
    let content = if m.cursor >= m.length {
        m.content.push(c)
    } else {
        inserted(spec_graphemes(m.content), m.cursor as int, c)
    };
    let length = spec_graphemes(content).len();
    let cursor = if length != m.length { sat_inc(m.cursor) } else { m.cursor };
    (InputModel { content, placeholder: m.placeholder, cursor, length }, InputActionResult::ContentChanged)
}

/// The state and result after deleting `qty` graphemes at the right of the cursor.
pub open spec fn spec_delete_right(m: InputModel, qty: nat) -> (InputModel, InputActionResult) {
    let gs = spec_graphemes(m.content);
    let end = if m.cursor + qty <= usize::MAX { m.cursor + qty } else { usize::MAX as nat };
    let kept = kept_graphemes(gs, m.cursor, end);
    let removed = m.cursor < gs.len() && m.cursor < end;
    (
        InputModel { content: kept.flatten_alt(), placeholder: m.placeholder, cursor: m.cursor, length: kept.len() },
        if removed { InputActionResult::ContentChanged } else { InputActionResult::Clean },
    )
}

/// The state and result after moving the cursor to the left.
pub open spec fn spec_move_left(m: InputModel, mag: Magnitude) -> (InputModel, InputActionResult) {
    if m.cursor == 0 {
        (m, InputActionResult::Clean)
    } else {
        let cursor = match mag {
            Magnitude::Char => (m.cursor - 1) as nat,
            Magnitude::Word => spec_prev_word_index(m),
            Magnitude::Line => 0,
        };
        (InputModel { cursor, ..m }, InputActionResult::PositionChanged)
    }
}

/// The state and result after moving the cursor to the right.
pub open spec fn spec_move_right(m: InputModel, mag: Magnitude) -> (InputModel, InputActionResult) {
    if m.cursor == m.length {
        (m, InputActionResult::Clean)
    } else if m.cursor < m.length {
        let cursor = match mag {
            Magnitude::Char => sat_inc(m.cursor),
            Magnitude::Word => spec_next_word_index(m),
            Magnitude::Line => m.length,
        };
        (InputModel { cursor, ..m }, InputActionResult::PositionChanged)
    } else {
        (InputModel { cursor: m.length, ..m }, InputActionResult::PositionChanged)
    }
}

/// The state and result after deleting to the left of the cursor.
pub open spec fn spec_backwards_delete(m: InputModel, mag: Magnitude) -> (InputModel, InputActionResult) {
    if m.cursor == 0 {
        (m, InputActionResult::Clean)
    } else {
        let new_cursor = match mag {
            Magnitude::Char => (m.cursor - 1) as nat,
            Magnitude::Word => spec_prev_word_index(m),
            Magnitude::Line => 0,
        };
        if new_cursor == m.cursor {
            (m, InputActionResult::Clean)
        } else {
            spec_delete_right(InputModel { cursor: new_cursor, ..m }, (m.cursor - new_cursor) as nat)
        }
    }
}

/// The state and result after deleting to the right of the cursor.
pub open spec fn spec_forwards_delete(m: InputModel, mag: Magnitude) -> (InputModel, InputActionResult) {
    let end = match mag {
        Magnitude::Char => sat_inc(m.cursor),
        Magnitude::Word => spec_next_word_index(m),
        Magnitude::Line => m.length,
    };
    spec_delete_right(m, (end - m.cursor) as nat)
}

/// Whether an action can be applied without the arithmetic underflow that the
/// handler does not guard against: word moves and deletions to the left, and word
/// and line deletions to the right, need the cursor within the text.
pub open spec fn spec_can_handle(m: InputModel, action: InputAction) -> bool {
    match action {
        InputAction::MoveCursor(Magnitude::Word, LineDirection::Left) => m.cursor <= m.length,
        InputAction::Delete(Magnitude::Word, LineDirection::Left) => m.cursor <= m.length,
        InputAction::Delete(Magnitude::Word, LineDirection::Right) => m.cursor <= m.length,
        InputAction::Delete(Magnitude::Line, LineDirection::Right) => m.cursor <= m.length,
        _ => true,
    }
}

/// The state and result after applying an action.
pub open spec fn spec_handle(m: InputModel, action: InputAction) -> (InputModel, InputActionResult) {
    match action {
        InputAction::MoveCursor(mag, LineDirection::Left) => spec_move_left(m, mag),
        InputAction::MoveCursor(mag, LineDirection::Right) => spec_move_right(m, mag),
        InputAction::Delete(mag, LineDirection::Left) => spec_backwards_delete(m, mag),
        InputAction::Delete(mag, LineDirection::Right) => spec_forwards_delete(m, mag),
        InputAction::Write(c) => spec_insert(m, c),
    }
}

/// A word-move to the right stops on a grapheme of the text, or at `length`.
pub proof fn lemma_next_word_scan_within(gs: Seq<Seq<char>>, idx: int, seen: bool, length: nat)
    ensures
        next_word_scan(gs, idx, seen, length) == length || next_word_scan(gs, idx, seen, length) < gs.len(),
    decreases gs.len() - idx,
{
    if idx < 0 || idx >= gs.len() {
    } else if spec_is_alphanumeric(gs[idx]) {
        lemma_next_word_scan_within(gs, idx + 1, true, length);
    } else if seen {
    } else {
        lemma_next_word_scan_within(gs, idx + 1, seen, length);
    }
}

/// A word-move to the left never goes past the cursor.
pub proof fn lemma_prev_word_scan_le(gs: Seq<Seq<char>>, j: int, right: int, seen: bool, cursor: nat)
    ensures
        prev_word_scan(gs, j, right, seen, cursor) <= cursor,
    decreases gs.len() - j,
{
    if j < 0 || j >= gs.len() {
    } else if spec_is_alphanumeric(gs[gs.len() - 1 - j]) {
        lemma_prev_word_scan_le(gs, j + 1, right, true, cursor);
    } else if seen {
    } else {
        lemma_prev_word_scan_le(gs, j + 1, right, seen, cursor);
    }
}

/// Whether the graphemes of `gs` from `a` up to `b` are word graphemes
/// followed by non-word ones (either run may be empty).
pub open spec fn words_then_others(gs: Seq<Seq<char>>, a: int, b: int) -> bool {
    forall|i: int, k: int| #![trigger spec_is_alphanumeric(gs[i]), spec_is_alphanumeric(gs[k])]
        a <= i < k < b && !spec_is_alphanumeric(gs[i]) ==> !spec_is_alphanumeric(gs[k])
}

/// Whether the graphemes of `gs` from `a` up to `b` are non-word graphemes
/// followed by word ones (either run may be empty).
pub open spec fn others_then_words(gs: Seq<Seq<char>>, a: int, b: int) -> bool {
    forall|i: int, k: int| #![trigger spec_is_alphanumeric(gs[i]), spec_is_alphanumeric(gs[k])]
        a <= i < k < b && spec_is_alphanumeric(gs[i]) ==> spec_is_alphanumeric(gs[k])
}

/// The backward scan ends just after a non-word grapheme that precedes a word
/// grapheme (or at the start), having passed only the last word before the
/// cursor and the non-word graphemes after it.
pub proof fn lemma_prev_word_scan_shape(gs: Seq<Seq<char>>, j: int, right: int, seen: bool, cursor: nat)
    requires
        cursor + right == gs.len(),
        0 <= right <= j <= gs.len(),
        words_then_others(gs, gs.len() - j, cursor as int),
        seen ==> j > right && spec_is_alphanumeric(gs[gs.len() - j]),
        !seen ==> forall|k: int| gs.len() - j <= k < cursor ==> !spec_is_alphanumeric(#[trigger] gs[k]),
    ensures
        prev_word_scan(gs, j, right, seen, cursor) <= cursor,
        words_then_others(gs, prev_word_scan(gs, j, right, seen, cursor) as int, cursor as int),
        prev_word_scan(gs, j, right, seen, cursor) > 0 ==> {
            let r = prev_word_scan(gs, j, right, seen, cursor) as int;
            &&& r < cursor
            &&& !spec_is_alphanumeric(gs[r - 1])
            &&& spec_is_alphanumeric(gs[r])
        },
    decreases gs.len() - j,
{
    let len = gs.len() as int;
    if j >= len {
    } else {
        let idx = len - 1 - j;
        if spec_is_alphanumeric(gs[idx]) {
            assert(words_then_others(gs, idx, cursor as int));
            lemma_prev_word_scan_shape(gs, j + 1, right, true, cursor);
        } else if seen {
        } else {
            assert(words_then_others(gs, idx, cursor as int));
            lemma_prev_word_scan_shape(gs, j + 1, right, seen, cursor);
        }
    }
}

/// The forward scan from `c` ends on the first non-word grapheme after a word
/// grapheme (or at the end), having passed only non-word graphemes and then
/// the first word after them.
pub proof fn lemma_next_word_scan_shape(gs: Seq<Seq<char>>, idx: int, seen: bool, length: nat, c: int)
    requires
        length == gs.len(),
        0 <= c <= idx <= length,
        others_then_words(gs, c, idx),
        seen ==> idx > c && spec_is_alphanumeric(gs[idx - 1]),
        !seen ==> forall|k: int| c <= k < idx ==> !spec_is_alphanumeric(#[trigger] gs[k]),
    ensures
        idx <= next_word_scan(gs, idx, seen, length) <= length,
        others_then_words(gs, c, next_word_scan(gs, idx, seen, length) as int),
        next_word_scan(gs, idx, seen, length) < length ==> {
            let r = next_word_scan(gs, idx, seen, length) as int;
            &&& r > c
            &&& !spec_is_alphanumeric(gs[r])
            &&& spec_is_alphanumeric(gs[r - 1])
        },
    decreases gs.len() - idx,
{
    if idx >= gs.len() {
    } else if spec_is_alphanumeric(gs[idx]) {
        assert(others_then_words(gs, c, idx + 1));
        lemma_next_word_scan_shape(gs, idx + 1, true, length, c);
    } else if seen {
    } else {
        assert(others_then_words(gs, c, idx + 1));
        lemma_next_word_scan_shape(gs, idx + 1, seen, length, c);
    }
}

/// A word-move to the left stops right after the nearest non-word grapheme
/// that precedes a word grapheme before the cursor, or at the start of the
/// line when there is none: the graphemes passed over are the last word
/// before the cursor and the non-word graphemes that follow it.
pub proof fn law_word_left_stops_after_previous_word_start(m: InputModel)
    requires
        m.length == spec_graphemes(m.content).len(),
        m.cursor <= m.length,
    ensures
        ({
            let gs = spec_graphemes(m.content);
            let r = spec_prev_word_index(m) as int;
            &&& r <= m.cursor
            &&& words_then_others(gs, r, m.cursor as int)
            &&& r > 0 ==> r < m.cursor && !spec_is_alphanumeric(gs[r - 1]) && spec_is_alphanumeric(gs[r])
        }),
{
    let gs = spec_graphemes(m.content);
    let right = m.length - m.cursor;
    lemma_prev_word_scan_shape(gs, right, right, false, m.cursor);
}

/// A word-move to the right stops on the first non-word grapheme that follows
/// a word grapheme after the cursor, or at the end of the line when there is
/// none: the graphemes passed over are non-word graphemes and then the first
/// word after them.
pub proof fn law_word_right_stops_after_next_word(m: InputModel)
    requires
        m.length == spec_graphemes(m.content).len(),
        m.cursor <= m.length,
    ensures
        ({
            let gs = spec_graphemes(m.content);
            let r = spec_next_word_index(m) as int;
            &&& m.cursor <= r <= m.length
            &&& m.cursor < m.length ==> m.cursor < r
            &&& others_then_words(gs, m.cursor as int, r)
            &&& r < m.length ==> !spec_is_alphanumeric(gs[r]) && spec_is_alphanumeric(gs[r - 1])
        }),
{
    let gs = spec_graphemes(m.content);
    lemma_next_word_scan_shape(gs, m.cursor as int, false, m.length, m.cursor as int);
    if m.cursor < m.length {
        lemma_next_word_scan_gt(gs, m.cursor as int, false, m.length, m.cursor as int);
    }
}

/// A word-move to the left from a cursor past the start moves it back: the
/// scan, started at `right` and past a word grapheme only beyond it, ends
/// before the cursor.
pub proof fn lemma_prev_word_scan_lt(gs: Seq<Seq<char>>, j: int, right: int, seen: bool, cursor: nat)
    requires
        cursor > 0,
        j >= right,
        seen ==> j > right,
    ensures
        prev_word_scan(gs, j, right, seen, cursor) < cursor,
    decreases gs.len() - j,
{
    if j < 0 || j >= gs.len() {
    } else if spec_is_alphanumeric(gs[gs.len() - 1 - j]) {
        lemma_prev_word_scan_lt(gs, j + 1, right, true, cursor);
    } else if seen {
    } else {
        lemma_prev_word_scan_lt(gs, j + 1, right, seen, cursor);
    }
}

/// A word-move to the right from a cursor `c` within the text moves it
/// forward: the scan, started at or after `c` (after it once past a word
/// grapheme), ends after it.
pub proof fn lemma_next_word_scan_gt(gs: Seq<Seq<char>>, idx: int, seen: bool, length: nat, c: int)
    requires
        c < length,
        idx >= c,
        seen ==> idx > c,
    ensures
        next_word_scan(gs, idx, seen, length) > c,
    decreases gs.len() - idx,
{
    if idx < 0 || idx >= gs.len() {
    } else if spec_is_alphanumeric(gs[idx]) {
        lemma_next_word_scan_gt(gs, idx + 1, true, length, c);
    } else if seen {
    } else {
        lemma_next_word_scan_gt(gs, idx + 1, seen, length, c);
    }
}

/// The length counts the graphemes of the text: cursor moves and writing a
/// character keep it so, and moves keep the cursor within the text. (A
/// deletion sets the length to the number of graphemes kept, which the text
/// they spell may group otherwise.)
pub proof fn law_length_counts_graphemes(m: InputModel, action: InputAction)
    requires
        m.length == spec_graphemes(m.content).len(),
        m.cursor <= m.length,
        !(action is Delete),
    ensures
        spec_handle(m, action).0.length == spec_graphemes(spec_handle(m, action).0.content).len(),
        action is MoveCursor ==> spec_handle(m, action).0.cursor <= spec_handle(m, action).0.length,
{
    let gs = spec_graphemes(m.content);
    lemma_next_word_scan_within(gs, m.cursor as int, false, m.length);
    let right = m.length - m.cursor;
    lemma_prev_word_scan_le(gs, right, right, false, m.cursor);
}

/// Moving the cursor never changes the text: content, placeholder and length
/// stay as they were, whatever the magnitude and the direction.
pub proof fn law_moves_keep_text(m: InputModel, mag: Magnitude, dir: LineDirection)
    ensures
        spec_handle(m, InputAction::MoveCursor(mag, dir)).0.content == m.content,
        spec_handle(m, InputAction::MoveCursor(mag, dir)).0.placeholder == m.placeholder,
        spec_handle(m, InputAction::MoveCursor(mag, dir)).0.length == m.length,
{
}

/// A move one grapheme to the right followed by one to the left gives back the
/// input, when the cursor was within the text.
pub proof fn law_char_moves_undo(m: InputModel)
    requires
        m.cursor < m.length <= usize::MAX,
    ensures
        spec_move_right(m, Magnitude::Char).1 == InputActionResult::PositionChanged,
        spec_move_left(spec_move_right(m, Magnitude::Char).0, Magnitude::Char).0 == m,
{
}

/// Moving a whole line to the left puts the cursor at the start, and to the
/// right at the end of the text.
pub proof fn law_line_moves_reach_ends(m: InputModel)
    requires
        m.cursor <= m.length,
    ensures
        spec_move_left(m, Magnitude::Line).0.cursor == 0,
        spec_move_right(m, Magnitude::Line).0.cursor == m.length,
{
}

/// Deleting to the right keeps the cursor where it was, and deleting a grapheme
/// to the left moves it one grapheme back (when there is one).
pub proof fn law_deletes_keep_cursor(m: InputModel, mag: Magnitude)
    ensures
        spec_forwards_delete(m, mag).0.cursor == m.cursor,
        m.cursor > 0 ==> spec_backwards_delete(m, Magnitude::Char).0.cursor == m.cursor - 1,
{
}

/// A line of text being typed, with a cursor counted in grapheme clusters.
#[derive(Clone, Debug, PartialEq)]
pub struct Input {
    content: String,
    placeholder: Option<String>,
    cursor: usize,
    length: usize,
}

impl View for Input {
    type V = InputModel;

    closed spec fn view(&self) -> InputModel {
        InputModel {
            content: self.content@,
            placeholder: match self.placeholder {
                Some(p) => Some(p@),
                None => None,
            },
            cursor: self.cursor as nat,
            length: self.length as nat,
        }
    }
}

impl Input {
    /// An empty input without placeholder.
    pub fn new() -> (r: Self)
        ensures
            r@.content == Seq::<char>::empty(),
            r@.placeholder is None,
            r@.cursor == 0,
            r@.length == 0,
    {
        Self { content: String::new(), placeholder: None, cursor: 0, length: 0 }
    }

    /// An input holding `content`, with the cursor at its end.
    pub fn new_with(content: &str) -> (r: Self)
        ensures
            r@.content == content@,
            r@.placeholder is None,
            r@.length == spec_graphemes(content@).len(),
            r@.cursor == r@.length,
    {
        let len = grapheme_count(content);
        Self { content: to_owned_string(content), placeholder: None, length: len, cursor: len }
    }

    /// The same input with a placeholder.
    pub fn with_placeholder(self, placeholder: &str) -> (r: Self)
        ensures
            r@ == (InputModel { placeholder: Some(placeholder@), ..self@ }),
    {
        let mut s = self;
        s.placeholder = Some(to_owned_string(placeholder));
        s
    }

    /// The same input with the cursor at `cursor`, which must not pass the end.
    pub fn with_cursor(self, cursor: usize) -> (r: Self)
        requires
            cursor <= self@.length,
        ensures
            r@ == (InputModel { cursor: cursor as nat, ..self@ }),
    {
        let mut s = self;
        s.cursor = cursor;
        s
    }

    /// Whether the text is empty.
    pub fn is_empty(&self) -> (r: bool)
        ensures
            r == (self@.length == 0),
    {
        self.length == 0
    }

    /// The placeholder, if any.
    pub fn placeholder(&self) -> (r: Option<&str>)
        ensures
            match r {
                Some(p) => self@.placeholder == Some(p@),
                None => self@.placeholder is None,
            },
    {
        match &self.placeholder {
            Some(p) => Some(p.as_str()),
            None => None,
        }
    }

    /// Applies an action and tells what it changed.
    pub fn handle(&mut self, action: InputAction) -> (r: InputActionResult)
        requires
            spec_can_handle(old(self)@, action),
        ensures
            (final(self)@, r) == spec_handle(old(self)@, action),
    {
        match action {
            InputAction::MoveCursor(mag, dir) => match dir {
                LineDirection::Left => self.move_left(mag),
                LineDirection::Right => self.move_right(mag),
            },
            InputAction::Delete(mag, dir) => match dir {
                LineDirection::Left => self.backwards_delete(mag),
                LineDirection::Right => self.forwards_delete(mag),
            },
            InputAction::Write(c) => self.insert(c),
        }
    }

    /// Empties the text and puts the cursor at the start.
    pub fn clear(&mut self)
        ensures
            final(self)@ == (InputModel { content: Seq::<char>::empty(), placeholder: old(self)@.placeholder, cursor: 0, length: 0 }),
    {
        self.content = String::new();
        self.cursor = 0;
        self.length = 0;
    }

    /// The text.
    pub fn content(&self) -> (r: &str)
        ensures
            r@ == self@.content,
    {
        self.content.as_str()
    }

    /// The length of the text, in grapheme clusters.
    pub fn length(&self) -> (r: usize)
        ensures
            r == self@.length,
    {
        self.length
    }

    /// The cursor position, in grapheme clusters.
    pub fn cursor(&self) -> (r: usize)
        ensures
            r == self@.cursor,
    {
        self.cursor
    }

    /// The text before the cursor: the graphemes before it, or the whole text when
    /// the cursor is at or past the last grapheme.
    pub fn pre_cursor(&self) -> (r: &str)
        ensures
            r@ == (if self@.cursor < spec_graphemes(self@.content).len() && self@.cursor != self@.length {
                spec_graphemes(self@.content).take(self@.cursor as int).flatten_alt()
            } else {
                self@.content
            }),
    {
        if self.cursor == self.length {
            return self.content.as_str();
        }
        let gs = graphemes(self.content.as_str());
        if self.cursor >= gs.len() {
            return self.content.as_str();
        }
        let ghost views = string_views(gs@);
        let total = self.content.as_str().unicode_len();
        proof {
            lemma_flatten_alt_split(views, 0);
        }
        let mut chars: usize = 0;
        let mut i: usize = 0;
        while i < self.cursor
            invariant
                i <= self.cursor < gs@.len(),
                views == string_views(gs@),
                views.flatten_alt() == self.content@,
                chars == views.take(i as int).flatten_alt().len(),
                total == self.content@.len(),
            decreases self.cursor - i,
        {
            proof {
                lemma_flatten_alt_take_succ(views, i as int);
                lemma_flatten_alt_split(views, i as int + 1);
            }
            chars = chars + gs[i].as_str().unicode_len();
            i = i + 1;
        }
        proof {
            lemma_flatten_alt_split(views, self.cursor as int);
            assert(self.content@.subrange(0, chars as int) =~= views.take(self.cursor as int).flatten_alt());
        }
        self.content.as_str().substring_char(0, chars)
    }

    fn move_left(&mut self, mag: Magnitude) -> (r: InputActionResult)
        requires
            mag is Word ==> old(self)@.cursor <= old(self)@.length,
        ensures
            (final(self)@, r) == spec_move_left(old(self)@, mag),
    {
        if self.cursor == 0 {
            return InputActionResult::Clean;
        }
        match mag {
            Magnitude::Char => self.cursor = self.cursor - 1,
            Magnitude::Word => self.cursor = self.prev_word_index(),
            Magnitude::Line => self.cursor = 0,
        }
        InputActionResult::PositionChanged
    }

    fn move_right(&mut self, mag: Magnitude) -> (r: InputActionResult)
        ensures
            (final(self)@, r) == spec_move_right(old(self)@, mag),
    {
        if self.cursor == self.length {
            InputActionResult::Clean
        } else if self.cursor < self.length {
            match mag {
                Magnitude::Char => self.cursor = self.cursor.saturating_add(1),
                Magnitude::Word => self.cursor = self.next_word_index(),
                Magnitude::Line => self.cursor = self.length,
            }
            InputActionResult::PositionChanged
        } else {
            self.cursor = self.length;
            InputActionResult::PositionChanged
        }
    }

    fn next_word_index(&self) -> (r: usize)
        ensures
            r == spec_next_word_index(self@),
    {
        let gs = graphemes(self.content.as_str());
        let ghost views = string_views(gs@);
        let mut seen_word = false;
        let mut idx: usize = self.cursor;
        while idx < gs.len()
            invariant
                views == string_views(gs@),
                views == spec_graphemes(self@.content),
                idx >= self.cursor,
                next_word_scan(views, idx as int, seen_word, self@.length)
                    == spec_next_word_index(self@),
            decreases gs.len() - idx,
        {
            if is_alphanumeric(gs[idx].as_str()) {
                seen_word = true;
            } else if seen_word {
                return idx;
            }
            idx = idx + 1;
        }
        self.length
    }

    fn prev_word_index(&self) -> (r: usize)
        requires
            self@.cursor <= self@.length,
        ensures
            r == spec_prev_word_index(self@),
            r <= self@.cursor,
    {
        let gs = graphemes(self.content.as_str());
        let ghost views = string_views(gs@);
        let right = self.length - self.cursor;
        let n = gs.len();
        let mut seen_word = false;
        let mut j: usize = right;
        while j < n
            invariant
                n == gs@.len(),
                views == string_views(gs@),
                views == spec_graphemes(self@.content),
                j >= right,
                right == self@.length - self@.cursor,
                prev_word_scan(views, j as int, right as int, seen_word, self@.cursor)
                    == spec_prev_word_index(self@),
            decreases n - j,
        {
            if is_alphanumeric(gs[n - 1 - j].as_str()) {
                seen_word = true;
            } else if seen_word {
                return self.cursor.saturating_sub(j - right);
            }
            j = j + 1;
        }
        0
    }

    #[verifier::spinoff_prover]
    fn insert(&mut self, c: char) -> (r: InputActionResult)
        ensures
            (final(self)@, r) == spec_insert(old(self)@, c),
    {
        let at = self.cursor;
        if at >= self.length {
            push_char(&mut self.content, c);
            if self.update_length() {
                self.cursor = self.cursor.saturating_add(1);
            }
            return InputActionResult::ContentChanged;
        }
        let gs = graphemes(self.content.as_str());
        let ghost views = string_views(gs@);
        let mut result = String::new();
        let mut i: usize = 0;
        while i < gs.len()
            invariant
                views == string_views(gs@),
                i <= gs@.len(),
                result@ == (if i <= at {
                    views.take(i as int).flatten_alt()
                } else {
                    views.take(at as int).flatten_alt() + seq![c] + views.subrange(at as int, i as int).flatten_alt()
                }),
            decreases gs.len() - i,
        {
            proof {
                lemma_flatten_alt_take_succ(views, i as int);
                if i >= at {
                    assert(views.subrange(at as int, i as int + 1).drop_last() =~= views.subrange(at as int, i as int));
                }
            }
            if i == at {
                push_char(&mut result, c);
            }
            push_str(&mut result, gs[i].as_str());
            i = i + 1;
        }
        proof {
            assert(views.take(views.len() as int) =~= views);
            if at < views.len() {
                assert(views.subrange(at as int, views.len() as int) =~= views.skip(at as int));
            }
        }
        self.content = result;
        if self.update_length() {
            self.cursor = self.cursor.saturating_add(1);
        }
        InputActionResult::ContentChanged
    }

    fn backwards_delete(&mut self, mag: Magnitude) -> (r: InputActionResult)
        requires
            mag is Word ==> old(self)@.cursor <= old(self)@.length,
        ensures
            (final(self)@, r) == spec_backwards_delete(old(self)@, mag),
    {
        if self.cursor == 0 {
            return InputActionResult::Clean;
        }
        let cur_cursor_pos = self.cursor;
        let new_cursor_pos = match mag {
            Magnitude::Char => self.cursor - 1,
            Magnitude::Word => self.prev_word_index(),
            Magnitude::Line => 0,
        };
        if new_cursor_pos == cur_cursor_pos {
            return InputActionResult::Clean;
        }
        self.cursor = new_cursor_pos;
        self.delete_chars_at_right(cur_cursor_pos - new_cursor_pos)
    }

    fn forwards_delete(&mut self, mag: Magnitude) -> (r: InputActionResult)
        requires
            !(mag is Char) ==> old(self)@.cursor <= old(self)@.length,
        ensures
            (final(self)@, r) == spec_forwards_delete(old(self)@, mag),
    {
        let start = self.cursor;
        let end = match mag {
            Magnitude::Char => start.saturating_add(1),
            Magnitude::Word => self.next_word_index(),
            Magnitude::Line => self.length(),
        };
        proof {
            if mag is Word {
                lemma_next_word_scan_bounds(spec_graphemes(self@.content), self@.cursor as int, false, self@.length);
            }
        }
        let len = end - start;
        self.delete_chars_at_right(len)
    }

    fn delete_chars_at_right(&mut self, qty: usize) -> (r: InputActionResult)
        ensures
            (final(self)@, r) == spec_delete_right(old(self)@, qty as nat),
    {
        let start = self.cursor;
        let end = start.saturating_add(qty);
        let gs = graphemes(self.content.as_str());
        let ghost views = string_views(gs@);
        let mut new_content = String::new();
        let mut length: usize = 0;
        let mut result = InputActionResult::Clean;
        let mut i: usize = 0;
        while i < gs.len()
            invariant
                views == string_views(gs@),
                i <= gs@.len(),
                start <= end,
                new_content@ == (views.take(if start < i { start as int } else { i as int })
                    + views.subrange(if end < i { end as int } else { i as int }, i as int)).flatten_alt(),
                length == (views.take(if start < i { start as int } else { i as int })
                    + views.subrange(if end < i { end as int } else { i as int }, i as int)).len(),
                result == (if start < i && start < end { InputActionResult::ContentChanged } else { InputActionResult::Clean }),
            decreases gs.len() - i,
        {
            let ghost prev = views.take(if start < i { start as int } else { i as int })
                + views.subrange(if end < i { end as int } else { i as int }, i as int);
            let ghost next = views.take(if start < i + 1 { start as int } else { i + 1 as int })
                + views.subrange(if end < i + 1 { end as int } else { i + 1 as int }, i + 1 as int);
            if i < start || i >= end {
                proof {
                    assert(next =~= prev.push(views[i as int]));
                    assert(next.drop_last() =~= prev);
                }
                length = length + 1;
                push_str(&mut new_content, gs[i].as_str());
            } else {
                proof {
                    assert(next =~= prev);
                }
                result = InputActionResult::ContentChanged;
            }
            i = i + 1;
        }
        proof {
            let n = views.len();
            let kept = views.take(if start < n { start as int } else { n as int })
                + views.subrange(if end < n { end as int } else { n as int }, n as int);
            assert(kept =~= kept_graphemes(views, start as nat, end as nat));
        }
        self.length = length;
        self.content = new_content;
        result
    }

    fn update_length(&mut self) -> (r: bool)
        ensures
            final(self)@ == (InputModel { length: spec_graphemes(old(self)@.content).len(), ..old(self)@ }),
            r == (spec_graphemes(old(self)@.content).len() != old(self)@.length),
    {
        let new_len = grapheme_count(self.content.as_str());
        let old_len = self.length;
        self.length = new_len;
        new_len != old_len
    }
}

/// A word-move to the right never goes back: it reaches an index at or after the
/// scan start, or the given fallback.
pub proof fn lemma_next_word_scan_bounds(gs: Seq<Seq<char>>, idx: int, seen: bool, length: nat)
    ensures
        next_word_scan(gs, idx, seen, length) == length || next_word_scan(gs, idx, seen, length) >= idx,
    decreases gs.len() - idx,
{
    if idx < 0 || idx >= gs.len() {
    } else if spec_is_alphanumeric(gs[idx]) {
        lemma_next_word_scan_bounds(gs, idx + 1, true, length);
    } else if seen {
    } else {
        lemma_next_word_scan_bounds(gs, idx + 1, seen, length);
    }
}

} // verus!
