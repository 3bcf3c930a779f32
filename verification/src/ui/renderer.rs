//! A renderer of prompts: draws prompt lines, options, help and error
//! messages on an [OldTerminal], and erases the previous frame before the next.

use crate::ansi::csi;
use crate::error::InquireResult;
use crate::key::Key;
use crate::ansi::{color_sequence, spec_color_params};
use crate::terminal::crossterm::{spec_styled_output, spec_styled_sent};
use crate::text_input::Input;
use crate::ui::old_terminal::OldTerminal;
use crate::date::{
    date_from_ymd, date_parts, shift_days, spec_date_parts, spec_from_ymd, spec_valid_days, spec_weekday,
    spec_weekday_index, weekday_of, CalendarDate, Weekday,
};
use crate::ui::backend::{
    calendar_header, day_text, spec_calendar_header, spec_calendar_start, spec_day_text, spec_days_valid,
    spec_scan_back, spec_week_header, week_header,
};
use crate::ui::{Attributes, Color, Styled};
use crate::strings::{push_str, to_owned_string};
use crate::segmentation::spec_graphemes;
use vstd::prelude::*;

verus! {

/// A piece of a drawn line: a text and the colors and attributes it is
/// written with.
pub struct Piece {
    /// The text.
    pub text: Seq<char>,
    /// Foreground color.
    pub fg: Option<Color>,
    /// Background color.
    pub bg: Option<Color>,
    /// Attributes.
    pub att: Attributes,
}

/// A piece of text written as it is.
pub open spec fn plain(text: Seq<char>) -> Piece {
    Piece { text, fg: None, bg: None, att: Attributes { bits: 0 } }
}

/// A piece of text written with a foreground color.
pub open spec fn colored(text: Seq<char>, fg: Color) -> Piece {
    Piece { text, fg: Some(fg), bg: None, att: Attributes { bits: 0 } }
}

/// Whether `out` is what the terminal sends for a piece: the text alone when
/// the terminal is dull or the piece has no style, and otherwise the text
/// between the sequences that set and reset its style.
pub open spec fn piece_sent(dull: bool, p: Piece, out: Seq<char>) -> bool {
    if dull || (p.fg is None && p.bg is None && p.att.bits == 0) {
        out == p.text
    } else {
        spec_styled_sent(Styled { content: "", fg: p.fg, bg: p.bg, att: p.att }, p.text, out)
    }
}

/// Whether `out` is what the terminal sends for the pieces, one after the other.
pub open spec fn pieces_sent(dull: bool, ps: Seq<Piece>, out: Seq<char>) -> bool {
    exists|outs: Seq<Seq<char>>| #[trigger] outs.flatten_alt() == out && outs.len() == ps.len()
        && forall|i: int| 0 <= i < ps.len() ==> piece_sent(dull, ps[i], #[trigger] outs[i])
}

/// Sending no piece sends nothing.
pub proof fn lemma_pieces_empty(dull: bool, out: Seq<char>)
    requires
        out.len() == 0,
    ensures
        pieces_sent(dull, Seq::empty(), out),
{
    let outs = Seq::<Seq<char>>::empty();
    assert(outs.flatten_alt() =~= out);
}

/// Sending one more piece after some pieces sends the longer list.
pub proof fn lemma_pieces_push(dull: bool, ps: Seq<Piece>, out: Seq<char>, p: Piece, extra: Seq<char>)
    requires
        pieces_sent(dull, ps, out),
        piece_sent(dull, p, extra),
    ensures
        pieces_sent(dull, ps.push(p), out + extra),
{
    let outs = choose|outs: Seq<Seq<char>>| #[trigger] outs.flatten_alt() == out && outs.len() == ps.len()
        && forall|i: int| 0 <= i < ps.len() ==> piece_sent(dull, ps[i], #[trigger] outs[i]);
    let outs2 = outs.push(extra);
    assert(outs2.drop_last() =~= outs);
    assert(outs2.flatten_alt() == out + extra);
    assert forall|i: int| 0 <= i < ps.push(p).len() implies piece_sent(dull, ps.push(p)[i], #[trigger] outs2[i]) by {
        if i < ps.len() {
            assert(outs2[i] == outs[i]);
        }
    }
}

/// Sending two lists of pieces one after the other sends their concatenation.
pub proof fn lemma_pieces_concat(dull: bool, a: Seq<Piece>, oa: Seq<char>, b: Seq<Piece>, ob: Seq<char>)
    requires
        pieces_sent(dull, a, oa),
        pieces_sent(dull, b, ob),
    ensures
        pieces_sent(dull, a + b, oa + ob),
{
    let outs_a = choose|outs: Seq<Seq<char>>| #[trigger] outs.flatten_alt() == oa && outs.len() == a.len()
        && forall|i: int| 0 <= i < a.len() ==> piece_sent(dull, a[i], #[trigger] outs[i]);
    let outs_b = choose|outs: Seq<Seq<char>>| #[trigger] outs.flatten_alt() == ob && outs.len() == b.len()
        && forall|i: int| 0 <= i < b.len() ==> piece_sent(dull, b[i], #[trigger] outs[i]);
    let outs = outs_a + outs_b;
    crate::segmentation::lemma_flatten_alt_append(outs_a, outs_b);
    assert forall|i: int| 0 <= i < (a + b).len() implies piece_sent(dull, (a + b)[i], #[trigger] outs[i]) by {
        if i < a.len() {
            assert(outs[i] == outs_a[i]);
        } else {
            assert(outs[i] == outs_b[i - a.len()]);
        }
    }
}

/// The pieces of an option line: "> " and the option in cyan when it is
/// highlighted, otherwise two spaces and the option, then the line end.
pub open spec fn option_pieces(cursor: bool, content: Seq<char>) -> Seq<Piece> {
    seq![if cursor { colored("> "@ + content, Color::DarkCyan) } else { plain("  "@ + content) }] + line_end()
}

/// The option lines of the first `k` rows, the one at `cursor` highlighted.
pub open spec fn option_list(rows: Seq<Seq<char>>, cursor: nat, k: nat) -> Seq<Piece>
    decreases k,
{
    if k == 0 || k > rows.len() {
        Seq::empty()
    } else {
        option_list(rows, cursor, (k - 1) as nat) + option_pieces(cursor == k - 1, rows[k - 1])
    }
}

/// The pieces of an error message line: "# " and the message, in red.
pub open spec fn error_pieces(message: Seq<char>) -> Seq<Piece> {
    seq![colored("# "@ + message, Color::DarkRed)] + line_end()
}

/// The pieces of a help message line: the message in square brackets, in cyan.
pub open spec fn help_pieces(message: Seq<char>) -> Seq<Piece> {
    seq![colored("["@ + message + "]"@, Color::DarkCyan)] + line_end()
}

/// The pieces of a prompt line: a green "? ", the prompt, the default value in
/// brackets if any, and the content after a space, in bold, when there is
/// some.
pub open spec fn prompt_pieces(prompt: Seq<char>, default: Option<Seq<char>>, content: Option<Seq<char>>) -> Seq<Piece> {
    prompt_head(prompt)
        + default_piece(default)
        + match content {
            Some(c) => if c.len() > 0 {
                seq![Piece { text: " "@ + c, fg: None, bg: None, att: Attributes { bits: 1 } }]
            } else {
                Seq::empty()
            },
            None => Seq::empty(),
        }
        + line_end()
}

/// The line count after one more line.
pub open spec fn next_count(lines: usize) -> usize {
    if lines < usize::MAX { (lines + 1) as usize } else { lines }
}

/// `n`, or the largest `usize` when `n` is larger.
pub open spec fn sat_count(n: nat) -> usize {
    if n <= usize::MAX { n as usize } else { usize::MAX }
}

/// The end of a drawn line: back to the first column, then a line feed.
pub open spec fn line_end() -> Seq<Piece> {
    seq![plain(csi("1G"@)), plain("\n"@)]
}

/// The pieces of the prompt line: a green "? " and the prompt.
pub open spec fn prompt_head(prompt: Seq<char>) -> Seq<Piece> {
    seq![colored("? "@, Color::DarkGreen), plain(prompt)]
}

/// The pieces that show a default value: " (", the value and ")".
pub open spec fn default_piece(default: Option<Seq<char>>) -> Seq<Piece> {
    match default {
        Some(d) => seq![plain(" ("@ + d + ")"@)],
        None => Seq::empty(),
    }
}

/// `n` erasures of a line of the previous frame: up, first column, clear.
pub open spec fn erased_lines(n: nat) -> Seq<char>
    decreases n,
{
    if n == 0 { Seq::empty() } else { erased_lines((n - 1) as nat) + csi("1A"@) + csi("1G"@) + csi("2K"@) }
}

/// Drawing `a` then `b` draws `a + b`, with the line count of the second step.
pub proof fn lemma_drew_chain(r1: Renderer, r2: Renderer, r3: Renderer, a: Seq<Piece>, b: Seq<Piece>, l2: usize, l3: usize)
    requires
        r2.drew(&r1, a, l2),
        r3.drew(&r2, b, l3),
    ensures
        r3.drew(&r1, a + b, l3),
{
    let o1 = r1.spec_output();
    let o2 = r2.spec_output();
    let o3 = r3.spec_output();
    assert(o2 =~= o1 + o2.skip(o1.len() as int));
    assert(o3 =~= o2 + o3.skip(o2.len() as int));
    assert(o3.take(o1.len() as int) =~= o1);
    assert(o3.skip(o1.len() as int) =~= o2.skip(o1.len() as int) + o3.skip(o2.len() as int));
    lemma_pieces_concat(r1.spec_dull(), a, o2.skip(o1.len() as int), b, o3.skip(o2.len() as int));
}

/// The piece of one day in the calendar of `month`: the day of the month on
/// two columns; the selected day in black on grey, today in green, the days of
/// other months in dark grey, and the days before the earliest or after the
/// latest allowed date in dark grey as well.
pub open spec fn month_day_piece(
    d: int,
    month: u32,
    today: CalendarDate,
    selected: CalendarDate,
    min_date: Option<CalendarDate>,
    max_date: Option<CalendarDate>,
) -> Piece {
    let parts = spec_date_parts(d as i32);
    let fg = if d == selected.days {
        Some(Color::Black)
    } else if d == today.days {
        Some(Color::DarkGreen)
    } else if parts.1 != month {
        Some(Color::DarkGrey)
    } else {
        None
    };
    let early = match min_date { Some(m) => d < m.days, None => false };
    let late = match max_date { Some(m) => d > m.days, None => false };
    Piece {
        text: spec_day_text(parts.2),
        fg: if early || late { Some(Color::DarkGrey) } else { fg },
        bg: if d == selected.days { Some(Color::Grey) } else { None },
        att: Attributes { bits: 0 },
    }
}

/// The pieces of the first `k` days of a week row from day `d`, separated by
/// spaces.
pub open spec fn month_days_pieces(
    d: int,
    k: nat,
    month: u32,
    today: CalendarDate,
    selected: CalendarDate,
    min_date: Option<CalendarDate>,
    max_date: Option<CalendarDate>,
) -> Seq<Piece>
    decreases k,
{
    if k == 0 {
        Seq::empty()
    } else {
        month_days_pieces(d, (k - 1) as nat, month, today, selected, min_date, max_date)
            + (if k > 1 { seq![plain(" "@)] } else { Seq::empty() })
            + seq![month_day_piece(d + k - 1, month, today, selected, min_date, max_date)]
    }
}

/// The pieces of the first `rows` week rows of a calendar from day `d`, each
/// after a green "> ".
pub open spec fn month_weeks_pieces(
    d: int,
    rows: nat,
    month: u32,
    today: CalendarDate,
    selected: CalendarDate,
    min_date: Option<CalendarDate>,
    max_date: Option<CalendarDate>,
) -> Seq<Piece>
    decreases rows,
{
    if rows == 0 {
        Seq::empty()
    } else {
        month_weeks_pieces(d, (rows - 1) as nat, month, today, selected, min_date, max_date)
            + seq![colored("> "@, Color::DarkGreen)]
            + month_days_pieces(d + 7 * (rows - 1), 7, month, today, selected, min_date, max_date)
            + line_end()
    }
}

/// The pieces of the two header lines of a calendar: the month and year, then
/// the week days, each after a green "> ".
pub open spec fn month_head_pieces(month: u32, year: i32, week_start: Weekday) -> Seq<Piece> {
    seq![colored("> "@, Color::DarkGreen), plain(spec_calendar_header(month, year))] + line_end()
        + seq![colored("> "@, Color::DarkGreen), plain(spec_week_header(week_start))] + line_end()
}

/// Draws prompts line by line and keeps count of the lines of the frame.
pub struct Renderer {
    cur_line: usize,
    backend: OldTerminal,
}

impl Renderer {
    /// Everything sent to the terminal.
    pub closed spec fn spec_output(&self) -> Seq<char> {
        self.backend.spec_output()
    }

    /// Whether the terminal drops styling.
    pub closed spec fn spec_dull(&self) -> bool {
        self.backend.spec_dull()
    }

    /// How many lines the current frame has.
    pub closed spec fn spec_lines(&self) -> usize {
        self.cur_line
    }

    /// Whether the terminal holds its own keys.
    pub closed spec fn spec_has_keys(&self) -> bool {
        self.backend.spec_has_keys()
    }

    /// The keys not read yet, when the terminal holds its own.
    pub closed spec fn spec_pending_keys(&self) -> Seq<crate::key::KeyEvent> {
        self.backend.spec_pending_keys()
    }

    /// The invariant of the terminal.
    pub closed spec fn wf(&self) -> bool {
        self.backend.wf()
    }

    /// Whether `self` is `old` with `ps` drawn after what `old` had sent, and
    /// `lines` lines counted.
    pub open spec fn drew(&self, old: &Self, ps: Seq<Piece>, lines: usize) -> bool {
        &&& old.spec_output().len() <= self.spec_output().len()
        &&& self.spec_output().take(old.spec_output().len() as int) == old.spec_output()
        &&& pieces_sent(old.spec_dull(), ps, self.spec_output().skip(old.spec_output().len() as int))
        &&& self.spec_lines() == lines
        &&& self.spec_dull() == old.spec_dull()
        &&& self.spec_has_keys() == old.spec_has_keys()
        &&& self.spec_pending_keys() == old.spec_pending_keys()
        &&& self.wf() == old.wf()
    }

    /// A renderer on `backend`; the cursor is hidden while prompts are drawn.
    pub fn new(backend: OldTerminal) -> (r: InquireResult<Self>)
        ensures
            r matches Ok(rd) && rd.spec_lines() == 0 && rd.spec_output() == backend.spec_output() + csi("?25l"@)
                && rd.spec_dull() == backend.spec_dull() && rd.spec_has_keys() == backend.spec_has_keys()
                && rd.spec_pending_keys() == backend.spec_pending_keys() && rd.wf() == backend.wf(),
    {
        let mut renderer = Renderer { cur_line: 0, backend };
        let _ = renderer.backend.cursor_hide();
        Ok(renderer)
    }

    /// Writes a piece with its style.
    fn emit(&mut self, val: Styled<&str>, Ghost(start): Ghost<Seq<char>>, Ghost(ps): Ghost<Seq<Piece>>)
        requires
            start.len() <= old(self).spec_output().len(),
            old(self).spec_output().take(start.len() as int) == start,
            pieces_sent(old(self).spec_dull(), ps, old(self).spec_output().skip(start.len() as int)),
        ensures
            start.len() <= final(self).spec_output().len(),
            final(self).spec_output().take(start.len() as int) == start,
            pieces_sent(old(self).spec_dull(), ps.push(Piece { text: val.content@, fg: val.fg, bg: val.bg, att: val.att }),
                final(self).spec_output().skip(start.len() as int)),
            final(self).spec_lines() == old(self).spec_lines(),
            final(self).spec_dull() == old(self).spec_dull(),
            final(self).spec_has_keys() == old(self).spec_has_keys(),
            final(self).spec_pending_keys() == old(self).spec_pending_keys(),
            final(self).wf() == old(self).wf(),
    {
        let ghost before = self.backend.spec_output();
        let _ = self.backend.write_styled(val);
        proof {
            let after = self.backend.spec_output();
            let extra = after.skip(before.len() as int);
            assert(after =~= before + extra);
            assert(after.skip(start.len() as int) =~= before.skip(start.len() as int) + extra);
            assert(after.take(start.len() as int) =~= before.take(start.len() as int));
            let piece = Piece { text: val.content@, fg: val.fg, bg: val.bg, att: val.att };
            if old(self).spec_dull() {
                assert(extra =~= val.content@);
            } else {
                assert(spec_styled_sent(val, val.content@, extra));
                let (f1, b1, f2, b2) = choose|f1: Seq<char>, b1: Seq<char>, f2: Seq<char>, b2: Seq<char>|
                    (val.fg matches Some(c) ==> color_sequence(spec_color_params("38;"@, c), f1))
                    && (val.bg matches Some(c) ==> color_sequence(spec_color_params("48;"@, c), b1))
                    && color_sequence("39"@, f2) && color_sequence("49"@, b2)
                    && extra == #[trigger] spec_styled_output(val, val.content@, f1, b1, f2, b2);
                let v2 = Styled { content: "", fg: val.fg, bg: val.bg, att: val.att };
                assert(spec_styled_output(v2, val.content@, f1, b1, f2, b2) == spec_styled_output(val, val.content@, f1, b1, f2, b2));
                assert(spec_styled_sent(v2, val.content@, extra));
                if val.fg is None && val.bg is None && val.att.bits == 0 {
                    assert(extra =~= val.content@);
                }
            }
            assert(piece_sent(old(self).spec_dull(), piece, extra));
            lemma_pieces_push(old(self).spec_dull(), ps, before.skip(start.len() as int), piece, extra);
        }
    }

    /// Writes a piece as it is.
    fn emit_plain(&mut self, text: &str, Ghost(start): Ghost<Seq<char>>, Ghost(ps): Ghost<Seq<Piece>>)
        requires
            start.len() <= old(self).spec_output().len(),
            old(self).spec_output().take(start.len() as int) == start,
            pieces_sent(old(self).spec_dull(), ps, old(self).spec_output().skip(start.len() as int)),
        ensures
            start.len() <= final(self).spec_output().len(),
            final(self).spec_output().take(start.len() as int) == start,
            pieces_sent(old(self).spec_dull(), ps.push(plain(text@)), final(self).spec_output().skip(start.len() as int)),
            final(self).spec_lines() == old(self).spec_lines(),
            final(self).spec_dull() == old(self).spec_dull(),
            final(self).spec_has_keys() == old(self).spec_has_keys(),
            final(self).spec_pending_keys() == old(self).spec_pending_keys(),
            final(self).wf() == old(self).wf(),
    {
        let ghost before = self.backend.spec_output();
        let _ = self.backend.write(text);
        proof {
            let after = self.backend.spec_output();
            assert(after.skip(start.len() as int) =~= before.skip(start.len() as int) + text@);
            assert(after.take(start.len() as int) =~= before.take(start.len() as int));
            lemma_pieces_push(old(self).spec_dull(), ps, before.skip(start.len() as int), plain(text@), text@);
        }
    }

    /// Ends a line: back to the first column, a line feed, one more line counted.
    fn new_line(&mut self, Ghost(start): Ghost<Seq<char>>, Ghost(ps): Ghost<Seq<Piece>>)
        requires
            start.len() <= old(self).spec_output().len(),
            old(self).spec_output().take(start.len() as int) == start,
            pieces_sent(old(self).spec_dull(), ps, old(self).spec_output().skip(start.len() as int)),
        ensures
            start.len() <= final(self).spec_output().len(),
            final(self).spec_output().take(start.len() as int) == start,
            pieces_sent(old(self).spec_dull(), ps + line_end(), final(self).spec_output().skip(start.len() as int)),
            final(self).spec_lines() == if old(self).spec_lines() < usize::MAX { (old(self).spec_lines() + 1) as usize } else { old(self).spec_lines() },
            final(self).spec_dull() == old(self).spec_dull(),
            final(self).spec_has_keys() == old(self).spec_has_keys(),
            final(self).spec_pending_keys() == old(self).spec_pending_keys(),
            final(self).wf() == old(self).wf(),
    {
        let ghost before = self.backend.spec_output();
        let _ = self.backend.cursor_horizontal_reset();
        proof {
            let after = self.backend.spec_output();
            assert(after.skip(start.len() as int) =~= before.skip(start.len() as int) + csi("1G"@));
            assert(after.take(start.len() as int) =~= before.take(start.len() as int));
            lemma_pieces_push(old(self).spec_dull(), ps, before.skip(start.len() as int), plain(csi("1G"@)), csi("1G"@));
        }
        self.emit_plain("\n", Ghost(start), Ghost(ps.push(plain(csi("1G"@)))));
        assert(ps.push(plain(csi("1G"@))).push(plain("\n"@)) =~= ps + line_end());
        self.cur_line = if self.cur_line < usize::MAX { self.cur_line + 1 } else { self.cur_line };
    }

    /// Erases the lines of the previous frame, bottom up.
    pub fn reset_prompt(&mut self) -> (r: InquireResult<()>)
        ensures
            r is Ok,
            final(self).spec_output() == old(self).spec_output() + erased_lines(old(self).spec_lines() as nat),
            final(self).spec_lines() == 0,
            final(self).spec_dull() == old(self).spec_dull(),
            final(self).spec_has_keys() == old(self).spec_has_keys(),
            final(self).spec_pending_keys() == old(self).spec_pending_keys(),
            final(self).wf() == old(self).wf(),
    {
        let mut i: usize = 0;
        while i < self.cur_line
            invariant
                i <= self.cur_line,
                self.cur_line == old(self).spec_lines(),
                self.spec_output() == old(self).spec_output() + erased_lines(i as nat),
                self.spec_dull() == old(self).spec_dull(),
                self.spec_has_keys() == old(self).spec_has_keys(),
                self.spec_pending_keys() == old(self).spec_pending_keys(),
                self.wf() == old(self).wf(),
            decreases self.cur_line - i,
        {
            let _ = self.backend.cursor_up();
            let _ = self.backend.cursor_horizontal_reset();
            let _ = self.backend.clear_current_line();
            assert(old(self).spec_output() + erased_lines((i + 1) as nat) =~= old(self).spec_output() + erased_lines(i as nat)
                + csi("1A"@) + csi("1G"@) + csi("2K"@));
            i = i + 1;
        }
        self.cur_line = 0;
        Ok(())
    }

    /// Draws an error message line: "# " and the message, in red.
    pub fn print_error_message(&mut self, message: &str) -> (r: InquireResult<()>)
        ensures
            r is Ok,
            final(self).drew(old(self), error_pieces(message@), next_count(old(self).spec_lines())),
    {
        let ghost start = self.spec_output();
        proof {
            assert(start.take(start.len() as int) =~= start);
            lemma_pieces_empty(self.spec_dull(), start.skip(start.len() as int));
        }
        let mut text = to_owned_string("# ");
        push_str(&mut text, message);
        self.emit(Styled::new(text.as_str()).with_fg(Color::DarkRed), Ghost(start), Ghost(Seq::empty()));
        let ghost ps = seq![colored(text@, Color::DarkRed)];
        self.new_line(Ghost(start), Ghost(ps));
        proof {
            reveal_strlit("# ");
            assert(Seq::<Piece>::empty().push(colored(text@, Color::DarkRed)) =~= seq![colored(text@, Color::DarkRed)]);
        }
        Ok(())
    }

    /// Draws the prompt with its answer: a green "? ", the prompt and the
    /// answer after a space, in cyan.
    fn print_prompt_answer(&mut self, prompt: &str, answer: &str) -> (r: InquireResult<()>)
        ensures
            r is Ok,
            final(self).drew(old(self), prompt_head(prompt@) + seq![colored(" "@ + answer@, Color::DarkCyan)] + line_end(),
                if old(self).spec_lines() < usize::MAX { (old(self).spec_lines() + 1) as usize } else { old(self).spec_lines() }),
    {
        let ghost start = self.spec_output();
        proof {
            assert(start.take(start.len() as int) =~= start);
            lemma_pieces_empty(self.spec_dull(), start.skip(start.len() as int));
        }
        self.emit(Styled::new("? ").with_fg(Color::DarkGreen), Ghost(start), Ghost(Seq::empty()));
        proof { reveal_strlit("? "); }
        let ghost ps1 = seq![colored("? "@, Color::DarkGreen)];
        assert(Seq::<Piece>::empty().push(colored("? "@, Color::DarkGreen)) =~= ps1);
        self.emit_plain(prompt, Ghost(start), Ghost(ps1));
        let ghost ps2 = prompt_head(prompt@);
        assert(ps1.push(plain(prompt@)) =~= ps2);
        let mut text = to_owned_string(" ");
        push_str(&mut text, answer);
        self.emit(Styled::new(text.as_str()).with_fg(Color::DarkCyan), Ghost(start), Ghost(ps2));
        let ghost ps3 = ps2 + seq![colored(text@, Color::DarkCyan)];
        assert(ps2.push(colored(text@, Color::DarkCyan)) =~= ps3);
        self.new_line(Ghost(start), Ghost(ps3));
        proof { reveal_strlit(" "); }
        Ok(())
    }

    /// Draws the prompt line: a green "? ", the prompt, the default value in
    /// brackets if any, and the content after a space, in bold, when there is
    /// some.
    pub fn print_prompt(&mut self, prompt: &str, default: Option<&str>, content: Option<&str>) -> (r: InquireResult<()>)
        ensures
            r is Ok,
            final(self).drew(old(self),
                prompt_pieces(prompt@, match default { Some(d) => Some(d@), None => None },
                    match content { Some(c) => Some(c@), None => None }),
                next_count(old(self).spec_lines())),
    {
        let ghost start = self.spec_output();
        proof {
            assert(start.take(start.len() as int) =~= start);
            lemma_pieces_empty(self.spec_dull(), start.skip(start.len() as int));
        }
        self.emit(Styled::new("? ").with_fg(Color::DarkGreen), Ghost(start), Ghost(Seq::empty()));
        proof { reveal_strlit("? "); }
        let ghost ps1 = seq![colored("? "@, Color::DarkGreen)];
        assert(Seq::<Piece>::empty().push(colored("? "@, Color::DarkGreen)) =~= ps1);
        self.emit_plain(prompt, Ghost(start), Ghost(ps1));
        let ghost mut ps = prompt_head(prompt@);
        assert(ps1.push(plain(prompt@)) =~= ps);
        if let Some(d) = default {
            let mut text = to_owned_string(" (");
            push_str(&mut text, d);
            push_str(&mut text, ")");
            self.emit_plain(text.as_str(), Ghost(start), Ghost(ps));
            proof {
                reveal_strlit(" (");
                reveal_strlit(")");
                assert(ps.push(plain(text@)) =~= ps + default_piece(Some(d@)));
                ps = ps + default_piece(Some(d@));
            }
        } else {
            assert(ps + default_piece(None) =~= ps);
        }
        let ghost ps_head = ps;
        match content {
            Some(c) => {
                if !c.is_empty() {
                    let mut text = to_owned_string(" ");
                    push_str(&mut text, c);
                    let att = Attributes::bold();
                    self.emit(Styled::new(text.as_str()).with_attr(att), Ghost(start), Ghost(ps));
                    proof {
                        reveal_strlit(" ");
                        assert(0u8 | 1u8 == 1u8) by (bit_vector);
                        let p = Piece { text: " "@ + c@, fg: None, bg: None, att: Attributes { bits: 1 } };
                        assert(ps.push(p) =~= ps + seq![p]);
                        ps = ps + seq![p];
                    }
                } else {
                    assert(ps + Seq::<Piece>::empty() =~= ps);
                }
            },
            None => {
                assert(ps + Seq::<Piece>::empty() =~= ps);
            },
        }
        self.new_line(Ghost(start), Ghost(ps));
        Ok(())
    }

    /// Draws the prompt line with a text input: a green "? ", the prompt, the
    /// default value in brackets if any, then after a space the text before the
    /// cursor, the grapheme at the cursor (a space past the end) in black on
    /// grey, and the rest.
    pub fn print_prompt_input(&mut self, prompt: &str, default: Option<&str>, content: &Input) -> (r: InquireResult<()>)
        ensures
            r is Ok,
            ({
                let gs = spec_graphemes(content@.content);
                let c = content@.cursor as int;
                let before = gs.take(if c < gs.len() { c } else { gs.len() as int }).flatten_alt();
                let at = if c < gs.len() && gs[c].len() > 0 { gs[c] } else { " "@ };
                let after = if c < gs.len() { gs.skip(c + 1).flatten_alt() } else { Seq::<char>::empty() };
                final(self).drew(old(self),
                    prompt_head(prompt@)
                        + default_piece(match default { Some(d) => Some(d@), None => None })
                        + seq![plain(" "@), plain(before),
                            Piece { text: at, fg: Some(Color::Black), bg: Some(Color::Grey), att: Attributes { bits: 0 } },
                            plain(after)]
                        + line_end(),
                    if old(self).spec_lines() < usize::MAX { (old(self).spec_lines() + 1) as usize } else { old(self).spec_lines() })
            }),
    {
        let ghost start = self.spec_output();
        proof {
            assert(start.take(start.len() as int) =~= start);
            lemma_pieces_empty(self.spec_dull(), start.skip(start.len() as int));
        }
        self.emit(Styled::new("? ").with_fg(Color::DarkGreen), Ghost(start), Ghost(Seq::empty()));
        proof { reveal_strlit("? "); }
        let ghost ps1 = seq![colored("? "@, Color::DarkGreen)];
        assert(Seq::<Piece>::empty().push(colored("? "@, Color::DarkGreen)) =~= ps1);
        self.emit_plain(prompt, Ghost(start), Ghost(ps1));
        let ghost mut ps = prompt_head(prompt@);
        assert(ps1.push(plain(prompt@)) =~= ps);
        if let Some(d) = default {
            let mut text = to_owned_string(" (");
            push_str(&mut text, d);
            push_str(&mut text, ")");
            self.emit_plain(text.as_str(), Ghost(start), Ghost(ps));
            proof {
                reveal_strlit(" (");
                reveal_strlit(")");
                assert(ps.push(plain(text@)) =~= ps + default_piece(Some(d@)));
                ps = ps + default_piece(Some(d@));
            }
        } else {
            assert(ps + default_piece(None) =~= ps);
        }
        let (before, at, after) = content.split();
        let at = if at.as_str().is_empty() { to_owned_string(" ") } else { at };
        proof { reveal_strlit(" "); }
        let ghost head = ps;
        self.emit_plain(" ", Ghost(start), Ghost(ps));
        self.emit_plain(before.as_str(), Ghost(start), Ghost(ps.push(plain(" "@))));
        let cursor_style = Styled::new(at.as_str()).with_bg(Color::Grey).with_fg(Color::Black);
        self.emit(cursor_style, Ghost(start), Ghost(ps.push(plain(" "@)).push(plain(before@))));
        let ghost cursor_piece = Piece { text: at@, fg: Some(Color::Black), bg: Some(Color::Grey), att: Attributes { bits: 0 } };
        self.emit_plain(after.as_str(), Ghost(start), Ghost(ps.push(plain(" "@)).push(plain(before@)).push(cursor_piece)));
        let ghost body = ps.push(plain(" "@)).push(plain(before@)).push(cursor_piece).push(plain(after@));
        self.new_line(Ghost(start), Ghost(body));
        proof {
            let gs = spec_graphemes(content@.content);
            let c = content@.cursor as int;
            assert(at@ == (if c < gs.len() && gs[c].len() > 0 { gs[c] } else { " "@ }));
            assert(body =~= head + seq![plain(" "@), plain(before@), cursor_piece, plain(after@)]);
        }
        Ok(())
    }

    /// Draws a help message line: the message in square brackets, in cyan.
    pub fn print_help(&mut self, message: &str) -> (r: InquireResult<()>)
        ensures
            r is Ok,
            final(self).drew(old(self), help_pieces(message@), next_count(old(self).spec_lines())),
    {
        let ghost start = self.spec_output();
        proof {
            assert(start.take(start.len() as int) =~= start);
            lemma_pieces_empty(self.spec_dull(), start.skip(start.len() as int));
        }
        let mut text = to_owned_string("[");
        push_str(&mut text, message);
        push_str(&mut text, "]");
        self.emit(Styled::new(text.as_str()).with_fg(Color::DarkCyan), Ghost(start), Ghost(Seq::empty()));
        let ghost ps = seq![colored(text@, Color::DarkCyan)];
        self.new_line(Ghost(start), Ghost(ps));
        proof {
            reveal_strlit("[");
            reveal_strlit("]");
            assert(Seq::<Piece>::empty().push(colored(text@, Color::DarkCyan)) =~= seq![colored(text@, Color::DarkCyan)]);
        }
        Ok(())
    }

    /// Draws an option line: "> " and the option in cyan when it is
    /// highlighted, otherwise two spaces and the option.
    pub fn print_option(&mut self, cursor: bool, content: &str) -> (r: InquireResult<()>)
        ensures
            r is Ok,
            final(self).drew(old(self), option_pieces(cursor, content@), next_count(old(self).spec_lines())),
    {
        let ghost start = self.spec_output();
        proof {
            assert(start.take(start.len() as int) =~= start);
            lemma_pieces_empty(self.spec_dull(), start.skip(start.len() as int));
            reveal_strlit("> ");
            reveal_strlit("  ");
        }
        let mut text = if cursor { to_owned_string("> ") } else { to_owned_string("  ") };
        push_str(&mut text, content);
        let token = if cursor { Styled::new(text.as_str()).with_fg(Color::DarkCyan) } else { Styled::new(text.as_str()) };
        self.emit(token, Ghost(start), Ghost(Seq::empty()));
        let ghost p = if cursor { colored("> "@ + content@, Color::DarkCyan) } else { plain("  "@ + content@) };
        assert(Seq::<Piece>::empty().push(Piece { text: token.content@, fg: token.fg, bg: token.bg, att: token.att }) =~= seq![p]);
        let ghost ps = seq![p];
        self.new_line(Ghost(start), Ghost(ps));
        Ok(())
    }

    /// Draws an option line with its checkbox: "> " in cyan when highlighted
    /// (two spaces otherwise), "[x] " in green when selected ("[ ] "
    /// otherwise), and the option.
    pub fn print_multi_option(&mut self, cursor: bool, checked: bool, content: &str) -> (r: InquireResult<()>)
        ensures
            r is Ok,
            final(self).drew(old(self),
                seq![
                    if cursor { colored("> "@, Color::DarkCyan) } else { plain("  "@) },
                    if checked { colored("[x] "@, Color::DarkGreen) } else { plain("[ ] "@) },
                    plain(content@),
                ] + line_end(),
                if old(self).spec_lines() < usize::MAX { (old(self).spec_lines() + 1) as usize } else { old(self).spec_lines() }),
    {
        let ghost start = self.spec_output();
        proof {
            assert(start.take(start.len() as int) =~= start);
            lemma_pieces_empty(self.spec_dull(), start.skip(start.len() as int));
            reveal_strlit("> ");
            reveal_strlit("  ");
            reveal_strlit("[x] ");
            reveal_strlit("[ ] ");
        }
        let cursor_token = if cursor { Styled::new("> ").with_fg(Color::DarkCyan) } else { Styled::new("  ") };
        let checked_token = if checked { Styled::new("[x] ").with_fg(Color::DarkGreen) } else { Styled::new("[ ] ") };
        let ghost p1 = if cursor { colored("> "@, Color::DarkCyan) } else { plain("  "@) };
        let ghost p2 = if checked { colored("[x] "@, Color::DarkGreen) } else { plain("[ ] "@) };
        self.emit(cursor_token, Ghost(start), Ghost(Seq::empty()));
        assert(Seq::<Piece>::empty().push(Piece { text: cursor_token.content@, fg: cursor_token.fg, bg: cursor_token.bg, att: cursor_token.att }) =~= seq![p1]);
        let ghost ps1 = seq![p1];
        let ghost ps2 = seq![p1, p2];
        let ghost ps3 = seq![p1, p2, plain(content@)];
        self.emit(checked_token, Ghost(start), Ghost(ps1));
        assert(ps1.push(Piece { text: checked_token.content@, fg: checked_token.fg, bg: checked_token.bg, att: checked_token.att }) =~= ps2);
        self.emit_plain(content, Ghost(start), Ghost(ps2));
        assert(ps2.push(plain(content@)) =~= ps3);
        self.new_line(Ghost(start), Ghost(ps3));
        Ok(())
    }

    /// Draws the calendar of a month: the header with the month and year, the
    /// week header from `week_start`, and six weeks of days from the week that
    /// holds the first of the month (a week earlier when the month starts on
    /// `week_start`), each day styled (see [month_day_piece]). The weeks are
    /// drawn when chrono has the first of the month and every day of them, and
    /// stop at the first day it does not have.
    #[verifier::rlimit(40)]
    pub fn print_calendar_month(
        &mut self,
        month: u32,
        year: i32,
        week_start: Weekday,
        today: CalendarDate,
        selected_date: CalendarDate,
        min_date: Option<CalendarDate>,
        max_date: Option<CalendarDate>,
    ) -> (r: InquireResult<()>)
        requires
            1 <= month <= 12,
        ensures
            r is Ok,
            ({
                let head = month_head_pieces(month, year, week_start);
                let weeks = |s: int| month_weeks_pieces(s, 6, month, today, selected_date, min_date, max_date);
                &&& old(self).spec_output().len() <= final(self).spec_output().len()
                &&& final(self).spec_output().take(old(self).spec_output().len() as int) == old(self).spec_output()
                &&& match spec_from_ymd(year, month, 1) {
                    Some(first) => match spec_calendar_start(first as int, spec_weekday_index(week_start)) {
                        Some(s) => spec_days_valid(s, 43) ==> final(self).drew(old(self), head + weeks(s),
                            sat_count((old(self).spec_lines() + 8) as nat)),
                        None => final(self).drew(old(self), head, sat_count((old(self).spec_lines() + 2) as nat)),
                    },
                    None => final(self).drew(old(self), head, sat_count((old(self).spec_lines() + 2) as nat)),
                }
            }),
            final(self).spec_dull() == old(self).spec_dull(),
            final(self).spec_has_keys() == old(self).spec_has_keys(),
            final(self).spec_pending_keys() == old(self).spec_pending_keys(),
            final(self).wf() == old(self).wf(),
    {
        let ghost start = self.spec_output();
        let ghost lines0 = self.spec_lines();
        proof {
            assert(start.take(start.len() as int) =~= start);
            lemma_pieces_empty(self.spec_dull(), start.skip(start.len() as int));
            reveal_strlit("> ");
            reveal_strlit(" ");
        }
        let header = calendar_header(month, year);
        let week = week_header(week_start);
        let prefix = Styled::new("> ").with_fg(Color::DarkGreen);
        let ghost arrow = colored("> "@, Color::DarkGreen);
        self.emit(prefix, Ghost(start), Ghost(Seq::empty()));
        let ghost mut ps: Seq<Piece> = seq![arrow];
        assert(Seq::<Piece>::empty().push(arrow) =~= ps);
        self.emit_plain(header.as_str(), Ghost(start), Ghost(ps));
        proof { ps = ps.push(plain(header@)); }
        self.new_line(Ghost(start), Ghost(ps));
        proof { ps = ps + line_end(); }
        self.emit(prefix, Ghost(start), Ghost(ps));
        proof { ps = ps.push(arrow); }
        self.emit_plain(week.as_str(), Ghost(start), Ghost(ps));
        proof { ps = ps.push(plain(week@)); }
        self.new_line(Ghost(start), Ghost(ps));
        proof { ps = ps + line_end(); }
        let ghost head = month_head_pieces(month, year, week_start);
        assert(ps =~= head);
        assert(self.spec_lines() == sat_count((lines0 + 2) as nat));
        let first = date_from_ymd(year, month, 1);
        if let Some(first) = first {
            let ws = week_start.index();
            let ghost wsi = spec_weekday_index(week_start);
            let mut date_it = first;
            let mut ok = true;
            if weekday_of(date_it) == ws {
                match shift_days(date_it, -7) {
                    Some(d) => date_it = d,
                    None => ok = false,
                }
            } else {
                let mut steps: u32 = 0;
                while steps < 7 && ok && weekday_of(date_it) != ws
                    invariant
                        spec_valid_days(date_it.days),
                        steps <= 7,
                        ws == wsi,
                        ok ==> spec_scan_back(first.days as int, wsi, 0) == spec_scan_back(date_it.days as int, wsi, steps as nat),
                        !ok ==> spec_scan_back(first.days as int, wsi, 0) is None,
                    decreases 7 - steps,
                {
                    match shift_days(date_it, -1) {
                        Some(d) => date_it = d,
                        None => ok = false,
                    }
                    steps = steps + 1;
                }
            }
            let ghost s0 = date_it.days as int;
            let ghost all_valid = spec_calendar_start(first.days as int, wsi) == Some(s0) && spec_days_valid(s0, 43);
            assert(ok ==> spec_calendar_start(first.days as int, wsi) == Some(s0));
            assert(!ok ==> spec_calendar_start(first.days as int, wsi) is None);
            let mut week_row: u32 = 0;
            while ok && week_row < 6
                invariant
                    week_row <= 6,
                    ok ==> spec_valid_days(date_it.days) && date_it.days == s0 + 7 * week_row,
                    all_valid ==> spec_calendar_start(first.days as int, wsi) == Some(s0) && spec_days_valid(s0, 43),
                    all_valid ==> ok && ps == head + month_weeks_pieces(s0, week_row as nat, month, today, selected_date,
                        min_date, max_date) && self.spec_lines() == sat_count((lines0 + 2 + week_row) as nat),
                    !ok && week_row == 0 ==> ps == head && self.spec_lines() == sat_count((lines0 + 2) as nat),
                    spec_calendar_start(first.days as int, wsi) is None ==> !ok && week_row == 0,
                    prefix == (Styled { content: "> ", fg: Some(Color::DarkGreen), bg: None, att: Attributes { bits: 0 } }),
                    arrow == colored("> "@, Color::DarkGreen),
                    start == old(self).spec_output(),
                    start.len() <= self.spec_output().len(),
                    self.spec_output().take(start.len() as int) == start,
                    pieces_sent(old(self).spec_dull(), ps, self.spec_output().skip(start.len() as int)),
                    self.spec_dull() == old(self).spec_dull(),
                    self.spec_has_keys() == old(self).spec_has_keys(),
                    self.spec_pending_keys() == old(self).spec_pending_keys(),
                    self.wf() == old(self).wf(),
                decreases 6 - week_row,
            {
                let ghost row_head = ps;
                self.emit(prefix, Ghost(start), Ghost(ps));
                proof { ps = ps.push(arrow); }
                let ghost row_lines = self.spec_lines();
                let ghost row_base = date_it.days as int;
                let mut i: u32 = 0;
                while ok && i < 7
                    invariant
                        i <= 7,
                        week_row < 6,
                        row_base == s0 + 7 * week_row,
                        ok ==> spec_valid_days(date_it.days) && date_it.days == row_base + i,
                        all_valid ==> spec_days_valid(s0, 43),
                        all_valid ==> ok && ps == row_head.push(arrow) + month_days_pieces(row_base, i as nat, month, today,
                            selected_date, min_date, max_date),
                        start == old(self).spec_output(),
                        start.len() <= self.spec_output().len(),
                        self.spec_output().take(start.len() as int) == start,
                        pieces_sent(old(self).spec_dull(), ps, self.spec_output().skip(start.len() as int)),
                        self.spec_lines() == row_lines,
                        self.spec_dull() == old(self).spec_dull(),
                        self.spec_has_keys() == old(self).spec_has_keys(),
                        self.spec_pending_keys() == old(self).spec_pending_keys(),
                        self.wf() == old(self).wf(),
                    decreases 7 - i,
                {
                    let ghost before = ps;
                    if i > 0 {
                        self.emit_plain(" ", Ghost(start), Ghost(ps));
                        proof { ps = ps.push(plain(" "@)); }
                    }
                    let (_, date_month, day) = date_parts(date_it);
                    let text = day_text(day);
                    let mut token = Styled::new(text.as_str());
                    if date_it.days == selected_date.days {
                        token = token.with_bg(Color::Grey).with_fg(Color::Black);
                    } else if date_it.days == today.days {
                        token = token.with_fg(Color::DarkGreen);
                    } else if date_month != month {
                        token = token.with_fg(Color::DarkGrey);
                    }
                    if let Some(m) = min_date {
                        if date_it.days < m.days {
                            token = token.with_fg(Color::DarkGrey);
                        }
                    }
                    if let Some(m) = max_date {
                        if date_it.days > m.days {
                            token = token.with_fg(Color::DarkGrey);
                        }
                    }
                    self.emit(token, Ghost(start), Ghost(ps));
                    proof {
                        let piece = Piece { text: token.content@, fg: token.fg, bg: token.bg, att: token.att };
                        assert(piece == month_day_piece(date_it.days as int, month, today, selected_date, min_date, max_date));
                        ps = ps.push(piece);
                        if all_valid {
                            let k = 7 * week_row + i + 1;
                            assert(0 <= k < 43);
                            assert(spec_valid_days((s0 + k) as i32));
                            assert(month_days_pieces(row_base, (i + 1) as nat, month, today, selected_date, min_date, max_date)
                                == month_days_pieces(row_base, i as nat, month, today, selected_date, min_date, max_date)
                                + (if i + 1 > 1 { seq![plain(" "@)] } else { Seq::empty() })
                                + seq![month_day_piece(row_base + i, month, today, selected_date, min_date, max_date)]);
                            assert(ps =~= row_head.push(arrow) + month_days_pieces(row_base, (i + 1) as nat, month, today,
                                selected_date, min_date, max_date));
                        }
                    }
                    match shift_days(date_it, 1) {
                        Some(d) => date_it = d,
                        None => ok = false,
                    }
                    i = i + 1;
                }
                self.new_line(Ghost(start), Ghost(ps));
                proof {
                    ps = ps + line_end();
                    if all_valid {
                        assert(month_weeks_pieces(s0, (week_row + 1) as nat, month, today, selected_date, min_date, max_date)
                            == month_weeks_pieces(s0, week_row as nat, month, today, selected_date, min_date, max_date)
                            + seq![arrow] + month_days_pieces(s0 + 7 * week_row, 7, month, today, selected_date, min_date, max_date)
                            + line_end());
                        assert(ps =~= head + month_weeks_pieces(s0, (week_row + 1) as nat, month, today, selected_date,
                            min_date, max_date));
                    }
                }
                week_row = week_row + 1;
            }
        }
        Ok(())
    }

    /// Replaces the frame by the prompt with its answer.
    pub fn cleanup(&mut self, message: &str, answer: &str) -> (r: InquireResult<()>)
        ensures
            r is Ok,
            ({
                let erased = old(self).spec_output() + erased_lines(old(self).spec_lines() as nat);
                &&& erased.len() <= final(self).spec_output().len()
                &&& final(self).spec_output().take(erased.len() as int) == erased
                &&& pieces_sent(old(self).spec_dull(),
                    prompt_head(message@) + seq![colored(" "@ + answer@, Color::DarkCyan)] + line_end(),
                    final(self).spec_output().skip(erased.len() as int))
                &&& final(self).spec_lines() == 1
            }),
            final(self).spec_dull() == old(self).spec_dull(),
            final(self).spec_has_keys() == old(self).spec_has_keys(),
            final(self).spec_pending_keys() == old(self).spec_pending_keys(),
            final(self).wf() == old(self).wf(),
    {
        let _ = self.reset_prompt();
        self.print_prompt_answer(message, answer)
    }

    /// Output held in memory needs no flushing; the caller flushes the device.
    pub fn flush(&mut self) -> (r: InquireResult<()>)
        ensures
            r is Ok,
            *final(self) == *old(self),
    {
        Ok(())
    }

    /// Reads the next held key, as a prompt key; `None` when the terminal holds
    /// none (its caller reads the keyboard).
    pub fn read_key(&mut self) -> (r: InquireResult<Option<Key>>)
        requires
            old(self).wf(),
            old(self).spec_has_keys() ==> old(self).spec_pending_keys().len() > 0,
        ensures
            old(self).spec_has_keys() ==> r == Ok::<Option<Key>, crate::error::InquireError>(
                Some(crate::key::spec_key_from_event(old(self).spec_pending_keys()[0])))
                && final(self).spec_pending_keys() == old(self).spec_pending_keys().drop_first(),
            !old(self).spec_has_keys() ==> r matches Ok(None),
            final(self).spec_output() == old(self).spec_output(),
            final(self).spec_lines() == old(self).spec_lines(),
            final(self).spec_dull() == old(self).spec_dull(),
            final(self).spec_has_keys() == old(self).spec_has_keys(),
            final(self).wf(),
    {
        match self.backend.read_key() {
            Ok(Some(event)) => Ok(Some(Key::from_event(event))),
            Ok(None) => Ok(None),
            Err(e) => Err(crate::error::InquireError::from_io(e)),
        }
    }

    /// Hands over what was sent so far, for the caller to send to the device;
    /// the frame's line count is kept.
    pub fn take_output(&mut self) -> (r: String)
        ensures
            r@ == old(self).spec_output(),
            final(self).spec_output() == Seq::<char>::empty(),
            final(self).spec_lines() == old(self).spec_lines(),
            final(self).spec_dull() == old(self).spec_dull(),
            final(self).spec_has_keys() == old(self).spec_has_keys(),
            final(self).spec_pending_keys() == old(self).spec_pending_keys(),
            final(self).wf() == old(self).wf(),
    {
        self.backend.take_output()
    }

    /// Hands the terminal back, with the cursor shown again.
    pub fn close(self) -> (r: OldTerminal)
        ensures
            r.spec_output() == self.spec_output() + csi("?25h"@),
    {
        let mut backend = self.backend;
        let _ = backend.cursor_show();
        backend
    }
}

} // verus!
