//! Drawing prompts on a terminal: the frames of every kind of prompt.
//!
//! A frame is drawn line by line; the backend counts the lines so that the next
//! frame can erase them first. What the contracts follow is the text of the
//! frame (the characters written, without the escape sequences around them) and
//! the line count.

use crate::ansi::csi;
use crate::date::{
    spec_date_parts, spec_from_ymd, spec_weekday,
    centered, date_from_ymd, date_parts, month_name, shift_days, spec_centered, spec_month_name,
    spec_short_name, spec_valid_days, spec_weekday_from_index, spec_weekday_index, weekday_of,
    CalendarDate, Weekday,
};
use crate::decimal::{push_decimal, spec_decimal};
use crate::strings::{spec_to_lowercase, to_lowercase};
use crate::ui::Attributes;
use crate::key::Key;
use crate::segmentation::spec_graphemes;
use crate::strings::{push_str, to_owned_string};
use crate::terminal::crossterm::spec_unix2dos;
use crate::terminal::{CrosstermTerminal, Terminal};
use crate::text_input::{Input, TextInputModel};
use crate::ui::renderer::{lemma_pieces_concat, lemma_pieces_empty, lemma_pieces_push, pieces_sent, plain, Piece};
use crate::ui::{Color, RenderConfig, StyleSheet, Styled};
use vstd::prelude::*;

verus! {

/// `n` copies of `s`, joined.
pub open spec fn repeat(s: Seq<char>, n: nat) -> Seq<char>
    decreases n,
{
    if n == 0 { Seq::empty() } else { repeat(s, (n - 1) as nat) + s }
}

/// The sequence that erases one line of the previous frame: up, first column, clear.
pub open spec fn erase_line() -> Seq<char> {
    csi("1A"@) + csi("1G"@) + csi("2K"@)
}

/// `x + 1`, saturating at the largest `usize`.
pub open spec fn sat_inc(x: usize) -> usize {
    if x < usize::MAX { (x + 1) as usize } else { x }
}

/// The operations every prompt needs from its backend.
pub trait CommonBackend {
    /// Reads the next key, when the terminal holds its keys.
    fn read_key(&mut self) -> std::io::Result<Option<Key>>;
    /// Erases the previous frame.
    fn frame_setup(&mut self) -> std::io::Result<()>;
    /// Completes a frame.
    fn frame_finish(&mut self) -> std::io::Result<()>;
    /// Replaces the prompt by the prompt with its answer.
    fn finish_prompt(&mut self, prompt: &str, answer: &str) -> std::io::Result<()>;
    /// Draws an error message line.
    fn render_error_message(&mut self, error: &str) -> std::io::Result<()>;
    /// Draws a help message line.
    fn render_help_message(&mut self, help: &str) -> std::io::Result<()>;
}

/// Drawing text prompts.
pub trait TextBackend: CommonBackend {
    /// Draws the prompt line with its input.
    fn render_prompt(&mut self, prompt: &str, default: Option<&str>, cur_input: &Input) -> std::io::Result<()>;
    /// Draws a suggestion line.
    fn render_suggestion(&mut self, content: &str, focused: bool) -> std::io::Result<()>;
}

/// Drawing select prompts.
pub trait SelectBackend: CommonBackend {
    /// Draws the prompt line with the typed filter.
    fn render_select_prompt(&mut self, prompt: &str, cur_input: &Input) -> std::io::Result<()>;
    /// Draws an option line.
    fn render_option(&mut self, content: &str, focused: bool) -> std::io::Result<()>;
}

/// Drawing multi-select prompts.
pub trait MultiSelectBackend: CommonBackend {
    /// Draws the prompt line with the typed filter.
    fn render_multiselect_prompt(&mut self, prompt: &str, cur_input: &Input) -> std::io::Result<()>;
    /// Draws an option line with its checkbox.
    fn render_multi_option(&mut self, content: &str, focused: bool, checked: bool) -> std::io::Result<()>;
}

/// Drawing custom-type prompts.
pub trait CustomTypeBackend: CommonBackend {
    /// Draws the prompt line with its input.
    fn render_custom_type_prompt(&mut self, prompt: &str, default: Option<&str>, cur_input: &Input) -> std::io::Result<()>;
}

/// Drawing password prompts.
pub trait PasswordBackend: CommonBackend {
    /// Draws the prompt line, without the input.
    fn render_password_prompt(&mut self, prompt: &str) -> std::io::Result<()>;
}

/// Drawing date prompts.
pub trait DateSelectBackend: CommonBackend {
    /// Draws the prompt line.
    fn render_calendar_prompt(&mut self, prompt: &str) -> std::io::Result<()>;
}

/// Draws prompts on a terminal with a render configuration.
pub struct Backend<'a> {
    cur_line: usize,
    terminal: CrosstermTerminal,
    render_config: &'a RenderConfig,
}

/// The text that the styled pieces of a prompt line hold: the prompt prefix, a
/// space and the prompt.
pub open spec fn prompt_text(prefix: Seq<char>, prompt: Seq<char>) -> Seq<char> {
    spec_unix2dos(prefix) + spec_unix2dos(" "@) + spec_unix2dos(prompt)
}

/// The input as a prompt line shows it: a space, the text before the cursor, the
/// grapheme at the cursor (a space past the end) and the text after it.
pub open spec fn input_text(content: Seq<char>, cursor: nat) -> Seq<char> {
    let gs = spec_graphemes(content);
    let c = cursor as int;
    let before = gs.take(if c < gs.len() { c } else { gs.len() as int }).flatten_alt();
    let at = if c < gs.len() { gs[c] } else { Seq::<char>::empty() };
    let after = if c < gs.len() { gs.skip(c + 1).flatten_alt() } else { Seq::<char>::empty() };
    spec_unix2dos(" "@) + spec_unix2dos(before) + spec_unix2dos(if at.len() == 0 { " "@ } else { at })
        + spec_unix2dos(after)
}

/// The lines of a list of options: each row with the cursor mark ("> " on the
/// row of `cursor`, two spaces elsewhere), for the first `k` rows.
pub open spec fn list_text(rows: Seq<Seq<char>>, cursor: Option<usize>, k: nat) -> Seq<char>
    decreases k,
{
    if k == 0 {
        Seq::empty()
    } else {
        list_text(rows, cursor, (k - 1) as nat) + spec_unix2dos(
            (if cursor == Some((k - 1) as usize) { "> "@ } else { "  "@ }) + rows[k - 1],
        ) + newline_text()
    }
}

/// The lines of a list of options with checkboxes, for the first `k` rows: the
/// cursor mark on row `cursor`, the checkbox by `checked`, and the row's text.
pub open spec fn checkbox_list_text(rows: Seq<Seq<char>>, checked: Seq<bool>, cursor: nat, k: nat) -> Seq<char>
    decreases k,
{
    if k == 0 {
        Seq::empty()
    } else {
        checkbox_list_text(rows, checked, cursor, (k - 1) as nat)
            + spec_unix2dos(if cursor == k - 1 { "> "@ } else { "  "@ })
            + spec_unix2dos(if checked[k - 1] { "[x] "@ } else { "[ ] "@ })
            + spec_unix2dos(rows[k - 1]) + newline_text()
    }
}

/// The end of a line: a line feed.
pub open spec fn newline_text() -> Seq<char> {
    spec_unix2dos("\n"@)
}

/// The piece that writing `text` with `style` sends, its line endings converted.
pub open spec fn styled_piece(style: StyleSheet, text: Seq<char>) -> Piece {
    Piece { text: spec_unix2dos(text), fg: style.fg, bg: style.bg, att: style.att }
}

/// The piece that writing `text` without a style sends, its line endings converted.
pub open spec fn text_piece(text: Seq<char>) -> Piece {
    plain(spec_unix2dos(text))
}

/// The pieces that end a line: back to the first column, then a line feed.
pub open spec fn line_end_pieces() -> Seq<Piece> {
    seq![plain(csi(spec_decimal(1) + "G"@)), text_piece("\n"@)]
}

/// The pieces of a help line: the message between brackets, in the help
/// style, then the line end.
pub open spec fn help_line_pieces(style: StyleSheet, help: Seq<char>) -> Seq<Piece> {
    seq![styled_piece(style, "["@), styled_piece(style, help), styled_piece(style, "]"@)] + line_end_pieces()
}

/// One piece sent is the list of that piece sent.
proof fn lemma_one_piece(p: Piece, out: Seq<char>)
    requires
        crate::ui::renderer::piece_sent(false, p, out),
    ensures
        pieces_sent(false, seq![p], out),
{
    lemma_pieces_empty(false, Seq::empty());
    lemma_pieces_push(false, Seq::empty(), Seq::empty(), p, out);
    assert(Seq::<Piece>::empty().push(p) =~= seq![p]);
    assert(Seq::<char>::empty() + out =~= out);
}

impl<'a> Backend<'a> {
    /// The text of everything drawn (without escape sequences).
    pub closed spec fn spec_text(&self) -> Seq<char> {
        self.terminal.spec_in_memory()
    }

    /// How many lines the current frame has.
    pub closed spec fn spec_lines(&self) -> usize {
        self.cur_line
    }

    /// Everything sent to the terminal.
    pub closed spec fn spec_output(&self) -> Seq<char> {
        self.terminal.spec_output()
    }

    /// The keys not read yet, when the terminal holds its own.
    pub closed spec fn spec_pending_keys(&self) -> Seq<crate::key::KeyEvent> {
        self.terminal.spec_pending_keys()
    }

    /// Whether the terminal holds its own keys.
    pub closed spec fn spec_has_keys(&self) -> bool {
        self.terminal.spec_has_keys()
    }

    /// The render configuration.
    pub closed spec fn spec_config(&self) -> RenderConfig {
        *self.render_config
    }

    /// The invariant of the terminal.
    pub closed spec fn wf(&self) -> bool {
        self.terminal.wf()
    }

    /// Whether what `self` sent, after what `old` had sent, is the pieces `ps`.
    pub open spec fn sent(&self, old: &Self, ps: Seq<Piece>) -> bool {
        &&& self.spec_output().len() >= old.spec_output().len()
        &&& self.spec_output().take(old.spec_output().len() as int) == old.spec_output()
        &&& pieces_sent(false, ps, self.spec_output().skip(old.spec_output().len() as int))
    }

    /// Whether `self` is `old` with `added` drawn and `lines` lines counted.
    pub open spec fn drew(&self, old: &Self, added: Seq<char>, lines: usize) -> bool {
        &&& self.spec_text() == old.spec_text() + added
        &&& self.spec_lines() == lines
        &&& self.spec_pending_keys() == old.spec_pending_keys()
        &&& self.spec_has_keys() == old.spec_has_keys()
        &&& self.spec_config() == old.spec_config()
        &&& self.wf() == old.wf()
    }

    /// Sending `a` then `b` sends `a + b`.
    pub proof fn lemma_sent_chain(b1: Self, b2: Self, b3: Self, a: Seq<Piece>, b: Seq<Piece>)
        requires
            b2.sent(&b1, a),
            b3.sent(&b2, b),
        ensures
            b3.sent(&b1, a + b),
    {
        let o1 = b1.spec_output();
        let o2 = b2.spec_output();
        let o3 = b3.spec_output();
        assert(o2 =~= o1 + o2.skip(o1.len() as int));
        assert(o3 =~= o2 + o3.skip(o2.len() as int));
        assert(o3.take(o1.len() as int) =~= o1);
        assert(o3.skip(o1.len() as int) =~= o2.skip(o1.len() as int) + o3.skip(o2.len() as int));
        lemma_pieces_concat(false, a, o2.skip(o1.len() as int), b, o3.skip(o2.len() as int));
    }

    /// A backend on `terminal`: the cursor is hidden while prompts are drawn.
    pub fn new(terminal: CrosstermTerminal, render_config: &'a RenderConfig) -> (r: std::io::Result<Self>)
        ensures
            r matches Ok(b) && b.spec_lines() == 0 && b.spec_text() == terminal.spec_in_memory()
                && b.spec_output() == terminal.spec_output() + csi("?25l"@)
                && b.spec_pending_keys() == terminal.spec_pending_keys()
                && b.spec_has_keys() == terminal.spec_has_keys()
                && b.spec_config() == *render_config
                && b.wf() == terminal.wf(),
    {
        let mut backend = Backend { cur_line: 0, terminal, render_config };
        let _ = backend.terminal.cursor_hide();
        Ok(backend)
    }

    /// Hands the terminal back, with the cursor shown again.
    pub fn into_terminal(self) -> (r: CrosstermTerminal)
        ensures
            r.spec_output() == self.spec_output() + csi("?25h"@),
            r.spec_in_memory() == self.spec_text(),
            r.spec_pending_keys() == self.spec_pending_keys(),
            r.wf() == self.wf(),
    {
        let mut terminal = self.terminal;
        let _ = terminal.cursor_show();
        terminal
    }

    /// Everything sent to the terminal so far.
    pub fn output(&self) -> (r: &str)
        ensures
            r@ == self.spec_output(),
    {
        self.terminal.output()
    }

    /// Hands over what was sent so far, for the caller to send to the device.
    pub fn take_output(&mut self) -> (r: String)
        requires
            old(self).wf(),
        ensures
            r@ == old(self).spec_output(),
            final(self).drew(old(self), Seq::empty(), old(self).spec_lines()),
    {
        self.terminal.take_output()
    }

    /// Erases the lines of the previous frame, bottom up.
    pub fn reset_prompt(&mut self) -> (r: std::io::Result<()>)
        ensures
            r is Ok,
            final(self).drew(old(self), Seq::empty(), 0),
            final(self).spec_output() == old(self).spec_output() + repeat(erase_line(), old(self).spec_lines() as nat),
    {
        let mut i: usize = 0;
        let n = self.cur_line;
        let ghost start = self.terminal.spec_output();
        while i < n
            invariant
                i <= n,
                n == old(self).cur_line,
                self.render_config == old(self).render_config,
                self.terminal.spec_in_memory() == old(self).terminal.spec_in_memory(),
                self.terminal.spec_pending_keys() == old(self).terminal.spec_pending_keys(),
                self.terminal.spec_has_keys() == old(self).terminal.spec_has_keys(),
                self.terminal.wf() == old(self).terminal.wf(),
                self.terminal.spec_output() == start + repeat(erase_line(), i as nat),
            decreases n - i,
        {
            let _ = self.terminal.cursor_up(1);
            let _ = self.terminal.cursor_move_to_column(0);
            let _ = self.terminal.clear_current_line();
            proof {
                reveal_strlit("1A");
                reveal_strlit("1G");
                reveal_strlit("A");
                reveal_strlit("G");
                assert(crate::decimal::spec_decimal(1) =~= seq!['1']);
                assert(crate::decimal::spec_decimal(1) + "A"@ =~= "1A"@);
                assert(crate::decimal::spec_decimal((0 + 1) as nat) + "G"@ =~= "1G"@);
                assert(start + repeat(erase_line(), (i + 1) as nat) =~= start + repeat(erase_line(), i as nat) + erase_line());
            }
            i = i + 1;
        }
        self.cur_line = 0;
        Ok(())
    }

    /// Ends the current line and counts it.
    fn new_line(&mut self) -> (r: std::io::Result<()>)
        ensures
            r is Ok,
            final(self).drew(old(self), newline_text(), sat_inc(old(self).spec_lines())),
            final(self).sent(old(self), line_end_pieces()),
    {
        let ghost o0 = self.spec_output();
        let _ = self.terminal.cursor_move_to_column(0);
        let ghost o1 = self.spec_output();
        let _ = self.terminal.write("\n");
        self.cur_line = self.cur_line.saturating_add(1);
        proof {
            let col = csi(spec_decimal(1) + "G"@);
            let o2 = self.spec_output();
            assert(o1 == o0 + col);
            assert(o2 == o1 + newline_text());
            lemma_pieces_empty(false, Seq::empty());
            lemma_pieces_push(false, Seq::empty(), Seq::empty(), plain(col), col);
            assert(Seq::<Piece>::empty().push(plain(col)) =~= seq![plain(col)]);
            assert(Seq::<char>::empty() + col =~= col);
            lemma_pieces_push(false, seq![plain(col)], col, text_piece("\n"@), newline_text());
            assert(seq![plain(col)].push(text_piece("\n"@)) =~= line_end_pieces());
            assert(o2.skip(o0.len() as int) =~= col + newline_text());
            assert(o2.take(o0.len() as int) =~= o0);
        }
        Ok(())
    }

    fn write_styled_str(&mut self, content: &str, style: StyleSheet) -> (r: std::io::Result<()>)
        ensures
            r is Ok,
            final(self).drew(old(self), spec_unix2dos(content@), old(self).spec_lines()),
            final(self).sent(old(self), seq![styled_piece(style, content@)]),
    {
        let token = Styled::new(content).with_style_sheet(style);
        let ghost o0 = self.spec_output();
        let r = self.terminal.write_styled(&token);
        proof {
            let out = self.spec_output().skip(o0.len() as int);
            let text = spec_unix2dos(content@);
            let (fg, bg, fr, br) = choose|fg: Seq<char>, bg: Seq<char>, fr: Seq<char>, br: Seq<char>|
                (token.fg matches Some(c) ==> crate::ansi::color_sequence(crate::ansi::spec_color_params("38;"@, c), fg))
                && (token.bg matches Some(c) ==> crate::ansi::color_sequence(crate::ansi::spec_color_params("48;"@, c), bg))
                && crate::ansi::color_sequence("39"@, fr) && crate::ansi::color_sequence("49"@, br)
                && out == #[trigger] crate::terminal::crossterm::spec_styled_output(token, text, fg, bg, fr, br);
            let bare = Styled { content: "", fg: style.fg, bg: style.bg, att: style.att };
            assert(crate::terminal::crossterm::spec_styled_output(bare, text, fg, bg, fr, br)
                == crate::terminal::crossterm::spec_styled_output(token, text, fg, bg, fr, br));
            lemma_one_piece(styled_piece(style, content@), out);
        }
        r
    }

    fn write_plain(&mut self, content: &str) -> (r: std::io::Result<()>)
        ensures
            r is Ok,
            final(self).drew(old(self), spec_unix2dos(content@), old(self).spec_lines()),
            final(self).sent(old(self), seq![text_piece(content@)]),
    {
        let ghost o0 = self.spec_output();
        let r = self.terminal.write(content);
        proof {
            assert(self.spec_output().skip(o0.len() as int) =~= spec_unix2dos(content@));
            assert(self.spec_output().take(o0.len() as int) =~= o0);
            lemma_one_piece(text_piece(content@), spec_unix2dos(content@));
        }
        r
    }

    /// Draws the prompt prefix, a space and the prompt.
    fn print_prompt(&mut self, prompt: &str) -> (r: std::io::Result<()>)
        ensures
            r is Ok,
            final(self).drew(old(self), prompt_text(old(self).spec_config().prompt_prefix.content@, prompt@), old(self).spec_lines()),
    {
        let prefix = self.render_config.prompt_prefix;
        let _ = self.terminal.write_styled(&prefix);
        let _ = self.write_plain(" ");
        let style = self.render_config.prompt;
        let _ = self.write_styled_str(prompt, style);
        assert(self.spec_text() =~= old(self).spec_text() + prompt_text(old(self).spec_config().prompt_prefix.content@, prompt@));
        Ok(())
    }

    /// Draws the prompt line with the answer, and ends the line.
    fn print_prompt_with_answer(&mut self, prompt: &str, answer: &str) -> (r: std::io::Result<()>)
        ensures
            r is Ok,
            final(self).drew(old(self),
                prompt_text(old(self).spec_config().prompt_prefix.content@, prompt@) + spec_unix2dos(" "@)
                    + spec_unix2dos(answer@) + newline_text(),
                sat_inc(old(self).spec_lines())),
    {
        let _ = self.print_prompt(prompt);
        let _ = self.write_plain(" ");
        let style = self.render_config.answer;
        let _ = self.write_styled_str(answer, style);
        let _ = self.new_line();
        assert(self.spec_text() =~= old(self).spec_text() + (prompt_text(old(self).spec_config().prompt_prefix.content@, prompt@) + spec_unix2dos(" "@)
                    + spec_unix2dos(answer@) + newline_text()));
        Ok(())
    }

    /// Draws the input: the text before the cursor, the grapheme at the cursor
    /// in the cursor's style (a space past the end), and the rest.
    fn print_input(&mut self, input: &Input) -> (r: std::io::Result<()>)
        ensures
            r is Ok,
            final(self).drew(old(self), input_text(input@.content, input@.cursor), old(self).spec_lines()),
    {
        let (before, at, after) = input.split();
        let at = if at.as_str().is_empty() { to_owned_string(" ") } else { at };
        let _ = self.write_plain(" ");
        let text = self.render_config.text_input.text;
        let cursor = self.render_config.text_input.cursor;
        let _ = self.write_styled_str(before.as_str(), text);
        let _ = self.write_styled_str(at.as_str(), cursor);
        let _ = self.write_styled_str(after.as_str(), text);
        assert(self.spec_text() =~= old(self).spec_text() + input_text(input@.content, input@.cursor));
        Ok(())
    }

    /// Draws the prompt line with the default value, if any, and the input, and
    /// ends the line.
    fn print_prompt_with_input(&mut self, prompt: &str, default: Option<&str>, input: &Input) -> (r: std::io::Result<()>)
        ensures
            r is Ok,
            final(self).drew(old(self),
                prompt_text(old(self).spec_config().prompt_prefix.content@, prompt@)
                    + match default {
                        Some(d) => spec_unix2dos(" "@) + spec_unix2dos("("@ + d@ + ")"@),
                        None => Seq::empty(),
                    }
                    + input_text(input@.content, input@.cursor) + newline_text(),
                sat_inc(old(self).spec_lines())),
    {
        let _ = self.print_prompt(prompt);
        if let Some(default) = default {
            let _ = self.write_plain(" ");
            let mut content = to_owned_string("(");
            push_str(&mut content, default);
            push_str(&mut content, ")");
            let style = self.render_config.default_value;
            let _ = self.write_styled_str(content.as_str(), style);
        }
        let _ = self.print_input(input);
        let _ = self.new_line();
        assert(self.spec_text() =~= old(self).spec_text() + (prompt_text(old(self).spec_config().prompt_prefix.content@, prompt@)
                    + match default {
                        Some(d) => spec_unix2dos(" "@) + spec_unix2dos("("@ + d@ + ")"@),
                        None => Seq::empty(),
                    }
                    + input_text(input@.content, input@.cursor) + newline_text()));
        Ok(())
    }

    /// Draws a line with `mark` in the highlight color followed by `content`, or
    /// two spaces and `content` when not focused.
    fn render_list_line(&mut self, content: &str, focused: bool) -> (r: std::io::Result<()>)
        ensures
            r is Ok,
            final(self).drew(old(self),
                spec_unix2dos((if focused { "> "@ } else { "  "@ }) + content@) + newline_text(),
                sat_inc(old(self).spec_lines())),
    {
        let mut text = if focused { to_owned_string("> ") } else { to_owned_string("  ") };
        push_str(&mut text, content);
        if focused {
            let _ = self.write_styled_str(text.as_str(), StyleSheet::empty().with_fg(Color::LightCyan));
        } else {
            let _ = self.write_styled_str(text.as_str(), StyleSheet::empty());
        }
        let _ = self.new_line();
        assert(self.spec_text() =~= old(self).spec_text() + (spec_unix2dos((if focused { "> "@ } else { "  "@ }) + content@) + newline_text()));
        Ok(())
    }

    /// Draws a line with a cursor mark, a checkbox and `content`.
    fn render_checkbox_line(&mut self, content: &str, focused: bool, checked: bool) -> (r: std::io::Result<()>)
        ensures
            r is Ok,
            final(self).drew(old(self),
                spec_unix2dos(if focused { "> "@ } else { "  "@ }) + spec_unix2dos(if checked { "[x] "@ } else { "[ ] "@ })
                    + spec_unix2dos(content@) + newline_text(),
                sat_inc(old(self).spec_lines())),
    {
        if focused {
            let _ = self.write_styled_str("> ", StyleSheet::empty().with_fg(Color::LightCyan));
        } else {
            let _ = self.write_styled_str("  ", StyleSheet::empty());
        }
        if checked {
            let _ = self.write_styled_str("[x] ", StyleSheet::empty().with_fg(Color::LightGreen));
        } else {
            let _ = self.write_styled_str("[ ] ", StyleSheet::empty());
        }
        let _ = self.write_plain(content);
        let _ = self.new_line();
        assert(self.spec_text() =~= old(self).spec_text() + (spec_unix2dos(if focused { "> "@ } else { "  "@ }) + spec_unix2dos(if checked { "[x] "@ } else { "[ ] "@ })
                    + spec_unix2dos(content@) + newline_text()));
        Ok(())
    }

    /// Draws the calendar of a month: the header with the month and year, the
    /// week header from `week_start`, and six weeks of days from the week that
    /// holds the first of the month, each styled (see [spec_calendar_day_style]).
    /// The weeks are drawn when chrono has the first of the month and every day
    /// of them, and stop at the first day it does not have.
    #[verifier::rlimit(50)]
    pub fn render_calendar(
        &mut self,
        month: u32,
        year: i32,
        week_start: Weekday,
        today: CalendarDate,
        selected_date: CalendarDate,
        min_date: Option<CalendarDate>,
        max_date: Option<CalendarDate>,
    ) -> (r: std::io::Result<()>)
        requires
            1 <= month <= 12,
        ensures
            r is Ok,
            ({
                let head = old(self).spec_text() + spec_calendar_head(month, year, week_start);
                &&& final(self).spec_text().len() >= head.len()
                &&& final(self).spec_text().take(head.len() as int) == head
                &&& match spec_from_ymd(year, month, 1) {
                    Some(first) => match spec_calendar_start(first as int, spec_weekday_index(week_start)) {
                        Some(start) => spec_days_valid(start, 43) ==> final(self).spec_text() == head + spec_weeks_text(start, 6),
                        None => final(self).spec_text() == head,
                    },
                    None => final(self).spec_text() == head,
                }
            }),
            ({
                let head = calendar_head_pieces(month, year, week_start);
                match spec_from_ymd(year, month, 1) {
                    Some(first) => match spec_calendar_start(first as int, spec_weekday_index(week_start)) {
                        Some(start) => spec_days_valid(start, 43) ==> final(self).sent(old(self),
                            head + calendar_weeks_pieces(start, 6, month, today, selected_date, min_date, max_date)),
                        None => final(self).sent(old(self), head),
                    },
                    None => final(self).sent(old(self), head),
                }
            }),
            final(self).spec_config() == old(self).spec_config(),
            final(self).spec_pending_keys() == old(self).spec_pending_keys(),
            final(self).spec_has_keys() == old(self).spec_has_keys(),
            final(self).wf() == old(self).wf(),
    {
        let ghost start = self.spec_text();
        let ghost b0 = *self;
        let prefix = StyleSheet::empty().with_fg(Color::LightGreen);
        let header = calendar_header(month, year);
        let _ = self.write_styled_str("> ", prefix);
        let ghost b1 = *self;
        let _ = self.write_plain(header.as_str());
        let ghost b2 = *self;
        let _ = self.new_line();
        let ghost b3 = *self;
        let week = week_header(week_start);
        let _ = self.write_styled_str("> ", prefix);
        let ghost b4 = *self;
        let _ = self.write_plain(week.as_str());
        let ghost b5 = *self;
        let _ = self.new_line();
        let ghost head = start + spec_calendar_head(month, year, week_start);
        let ghost head_ps = calendar_head_pieces(month, year, week_start);
        proof {
            let p1 = seq![styled_piece(calendar_prefix_style(), "> "@)];
            let p2 = seq![text_piece(spec_calendar_header(month, year))];
            let p4 = seq![text_piece(spec_week_header(week_start))];
            Self::lemma_sent_chain(b0, b1, b2, p1, p2);
            Self::lemma_sent_chain(b0, b2, b3, p1 + p2, line_end_pieces());
            Self::lemma_sent_chain(b0, b3, b4, p1 + p2 + line_end_pieces(), p1);
            Self::lemma_sent_chain(b0, b4, b5, p1 + p2 + line_end_pieces() + p1, p4);
            Self::lemma_sent_chain(b0, b5, *self, p1 + p2 + line_end_pieces() + p1 + p4, line_end_pieces());
            assert(p1 + p2 + line_end_pieces() + p1 + p4 + line_end_pieces() =~= head_ps);
        }
        assert(self.spec_text() =~= head);
        assert(head.take(head.len() as int) =~= head);
        let first = date_from_ymd(year, month, 1);
        if let Some(first) = first {
            let ws = week_start.index();
            let ghost wsi = spec_weekday_index(week_start);
            let mut date_it = first;
            let mut ok = true;
            if weekday_of(date_it) == ws {
                match shift_days(date_it, -7) {
                    Some(d) => date_it = d,
                    None => ok = false,
                }
            } else {
                let mut steps: u32 = 0;
                while steps < 7 && ok && weekday_of(date_it) != ws
                    invariant
                        spec_valid_days(date_it.days),
                        steps <= 7,
                        ws == wsi,
                        ok ==> spec_scan_back(first.days as int, wsi, 0) == spec_scan_back(date_it.days as int, wsi, steps as nat),
                        !ok ==> spec_scan_back(first.days as int, wsi, 0) is None,
                    decreases 7 - steps,
                {
                    match shift_days(date_it, -1) {
                        Some(d) => date_it = d,
                        None => ok = false,
                    }
                    steps = steps + 1;
                }
            }
            let ghost s0 = date_it.days as int;
            let ghost all_valid = spec_calendar_start(first.days as int, wsi) == Some(s0) && spec_days_valid(s0, 43);
            assert(ok ==> spec_calendar_start(first.days as int, wsi) == Some(s0));
            assert(!ok ==> spec_calendar_start(first.days as int, wsi) is None);
            proof {
                assert(head_ps + calendar_weeks_pieces(s0, 0, month, today, selected_date, min_date, max_date) =~= head_ps);
            }
            let mut week_row: u32 = 0;
            while ok && week_row < 6
                invariant
                    week_row <= 6,
                    ok ==> spec_valid_days(date_it.days) && date_it.days == s0 + 7 * week_row,
                    all_valid ==> spec_calendar_start(first.days as int, wsi) == Some(s0) && spec_days_valid(s0, 43),
                    all_valid ==> ok && self.spec_text() == head + spec_weeks_text(s0, week_row as nat),
                    all_valid ==> self.sent(old(self),
                        head_ps + calendar_weeks_pieces(s0, week_row as nat, month, today, selected_date, min_date, max_date)),
                    !ok && week_row == 0 ==> self.spec_text() == head && self.sent(old(self), head_ps),
                    spec_calendar_start(first.days as int, wsi) is None ==> !ok && week_row == 0,
                    self.spec_text().len() >= head.len(),
                    self.spec_text().take(head.len() as int) == head,
                    self.spec_config() == old(self).spec_config(),
                    self.spec_pending_keys() == old(self).spec_pending_keys(),
                    self.spec_has_keys() == old(self).spec_has_keys(),
                    self.wf() == old(self).wf(),
                    prefix == calendar_prefix_style(),
                decreases 6 - week_row,
            {
                let ghost row_start = self.spec_text();
                let ghost row_sent = head_ps + calendar_weeks_pieces(s0, week_row as nat, month, today, selected_date, min_date, max_date);
                let ghost r0 = *self;
                let _ = self.write_styled_str("> ", prefix);
                proof {
                    if all_valid {
                        Self::lemma_sent_chain(*old(self), r0, *self, row_sent, seq![styled_piece(calendar_prefix_style(), "> "@)]);
                        assert(row_sent + seq![styled_piece(calendar_prefix_style(), "> "@)]
                            + calendar_days_pieces(s0 + 7 * week_row, 0, month, today, selected_date, min_date, max_date)
                            =~= row_sent + seq![styled_piece(calendar_prefix_style(), "> "@)]);
                    }
                }
                let ghost row_base = date_it.days as int;
                let ghost row_head = row_sent + seq![styled_piece(calendar_prefix_style(), "> "@)];
                let mut i: u32 = 0;
                while ok && i < 7
                    invariant
                        i <= 7,
                        week_row < 6,
                        row_base == s0 + 7 * week_row,
                        ok ==> spec_valid_days(date_it.days) && date_it.days == row_base + i,
                        all_valid ==> spec_days_valid(s0, 43),
                        all_valid ==> ok && self.spec_text() == row_start + spec_unix2dos("> "@) + spec_days_text(row_base, i as nat),
                        all_valid ==> self.sent(old(self),
                            row_head + calendar_days_pieces(row_base, i as nat, month, today, selected_date, min_date, max_date)),
                        self.spec_text().len() >= head.len(),
                        self.spec_text().take(head.len() as int) == head,
                        self.spec_config() == old(self).spec_config(),
                        self.spec_pending_keys() == old(self).spec_pending_keys(),
                        self.spec_has_keys() == old(self).spec_has_keys(),
                        self.wf() == old(self).wf(),
                    decreases 7 - i,
                {
                    let ghost before = self.spec_text();
                    let ghost d0 = *self;
                    let ghost done = row_head + calendar_days_pieces(row_base, i as nat, month, today, selected_date, min_date, max_date);
                    if i > 0 {
                        let _ = self.write_plain(" ");
                    }
                    let ghost d1 = *self;
                    let (_, date_month, day) = date_parts(date_it);
                    let text = day_text(day);
                    let style = calendar_day_style(date_it, date_month, month, today, selected_date, min_date, max_date);
                    let _ = self.write_styled_str(text.as_str(), style);
                    proof {
                        if all_valid {
                            let k = 7 * week_row + i + 1;
                            assert(0 <= k < 43);
                            assert(spec_valid_days((s0 + k) as i32));
                        }
                        assert(before.take(head.len() as int) == head);
                        assert(self.spec_text().take(head.len() as int) =~= head);
                        assert(spec_days_text(row_base, (i + 1) as nat) == spec_days_text(row_base, i as nat)
                            + (if i + 1 > 1 { spec_unix2dos(" "@) } else { Seq::empty() })
                            + spec_unix2dos(spec_day_text(spec_date_parts((row_base + i) as i32).2)));
                        if all_valid {
                            assert(self.spec_text() =~= row_start + spec_unix2dos("> "@) + spec_days_text(row_base, (i + 1) as nat));
                            let sp: Seq<Piece> = if i > 0 { seq![text_piece(" "@)] } else { Seq::empty() };
                            if i > 0 {
                                Self::lemma_sent_chain(*old(self), d0, d1, done, sp);
                            } else {
                                assert(done + sp =~= done);
                                assert(d1 == d0);
                            }
                            assert(date_it == CalendarDate { days: (row_base + i) as i32 });
                            let dp = calendar_day_piece(row_base + i, month, today, selected_date, min_date, max_date);
                            assert(styled_piece(style, text@) == dp);
                            Self::lemma_sent_chain(*old(self), d1, *self, done + sp, seq![dp]);
                            assert(done + sp + seq![dp] =~= row_head
                                + calendar_days_pieces(row_base, (i + 1) as nat, month, today, selected_date, min_date, max_date));
                        }
                    }
                    match shift_days(date_it, 1) {
                        Some(d) => date_it = d,
                        None => ok = false,
                    }
                    i = i + 1;
                }
                let ghost before_nl = self.spec_text();
                let ghost n0 = *self;
                let _ = self.new_line();
                proof {
                    assert(self.spec_text().take(head.len() as int) =~= head);
                    if all_valid {
                        assert(spec_weeks_text(s0, (week_row + 1) as nat) == spec_weeks_text(s0, week_row as nat)
                            + spec_unix2dos("> "@) + spec_days_text(s0 + 7 * week_row, 7) + newline_text());
                        assert(self.spec_text() =~= head + spec_weeks_text(s0, (week_row + 1) as nat));
                        let row_done = row_head + calendar_days_pieces(row_base, 7, month, today, selected_date, min_date, max_date);
                        Self::lemma_sent_chain(*old(self), n0, *self, row_done, line_end_pieces());
                        assert(row_done + line_end_pieces() =~= head_ps
                            + calendar_weeks_pieces(s0, (week_row + 1) as nat, month, today, selected_date, min_date, max_date));
                    }
                }
                week_row = week_row + 1;
            }
        }
        Ok(())
    }

    /// Draws the prompt line alone (password and calendar prompts), and ends it.
    fn render_prompt_line(&mut self, prompt: &str) -> (r: std::io::Result<()>)
        ensures
            r is Ok,
            final(self).drew(old(self),
                prompt_text(old(self).spec_config().prompt_prefix.content@, prompt@) + newline_text(),
                sat_inc(old(self).spec_lines())),
    {
        let _ = self.print_prompt(prompt);
        let _ = self.new_line();
        assert(self.spec_text() =~= old(self).spec_text() + (prompt_text(old(self).spec_config().prompt_prefix.content@, prompt@) + newline_text()));
        Ok(())
    }
}

/// The text of an error message line.
pub open spec fn error_line_text(config: RenderConfig, error: Seq<char>) -> Seq<char> {
    spec_unix2dos(config.error_message.prefix.content@) + spec_unix2dos(" "@) + spec_unix2dos(error) + newline_text()
}

/// The text of a help message line.
pub open spec fn help_line_text(help: Seq<char>) -> Seq<char> {
    spec_unix2dos("["@) + spec_unix2dos(help) + spec_unix2dos("]"@) + newline_text()
}

/// The text of a prompt line with its default value (if any) and its input.
pub open spec fn prompt_line_text(config: RenderConfig, prompt: Seq<char>, default: Option<Seq<char>>, input: TextInputModel) -> Seq<char> {
    prompt_text(config.prompt_prefix.content@, prompt)
        + match default {
            Some(d) => spec_unix2dos(" "@) + spec_unix2dos("("@ + d + ")"@),
            None => Seq::empty(),
        }
        + input_text(input.content, input.cursor) + newline_text()
}

/// Where the scan back from a day stops: the first day, going back one day at
/// a time and at most seven times, that falls on the weekday `ws`; `None` when
/// chrono has no day on the way.
pub open spec fn spec_scan_back(d: int, ws: u32, steps: nat) -> Option<int>
    decreases 7 - steps,
{
    if steps >= 7 || spec_weekday(d as i32) == ws {
        Some(d)
    } else if i32::MIN <= d - 1 && spec_valid_days((d - 1) as i32) {
        spec_scan_back(d - 1, ws, steps + 1)
    } else {
        None
    }
}

/// The first day drawn in a calendar whose month starts on day `first`: the
/// closest earlier day that falls on the weekday `ws`, a whole week earlier
/// when the month starts on it.
pub open spec fn spec_calendar_start(first: int, ws: u32) -> Option<int> {
    if spec_weekday(first as i32) == ws {
        if i32::MIN <= first - 7 && spec_valid_days((first - 7) as i32) { Some(first - 7) } else { None }
    } else {
        spec_scan_back(first, ws, 0)
    }
}

/// Whether chrono has the `n` days from day `d` on.
pub open spec fn spec_days_valid(d: int, n: nat) -> bool {
    forall|k: int| 0 <= k < n ==> i32::MIN <= d + k <= i32::MAX && #[trigger] spec_valid_days((d + k) as i32)
}

/// The text of the first `k` days of a week row from day `d`, separated by spaces.
pub open spec fn spec_days_text(d: int, k: nat) -> Seq<char>
    decreases k,
{
    if k == 0 {
        Seq::empty()
    } else {
        spec_days_text(d, (k - 1) as nat)
            + (if k > 1 { spec_unix2dos(" "@) } else { Seq::empty() })
            + spec_unix2dos(spec_day_text(spec_date_parts((d + k - 1) as i32).2))
    }
}

/// The text of the first `rows` week rows of a calendar from day `d`.
pub open spec fn spec_weeks_text(d: int, rows: nat) -> Seq<char>
    decreases rows,
{
    if rows == 0 {
        Seq::empty()
    } else {
        spec_weeks_text(d, (rows - 1) as nat) + spec_unix2dos("> "@) + spec_days_text(d + 7 * (rows - 1), 7) + newline_text()
    }
}

/// The text of the two header lines of a calendar.
pub open spec fn spec_calendar_head(month: u32, year: i32, week_start: Weekday) -> Seq<char> {
    spec_unix2dos("> "@) + spec_unix2dos(spec_calendar_header(month, year)) + newline_text()
        + spec_unix2dos("> "@) + spec_unix2dos(spec_week_header(week_start)) + newline_text()
}

/// The piece of day `d` in the calendar of `month`: the day of the month,
/// with the style of [spec_calendar_day_style].
pub open spec fn calendar_day_piece(
    d: int,
    month: u32,
    today: CalendarDate,
    selected: CalendarDate,
    min_date: Option<CalendarDate>,
    max_date: Option<CalendarDate>,
) -> Piece {
    let parts = spec_date_parts(d as i32);
    styled_piece(
        spec_calendar_day_style(CalendarDate { days: d as i32 }, parts.1, month, today, selected, min_date, max_date),
        spec_day_text(parts.2),
    )
}

/// The pieces of the first `k` days of a week row from day `d`, separated by spaces.
pub open spec fn calendar_days_pieces(
    d: int,
    k: nat,
    month: u32,
    today: CalendarDate,
    selected: CalendarDate,
    min_date: Option<CalendarDate>,
    max_date: Option<CalendarDate>,
) -> Seq<Piece>
    decreases k,
{
    if k == 0 {
        Seq::empty()
    } else {
        calendar_days_pieces(d, (k - 1) as nat, month, today, selected, min_date, max_date)
            + (if k > 1 { seq![text_piece(" "@)] } else { Seq::empty() })
            + seq![calendar_day_piece(d + k - 1, month, today, selected, min_date, max_date)]
    }
}

/// The pieces of the first `rows` week rows of a calendar from day `d`, each
/// after a green "> " and ended by a line end.
pub open spec fn calendar_weeks_pieces(
    d: int,
    rows: nat,
    month: u32,
    today: CalendarDate,
    selected: CalendarDate,
    min_date: Option<CalendarDate>,
    max_date: Option<CalendarDate>,
) -> Seq<Piece>
    decreases rows,
{
    if rows == 0 {
        Seq::empty()
    } else {
        calendar_weeks_pieces(d, (rows - 1) as nat, month, today, selected, min_date, max_date)
            + seq![styled_piece(calendar_prefix_style(), "> "@)]
            + calendar_days_pieces(d + 7 * (rows - 1), 7, month, today, selected, min_date, max_date)
            + line_end_pieces()
    }
}

/// The style of the "> " that starts each line of a calendar: light green.
pub open spec fn calendar_prefix_style() -> StyleSheet {
    StyleSheet { fg: Some(Color::LightGreen), bg: None, att: Attributes { bits: 0 } }
}

/// The pieces of the two header lines of a calendar: the month and year, then
/// the week days, each after a green "> ".
pub open spec fn calendar_head_pieces(month: u32, year: i32, week_start: Weekday) -> Seq<Piece> {
    seq![styled_piece(calendar_prefix_style(), "> "@), text_piece(spec_calendar_header(month, year))]
        + line_end_pieces()
        + seq![styled_piece(calendar_prefix_style(), "> "@), text_piece(spec_week_header(week_start))]
        + line_end_pieces()
}

/// The style of a day of the calendar: the selected day on a grey background,
/// today in green, days of other months in dark grey, and days before the
/// earliest or after the latest allowed date in dark grey as well.
pub open spec fn spec_calendar_day_style(
    date: CalendarDate,
    date_month: u32,
    month: u32,
    today: CalendarDate,
    selected: CalendarDate,
    min_date: Option<CalendarDate>,
    max_date: Option<CalendarDate>,
) -> StyleSheet {
    let base = if date == selected {
        StyleSheet { fg: Some(Color::Black), bg: Some(Color::Grey), att: Attributes { bits: 0 } }
    } else if date == today {
        StyleSheet { fg: Some(Color::LightGreen), bg: None, att: Attributes { bits: 0 } }
    } else if date_month != month {
        StyleSheet { fg: Some(Color::DarkGrey), bg: None, att: Attributes { bits: 0 } }
    } else {
        StyleSheet { fg: None, bg: None, att: Attributes { bits: 0 } }
    };
    let early = match min_date { Some(m) => date.days < m.days, None => false };
    let late = match max_date { Some(m) => date.days > m.days, None => false };
    if early || late { StyleSheet { fg: Some(Color::DarkGrey), ..base } } else { base }
}

/// The style of a day of the calendar (see [spec_calendar_day_style]).
pub fn calendar_day_style(
    date: CalendarDate,
    date_month: u32,
    month: u32,
    today: CalendarDate,
    selected: CalendarDate,
    min_date: Option<CalendarDate>,
    max_date: Option<CalendarDate>,
) -> (r: StyleSheet)
    ensures
        r == spec_calendar_day_style(date, date_month, month, today, selected, min_date, max_date),
{
    let mut style = StyleSheet::empty();
    if date.days == selected.days {
        style = style.with_bg(Color::Grey).with_fg(Color::Black);
    } else if date.days == today.days {
        style = style.with_fg(Color::LightGreen);
    } else if date_month != month {
        style = style.with_fg(Color::DarkGrey);
    }
    if let Some(min_date) = min_date {
        if date.days < min_date.days {
            style = style.with_fg(Color::DarkGrey);
        }
    }
    if let Some(max_date) = max_date {
        if date.days > max_date.days {
            style = style.with_fg(Color::DarkGrey);
        }
    }
    style
}

/// The day of the month as the calendar shows it: right-aligned on two columns.
pub open spec fn spec_day_text(day: u32) -> Seq<char> {
    if day < 10 { " "@ + spec_decimal(day as nat) } else { spec_decimal(day as nat) }
}

/// The day of the month right-aligned on two columns.
pub fn day_text(day: u32) -> (r: String)
    ensures
        r@ == spec_day_text(day),
{
    let mut s = String::new();
    if day < 10 {
        push_str(&mut s, " ");
    }
    push_decimal(&mut s, day as usize);
    proof {
        reveal_strlit(" ");
        assert(Seq::<char>::empty() + spec_decimal(day as nat) =~= spec_decimal(day as nat));
    }
    s
}

/// The decimal form of a year, with a minus sign before the year 0.
pub open spec fn spec_year_text(year: i32) -> Seq<char> {
    if year < 0 { "-"@ + spec_decimal((-year) as nat) } else { spec_decimal(year as nat) }
}

/// The calendar header: the lower-cased month name and the year, centered on
/// twenty columns.
pub open spec fn spec_calendar_header(month: u32, year: i32) -> Seq<char> {
    spec_centered(spec_to_lowercase(spec_month_name(month)) + " "@ + spec_year_text(year), 20)
}

/// The calendar header for a month and year.
pub fn calendar_header(month: u32, year: i32) -> (r: String)
    requires
        1 <= month <= 12,
    ensures
        r@ == spec_calendar_header(month, year),
{
    let name = month_name(month);
    let mut header = to_lowercase(name.as_str());
    push_str(&mut header, " ");
    let ghost named = header@;
    if year < 0 {
        push_str(&mut header, "-");
        let magnitude: i64 = -(year as i64);
        push_decimal(&mut header, magnitude as usize);
    } else {
        push_decimal(&mut header, year as usize);
    }
    proof {
        reveal_strlit("-");
        assert(header@ =~= spec_to_lowercase(spec_month_name(month)) + " "@ + spec_year_text(year));
    }
    centered(header.as_str(), 20)
}

/// The week header: the short names of the seven days from `week_start`,
/// separated by spaces.
pub open spec fn spec_week_header(week_start: Weekday) -> Seq<char> {
    week_header_from(spec_weekday_index(week_start), 7)
}

/// The week header: the short names of the seven days from `week_start`.
pub fn week_header(week_start: Weekday) -> (r: String)
    ensures
        r@ == spec_week_header(week_start),
{
    let mut day = week_start;
    let mut header = String::new();
    let mut i: u32 = 0;
    let ghost first = spec_weekday_index(week_start);
    while i < 7
        invariant
            i <= 7,
            first == spec_weekday_index(week_start),
            spec_weekday_index(day) == (first + i) % 7,
            header@ == week_header_from(first, i as nat),
        decreases 7 - i,
    {
        if i > 0 {
            push_str(&mut header, " ");
        }
        push_str(&mut header, day.short_name());
        proof {
            reveal_strlit(" ");
            assert(spec_weekday_from_index(((first + i) % 7) as u32) == day) by {
                assert(spec_weekday_index(day) < 7);
            }
            if i == 0 {
                assert((first + 0) % 7 == first) by {
                    assert(first < 7);
                }
                assert(header@ =~= week_header_from(first, 1));
            } else {
                assert(((first + (i + 1) - 1) % 7) as u32 == ((first + i) % 7) as u32);
                assert(header@ =~= week_header_from(first, (i + 1) as nat));
            }
        }
        day = day.succ();
        i = i + 1;
    }
    header
}

/// The short names of `k` days from the day `first` days after Monday.
pub open spec fn week_header_from(first: u32, k: nat) -> Seq<char>
    decreases k,
{
    if k == 0 {
        Seq::empty()
    } else if k == 1 {
        spec_short_name(spec_weekday_from_index(first))
    } else {
        week_header_from(first, (k - 1) as nat) + " "@
            + spec_short_name(spec_weekday_from_index(((first + k - 1) % 7) as u32))
    }
}

impl<'a> CommonBackend for Backend<'a> {
    /// Reads the next held key; `None` when the terminal holds none.
    fn read_key(&mut self) -> (r: std::io::Result<Option<Key>>)
        ensures
            old(self).wf() && old(self).spec_has_keys() && old(self).spec_pending_keys().len() > 0 ==> (
                r == Ok::<Option<Key>, std::io::Error>(Some(crate::key::spec_key_from_event(old(self).spec_pending_keys()[0])))
                && final(self).spec_pending_keys() == old(self).spec_pending_keys().drop_first()),
            !old(self).spec_has_keys() ==> r matches Ok(None),
            old(self).spec_has_keys() && old(self).spec_pending_keys().len() == 0 ==> r matches Ok(None),
            !(old(self).spec_has_keys() && old(self).spec_pending_keys().len() > 0)
                ==> final(self).spec_pending_keys() == old(self).spec_pending_keys(),
            final(self).spec_text() == old(self).spec_text(),
            final(self).spec_lines() == old(self).spec_lines(),
            final(self).spec_config() == old(self).spec_config(),
            final(self).spec_has_keys() == old(self).spec_has_keys(),
            old(self).wf() ==> final(self).wf(),
    {
        self.terminal.read_key()
    }

    fn frame_setup(&mut self) -> (r: std::io::Result<()>)
        ensures
            r is Ok,
            final(self).drew(old(self), Seq::empty(), 0),
    {
        self.reset_prompt()
    }

    fn frame_finish(&mut self) -> (r: std::io::Result<()>)
        ensures
            r is Ok,
            final(self).drew(old(self), Seq::empty(), old(self).spec_lines()),
            final(self).spec_output() == old(self).spec_output(),
    {
        self.terminal.flush()
    }

    fn finish_prompt(&mut self, prompt: &str, answer: &str) -> (r: std::io::Result<()>)
        ensures
            r is Ok,
            final(self).drew(old(self),
                prompt_text(old(self).spec_config().prompt_prefix.content@, prompt@) + spec_unix2dos(" "@)
                    + spec_unix2dos(answer@) + newline_text(),
                1),
    {
        let _ = self.reset_prompt();
        self.print_prompt_with_answer(prompt, answer)
    }

    fn render_error_message(&mut self, error: &str) -> (r: std::io::Result<()>)
        ensures
            r is Ok,
            final(self).drew(old(self),
                spec_unix2dos(old(self).spec_config().error_message.prefix.content@) + spec_unix2dos(" "@)
                    + spec_unix2dos(error@) + newline_text(),
                sat_inc(old(self).spec_lines())),
    {
        let prefix = self.render_config.error_message.prefix;
        let _ = self.terminal.write_styled(&prefix);
        let separator = self.render_config.error_message.separator;
        let _ = self.write_styled_str(" ", separator);
        let message = self.render_config.error_message.message;
        let _ = self.write_styled_str(error, message);
        let _ = self.new_line();
        assert(self.spec_text() =~= old(self).spec_text() + (spec_unix2dos(old(self).spec_config().error_message.prefix.content@) + spec_unix2dos(" "@)
                    + spec_unix2dos(error@) + newline_text()));
        Ok(())
    }

    fn render_help_message(&mut self, help: &str) -> (r: std::io::Result<()>)
        ensures
            r is Ok,
            final(self).drew(old(self),
                spec_unix2dos("["@) + spec_unix2dos(help@) + spec_unix2dos("]"@) + newline_text(),
                sat_inc(old(self).spec_lines())),
            final(self).sent(old(self), help_line_pieces(old(self).spec_config().help_message, help@)),
    {
        let style = self.render_config.help_message;
        let ghost b0 = *self;
        let _ = self.write_styled_str("[", style);
        let ghost b1 = *self;
        let _ = self.write_styled_str(help, style);
        let ghost b2 = *self;
        let _ = self.write_styled_str("]", style);
        let ghost b3 = *self;
        let _ = self.new_line();
        proof {
            let p1 = seq![styled_piece(style, "["@)];
            let p2 = seq![styled_piece(style, help@)];
            let p3 = seq![styled_piece(style, "]"@)];
            Self::lemma_sent_chain(b0, b1, b2, p1, p2);
            Self::lemma_sent_chain(b0, b2, b3, p1 + p2, p3);
            Self::lemma_sent_chain(b0, b3, *self, p1 + p2 + p3, line_end_pieces());
            assert(p1 + p2 + p3 + line_end_pieces() =~= help_line_pieces(style, help@));
        }
        assert(self.spec_text() =~= old(self).spec_text() + (spec_unix2dos("["@) + spec_unix2dos(help@) + spec_unix2dos("]"@) + newline_text()));
        Ok(())
    }
}

impl<'a> TextBackend for Backend<'a> {
    fn render_prompt(&mut self, prompt: &str, default: Option<&str>, cur_input: &Input) -> (r: std::io::Result<()>)
        ensures
            r is Ok,
            final(self).drew(old(self),
                prompt_text(old(self).spec_config().prompt_prefix.content@, prompt@)
                    + match default {
                        Some(d) => spec_unix2dos(" "@) + spec_unix2dos("("@ + d@ + ")"@),
                        None => Seq::empty(),
                    }
                    + input_text(cur_input@.content, cur_input@.cursor) + newline_text(),
                sat_inc(old(self).spec_lines())),
    {
        self.print_prompt_with_input(prompt, default, cur_input)
    }

    fn render_suggestion(&mut self, content: &str, focused: bool) -> (r: std::io::Result<()>)
        ensures
            r is Ok,
            final(self).drew(old(self),
                spec_unix2dos((if focused { "> "@ } else { "  "@ }) + content@) + newline_text(),
                sat_inc(old(self).spec_lines())),
    {
        self.render_list_line(content, focused)
    }
}

impl<'a> SelectBackend for Backend<'a> {
    fn render_select_prompt(&mut self, prompt: &str, cur_input: &Input) -> (r: std::io::Result<()>)
        ensures
            r is Ok,
            final(self).drew(old(self),
                prompt_text(old(self).spec_config().prompt_prefix.content@, prompt@)
                    + input_text(cur_input@.content, cur_input@.cursor) + newline_text(),
                sat_inc(old(self).spec_lines())),
    {
        let r = self.print_prompt_with_input(prompt, None, cur_input);
        assert(prompt_text(old(self).spec_config().prompt_prefix.content@, prompt@) + Seq::<char>::empty()
            =~= prompt_text(old(self).spec_config().prompt_prefix.content@, prompt@));
        r
    }

    fn render_option(&mut self, content: &str, focused: bool) -> (r: std::io::Result<()>)
        ensures
            r is Ok,
            final(self).drew(old(self),
                spec_unix2dos((if focused { "> "@ } else { "  "@ }) + content@) + newline_text(),
                sat_inc(old(self).spec_lines())),
    {
        self.render_list_line(content, focused)
    }
}

impl<'a> MultiSelectBackend for Backend<'a> {
    fn render_multiselect_prompt(&mut self, prompt: &str, cur_input: &Input) -> (r: std::io::Result<()>)
        ensures
            r is Ok,
            final(self).drew(old(self),
                prompt_text(old(self).spec_config().prompt_prefix.content@, prompt@)
                    + input_text(cur_input@.content, cur_input@.cursor) + newline_text(),
                sat_inc(old(self).spec_lines())),
    {
        let r = self.print_prompt_with_input(prompt, None, cur_input);
        assert(prompt_text(old(self).spec_config().prompt_prefix.content@, prompt@) + Seq::<char>::empty()
            =~= prompt_text(old(self).spec_config().prompt_prefix.content@, prompt@));
        r
    }

    fn render_multi_option(&mut self, content: &str, focused: bool, checked: bool) -> (r: std::io::Result<()>)
        ensures
            r is Ok,
            final(self).drew(old(self),
                spec_unix2dos(if focused { "> "@ } else { "  "@ }) + spec_unix2dos(if checked { "[x] "@ } else { "[ ] "@ })
                    + spec_unix2dos(content@) + newline_text(),
                sat_inc(old(self).spec_lines())),
    {
        self.render_checkbox_line(content, focused, checked)
    }
}

impl<'a> CustomTypeBackend for Backend<'a> {
    fn render_custom_type_prompt(&mut self, prompt: &str, default: Option<&str>, cur_input: &Input) -> (r: std::io::Result<()>)
        ensures
            r is Ok,
            final(self).drew(old(self),
                prompt_text(old(self).spec_config().prompt_prefix.content@, prompt@)
                    + match default {
                        Some(d) => spec_unix2dos(" "@) + spec_unix2dos("("@ + d@ + ")"@),
                        None => Seq::empty(),
                    }
                    + input_text(cur_input@.content, cur_input@.cursor) + newline_text(),
                sat_inc(old(self).spec_lines())),
    {
        self.print_prompt_with_input(prompt, default, cur_input)
    }
}

impl<'a> DateSelectBackend for Backend<'a> {
    fn render_calendar_prompt(&mut self, prompt: &str) -> (r: std::io::Result<()>)
        ensures
            r is Ok,
            final(self).drew(old(self),
                prompt_text(old(self).spec_config().prompt_prefix.content@, prompt@) + newline_text(),
                sat_inc(old(self).spec_lines())),
    {
        self.render_prompt_line(prompt)
    }
}

impl<'a> PasswordBackend for Backend<'a> {
    fn render_password_prompt(&mut self, prompt: &str) -> (r: std::io::Result<()>)
        ensures
            r is Ok,
            final(self).drew(old(self),
                prompt_text(old(self).spec_config().prompt_prefix.content@, prompt@) + newline_text(),
                sat_inc(old(self).spec_lines())),
    {
        self.render_prompt_line(prompt)
    }
}

} // verus!
