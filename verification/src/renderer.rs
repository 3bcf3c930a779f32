//! Drawing prompts as lines of colored tokens on a plain [Terminal], and
//! erasing the previous frame before the next.

use crate::ansi::{color_sequence, csi, sgr, spec_color_params};
use crate::basic_terminal::{Style, Terminal};
use crate::strings::{push_str, to_owned_string};
use crate::ui::Color;
use vstd::prelude::*;

verus! {

/// What a token holds, as plain values: its text, colors and style.
pub struct TokenText {
    /// The text.
    pub text: Seq<char>,
    /// Foreground color.
    pub fg: Option<Color>,
    /// Background color.
    pub bg: Option<Color>,
    /// Style.
    pub style: Option<Style>,
}

/// A text without colors or style.
pub open spec fn plain_token(text: Seq<char>) -> TokenText {
    TokenText { text, fg: None, bg: None, style: None }
}

/// A text with a foreground color.
pub open spec fn colored_token(text: Seq<char>, fg: Color) -> TokenText {
    TokenText { text, fg: Some(fg), bg: None, style: None }
}

/// The sequence that turns a style on.
pub open spec fn style_code(style: Style) -> Seq<char> {
    match style {
        Style::Bold => sgr("1"@),
        Style::Italic => sgr("3"@),
    }
}

/// What printing a non-empty token sends when its colors come out as `fg`,
/// `bg` (set) and `fg_reset`, `bg_reset` (reset): the colors and style, the
/// text, then the resets of what was set.
pub open spec fn token_output(t: TokenText, fg: Seq<char>, bg: Seq<char>, fg_reset: Seq<char>, bg_reset: Seq<char>) -> Seq<char> {
    (if t.fg is Some { fg } else { Seq::empty() })
        + (if t.bg is Some { bg } else { Seq::empty() })
        + match t.style { Some(s) => style_code(s), None => Seq::empty() }
        + t.text
        + (if t.fg is Some { fg_reset } else { Seq::empty() })
        + (if t.bg is Some { bg_reset } else { Seq::empty() })
        + (if t.style is Some { sgr("0"@) } else { Seq::empty() })
}

/// Whether `out` is what printing the token sends: nothing for an empty text,
/// the text alone on a dull terminal, and otherwise the text between the
/// sequences that set and reset its colors and style, whichever way the
/// environment has colors.
pub open spec fn token_sent(dull: bool, t: TokenText, out: Seq<char>) -> bool {
    if t.text.len() == 0 {
        out.len() == 0
    } else if dull {
        out == t.text
    } else {
        exists|fg: Seq<char>, bg: Seq<char>, fr: Seq<char>, br: Seq<char>|
            (t.fg matches Some(c) ==> color_sequence(spec_color_params("38;"@, c), fg))
            && (t.bg matches Some(c) ==> color_sequence(spec_color_params("48;"@, c), bg))
            && color_sequence("39"@, fr) && color_sequence("49"@, br)
            && out == #[trigger] token_output(t, fg, bg, fr, br)
    }
}

/// Whether `out` is what printing the tokens sends, one after the other.
pub open spec fn tokens_sent(dull: bool, ts: Seq<TokenText>, out: Seq<char>) -> bool {
    exists|outs: Seq<Seq<char>>| #[trigger] outs.flatten_alt() == out && outs.len() == ts.len()
        && forall|i: int| 0 <= i < ts.len() ==> token_sent(dull, ts[i], #[trigger] outs[i])
}

/// Printing no token sends nothing.
pub proof fn lemma_tokens_empty(dull: bool, out: Seq<char>)
    requires
        out.len() == 0,
    ensures
        tokens_sent(dull, Seq::empty(), out),
{
    let outs = Seq::<Seq<char>>::empty();
    assert(outs.flatten_alt() =~= out);
}

/// Printing one more token after some tokens prints the longer list.
pub proof fn lemma_tokens_push(dull: bool, ts: Seq<TokenText>, out: Seq<char>, t: TokenText, extra: Seq<char>)
    requires
        tokens_sent(dull, ts, out),
        token_sent(dull, t, extra),
    ensures
        tokens_sent(dull, ts.push(t), out + extra),
{
    let outs = choose|outs: Seq<Seq<char>>| #[trigger] outs.flatten_alt() == out && outs.len() == ts.len()
        && forall|i: int| 0 <= i < ts.len() ==> token_sent(dull, ts[i], #[trigger] outs[i]);
    let outs2 = outs.push(extra);
    assert(outs2.drop_last() =~= outs);
    assert(outs2.flatten_alt() == out + extra);
    assert forall|i: int| 0 <= i < ts.push(t).len() implies token_sent(dull, ts.push(t)[i], #[trigger] outs2[i]) by {
        if i < ts.len() {
            assert(outs2[i] == outs[i]);
        }
    }
}

/// Printing two lists of tokens one after the other prints their concatenation.
pub proof fn lemma_tokens_concat(dull: bool, a: Seq<TokenText>, oa: Seq<char>, b: Seq<TokenText>, ob: Seq<char>)
    requires
        tokens_sent(dull, a, oa),
        tokens_sent(dull, b, ob),
    ensures
        tokens_sent(dull, a + b, oa + ob),
{
    let outs_a = choose|outs: Seq<Seq<char>>| #[trigger] outs.flatten_alt() == oa && outs.len() == a.len()
        && forall|i: int| 0 <= i < a.len() ==> token_sent(dull, a[i], #[trigger] outs[i]);
    let outs_b = choose|outs: Seq<Seq<char>>| #[trigger] outs.flatten_alt() == ob && outs.len() == b.len()
        && forall|i: int| 0 <= i < b.len() ==> token_sent(dull, b[i], #[trigger] outs[i]);
    let outs = outs_a + outs_b;
    crate::segmentation::lemma_flatten_alt_append(outs_a, outs_b);
    assert forall|i: int| 0 <= i < (a + b).len() implies token_sent(dull, (a + b)[i], #[trigger] outs[i]) by {
        if i < a.len() {
            assert(outs[i] == outs_a[i]);
        } else {
            assert(outs[i] == outs_b[i - a.len()]);
        }
    }
}

/// Printing `a` then `b` prints `a + b`.
pub proof fn lemma_printed_chain(t1: Terminal, t2: Terminal, t3: Terminal, a: Seq<TokenText>, b: Seq<TokenText>)
    requires
        Renderer::printed(&t2, &t1, a),
        Renderer::printed(&t3, &t2, b),
    ensures
        Renderer::printed(&t3, &t1, a + b),
{
    let o1 = t1.spec_output();
    let o2 = t2.spec_output();
    let o3 = t3.spec_output();
    assert(o2 =~= o1 + o2.skip(o1.len() as int));
    assert(o3 =~= o2 + o3.skip(o2.len() as int));
    assert(o3.take(o1.len() as int) =~= o1);
    assert(o3.skip(o1.len() as int) =~= o2.skip(o1.len() as int) + o3.skip(o2.len() as int));
    lemma_tokens_concat(t1.spec_dull(), a, o2.skip(o1.len() as int), b, o3.skip(o2.len() as int));
}

/// The tokens of an option line with its checkbox, then the line end.
pub open spec fn multi_option_tokens(cursor: bool, checked: bool, content: Seq<char>) -> Seq<TokenText> {
    seq![
        if cursor { colored_token("> "@, Color::DarkCyan) } else { plain_token("  "@) },
        if checked { colored_token("[x] "@, Color::DarkGreen) } else { plain_token("[ ] "@) },
        plain_token(content),
    ] + line_end_tokens()
}

/// The tokens of a prompt line: a green "? ", the prompt, the default value in
/// brackets if any, and the content after a space, in bold, when there is
/// some; then the line end.
pub open spec fn prompt_tokens(prompt: Seq<char>, default: Option<Seq<char>>, content: Option<Seq<char>>) -> Seq<TokenText> {
    seq![colored_token("? "@, Color::DarkGreen), plain_token(prompt)]
        + match default { Some(d) => seq![plain_token(" ("@ + d + ")"@)], None => Seq::empty() }
        + match content {
            Some(c) => if c.len() > 0 {
                seq![TokenText { text: " "@ + c, fg: None, bg: None, style: Some(Style::Bold) }]
            } else {
                Seq::empty()
            },
            None => Seq::empty(),
        }
        + line_end_tokens()
}

/// The tokens of a help message line: the message in square brackets, in cyan.
pub open spec fn help_tokens(message: Seq<char>) -> Seq<TokenText> {
    seq![colored_token("["@ + message + "]"@, Color::DarkCyan)] + line_end_tokens()
}

/// The lines of the first `k` options with their checkboxes, the one at
/// `cursor` highlighted; each row is whether it is selected and its text.
pub open spec fn multi_option_list(rows: Seq<(bool, Seq<char>)>, cursor: nat, k: nat) -> Seq<TokenText>
    decreases k,
{
    if k == 0 || k > rows.len() {
        Seq::empty()
    } else {
        multi_option_list(rows, cursor, (k - 1) as nat) + multi_option_tokens(cursor == k - 1, rows[k - 1].0, rows[k - 1].1)
    }
}

/// A plain text that is written as it is sends that text.
pub proof fn lemma_plain_sent(dull: bool, text: Seq<char>)
    ensures
        token_sent(dull, plain_token(text), text),
{
    if text.len() > 0 && !dull {
        let e = sgr(Seq::empty());
        assert(color_sequence("39"@, e));
        assert(color_sequence("49"@, e));
        assert(token_output(plain_token(text), e, e, e, e) =~= text);
    }
}

/// What printing a non-empty token sends, piece by piece: each color set
/// (nothing when dull or unset), the style, the text, and the resets.
pub proof fn lemma_token_segments(dull: bool, t: TokenText, fg: Seq<char>, bg: Seq<char>, st: Seq<char>,
    fr: Seq<char>, br: Seq<char>, sr: Seq<char>)
    requires
        t.text.len() > 0,
        t.fg is None || dull ==> fg.len() == 0,
        t.fg is Some && !dull ==> color_sequence(spec_color_params("38;"@, t.fg->0), fg),
        t.bg is None || dull ==> bg.len() == 0,
        t.bg is Some && !dull ==> color_sequence(spec_color_params("48;"@, t.bg->0), bg),
        st == (if dull { Seq::empty() } else { match t.style { Some(s) => style_code(s), None => Seq::empty() } }),
        t.fg is None || dull ==> fr.len() == 0,
        t.fg is Some && !dull ==> color_sequence("39"@, fr),
        t.bg is None || dull ==> br.len() == 0,
        t.bg is Some && !dull ==> color_sequence("49"@, br),
        sr == (if dull || t.style is None { Seq::empty() } else { sgr("0"@) }),
    ensures
        token_sent(dull, t, fg + bg + st + t.text + fr + br + sr),
{
    let out = fg + bg + st + t.text + fr + br + sr;
    if dull {
        assert(out =~= t.text);
    } else {
        let e = sgr(Seq::empty());
        let fg_w = if t.fg is Some { fg } else { e };
        let bg_w = if t.bg is Some { bg } else { e };
        let fr_w = if t.fg is Some { fr } else { e };
        let br_w = if t.bg is Some { br } else { e };
        assert(color_sequence("39"@, fr_w));
        assert(color_sequence("49"@, br_w));
        assert(out =~= token_output(t, fg_w, bg_w, fr_w, br_w));
    }
}

/// The end of a drawn line: back to the first column, then a line feed.
pub open spec fn line_end_tokens() -> Seq<TokenText> {
    seq![plain_token(csi("1G"@)), plain_token("\n"@)]
}

/// `n` erasures of a line of the previous frame: up, first column, clear.
pub open spec fn erased_lines(n: nat) -> Seq<char>
    decreases n,
{
    if n == 0 { Seq::empty() } else { erased_lines((n - 1) as nat) + csi("1A"@) + csi("1G"@) + csi("2K"@) }
}

/// A text with the colors and style to print it with.
pub struct Token<'a> {
    /// The text.
    pub content: &'a str,
    /// Foreground color.
    pub fg: Option<Color>,
    /// Background color.
    pub bg: Option<Color>,
    /// Style.
    pub style: Option<Style>,
}

impl<'a> Token<'a> {
    /// What the token holds.
    pub open spec fn text(&self) -> TokenText {
        TokenText { text: self.content@, fg: self.fg, bg: self.bg, style: self.style }
    }

    /// A token without colors or style.
    pub fn new(content: &'a str) -> (r: Self)
        ensures
            r.text() == plain_token(content@),
            r.content == content,
    {
        Token { content, fg: None, bg: None, style: None }
    }

    /// The empty token.
    pub fn empty() -> (r: Self)
        ensures
            r.text() == plain_token(Seq::empty()),
    {
        proof {
            reveal_strlit("");
            assert(""@ =~= Seq::<char>::empty());
        }
        Self::new("")
    }

    /// The same token with a foreground color.
    pub fn with_fg(self, fg: Color) -> (r: Self)
        ensures
            r.text() == (TokenText { fg: Some(fg), ..self.text() }),
            r.content == self.content,
    {
        let mut s = self;
        s.fg = Some(fg);
        s
    }

    /// The same token with a background color.
    pub fn with_bg(self, bg: Color) -> (r: Self)
        ensures
            r.text() == (TokenText { bg: Some(bg), ..self.text() }),
            r.content == self.content,
    {
        let mut s = self;
        s.bg = Some(bg);
        s
    }

    /// The same token with a style.
    pub fn with_style(self, style: Style) -> (r: Self)
        ensures
            r.text() == (TokenText { style: Some(style), ..self.text() }),
            r.content == self.content,
    {
        let mut s = self;
        s.style = Some(style);
        s
    }

    /// Sets the token's colors and style; gives what each of the three steps sent.
    fn open_style(&self, terminal: &mut Terminal) -> (r: Ghost<(Seq<char>, Seq<char>, Seq<char>)>)
        ensures
            final(terminal).spec_output() == old(terminal).spec_output() + r@.0 + r@.1 + r@.2,
            self.fg is None || old(terminal).spec_dull() ==> r@.0.len() == 0,
            self.fg is Some && !old(terminal).spec_dull() ==> color_sequence(spec_color_params("38;"@, self.fg->0), r@.0),
            self.bg is None || old(terminal).spec_dull() ==> r@.1.len() == 0,
            self.bg is Some && !old(terminal).spec_dull() ==> color_sequence(spec_color_params("48;"@, self.bg->0), r@.1),
            r@.2 == (if old(terminal).spec_dull() { Seq::empty() } else {
                match self.style { Some(s) => style_code(s), None => Seq::empty() } }),
            final(terminal).same_but_output(old(terminal)),
    {
        let ghost o0 = terminal.spec_output();
        if let Some(color) = self.fg {
            let _ = terminal.set_fg_color(color);
        }
        let ghost o1 = terminal.spec_output();
        let ghost fg = o1.skip(o0.len() as int);
        assert(o1 =~= o0 + fg);
        if let Some(color) = self.bg {
            let _ = terminal.set_bg_color(color);
        }
        let ghost o2 = terminal.spec_output();
        let ghost bg = o2.skip(o1.len() as int);
        assert(o2 =~= o1 + bg);
        if let Some(style) = self.style {
            let _ = terminal.set_style(style);
        }
        let ghost o3 = terminal.spec_output();
        let ghost st = o3.skip(o2.len() as int);
        assert(o3 =~= o2 + st);
        assert(st =~= (if old(terminal).spec_dull() { Seq::empty() } else {
            match self.style { Some(s) => style_code(s), None => Seq::empty() } }));
        Ghost((fg, bg, st))
    }

    /// Resets what the token set; gives what each of the three steps sent.
    fn close_style(&self, terminal: &mut Terminal) -> (r: Ghost<(Seq<char>, Seq<char>, Seq<char>)>)
        ensures
            final(terminal).spec_output() == old(terminal).spec_output() + r@.0 + r@.1 + r@.2,
            self.fg is None || old(terminal).spec_dull() ==> r@.0.len() == 0,
            self.fg is Some && !old(terminal).spec_dull() ==> color_sequence("39"@, r@.0),
            self.bg is None || old(terminal).spec_dull() ==> r@.1.len() == 0,
            self.bg is Some && !old(terminal).spec_dull() ==> color_sequence("49"@, r@.1),
            r@.2 == (if old(terminal).spec_dull() || self.style is None { Seq::empty() } else { sgr("0"@) }),
            final(terminal).same_but_output(old(terminal)),
    {
        let ghost o4 = terminal.spec_output();
        if self.fg.is_some() {
            let _ = terminal.reset_fg_color();
        }
        let ghost o5 = terminal.spec_output();
        let ghost fr = o5.skip(o4.len() as int);
        assert(o5 =~= o4 + fr);
        if self.bg.is_some() {
            let _ = terminal.reset_bg_color();
        }
        let ghost o6 = terminal.spec_output();
        let ghost br = o6.skip(o5.len() as int);
        assert(o6 =~= o5 + br);
        if self.style.is_some() {
            let _ = terminal.reset_style();
        }
        let ghost o7 = terminal.spec_output();
        let ghost sr = o7.skip(o6.len() as int);
        assert(o7 =~= o6 + sr);
        assert(sr =~= (if old(terminal).spec_dull() || self.style is None { Seq::empty() } else { sgr("0"@) }));
        Ghost((fr, br, sr))
    }

    /// Prints the token: nothing for an empty text; otherwise its colors and
    /// style, the text, and the resets of what was set.
    pub fn print(&self, terminal: &mut Terminal) -> (r: Result<(), std::io::Error>)
        ensures
            r is Ok,
            old(terminal).spec_output().len() <= final(terminal).spec_output().len(),
            final(terminal).spec_output().take(old(terminal).spec_output().len() as int) == old(terminal).spec_output(),
            token_sent(old(terminal).spec_dull(), self.text(), final(terminal).spec_output().skip(old(terminal).spec_output().len() as int)),
            final(terminal).same_but_output(old(terminal)),
    {
        let ghost o0 = terminal.spec_output();
        let ghost dull = terminal.spec_dull();
        if self.content.is_empty() {
            assert(o0.take(o0.len() as int) =~= o0);
            assert(o0.skip(o0.len() as int).len() == 0);
            return Ok(());
        }
        let opened = self.open_style(terminal);
        let _ = terminal.write(self.content);
        let closed = self.close_style(terminal);
        proof {
            let (fg, bg, st) = opened@;
            let (fr, br, sr) = closed@;
            let o = terminal.spec_output();
            assert(o =~= o0 + (fg + bg + st + self.content@ + fr + br + sr));
            assert(o.skip(o0.len() as int) =~= fg + bg + st + self.content@ + fr + br + sr);
            assert(o.take(o0.len() as int) =~= o0);
            lemma_token_segments(dull, self.text(), fg, bg, st, fr, br, sr);
        }
        Ok(())
    }
}

/// Draws prompts line by line and keeps count of the lines of the frame.
pub struct Renderer {
    cur_line: usize,
}

impl Default for Renderer {
    fn default() -> (r: Self)
        ensures
            r.spec_lines() == 0,
    {
        Renderer { cur_line: 0 }
    }
}

impl Renderer {
    /// How many lines the current frame has.
    pub closed spec fn spec_lines(&self) -> usize {
        self.cur_line
    }

    /// Whether `t` is `old` with the tokens `ts` printed after what `old`
    /// had sent.
    pub open spec fn printed(t: &Terminal, old: &Terminal, ts: Seq<TokenText>) -> bool {
        &&& old.spec_output().len() <= t.spec_output().len()
        &&& t.spec_output().take(old.spec_output().len() as int) == old.spec_output()
        &&& tokens_sent(old.spec_dull(), ts, t.spec_output().skip(old.spec_output().len() as int))
        &&& t.same_but_output(old)
    }

    /// The line count after one more line.
    pub open spec fn next_line_count(&self) -> usize {
        if self.spec_lines() < usize::MAX { (self.spec_lines() + 1) as usize } else { self.spec_lines() }
    }

    /// Prints one more token of a line started at `start`.
    fn put(terminal: &mut Terminal, token: &Token, Ghost(start): Ghost<Seq<char>>, Ghost(ts): Ghost<Seq<TokenText>>)
        requires
            start.len() <= old(terminal).spec_output().len(),
            old(terminal).spec_output().take(start.len() as int) == start,
            tokens_sent(old(terminal).spec_dull(), ts, old(terminal).spec_output().skip(start.len() as int)),
        ensures
            start.len() <= final(terminal).spec_output().len(),
            final(terminal).spec_output().take(start.len() as int) == start,
            tokens_sent(old(terminal).spec_dull(), ts.push(token.text()), final(terminal).spec_output().skip(start.len() as int)),
            final(terminal).same_but_output(old(terminal)),
    {
        let ghost before = terminal.spec_output();
        let _ = token.print(terminal);
        proof {
            let after = terminal.spec_output();
            let extra = after.skip(before.len() as int);
            assert(after =~= before + extra);
            assert(after.skip(start.len() as int) =~= before.skip(start.len() as int) + extra);
            assert(after.take(start.len() as int) =~= before.take(start.len() as int));
            lemma_tokens_push(old(terminal).spec_dull(), ts, before.skip(start.len() as int), token.text(), extra);
        }
    }

    /// Ends a line of tokens started at `start`: first column, line feed, one
    /// more line counted.
    fn new_line(&mut self, terminal: &mut Terminal, Ghost(start): Ghost<Seq<char>>, Ghost(ts): Ghost<Seq<TokenText>>)
        requires
            start.len() <= old(terminal).spec_output().len(),
            old(terminal).spec_output().take(start.len() as int) == start,
            tokens_sent(old(terminal).spec_dull(), ts, old(terminal).spec_output().skip(start.len() as int)),
        ensures
            start.len() <= final(terminal).spec_output().len(),
            final(terminal).spec_output().take(start.len() as int) == start,
            tokens_sent(old(terminal).spec_dull(), ts + line_end_tokens(), final(terminal).spec_output().skip(start.len() as int)),
            final(terminal).same_but_output(old(terminal)),
            final(self).spec_lines() == old(self).next_line_count(),
    {
        let ghost o0 = terminal.spec_output();
        let _ = terminal.cursor_horizontal_reset();
        let ghost o1 = terminal.spec_output();
        let _ = terminal.write("\n");
        proof {
            let o2 = terminal.spec_output();
            let dull = old(terminal).spec_dull();
            assert(o1.skip(start.len() as int) =~= o0.skip(start.len() as int) + csi("1G"@));
            lemma_plain_sent(dull, csi("1G"@));
            lemma_tokens_push(dull, ts, o0.skip(start.len() as int), plain_token(csi("1G"@)), csi("1G"@));
            assert(o2.skip(start.len() as int) =~= o1.skip(start.len() as int) + "\n"@);
            lemma_plain_sent(dull, "\n"@);
            lemma_tokens_push(dull, ts.push(plain_token(csi("1G"@))), o1.skip(start.len() as int), plain_token("\n"@), "\n"@);
            assert(ts.push(plain_token(csi("1G"@))).push(plain_token("\n"@)) =~= ts + line_end_tokens());
            assert(o2.take(start.len() as int) =~= o0.take(start.len() as int));
        }
        self.cur_line = if self.cur_line < usize::MAX { self.cur_line + 1 } else { self.cur_line };
    }

    /// Erases the lines of the previous frame, bottom up.
    pub fn reset_prompt(&mut self, terminal: &mut Terminal) -> (r: Result<(), std::io::Error>)
        ensures
            r is Ok,
            final(terminal).spec_output() == old(terminal).spec_output() + erased_lines(old(self).spec_lines() as nat),
            final(terminal).same_but_output(old(terminal)),
            final(self).spec_lines() == 0,
    {
        let mut i: usize = 0;
        while i < self.cur_line
            invariant
                i <= self.cur_line,
                self.cur_line == old(self).spec_lines(),
                terminal.spec_output() == old(terminal).spec_output() + erased_lines(i as nat),
                terminal.same_but_output(old(terminal)),
            decreases self.cur_line - i,
        {
            let _ = terminal.cursor_up();
            let _ = terminal.cursor_horizontal_reset();
            let _ = terminal.clear_current_line();
            assert(old(terminal).spec_output() + erased_lines((i + 1) as nat) =~= old(terminal).spec_output()
                + erased_lines(i as nat) + csi("1A"@) + csi("1G"@) + csi("2K"@));
            i = i + 1;
        }
        self.cur_line = 0;
        Ok(())
    }

    /// Prints the tokens one after the other.
    pub fn print_tokens(&mut self, terminal: &mut Terminal, tokens: &[Token]) -> (r: Result<(), std::io::Error>)
        ensures
            r is Ok,
            Self::printed(final(terminal), old(terminal), tokens@.map_values(|t: Token| t.text())),
            final(self).spec_lines() == old(self).spec_lines(),
    {
        let ghost start = terminal.spec_output();
        proof {
            assert(start.take(start.len() as int) =~= start);
            lemma_tokens_empty(terminal.spec_dull(), start.skip(start.len() as int));
        }
        let mut i: usize = 0;
        while i < tokens.len()
            invariant
                i <= tokens@.len(),
                start == old(terminal).spec_output(),
                start.len() <= terminal.spec_output().len(),
                terminal.spec_output().take(start.len() as int) == start,
                tokens_sent(old(terminal).spec_dull(), tokens@.take(i as int).map_values(|t: Token| t.text()),
                    terminal.spec_output().skip(start.len() as int)),
                terminal.same_but_output(old(terminal)),
            decreases tokens@.len() - i,
        {
            let ghost ts = tokens@.take(i as int).map_values(|t: Token| t.text());
            Self::put(terminal, &tokens[i], Ghost(start), Ghost(ts));
            assert(tokens@.take(i as int + 1).map_values(|t: Token| t.text()) =~= ts.push(tokens@[i as int].text()));
            i = i + 1;
        }
        assert(tokens@.take(tokens@.len() as int) =~= tokens@);
        Ok(())
    }

    /// Draws an error message line: "# " and the message, in red.
    pub fn print_error_message(&mut self, terminal: &mut Terminal, message: &str) -> (r: Result<(), std::io::Error>)
        ensures
            r is Ok,
            Self::printed(final(terminal), old(terminal), seq![colored_token("# "@ + message@, Color::DarkRed)] + line_end_tokens()),
            final(self).spec_lines() == old(self).next_line_count(),
    {
        let ghost start = terminal.spec_output();
        proof {
            assert(start.take(start.len() as int) =~= start);
            lemma_tokens_empty(terminal.spec_dull(), start.skip(start.len() as int));
            reveal_strlit("# ");
        }
        let mut text = to_owned_string("# ");
        push_str(&mut text, message);
        let token = Token::new(text.as_str()).with_fg(Color::DarkRed);
        Self::put(terminal, &token, Ghost(start), Ghost(Seq::empty()));
        let ghost ts = seq![colored_token(text@, Color::DarkRed)];
        assert(Seq::<TokenText>::empty().push(token.text()) =~= ts);
        self.new_line(terminal, Ghost(start), Ghost(ts));
        Ok(())
    }

    /// Draws the prompt with its answer: a green "? ", the prompt and the
    /// answer after a space, in cyan.
    pub fn print_prompt_answer(&mut self, terminal: &mut Terminal, prompt: &str, answer: &str) -> (r: Result<(), std::io::Error>)
        ensures
            r is Ok,
            Self::printed(final(terminal), old(terminal),
                seq![colored_token("? "@, Color::DarkGreen), plain_token(prompt@), colored_token(" "@ + answer@, Color::DarkCyan)]
                    + line_end_tokens()),
            final(self).spec_lines() == old(self).next_line_count(),
    {
        let ghost start = terminal.spec_output();
        proof {
            assert(start.take(start.len() as int) =~= start);
            lemma_tokens_empty(terminal.spec_dull(), start.skip(start.len() as int));
            reveal_strlit("? ");
            reveal_strlit(" ");
        }
        let mut text = to_owned_string(" ");
        push_str(&mut text, answer);
        let t1 = Token::new("? ").with_fg(Color::DarkGreen);
        let t2 = Token::new(prompt);
        let t3 = Token::new(text.as_str()).with_fg(Color::DarkCyan);
        let ghost ts1 = seq![t1.text()];
        let ghost ts2 = seq![t1.text(), t2.text()];
        let ghost ts3 = seq![t1.text(), t2.text(), t3.text()];
        Self::put(terminal, &t1, Ghost(start), Ghost(Seq::empty()));
        assert(Seq::<TokenText>::empty().push(t1.text()) =~= ts1);
        Self::put(terminal, &t2, Ghost(start), Ghost(ts1));
        assert(ts1.push(t2.text()) =~= ts2);
        Self::put(terminal, &t3, Ghost(start), Ghost(ts2));
        assert(ts2.push(t3.text()) =~= ts3);
        self.new_line(terminal, Ghost(start), Ghost(ts3));
        Ok(())
    }

    /// Draws the prompt line: a green "? ", the prompt, the default value in
    /// brackets if any, and the content after a space, in bold, when there is
    /// some.
    pub fn print_prompt(&mut self, terminal: &mut Terminal, prompt: &str, default: Option<&str>, content: Option<&str>) -> (r: Result<(), std::io::Error>)
        ensures
            r is Ok,
            Self::printed(final(terminal), old(terminal),
                prompt_tokens(prompt@, match default { Some(d) => Some(d@), None => None },
                    match content { Some(c) => Some(c@), None => None })),
            final(self).spec_lines() == old(self).next_line_count(),
    {
        let ghost start = terminal.spec_output();
        proof {
            assert(start.take(start.len() as int) =~= start);
            lemma_tokens_empty(terminal.spec_dull(), start.skip(start.len() as int));
            reveal_strlit("? ");
            reveal_strlit(" ");
            reveal_strlit(" (");
            reveal_strlit(")");
        }
        let t1 = Token::new("? ").with_fg(Color::DarkGreen);
        let t2 = Token::new(prompt);
        let ghost ts1 = seq![t1.text()];
        let ghost mut ts = seq![t1.text(), t2.text()];
        Self::put(terminal, &t1, Ghost(start), Ghost(Seq::empty()));
        assert(Seq::<TokenText>::empty().push(t1.text()) =~= ts1);
        Self::put(terminal, &t2, Ghost(start), Ghost(ts1));
        assert(ts1.push(t2.text()) =~= ts);
        if let Some(d) = default {
            let mut text = to_owned_string(" (");
            push_str(&mut text, d);
            push_str(&mut text, ")");
            let t = Token::new(text.as_str());
            Self::put(terminal, &t, Ghost(start), Ghost(ts));
            proof {
                assert(ts.push(t.text()) =~= ts + seq![plain_token(" ("@ + d@ + ")"@)]);
                ts = ts + seq![plain_token(" ("@ + d@ + ")"@)];
            }
        } else {
            assert(ts + Seq::<TokenText>::empty() =~= ts);
        }
        match content {
            Some(c) => {
                if !c.is_empty() {
                    let mut text = to_owned_string(" ");
                    push_str(&mut text, c);
                    let t = Token::new(text.as_str()).with_style(Style::Bold);
                    Self::put(terminal, &t, Ghost(start), Ghost(ts));
                    proof {
                        let p = TokenText { text: " "@ + c@, fg: None, bg: None, style: Some(Style::Bold) };
                        assert(ts.push(t.text()) =~= ts + seq![p]);
                        ts = ts + seq![p];
                    }
                } else {
                    assert(ts + Seq::<TokenText>::empty() =~= ts);
                }
            },
            None => {
                assert(ts + Seq::<TokenText>::empty() =~= ts);
            },
        }
        self.new_line(terminal, Ghost(start), Ghost(ts));
        Ok(())
    }

    /// Draws a help message line: the message in square brackets, in cyan.
    pub fn print_help(&mut self, terminal: &mut Terminal, message: &str) -> (r: Result<(), std::io::Error>)
        ensures
            r is Ok,
            Self::printed(final(terminal), old(terminal), help_tokens(message@)),
            final(self).spec_lines() == old(self).next_line_count(),
    {
        let ghost start = terminal.spec_output();
        proof {
            assert(start.take(start.len() as int) =~= start);
            lemma_tokens_empty(terminal.spec_dull(), start.skip(start.len() as int));
            reveal_strlit("[");
            reveal_strlit("]");
        }
        let mut text = to_owned_string("[");
        push_str(&mut text, message);
        push_str(&mut text, "]");
        let token = Token::new(text.as_str()).with_fg(Color::DarkCyan);
        Self::put(terminal, &token, Ghost(start), Ghost(Seq::empty()));
        let ghost ts = seq![token.text()];
        assert(Seq::<TokenText>::empty().push(token.text()) =~= ts);
        self.new_line(terminal, Ghost(start), Ghost(ts));
        Ok(())
    }

    /// Draws an option line: "> " and the option in cyan when it is
    /// highlighted, otherwise two spaces and the option.
    pub fn print_option(&mut self, terminal: &mut Terminal, cursor: bool, content: &str) -> (r: Result<(), std::io::Error>)
        ensures
            r is Ok,
            Self::printed(final(terminal), old(terminal),
                seq![if cursor { colored_token("> "@ + content@, Color::DarkCyan) } else { plain_token("  "@ + content@) }]
                    + line_end_tokens()),
            final(self).spec_lines() == old(self).next_line_count(),
    {
        let ghost start = terminal.spec_output();
        proof {
            assert(start.take(start.len() as int) =~= start);
            lemma_tokens_empty(terminal.spec_dull(), start.skip(start.len() as int));
            reveal_strlit("> ");
            reveal_strlit("  ");
        }
        let mut text = if cursor { to_owned_string("> ") } else { to_owned_string("  ") };
        push_str(&mut text, content);
        let token = if cursor { Token::new(text.as_str()).with_fg(Color::DarkCyan) } else { Token::new(text.as_str()) };
        Self::put(terminal, &token, Ghost(start), Ghost(Seq::empty()));
        let ghost ts = seq![token.text()];
        assert(Seq::<TokenText>::empty().push(token.text()) =~= ts);
        self.new_line(terminal, Ghost(start), Ghost(ts));
        Ok(())
    }

    /// Draws an option line with its checkbox: "> " in cyan when highlighted
    /// (two spaces otherwise), "[x] " in green when selected ("[ ] "
    /// otherwise), and the option.
    pub fn print_multi_option(&mut self, terminal: &mut Terminal, cursor: bool, checked: bool, content: &str) -> (r: Result<(), std::io::Error>)
        ensures
            r is Ok,
            Self::printed(final(terminal), old(terminal), multi_option_tokens(cursor, checked, content@)),
            final(self).spec_lines() == old(self).next_line_count(),
    {
        let ghost start = terminal.spec_output();
        proof {
            assert(start.take(start.len() as int) =~= start);
            lemma_tokens_empty(terminal.spec_dull(), start.skip(start.len() as int));
            reveal_strlit("> ");
            reveal_strlit("  ");
            reveal_strlit("[x] ");
            reveal_strlit("[ ] ");
        }
        let t1 = if cursor { Token::new("> ").with_fg(Color::DarkCyan) } else { Token::new("  ") };
        let t2 = if checked { Token::new("[x] ").with_fg(Color::DarkGreen) } else { Token::new("[ ] ") };
        let t3 = Token::new(content);
        let ghost ts1 = seq![t1.text()];
        let ghost ts2 = seq![t1.text(), t2.text()];
        let ghost ts3 = seq![t1.text(), t2.text(), t3.text()];
        Self::put(terminal, &t1, Ghost(start), Ghost(Seq::empty()));
        assert(Seq::<TokenText>::empty().push(t1.text()) =~= ts1);
        Self::put(terminal, &t2, Ghost(start), Ghost(ts1));
        assert(ts1.push(t2.text()) =~= ts2);
        Self::put(terminal, &t3, Ghost(start), Ghost(ts2));
        assert(ts2.push(t3.text()) =~= ts3);
        self.new_line(terminal, Ghost(start), Ghost(ts3));
        Ok(())
    }
}

} // verus!
