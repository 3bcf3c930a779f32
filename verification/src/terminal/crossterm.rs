//! A terminal that speaks ANSI escape sequences, as crossterm writes them.

use crate::ansi::{
    attributes_reset_code, bg_color_code, bg_reset_code, bold_code, clear_line_code,
    color_sequence, csi, cursor_down_code, cursor_hide_code, cursor_show_code, cursor_up_code,
    fg_color_code, fg_reset_code, italic_code, move_to_column_code, sgr, spec_color_params,
};
use crate::decimal::spec_decimal;
use crate::key::{spec_key_from_event, Key, KeyEvent};
use crate::strings::push_str;
use crate::terminal::Terminal;
use crate::ui::{Attributes, Color, Styled};
use vstd::prelude::*;

verus! {

/// A text with its line endings converted to `\r\n`: a `\r` is put before
/// each `\n` that does not already follow one; every other character stays.
#[verifier::opaque]
pub open spec fn spec_unix2dos(s: Seq<char>) -> Seq<char>
    decreases s.len(),
{
    if s.len() == 0 {
        s
    } else if s.last() == '\n' && !(s.len() >= 2 && s[s.len() - 2] == '\r') {
        spec_unix2dos(s.drop_last()) + seq!['\r', '\n']
    } else {
        spec_unix2dos(s.drop_last()).push(s.last())
    }
}

/// A text without any `\n` has no line ending to convert.
pub proof fn lemma_unix2dos_without_newline(s: Seq<char>)
    requires
        !s.contains('\n'),
    ensures
        spec_unix2dos(s) == s,
    decreases s.len(),
{
    reveal(spec_unix2dos);
    if s.len() > 0 {
        assert(!s.drop_last().contains('\n')) by {
            if s.drop_last().contains('\n') {
                let k = choose|k: int| 0 <= k < s.drop_last().len() && s.drop_last()[k] == '\n';
                assert(s[k] == '\n');
            }
        }
        lemma_unix2dos_without_newline(s.drop_last());
        assert(s.last() != '\n') by {
            assert(s[s.len() - 1] == s.last());
        }
        assert(s.drop_last().push(s.last()) =~= s);
    }
}

/// Converts the line endings of `s` to `\r\n` with `newline_converter::unix2dos`.
///
/// Trusted: the result is [spec_unix2dos] of the text, as the crate's source
/// shows it (a `\r` inserted before each `\n` that does not follow one).
#[verifier::external_body]
fn unix2dos_text(s: &str) -> (r: String)
    ensures
        r@ == spec_unix2dos(s@),
{
    newline_converter::unix2dos(s).into_owned()
}

/// Converts the line endings of `s` to `\r\n`; a text without any `\n`
/// comes back unchanged.
pub(crate) fn unix2dos(s: &str) -> (r: String)
    ensures
        r@ == spec_unix2dos(s@),
        !s@.contains('\n') ==> r@ == s@,
{
    let r = unix2dos_text(s);
    proof {
        if !s@.contains('\n') {
            lemma_unix2dos_without_newline(s@);
        }
    }
    r
}

/// Where keys come from.
enum IO {
    /// The keyboard of the process's terminal, read by the caller.
    Std,
    /// A fixed sequence of key events, read in order.
    Custom { keys: Vec<KeyEvent>, next: usize },
}

/// A terminal that turns every operation into the characters sent to it.
///
/// The output accumulates in memory; whoever owns the real device sends it.
pub struct CrosstermTerminal {
    io: IO,
    output: String,
    in_memory_content: String,
}

/// The sequences that turn on the attributes `att`: bold first, then italic.
pub open spec fn spec_attributes_codes(att: Attributes) -> Seq<char> {
    (if att.bits & 1 == 1 { sgr("1"@) } else { Seq::empty() })
        + (if att.bits & 2 == 2 { sgr("3"@) } else { Seq::empty() })
}

/// The characters that `write_styled` sends for `val` when the colors come out
/// as `fg`, `bg` (set) and `fg_reset`, `bg_reset` (reset).
pub open spec fn spec_styled_output(
    val: Styled<&str>,
    text: Seq<char>,
    fg: Seq<char>,
    bg: Seq<char>,
    fg_reset: Seq<char>,
    bg_reset: Seq<char>,
) -> Seq<char> {
    (if val.fg is Some { fg } else { Seq::empty() })
        + (if val.bg is Some { bg } else { Seq::empty() })
        + (if val.att.bits != 0 { spec_attributes_codes(val.att) } else { Seq::empty() })
        + text
        + (if val.fg is Some { fg_reset } else { Seq::empty() })
        + (if val.bg is Some { bg_reset } else { Seq::empty() })
        + (if val.att.bits != 0 { sgr("0"@) } else { Seq::empty() })
}

/// Whether `out` is what `write_styled` may send for `val`, whichever way
/// the environment has colors.
pub open spec fn spec_styled_sent(val: Styled<&str>, text: Seq<char>, out: Seq<char>) -> bool {
    exists|fg: Seq<char>, bg: Seq<char>, fr: Seq<char>, br: Seq<char>|
        (val.fg matches Some(c) ==> color_sequence(spec_color_params("38;"@, c), fg))
        && (val.bg matches Some(c) ==> color_sequence(spec_color_params("48;"@, c), bg))
        && color_sequence("39"@, fr) && color_sequence("49"@, br)
        && out == #[trigger] spec_styled_output(val, text, fg, bg, fr, br)
}

/// The sequence that writes `text` with the colors and attributes of `val`.
pub fn styled_sequence(val: &Styled<&str>, text: &str) -> (r: String)
    ensures
        spec_styled_sent(*val, text@, r@),
{
    let fg = match val.fg { Some(c) => fg_color_code(c), None => String::new() };
    let bg = match val.bg { Some(c) => bg_color_code(c), None => String::new() };
    let fr = fg_reset_code();
    let br = bg_reset_code();
    let mut out = String::new();
    if val.fg.is_some() {
        push_str(&mut out, fg.as_str());
    }
    if val.bg.is_some() {
        push_str(&mut out, bg.as_str());
    }
    let ghost colors = out@;
    if !val.att.is_empty() {
        if val.att.contains(Attributes::bold()) {
            let code = bold_code();
            push_str(&mut out, code.as_str());
        }
        if val.att.contains(Attributes::italic()) {
            let code = italic_code();
            push_str(&mut out, code.as_str());
        }
    }
    assert(out@ =~= colors + (if val.att.bits != 0 { spec_attributes_codes(val.att) } else { Seq::empty() }));
    push_str(&mut out, text);
    if val.fg.is_some() {
        push_str(&mut out, fr.as_str());
    }
    if val.bg.is_some() {
        push_str(&mut out, br.as_str());
    }
    if !val.att.is_empty() {
        let code = attributes_reset_code();
        push_str(&mut out, code.as_str());
    }
    assert(out@ =~= spec_styled_output(*val, text@, fg@, bg@, fr@, br@));
    out
}

impl CrosstermTerminal {
    /// Everything sent to the terminal so far.
    pub closed spec fn spec_output(&self) -> Seq<char> {
        self.output@
    }

    /// The text written since the in-memory content was last cleared.
    pub closed spec fn spec_in_memory(&self) -> Seq<char> {
        self.in_memory_content@
    }

    /// Whether the terminal holds its own sequence of keys.
    pub closed spec fn spec_has_keys(&self) -> bool {
        self.io is Custom
    }

    /// The keys not read yet, when the terminal holds its own.
    pub closed spec fn spec_pending_keys(&self) -> Seq<KeyEvent> {
        match self.io {
            IO::Custom { keys, next } => keys@.skip(next as int),
            IO::Std => Seq::empty(),
        }
    }

    /// Whether the held keys are consistent (the read position is within them).
    pub closed spec fn wf(&self) -> bool {
        match self.io {
            IO::Custom { keys, next } => next <= keys@.len(),
            IO::Std => true,
        }
    }

    /// A terminal on the process's own keyboard and screen: keys are read, and
    /// output sent, by the caller (who enables raw mode first).
    pub fn new() -> (r: Self)
        ensures
            r.wf(),
            r.spec_output() == Seq::<char>::empty(),
            r.spec_in_memory() == Seq::<char>::empty(),
            !r.spec_has_keys(),
    {
        CrosstermTerminal { io: IO::Std, output: String::new(), in_memory_content: String::new() }
    }

    /// A terminal that reads the given keys, in order.
    pub fn new_with_io(keys: Vec<KeyEvent>) -> (r: Self)
        ensures
            r.wf(),
            r.spec_output() == Seq::<char>::empty(),
            r.spec_in_memory() == Seq::<char>::empty(),
            r.spec_has_keys(),
            r.spec_pending_keys() == keys@,
    {
        let r = CrosstermTerminal {
            io: IO::Custom { keys, next: 0 },
            output: String::new(),
            in_memory_content: String::new(),
        };
        assert(keys@.skip(0) =~= keys@);
        r
    }

    /// Everything sent to the terminal so far.
    pub fn output(&self) -> (r: &str)
        ensures
            r@ == self.spec_output(),
    {
        self.output.as_str()
    }

    /// Hands over what was sent so far, and forgets it.
    pub fn take_output(&mut self) -> (r: String)
        requires
            old(self).wf(),
        ensures
            final(self).wf(),
            r@ == old(self).spec_output(),
            final(self).spec_output() == Seq::<char>::empty(),
            final(self).spec_in_memory() == old(self).spec_in_memory(),
            final(self).spec_has_keys() == old(self).spec_has_keys(),
            final(self).spec_pending_keys() == old(self).spec_pending_keys(),
    {
        let mut out = String::new();
        std::mem::swap(&mut out, &mut self.output);
        out
    }

    fn send(&mut self, s: &str)
        ensures
            final(self).output@ == old(self).output@ + s@,
            final(self).in_memory_content == old(self).in_memory_content,
            final(self).io == old(self).io,
    {
        push_str(&mut self.output, s);
    }
}

impl Terminal for CrosstermTerminal {
    fn cursor_up(&mut self, cnt: u16) -> (r: std::io::Result<()>)
        ensures
            r is Ok,
            final(self).spec_output() == old(self).spec_output() + csi(spec_decimal(cnt as nat) + "A"@),
            final(self).spec_in_memory() == old(self).spec_in_memory(),
            final(self).spec_has_keys() == old(self).spec_has_keys(),
            final(self).spec_pending_keys() == old(self).spec_pending_keys(),
            final(self).wf() == old(self).wf(),
    {
        let code = cursor_up_code(cnt);
        self.send(code.as_str());
        Ok(())
    }

    fn cursor_down(&mut self, cnt: u16) -> (r: std::io::Result<()>)
        ensures
            r is Ok,
            final(self).spec_output() == old(self).spec_output() + csi(spec_decimal(cnt as nat) + "B"@),
            final(self).spec_in_memory() == old(self).spec_in_memory(),
            final(self).spec_has_keys() == old(self).spec_has_keys(),
            final(self).spec_pending_keys() == old(self).spec_pending_keys(),
            final(self).wf() == old(self).wf(),
    {
        let code = cursor_down_code(cnt);
        self.send(code.as_str());
        Ok(())
    }

    /// The column is saturated at the largest one before crossterm counts it
    /// from one.
    fn cursor_move_to_column(&mut self, idx: u16) -> (r: std::io::Result<()>)
        ensures
            r is Ok,
            final(self).spec_output() == old(self).spec_output() + csi(
                spec_decimal((if idx < u16::MAX { idx + 1 } else { idx as int }) as nat) + "G"@,
            ),
            final(self).spec_in_memory() == old(self).spec_in_memory(),
            final(self).spec_has_keys() == old(self).spec_has_keys(),
            final(self).spec_pending_keys() == old(self).spec_pending_keys(),
            final(self).wf() == old(self).wf(),
    {
        let column = if idx < u16::MAX { idx } else { idx - 1 };
        let code = move_to_column_code(column);
        self.send(code.as_str());
        Ok(())
    }

    /// Reads the next held key. A terminal on the process's keyboard holds
    /// none: its caller reads them, and `Ok(None)` comes back.
    fn read_key(&mut self) -> (r: std::io::Result<Option<Key>>)
        ensures
            old(self).wf() && old(self).spec_has_keys() && old(self).spec_pending_keys().len() > 0 ==> (
                r == Ok::<Option<Key>, std::io::Error>(Some(spec_key_from_event(old(self).spec_pending_keys()[0])))
                && final(self).spec_pending_keys() == old(self).spec_pending_keys().drop_first()),
            !old(self).spec_has_keys() ==> r matches Ok(None),
            !(old(self).spec_has_keys() && old(self).spec_pending_keys().len() > 0)
                ==> final(self).spec_pending_keys() == old(self).spec_pending_keys(),
            old(self).spec_has_keys() && old(self).spec_pending_keys().len() == 0 ==> r matches Ok(None),
            final(self).spec_output() == old(self).spec_output(),
            final(self).spec_in_memory() == old(self).spec_in_memory(),
            final(self).spec_has_keys() == old(self).spec_has_keys(),
            old(self).wf() ==> final(self).wf(),
    {
        match &mut self.io {
            IO::Std => Ok(None),
            IO::Custom { keys, next } => {
                if *next < keys.len() {
                    let event = keys[*next];
                    proof {
                        assert(keys@.skip(*next as int + 1) =~= keys@.skip(*next as int).drop_first());
                    }
                    *next = *next + 1;
                    Ok(Some(Key::from_event(event)))
                } else {
                    Ok(None)
                }
            },
        }
    }

    /// Output held in memory needs no flushing; the caller flushes the device.
    fn flush(&mut self) -> (r: std::io::Result<()>)
        ensures
            r is Ok,
            *final(self) == *old(self),
    {
        Ok(())
    }

    fn get_in_memory_content(&self) -> (r: &str)
        ensures
            r@ == self.spec_in_memory(),
    {
        self.in_memory_content.as_str()
    }

    fn clear_in_memory_content(&mut self)
        ensures
            final(self).spec_in_memory() == Seq::<char>::empty(),
            final(self).spec_output() == old(self).spec_output(),
            final(self).spec_has_keys() == old(self).spec_has_keys(),
            final(self).spec_pending_keys() == old(self).spec_pending_keys(),
            final(self).wf() == old(self).wf(),
    {
        self.in_memory_content = String::new();
    }

    /// Writes text, with its line endings converted to `\r\n`; the text also
    /// joins the in-memory content.
    fn write(&mut self, val: &str) -> (r: std::io::Result<()>)
        ensures
            r is Ok,
            final(self).spec_output() == old(self).spec_output() + spec_unix2dos(val@),
            final(self).spec_in_memory() == old(self).spec_in_memory() + spec_unix2dos(val@),
            final(self).spec_has_keys() == old(self).spec_has_keys(),
            final(self).spec_pending_keys() == old(self).spec_pending_keys(),
            final(self).wf() == old(self).wf(),
    {
        let converted = unix2dos(val);
        push_str(&mut self.in_memory_content, converted.as_str());
        self.send(converted.as_str());
        Ok(())
    }

    /// Sets the colors and attributes of `val`, writes its content, and resets
    /// what it set.
    fn write_styled(&mut self, val: &Styled<&str>) -> (r: std::io::Result<()>)
        ensures
            r is Ok,
            spec_styled_sent(*val, spec_unix2dos(val.content@),
                final(self).spec_output().skip(old(self).spec_output().len() as int)),
            final(self).spec_output().len() >= old(self).spec_output().len(),
            final(self).spec_output().take(old(self).spec_output().len() as int) == old(self).spec_output(),
            final(self).spec_in_memory() == old(self).spec_in_memory() + spec_unix2dos(val.content@),
            final(self).spec_has_keys() == old(self).spec_has_keys(),
            final(self).spec_pending_keys() == old(self).spec_pending_keys(),
            final(self).wf() == old(self).wf(),
    {
        let converted = unix2dos(val.content);
        push_str(&mut self.in_memory_content, converted.as_str());
        let ghost start = self.output@;
        let seq = styled_sequence(val, converted.as_str());
        self.send(seq.as_str());
        proof {
            assert(self.output@.skip(start.len() as int) =~= seq@);
            assert(self.output@.take(start.len() as int) =~= start);
        }
        Ok(())
    }

    fn clear_current_line(&mut self) -> (r: std::io::Result<()>)
        ensures
            r is Ok,
            final(self).spec_output() == old(self).spec_output() + csi("2K"@),
            final(self).spec_in_memory() == old(self).spec_in_memory(),
            final(self).spec_has_keys() == old(self).spec_has_keys(),
            final(self).spec_pending_keys() == old(self).spec_pending_keys(),
            final(self).wf() == old(self).wf(),
    {
        let code = clear_line_code();
        self.send(code.as_str());
        Ok(())
    }

    fn cursor_hide(&mut self) -> (r: std::io::Result<()>)
        ensures
            r is Ok,
            final(self).spec_output() == old(self).spec_output() + csi("?25l"@),
            final(self).spec_in_memory() == old(self).spec_in_memory(),
            final(self).spec_has_keys() == old(self).spec_has_keys(),
            final(self).spec_pending_keys() == old(self).spec_pending_keys(),
            final(self).wf() == old(self).wf(),
    {
        let code = cursor_hide_code();
        self.send(code.as_str());
        Ok(())
    }

    fn cursor_show(&mut self) -> (r: std::io::Result<()>)
        ensures
            r is Ok,
            final(self).spec_output() == old(self).spec_output() + csi("?25h"@),
            final(self).spec_in_memory() == old(self).spec_in_memory(),
            final(self).spec_has_keys() == old(self).spec_has_keys(),
            final(self).spec_pending_keys() == old(self).spec_pending_keys(),
            final(self).wf() == old(self).wf(),
    {
        let code = cursor_show_code();
        self.send(code.as_str());
        Ok(())
    }

    /// Turns on bold, then italic, for those of `attributes` that are set.
    fn set_attributes(&mut self, attributes: Attributes) -> (r: std::io::Result<()>)
        ensures
            r is Ok,
            final(self).spec_output() == old(self).spec_output() + spec_attributes_codes(attributes),
            final(self).spec_in_memory() == old(self).spec_in_memory(),
            final(self).spec_has_keys() == old(self).spec_has_keys(),
            final(self).spec_pending_keys() == old(self).spec_pending_keys(),
            final(self).wf() == old(self).wf(),
    {
        let ghost start = self.output@;
        if attributes.contains(Attributes::bold()) {
            let code = bold_code();
            self.send(code.as_str());
        }
        if attributes.contains(Attributes::italic()) {
            let code = italic_code();
            self.send(code.as_str());
        }
        assert(self.output@ =~= start + spec_attributes_codes(attributes));
        Ok(())
    }

    fn reset_attributes(&mut self) -> (r: std::io::Result<()>)
        ensures
            r is Ok,
            final(self).spec_output() == old(self).spec_output() + sgr("0"@),
            final(self).spec_in_memory() == old(self).spec_in_memory(),
            final(self).spec_has_keys() == old(self).spec_has_keys(),
            final(self).spec_pending_keys() == old(self).spec_pending_keys(),
            final(self).wf() == old(self).wf(),
    {
        let code = attributes_reset_code();
        self.send(code.as_str());
        Ok(())
    }

    fn set_fg_color(&mut self, color: Color) -> (r: std::io::Result<()>)
        ensures
            r is Ok,
            final(self).spec_output().len() >= old(self).spec_output().len(),
            final(self).spec_output().take(old(self).spec_output().len() as int) == old(self).spec_output(),
            color_sequence(spec_color_params("38;"@, color),
                final(self).spec_output().skip(old(self).spec_output().len() as int)),
            final(self).spec_in_memory() == old(self).spec_in_memory(),
            final(self).spec_has_keys() == old(self).spec_has_keys(),
            final(self).spec_pending_keys() == old(self).spec_pending_keys(),
            final(self).wf() == old(self).wf(),
    {
        let ghost start = self.output@;
        let code = fg_color_code(color);
        self.send(code.as_str());
        assert(self.output@.skip(start.len() as int) =~= code@);
        assert(self.output@.take(start.len() as int) =~= start);
        Ok(())
    }

    fn reset_fg_color(&mut self) -> (r: std::io::Result<()>)
        ensures
            r is Ok,
            final(self).spec_output().len() >= old(self).spec_output().len(),
            final(self).spec_output().take(old(self).spec_output().len() as int) == old(self).spec_output(),
            color_sequence("39"@, final(self).spec_output().skip(old(self).spec_output().len() as int)),
            final(self).spec_in_memory() == old(self).spec_in_memory(),
            final(self).spec_has_keys() == old(self).spec_has_keys(),
            final(self).spec_pending_keys() == old(self).spec_pending_keys(),
            final(self).wf() == old(self).wf(),
    {
        let ghost start = self.output@;
        let code = fg_reset_code();
        self.send(code.as_str());
        assert(self.output@.skip(start.len() as int) =~= code@);
        assert(self.output@.take(start.len() as int) =~= start);
        Ok(())
    }

    fn set_bg_color(&mut self, color: Color) -> (r: std::io::Result<()>)
        ensures
            r is Ok,
            final(self).spec_output().len() >= old(self).spec_output().len(),
            final(self).spec_output().take(old(self).spec_output().len() as int) == old(self).spec_output(),
            color_sequence(spec_color_params("48;"@, color),
                final(self).spec_output().skip(old(self).spec_output().len() as int)),
            final(self).spec_in_memory() == old(self).spec_in_memory(),
            final(self).spec_has_keys() == old(self).spec_has_keys(),
            final(self).spec_pending_keys() == old(self).spec_pending_keys(),
            final(self).wf() == old(self).wf(),
    {
        let ghost start = self.output@;
        let code = bg_color_code(color);
        self.send(code.as_str());
        assert(self.output@.skip(start.len() as int) =~= code@);
        assert(self.output@.take(start.len() as int) =~= start);
        Ok(())
    }

    fn reset_bg_color(&mut self) -> (r: std::io::Result<()>)
        ensures
            r is Ok,
            final(self).spec_output().len() >= old(self).spec_output().len(),
            final(self).spec_output().take(old(self).spec_output().len() as int) == old(self).spec_output(),
            color_sequence("49"@, final(self).spec_output().skip(old(self).spec_output().len() as int)),
            final(self).spec_in_memory() == old(self).spec_in_memory(),
            final(self).spec_has_keys() == old(self).spec_has_keys(),
            final(self).spec_pending_keys() == old(self).spec_pending_keys(),
            final(self).wf() == old(self).wf(),
    {
        let ghost start = self.output@;
        let code = bg_reset_code();
        self.send(code.as_str());
        assert(self.output@.skip(start.len() as int) =~= code@);
        assert(self.output@.take(start.len() as int) =~= start);
        Ok(())
    }
}

} // verus!
