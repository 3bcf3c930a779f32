//! A terminal writer for the UI's styled text: text, styled text and styling commands
//! turned into the ANSI sequences sent to the screen, with a "dull" mode that
//! drops all styling.

use crate::terminal::crossterm::{spec_attributes_codes, spec_styled_sent, styled_sequence};
use crate::ansi::{
    attributes_reset_code, bg_color_code, bg_reset_code, bold_code, clear_line_code,
    color_sequence, csi, cursor_hide_code, cursor_show_code, cursor_up_code, fg_color_code,
    fg_reset_code, italic_code, move_to_column_code, sgr, spec_color_params,
};
use crate::decimal::spec_decimal;
use crate::key::KeyEvent;
use crate::strings::push_str;
use crate::ui::{Attributes, Color, Styled};
use vstd::prelude::*;

verus! {

/// Size of a terminal, in columns and rows.
#[derive(Default, Clone, Copy, PartialEq, Eq, Debug, Structural)]
pub struct Size {
    /// Number of columns.
    pub width: u16,
    /// Number of rows.
    pub height: u16,
}

/// Where the keys of a terminal come from.
pub enum IO {
    /// The keyboard of the process's terminal, read by the caller.
    Std,
    /// A fixed sequence of key events, read in order.
    Custom {
        /// The events.
        keys: Vec<KeyEvent>,
        /// How many were read.
        next: usize,
    },
}

/// A terminal that turns every operation into the characters sent to it.
pub struct OldTerminal {
    io: IO,
    output: String,
    dull: bool,
}

impl OldTerminal {
    /// Everything sent to the terminal so far.
    pub closed spec fn spec_output(&self) -> Seq<char> {
        self.output@
    }

    /// Whether styling is dropped.
    pub closed spec fn spec_dull(&self) -> bool {
        self.dull
    }

    /// Whether the terminal holds its own sequence of keys.
    pub closed spec fn spec_has_keys(&self) -> bool {
        self.io is Custom
    }

    /// The keys not read yet, when the terminal holds its own.
    pub closed spec fn spec_pending_keys(&self) -> Seq<KeyEvent> {
        match self.io {
            IO::Custom { keys, next } => keys@.skip(next as int),
            IO::Std => Seq::empty(),
        }
    }

    /// Whether the read position lies within the held keys.
    pub closed spec fn wf(&self) -> bool {
        match self.io {
            IO::Custom { keys, next } => next <= keys@.len(),
            IO::Std => true,
        }
    }

    /// Whether only the output may have changed from `old` to `self`.
    pub open spec fn same_but_output(&self, old: &OldTerminal) -> bool {
        &&& self.spec_dull() == old.spec_dull()
        &&& self.spec_has_keys() == old.spec_has_keys()
        &&& self.spec_pending_keys() == old.spec_pending_keys()
        &&& self.wf() == old.wf()
    }

    /// A terminal on the process's own keyboard and screen (the caller enables
    /// raw mode, reads the keys and sends the output).
    pub fn new() -> (r: Self)
        ensures
            r.wf(),
            r.spec_output() == Seq::<char>::empty(),
            !r.spec_dull(),
            !r.spec_has_keys(),
    {
        OldTerminal { io: IO::Std, output: String::new(), dull: false }
    }

    /// A terminal that reads the given keys, in order.
    pub fn new_with_io(keys: Vec<KeyEvent>) -> (r: Self)
        ensures
            r.wf(),
            r.spec_output() == Seq::<char>::empty(),
            !r.spec_dull(),
            r.spec_has_keys(),
            r.spec_pending_keys() == keys@,
    {
        assert(keys@.skip(0) =~= keys@);
        OldTerminal { io: IO::Custom { keys, next: 0 }, output: String::new(), dull: false }
    }

    /// The same terminal, dropping all styling from now on.
    pub fn dull(self) -> (r: Self)
        ensures
            r.spec_dull(),
            r.spec_output() == self.spec_output(),
            r.spec_has_keys() == self.spec_has_keys(),
            r.spec_pending_keys() == self.spec_pending_keys(),
            r.wf() == self.wf(),
    {
        let mut s = self;
        s.dull = true;
        s
    }

    fn send(&mut self, s: &str)
        ensures
            final(self).output@ == old(self).output@ + s@,
            final(self).dull == old(self).dull,
            final(self).io == old(self).io,
    {
        push_str(&mut self.output, s);
    }

    /// Moves the cursor up one line.
    pub fn cursor_up(&mut self) -> (r: Result<(), std::io::Error>)
        ensures
            r is Ok,
            final(self).spec_output() == old(self).spec_output() + csi("1A"@),
            final(self).same_but_output(old(self)),
    {
        let code = cursor_up_code(1);
        proof {
            reveal_strlit("1A");
            reveal_strlit("A");
            assert(spec_decimal(1) =~= seq!['1']);
            assert(spec_decimal(1) + "A"@ =~= "1A"@);
        }
        self.send(code.as_str());
        Ok(())
    }

    /// Moves the cursor to the first column.
    pub fn cursor_horizontal_reset(&mut self) -> (r: Result<(), std::io::Error>)
        ensures
            r is Ok,
            final(self).spec_output() == old(self).spec_output() + csi("1G"@),
            final(self).same_but_output(old(self)),
    {
        let code = move_to_column_code(0);
        proof {
            reveal_strlit("1G");
            reveal_strlit("G");
            assert(spec_decimal(1) =~= seq!['1']);
            assert(spec_decimal(0 + 1) + "G"@ =~= "1G"@);
        }
        self.send(code.as_str());
        Ok(())
    }

    /// Output held in memory needs no flushing; the caller flushes the device.
    pub fn flush(&mut self) -> (r: Result<(), std::io::Error>)
        ensures
            r is Ok,
            final(self).spec_output() == old(self).spec_output(),
            final(self).same_but_output(old(self)),
    {
        Ok(())
    }

    /// Reads the next held key event; `None` when the terminal holds none (its
    /// caller reads the keyboard).
    pub fn read_key(&mut self) -> (r: Result<Option<KeyEvent>, std::io::Error>)
        requires
            old(self).wf(),
            old(self).spec_has_keys() ==> old(self).spec_pending_keys().len() > 0,
        ensures
            old(self).spec_has_keys() ==> r == Ok::<Option<KeyEvent>, std::io::Error>(Some(old(self).spec_pending_keys()[0]))
                && final(self).spec_pending_keys() == old(self).spec_pending_keys().drop_first(),
            !old(self).spec_has_keys() ==> (r matches Ok(None) && final(self).spec_pending_keys() == old(self).spec_pending_keys()),
            final(self).spec_output() == old(self).spec_output(),
            final(self).spec_dull() == old(self).spec_dull(),
            final(self).spec_has_keys() == old(self).spec_has_keys(),
            final(self).wf(),
    {
        match &mut self.io {
            IO::Std => Ok(None),
            IO::Custom { keys, next } => {
                let len = keys.len();
                assert(*next < len);
                let event = keys[*next];
                proof {
                    assert(keys@.skip(*next as int + 1) =~= keys@.skip(*next as int).drop_first());
                }
                *next = *next + 1;
                Ok(Some(event))
            },
        }
    }

    /// Writes text as it is.
    pub fn write(&mut self, val: &str) -> (r: Result<(), std::io::Error>)
        ensures
            r is Ok,
            final(self).spec_output() == old(self).spec_output() + val@,
            final(self).same_but_output(old(self)),
    {
        self.send(val);
        Ok(())
    }

    /// Hides the cursor.
    pub fn cursor_hide(&mut self) -> (r: Result<(), std::io::Error>)
        ensures
            r is Ok,
            final(self).spec_output() == old(self).spec_output() + csi("?25l"@),
            final(self).same_but_output(old(self)),
    {
        let code = cursor_hide_code();
        self.send(code.as_str());
        Ok(())
    }

    /// Shows the cursor.
    pub fn cursor_show(&mut self) -> (r: Result<(), std::io::Error>)
        ensures
            r is Ok,
            final(self).spec_output() == old(self).spec_output() + csi("?25h"@),
            final(self).same_but_output(old(self)),
    {
        let code = cursor_show_code();
        self.send(code.as_str());
        Ok(())
    }

    /// Clears the line the cursor is on.
    pub fn clear_current_line(&mut self) -> (r: Result<(), std::io::Error>)
        ensures
            r is Ok,
            final(self).spec_output() == old(self).spec_output() + csi("2K"@),
            final(self).same_but_output(old(self)),
    {
        let code = clear_line_code();
        self.send(code.as_str());
        Ok(())
    }

    /// Turns on bold, then italic, for those of `attributes` that are set;
    /// nothing when dull.
    pub fn set_attributes(&mut self, attributes: Attributes) -> (r: Result<(), std::io::Error>)
        ensures
            r is Ok,
            final(self).spec_output() == old(self).spec_output() + (if old(self).spec_dull() {
                Seq::empty()
            } else {
                spec_attributes_codes(attributes)
            }),
            final(self).same_but_output(old(self)),
    {
        let ghost start = self.output@;
        if self.dull {
            assert(self.output@ =~= self.output@ + Seq::<char>::empty());
            return Ok(());
        }
        if attributes.contains(Attributes::bold()) {
            let code = bold_code();
            self.send(code.as_str());
        }
        if attributes.contains(Attributes::italic()) {
            let code = italic_code();
            self.send(code.as_str());
        }
        assert(self.output@ =~= start + spec_attributes_codes(attributes));
        Ok(())
    }

    /// Turns off every attribute; nothing when dull.
    pub fn reset_attributes(&mut self) -> (r: Result<(), std::io::Error>)
        ensures
            r is Ok,
            final(self).spec_output() == old(self).spec_output() + (if old(self).spec_dull() {
                Seq::empty()
            } else {
                sgr("0"@)
            }),
            final(self).same_but_output(old(self)),
    {
        if self.dull {
            assert(self.output@ =~= self.output@ + Seq::<char>::empty());
            return Ok(());
        }
        let code = attributes_reset_code();
        self.send(code.as_str());
        Ok(())
    }

    /// Writes the content of `val` with its colors and attributes, resetting
    /// them afterwards; a dull terminal writes the content alone.
    pub fn write_styled(&mut self, val: Styled<&str>) -> (r: Result<(), std::io::Error>)
        ensures
            r is Ok,
            final(self).spec_output().len() >= old(self).spec_output().len(),
            final(self).spec_output().take(old(self).spec_output().len() as int) == old(self).spec_output(),
            old(self).spec_dull() ==> final(self).spec_output() == old(self).spec_output() + val.content@,
            !old(self).spec_dull() ==> spec_styled_sent(val, val.content@,
                final(self).spec_output().skip(old(self).spec_output().len() as int)),
            final(self).same_but_output(old(self)),
    {
        let ghost start = self.output@;
        if self.dull {
            self.send(val.content);
        } else {
            let seq = styled_sequence(&val, val.content);
            self.send(seq.as_str());
            assert(self.output@.skip(start.len() as int) =~= seq@);
        }
        assert(self.output@.take(start.len() as int) =~= start);
        Ok(())
    }

    fn send_color(&mut self, code: String, ghost_params: Ghost<Seq<char>>)
        requires
            color_sequence(ghost_params@, code@),
        ensures
            final(self).output@.len() >= old(self).output@.len(),
            final(self).output@.take(old(self).output@.len() as int) == old(self).output@,
            old(self).dull ==> final(self).output@ == old(self).output@,
            !old(self).dull ==> color_sequence(ghost_params@, final(self).output@.skip(old(self).output@.len() as int)),
            final(self).dull == old(self).dull,
            final(self).io == old(self).io,
    {
        if self.dull {
            assert(self.output@.take(self.output@.len() as int) =~= self.output@);
            return;
        }
        let ghost start = self.output@;
        self.send(code.as_str());
        assert(self.output@.skip(start.len() as int) =~= code@);
        assert(self.output@.take(start.len() as int) =~= start);
    }

    /// Sets the background color; nothing when dull.
    pub fn set_bg_color(&mut self, color: Color) -> (r: Result<(), std::io::Error>)
        ensures
            r is Ok,
            final(self).spec_output().len() >= old(self).spec_output().len(),
            final(self).spec_output().take(old(self).spec_output().len() as int) == old(self).spec_output(),
            old(self).spec_dull() ==> final(self).spec_output() == old(self).spec_output(),
            !old(self).spec_dull() ==> color_sequence(spec_color_params("48;"@, color),
                final(self).spec_output().skip(old(self).spec_output().len() as int)),
            final(self).same_but_output(old(self)),
    {
        let code = bg_color_code(color);
        self.send_color(code, Ghost(spec_color_params("48;"@, color)));
        Ok(())
    }

    /// Restores the default background color; nothing when dull.
    pub fn reset_bg_color(&mut self) -> (r: Result<(), std::io::Error>)
        ensures
            r is Ok,
            final(self).spec_output().len() >= old(self).spec_output().len(),
            final(self).spec_output().take(old(self).spec_output().len() as int) == old(self).spec_output(),
            old(self).spec_dull() ==> final(self).spec_output() == old(self).spec_output(),
            !old(self).spec_dull() ==> color_sequence("49"@,
                final(self).spec_output().skip(old(self).spec_output().len() as int)),
            final(self).same_but_output(old(self)),
    {
        let code = bg_reset_code();
        self.send_color(code, Ghost("49"@));
        Ok(())
    }

    /// Sets the foreground color; nothing when dull.
    pub fn set_fg_color(&mut self, color: Color) -> (r: Result<(), std::io::Error>)
        ensures
            r is Ok,
            final(self).spec_output().len() >= old(self).spec_output().len(),
            final(self).spec_output().take(old(self).spec_output().len() as int) == old(self).spec_output(),
            old(self).spec_dull() ==> final(self).spec_output() == old(self).spec_output(),
            !old(self).spec_dull() ==> color_sequence(spec_color_params("38;"@, color),
                final(self).spec_output().skip(old(self).spec_output().len() as int)),
            final(self).same_but_output(old(self)),
    {
        let code = fg_color_code(color);
        self.send_color(code, Ghost(spec_color_params("38;"@, color)));
        Ok(())
    }

    /// Restores the default foreground color; nothing when dull.
    pub fn reset_fg_color(&mut self) -> (r: Result<(), std::io::Error>)
        ensures
            r is Ok,
            final(self).spec_output().len() >= old(self).spec_output().len(),
            final(self).spec_output().take(old(self).spec_output().len() as int) == old(self).spec_output(),
            old(self).spec_dull() ==> final(self).spec_output() == old(self).spec_output(),
            !old(self).spec_dull() ==> color_sequence("39"@,
                final(self).spec_output().skip(old(self).spec_output().len() as int)),
            final(self).same_but_output(old(self)),
    {
        let code = fg_reset_code();
        self.send_color(code, Ghost("39"@));
        Ok(())
    }

    /// The output written so far: what the terminal's writer holds.
    pub fn get_writer(&self) -> (r: &str)
        ensures
            r@ == self.spec_output(),
    {
        self.output.as_str()
    }

    /// Hands over what was sent so far, for the caller to send to the device.
    pub fn take_output(&mut self) -> (r: String)
        ensures
            r@ == old(self).spec_output(),
            final(self).spec_output() == Seq::<char>::empty(),
            final(self).same_but_output(old(self)),
    {
        let mut out = String::new();
        std::mem::swap(&mut out, &mut self.output);
        out
    }

    /// Closes the terminal: shows the cursor again and hands over everything sent.
    pub fn close(self) -> (r: String)
        ensures
            r@ == self.spec_output() + csi("?25h"@),
    {
        let mut s = self;
        let _ = s.cursor_show();
        s.output
    }
}

} // verus!
