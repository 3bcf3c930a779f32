//! ANSI escape sequences for terminal commands, as `crossterm` writes them.

use crate::decimal::spec_decimal;
use crate::ui::Color;
use crossterm::Command;
use vstd::prelude::*;

verus! {

/// A control sequence: the introducer `ESC [` followed by `body`.
pub open spec fn csi(body: Seq<char>) -> Seq<char> {
    "\x1B["@ + body
}

/// A "select graphic rendition" sequence with the given parameters.
pub open spec fn sgr(params: Seq<char>) -> Seq<char> {
    csi(params + "m"@)
}

/// The color parameters of a palette color (`5;N`).
pub open spec fn palette_params(layer: Seq<char>, index: u8) -> Seq<char> {
    layer + "5;"@ + spec_decimal(index as nat)
}

/// The color parameters of an RGB color (`2;R;G;B`).
pub open spec fn rgb_params(layer: Seq<char>, r: u8, g: u8, b: u8) -> Seq<char> {
    layer + "2;"@ + spec_decimal(r as nat) + ";"@ + spec_decimal(g as nat) + ";"@ + spec_decimal(b as nat)
}

/// The sequence that sets a color: the color's parameters, or none at all when
/// colors are disabled in the environment (`NO_COLOR`).
pub open spec fn color_sequence(params: Seq<char>, r: Seq<char>) -> bool {
    r == sgr(params) || r == sgr(Seq::empty())
}

/// Writes `SetForegroundColor(Color::AnsiValue(index))` with `Command::write_ansi`.
///
/// Trusted: crossterm writes `ESC [ 38;5;N m`, or `ESC [ m` when the environment
/// disables colors; which one depends on the environment, so both are allowed.
#[verifier::external_body]
pub(crate) fn fg_palette_code(index: u8) -> (r: String)
    ensures
        color_sequence(palette_params("38;"@, index), r@),
{
    let mut s = String::new();
    let _ = crossterm::style::SetForegroundColor(crossterm::style::Color::AnsiValue(index)).write_ansi(&mut s);
    s
}

/// Writes `SetBackgroundColor(Color::AnsiValue(index))` with `Command::write_ansi`.
///
/// Trusted: crossterm writes `ESC [ 48;5;N m`, or `ESC [ m` when the environment
/// disables colors.
#[verifier::external_body]
pub(crate) fn bg_palette_code(index: u8) -> (r: String)
    ensures
        color_sequence(palette_params("48;"@, index), r@),
{
    let mut s = String::new();
    let _ = crossterm::style::SetBackgroundColor(crossterm::style::Color::AnsiValue(index)).write_ansi(&mut s);
    s
}

/// Writes `SetForegroundColor(Color::Rgb { r, g, b })` with `Command::write_ansi`.
///
/// Trusted: crossterm writes `ESC [ 38;2;R;G;B m`, or `ESC [ m` when the
/// environment disables colors.
#[verifier::external_body]
pub(crate) fn fg_rgb_code(r: u8, g: u8, b: u8) -> (res: String)
    ensures
        color_sequence(rgb_params("38;"@, r, g, b), res@),
{
    let mut s = String::new();
    let _ = crossterm::style::SetForegroundColor(crossterm::style::Color::Rgb { r, g, b }).write_ansi(&mut s);
    s
}

/// Writes `SetBackgroundColor(Color::Rgb { r, g, b })` with `Command::write_ansi`.
///
/// Trusted: crossterm writes `ESC [ 48;2;R;G;B m`, or `ESC [ m` when the
/// environment disables colors.
#[verifier::external_body]
pub(crate) fn bg_rgb_code(r: u8, g: u8, b: u8) -> (res: String)
    ensures
        color_sequence(rgb_params("48;"@, r, g, b), res@),
{
    let mut s = String::new();
    let _ = crossterm::style::SetBackgroundColor(crossterm::style::Color::Rgb { r, g, b }).write_ansi(&mut s);
    s
}

/// Writes `SetForegroundColor(Color::Reset)` with `Command::write_ansi`.
///
/// Trusted: crossterm writes `ESC [ 39 m`, or `ESC [ m` when the environment
/// disables colors.
#[verifier::external_body]
pub(crate) fn fg_reset_code() -> (r: String)
    ensures
        color_sequence("39"@, r@),
{
    let mut s = String::new();
    let _ = crossterm::style::SetForegroundColor(crossterm::style::Color::Reset).write_ansi(&mut s);
    s
}

/// Writes `SetBackgroundColor(Color::Reset)` with `Command::write_ansi`.
///
/// Trusted: crossterm writes `ESC [ 49 m`, or `ESC [ m` when the environment
/// disables colors.
#[verifier::external_body]
pub(crate) fn bg_reset_code() -> (r: String)
    ensures
        color_sequence("49"@, r@),
{
    let mut s = String::new();
    let _ = crossterm::style::SetBackgroundColor(crossterm::style::Color::Reset).write_ansi(&mut s);
    s
}

/// Writes `SetAttribute(Attribute::Bold)` with `Command::write_ansi`.
///
/// Trusted: crossterm writes `ESC [ 1 m`.
#[verifier::external_body]
pub(crate) fn bold_code() -> (r: String)
    ensures
        r@ == sgr("1"@),
{
    let mut s = String::new();
    let _ = crossterm::style::SetAttribute(crossterm::style::Attribute::Bold).write_ansi(&mut s);
    s
}

/// Writes `SetAttribute(Attribute::Italic)` with `Command::write_ansi`.
///
/// Trusted: crossterm writes `ESC [ 3 m`.
#[verifier::external_body]
pub(crate) fn italic_code() -> (r: String)
    ensures
        r@ == sgr("3"@),
{
    let mut s = String::new();
    let _ = crossterm::style::SetAttribute(crossterm::style::Attribute::Italic).write_ansi(&mut s);
    s
}

/// Writes `SetAttribute(Attribute::Reset)` with `Command::write_ansi`.
///
/// Trusted: crossterm writes `ESC [ 0 m`.
#[verifier::external_body]
pub(crate) fn attributes_reset_code() -> (r: String)
    ensures
        r@ == sgr("0"@),
{
    let mut s = String::new();
    let _ = crossterm::style::SetAttribute(crossterm::style::Attribute::Reset).write_ansi(&mut s);
    s
}

/// Writes `cursor::Show` with `Command::write_ansi`.
///
/// Trusted: crossterm writes `ESC [ ?25h`.
#[verifier::external_body]
pub(crate) fn cursor_show_code() -> (r: String)
    ensures
        r@ == csi("?25h"@),
{
    let mut s = String::new();
    let _ = crossterm::cursor::Show.write_ansi(&mut s);
    s
}

/// Writes `cursor::Hide` with `Command::write_ansi`.
///
/// Trusted: crossterm writes `ESC [ ?25l`.
#[verifier::external_body]
pub(crate) fn cursor_hide_code() -> (r: String)
    ensures
        r@ == csi("?25l"@),
{
    let mut s = String::new();
    let _ = crossterm::cursor::Hide.write_ansi(&mut s);
    s
}

/// Writes `terminal::Clear(ClearType::CurrentLine)` with `Command::write_ansi`.
///
/// Trusted: crossterm writes `ESC [ 2K`.
#[verifier::external_body]
pub(crate) fn clear_line_code() -> (r: String)
    ensures
        r@ == csi("2K"@),
{
    let mut s = String::new();
    let _ = crossterm::terminal::Clear(crossterm::terminal::ClearType::CurrentLine).write_ansi(&mut s);
    s
}

/// Writes `cursor::MoveUp(n)` with `Command::write_ansi`.
///
/// Trusted: crossterm writes `ESC [ N A`.
#[verifier::external_body]
pub(crate) fn cursor_up_code(n: u16) -> (r: String)
    ensures
        r@ == csi(spec_decimal(n as nat) + "A"@),
{
    let mut s = String::new();
    let _ = crossterm::cursor::MoveUp(n).write_ansi(&mut s);
    s
}

/// Writes `cursor::MoveDown(n)` with `Command::write_ansi`.
///
/// Trusted: crossterm writes `ESC [ N B`.
#[verifier::external_body]
pub(crate) fn cursor_down_code(n: u16) -> (r: String)
    ensures
        r@ == csi(spec_decimal(n as nat) + "B"@),
{
    let mut s = String::new();
    let _ = crossterm::cursor::MoveDown(n).write_ansi(&mut s);
    s
}

/// Writes `cursor::MoveToColumn(n)` with `Command::write_ansi`.
///
/// Trusted: crossterm writes `ESC [ N+1 G` (its columns count from one). The sum
/// is computed in `u16`, so the largest column is left out.
#[verifier::external_body]
pub(crate) fn move_to_column_code(n: u16) -> (r: String)
    requires
        n < u16::MAX,
    ensures
        r@ == csi(spec_decimal(n as nat + 1) + "G"@),
{
    let mut s = String::new();
    let _ = crossterm::cursor::MoveToColumn(n).write_ansi(&mut s);
    s
}

/// The palette index of a named color, as the color's documentation gives it;
/// `None` for RGB colors.
pub open spec fn spec_palette_index(c: Color) -> Option<u8> {
    match c {
        Color::Black => Some(0u8),
        Color::DarkRed => Some(1u8),
        Color::DarkGreen => Some(2u8),
        Color::DarkYellow => Some(3u8),
        Color::DarkBlue => Some(4u8),
        Color::DarkMagenta => Some(5u8),
        Color::DarkCyan => Some(6u8),
        Color::Grey => Some(7u8),
        Color::DarkGrey => Some(8u8),
        Color::LightRed => Some(9u8),
        Color::LightGreen => Some(10u8),
        Color::LightYellow => Some(11u8),
        Color::LightBlue => Some(12u8),
        Color::LightMagenta => Some(13u8),
        Color::LightCyan => Some(14u8),
        Color::White => Some(15u8),
        Color::AnsiValue(v) => Some(v),
        Color::Rgb { .. } => None,
    }
}

/// The color parameters of `c` on the given layer (`38;` foreground, `48;` background).
pub open spec fn spec_color_params(layer: Seq<char>, c: Color) -> Seq<char> {
    match c {
        Color::Rgb { r, g, b } => rgb_params(layer, r, g, b),
        _ => palette_params(layer, spec_palette_index(c).unwrap()),
    }
}

/// The palette index of a named color.
pub fn palette_index(c: Color) -> (r: Option<u8>)
    ensures
        r == spec_palette_index(c),
{
    match c {
        Color::Black => Some(0),
        Color::DarkRed => Some(1),
        Color::DarkGreen => Some(2),
        Color::DarkYellow => Some(3),
        Color::DarkBlue => Some(4),
        Color::DarkMagenta => Some(5),
        Color::DarkCyan => Some(6),
        Color::Grey => Some(7),
        Color::DarkGrey => Some(8),
        Color::LightRed => Some(9),
        Color::LightGreen => Some(10),
        Color::LightYellow => Some(11),
        Color::LightBlue => Some(12),
        Color::LightMagenta => Some(13),
        Color::LightCyan => Some(14),
        Color::White => Some(15),
        Color::AnsiValue(v) => Some(v),
        Color::Rgb { .. } => None,
    }
}

/// The sequence that sets the foreground color `c`.
pub fn fg_color_code(c: Color) -> (r: String)
    ensures
        color_sequence(spec_color_params("38;"@, c), r@),
{
    match c {
        Color::Rgb { r, g, b } => fg_rgb_code(r, g, b),
        _ => {
            let index = palette_index(c);
            fg_palette_code(index.unwrap())
        },
    }
}

/// The sequence that sets the background color `c`.
pub fn bg_color_code(c: Color) -> (r: String)
    ensures
        color_sequence(spec_color_params("48;"@, c), r@),
{
    match c {
        Color::Rgb { r, g, b } => bg_rgb_code(r, g, b),
        _ => {
            let index = palette_index(c);
            bg_palette_code(index.unwrap())
        },
    }
}

} // verus!
