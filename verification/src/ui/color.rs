use vstd::prelude::*;

verus! {

/// A color used for text styling. The sixteen named colors are supported by
/// almost all terminals; `Rgb` and `AnsiValue` by the more modern ones.
#[derive(Copy, Clone, Debug, PartialEq, Eq, Hash, Structural)]
pub enum Color {
    /// Black (ANSI 0).
    Black,
    /// Light red (ANSI 9).
    LightRed,
    /// Dark red (ANSI 1).
    DarkRed,
    /// Light green (ANSI 10).
    LightGreen,
    /// Dark green (ANSI 2).
    DarkGreen,
    /// Light yellow (ANSI 11).
    LightYellow,
    /// Dark yellow (ANSI 3).
    DarkYellow,
    /// Light blue (ANSI 12).
    LightBlue,
    /// Dark blue (ANSI 4).
    DarkBlue,
    /// Light magenta (ANSI 13).
    LightMagenta,
    /// Dark magenta (ANSI 5).
    DarkMagenta,
    /// Light cyan (ANSI 14).
    LightCyan,
    /// Dark cyan (ANSI 6).
    DarkCyan,
    /// White (ANSI 15).
    White,
    /// Grey (ANSI 7).
    Grey,
    /// Dark grey (ANSI 8).
    DarkGrey,
    /// An RGB color.
    Rgb {
        /// Red component.
        r: u8,
        /// Green component.
        g: u8,
        /// Blue component.
        b: u8,
    },
    /// A color of the 256-color ANSI palette.
    AnsiValue(u8),
}

impl Color {
    /// The color with the given RGB components.
    pub fn rgb(r: u8, g: u8, b: u8) -> (c: Color)
        ensures
            c == (Color::Rgb { r, g, b }),
    {
        Color::Rgb { r, g, b }
    }
}

} // verus!
