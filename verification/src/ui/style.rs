use super::Color;
use vstd::prelude::*;

verus! {

/// Attributes applied to a text, as bit flags that can be combined.
#[derive(Copy, Clone, Debug, PartialEq, Eq, Structural)]
pub struct Attributes {
    /// The flags: bold is bit 0, italic bit 1.
    pub bits: u8,
}

impl Attributes {
    /// No attribute.
    pub fn empty() -> (r: Attributes)
        ensures
            r.bits == 0,
    {
        Attributes { bits: 0 }
    }

    /// Increases the text intensity.
    pub fn bold() -> (r: Attributes)
        ensures
            r.bits == 1,
    {
        Attributes { bits: 1 }
    }

    /// Emphasises the text.
    pub fn italic() -> (r: Attributes)
        ensures
            r.bits == 2,
    {
        Attributes { bits: 2 }
    }

    /// Whether no attribute is set.
    pub fn is_empty(&self) -> (r: bool)
        ensures
            r == (self.bits == 0),
    {
        self.bits == 0
    }

    /// Whether every attribute of `other` is set in `self`.
    pub fn contains(&self, other: Attributes) -> (r: bool)
        ensures
            r == (self.bits & other.bits == other.bits),
    {
        self.bits & other.bits == other.bits
    }

    /// The attributes set in either.
    pub fn union(self, other: Attributes) -> (r: Attributes)
        ensures
            r.bits == self.bits | other.bits,
    {
        Attributes { bits: self.bits | other.bits }
    }
}

/// Style definitions that can be applied to rendered content.
#[derive(Copy, Clone, Debug, PartialEq, Eq, Structural)]
pub struct StyleSheet {
    /// Foreground color of text.
    pub fg: Option<Color>,
    /// Background color of text.
    pub bg: Option<Color>,
    /// Attributes applied to text.
    pub att: Attributes,
}

impl StyleSheet {
    /// A stylesheet with no colors and no attributes.
    pub fn empty() -> (r: Self)
        ensures
            r == (StyleSheet { fg: None, bg: None, att: Attributes { bits: 0 } }),
    {
        Self { fg: None, bg: None, att: Attributes::empty() }
    }

    /// Whether the stylesheet has no colors and no attributes.
    pub fn is_empty(&self) -> (r: bool)
        ensures
            r == (self.fg is None && self.bg is None && self.att.bits == 0),
    {
        self.fg.is_none() && self.bg.is_none() && self.att.is_empty()
    }

    /// The same stylesheet with the given foreground color.
    pub fn with_fg(self, fg: Color) -> (r: Self)
        ensures
            r == (StyleSheet { fg: Some(fg), ..self }),
    {
        let mut s = self;
        s.fg = Some(fg);
        s
    }

    /// The same stylesheet with the given background color.
    pub fn with_bg(self, bg: Color) -> (r: Self)
        ensures
            r == (StyleSheet { bg: Some(bg), ..self }),
    {
        let mut s = self;
        s.bg = Some(bg);
        s
    }

    /// The same stylesheet with exactly the given attributes (the previous ones are
    /// not kept).
    pub fn with_attr(self, attributes: Attributes) -> (r: Self)
        ensures
            r == (StyleSheet { att: attributes, ..self }),
    {
        let mut s = self;
        s.att = attributes;
        s
    }
}

impl Default for StyleSheet {
    /// A stylesheet with no colors and no attributes.
    fn default() -> (r: Self)
        ensures
            r == (StyleSheet { fg: None, bg: None, att: Attributes { bits: 0 } }),
    {
        Self::empty()
    }
}

/// A content with the style to render it with.
#[derive(Copy, Clone, Debug, PartialEq, Eq)]
pub struct Styled<T> {
    /// The content.
    pub content: T,
    /// Foreground color.
    pub fg: Option<Color>,
    /// Background color.
    pub bg: Option<Color>,
    /// Attributes.
    pub att: Attributes,
}

impl<T> Styled<T> {
    /// The content, without colors or attributes.
    pub fn new(content: T) -> (r: Self)
        ensures
            r == (Styled { content, fg: None, bg: None, att: Attributes { bits: 0 } }),
    {
        Self { content, fg: None, bg: None, att: Attributes::empty() }
    }

    /// The same content with the colors and attributes of a stylesheet.
    pub fn with_style_sheet(self, stylesheet: StyleSheet) -> (r: Self)
        ensures
            r == (Styled { content: self.content, fg: stylesheet.fg, bg: stylesheet.bg, att: stylesheet.att }),
    {
        let mut s = self;
        s.fg = stylesheet.fg;
        s.bg = stylesheet.bg;
        s.att = stylesheet.att;
        s
    }

    /// The same content with the given foreground color.
    pub fn with_fg(self, fg: Color) -> (r: Self)
        ensures
            r == (Styled { fg: Some(fg), ..self }),
    {
        let mut s = self;
        s.fg = Some(fg);
        s
    }

    /// The same content with the given background color.
    pub fn with_bg(self, bg: Color) -> (r: Self)
        ensures
            r == (Styled { bg: Some(bg), ..self }),
    {
        let mut s = self;
        s.bg = Some(bg);
        s
    }

    /// The same content with the given attributes added to its own.
    pub fn with_attr(self, attributes: Attributes) -> (r: Self)
        ensures
            r == (Styled { att: Attributes { bits: self.att.bits | attributes.bits }, ..self }),
    {
        let mut s = self;
        s.att = s.att.union(attributes);
        s
    }

    /// The same content without attributes.
    pub fn reset_attr(self) -> (r: Self)
        ensures
            r == (Styled { att: Attributes { bits: 0 }, ..self }),
    {
        let mut s = self;
        s.att = Attributes::empty();
        s
    }
}

} // verus!
