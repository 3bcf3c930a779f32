use vstd::prelude::*;

verus! {

/// Width and height of a terminal area, in cells.
#[derive(Debug, Default, Clone, Copy, PartialEq, Eq, Structural)]
pub struct Dimension {
    width: u16,
    height: u16,
}

impl Dimension {
    /// A dimension with the given width and height.
    pub fn new(width: u16, height: u16) -> (r: Self)
        ensures
            r.spec_width() == width,
            r.spec_height() == height,
    {
        Self { width, height }
    }

    /// The width.
    pub closed spec fn spec_width(self) -> u16 {
        self.width
    }

    /// The height.
    pub closed spec fn spec_height(self) -> u16 {
        self.height
    }

    /// The width.
    pub fn width(&self) -> (r: u16)
        ensures
            r == self.spec_width(),
    {
        self.width
    }

    /// The height.
    pub fn height(&self) -> (r: u16)
        ensures
            r == self.spec_height(),
    {
        self.height
    }
}

} // verus!
