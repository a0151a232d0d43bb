//! Where an element is placed and how large it is.

use vstd::prelude::*;

verus! {

/// Horizontal placement against the parent.
#[derive(Copy, Clone, Debug)]
pub enum HorizAlign {
    LeftOffset(i32),
    Center,
    RightOffset(i32),
}

/// Vertical placement against the parent.
#[derive(Copy, Clone, Debug)]
pub enum VertAlign {
    TopOffset(i32),
    Center,
    BottomOffset(i32),
}

/// The position of an element.
#[derive(Copy, Clone, Debug)]
pub enum Position {
    /// In pixels from the window's origin.
    Absolute((i32, i32)),
    /// In pixels from another element.
    Relative((i32, i32)),
    /// Aligned against the parent.
    Align(HorizAlign, VertAlign),
}

/// The size of an element.
#[derive(Copy, Clone, Debug)]
pub enum Size {
    /// Width and height in pixels.
    Absolute((u32, u32)),
    /// How many pixels more or fewer than another element.
    Relative((i32, i32)),
    /// The parent's size.
    Fill,
}

/// The position and the size of an element.
#[derive(Copy, Clone, Debug)]
pub struct Bounds {
    position: Position,
    size: Size,
}

impl Bounds {
    /// The position held.
    pub closed spec fn spec_position(&self) -> Position {
        self.position
    }

    /// The size held.
    pub closed spec fn spec_size(&self) -> Size {
        self.size
    }

    pub fn new(pos: Position, s: Size) -> (b: Bounds)
        ensures
            b.spec_position() == pos,
            b.spec_size() == s,
    {
        Bounds { position: pos, size: s }
    }

    pub fn position(&self) -> (p: Position)
        ensures
            p == self.spec_position(),
    {
        self.position
    }

    pub fn size(&self) -> (s: Size)
        ensures
            s == self.spec_size(),
    {
        self.size
    }
}

} // verus!
