//! What a button does with the mouse, and the rectangles of a bordered
//! rectangle.

use vstd::prelude::*;

verus! {

/// Whether the mouse is over a button, and whether it is held down on it.
/// The mouse is never held down on a button that it is not over.
#[derive(Copy, Clone, Debug, PartialEq, Eq, Structural)]
pub struct ButtonState {
    mouse_over: bool,
    mouse_down: bool,
}

impl ButtonState {
    /// The mouse is over the button.
    pub closed spec fn over(self) -> bool {
        self.mouse_over
    }

    /// The mouse is held down on the button.
    pub closed spec fn down(self) -> bool {
        self.mouse_down
    }

    /// A button that the mouse is not over.
    pub fn new() -> (state: ButtonState)
        ensures
            !state.over(),
            !state.down(),
    {
        ButtonState { mouse_over: false, mouse_down: false }
    }

    pub fn is_mouse_over(&self) -> (over: bool)
        ensures
            over == self.over(),
    {
        self.mouse_over
    }

    pub fn is_mouse_down(&self) -> (down: bool)
        ensures
            down == self.down(),
    {
        self.mouse_down
    }

    /// The mouse has come over the button.
    pub fn on_mouse_over(&mut self)
        ensures
            final(self).over(),
            final(self).down() == old(self).down(),
    {
        self.mouse_over = true;
    }

    /// The mouse has left the button, which lets go of it.
    pub fn on_mouse_leave(&mut self)
        ensures
            !final(self).over(),
            !final(self).down(),
    {
        self.mouse_over = false;
        self.mouse_down = false;
    }

    /// The mouse button went down; the button is held where the mouse is
    /// over it.
    pub fn on_mouse_down(&mut self)
        ensures
            final(self).over() == old(self).over(),
            final(self).down() == (old(self).down() || old(self).over()),
    {
        if self.mouse_over {
            self.mouse_down = true;
        }
    }

    /// The mouse button went up, which lets go of the button. Tells
    /// whether that is a click: whether the button was held.
    pub fn on_mouse_up(&mut self) -> (clicked: bool)
        ensures
            clicked == old(self).down(),
            final(self).over() == old(self).over(),
            !final(self).down(),
    {
        let clicked = self.mouse_down;
        self.mouse_down = false;
        clicked
    }
}

/// A rectangle: its top left corner, its width and its height.
#[derive(Copy, Clone, Debug, PartialEq, Eq, Structural)]
pub struct Frame {
    pub x: i32,
    pub y: i32,
    pub width: u32,
    pub height: u32,
}

/// The width or height that is left inside a border: what the border
/// leaves of it, and 1 where it leaves nothing.
pub open spec fn spec_inside(extent: u32, border: u32) -> u32 {
    if extent > border {
        (extent - border) as u32
    } else {
        1
    }
}

/// The rectangle of the border of a bordered rectangle and the rectangle
/// inside it: the first reaches half the border beyond `frame` on the top
/// and the left and is larger than it by the border, the second starts
/// half the border inside and is smaller by the border.
pub fn bordered(frame: Frame, border: u32) -> (frames: (Frame, Frame))
    requires
        border <= i32::MAX,
        i32::MIN <= frame.x - border / 2,
        frame.x + border / 2 <= i32::MAX,
        i32::MIN <= frame.y - border / 2,
        frame.y + border / 2 <= i32::MAX,
        frame.width + border <= u32::MAX,
        frame.height + border <= u32::MAX,
    ensures
        frames.0 == (Frame {
            x: (frame.x - border / 2) as i32,
            y: (frame.y - border / 2) as i32,
            width: (frame.width + border) as u32,
            height: (frame.height + border) as u32,
        }),
        frames.1 == (Frame {
            x: (frame.x + border / 2) as i32,
            y: (frame.y + border / 2) as i32,
            width: spec_inside(frame.width, border),
            height: spec_inside(frame.height, border),
        }),
{
    let half: i32 = (border as i32) / 2;
    let outer = Frame {
        x: frame.x - half,
        y: frame.y - half,
        width: frame.width + border,
        height: frame.height + border,
    };
    let inner = Frame {
        x: frame.x + half,
        y: frame.y + half,
        width: if frame.width > border {
            frame.width - border
        } else {
            1
        },
        height: if frame.height > border {
            frame.height - border
        } else {
            1
        },
    };
    (outer, inner)
}

} // verus!
