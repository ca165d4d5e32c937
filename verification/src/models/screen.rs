use vstd::prelude::*;
use crate::geometry::{in_range, value_in_range, Position, Size, Window};

verus! {

/// The area of one physical output.
#[derive(Clone, Copy, Debug, PartialEq, Eq, Structural)]
pub struct Screen {
    pub root: Window,
    pub height: i32,
    pub width: i32,
    pub x: i32,
    pub y: i32,
}

impl Screen {
    pub fn new(root: Window, width: i32, height: i32, x: i32, y: i32) -> (s: Screen)
        ensures
            s == (Screen { root, width, height, x, y }),
    {
        Screen { root, width, height, x, y }
    }

    /// Whether every number of the screen lies in the computable range.
    pub fn is_in_range(&self) -> (r: bool)
        ensures
            r == self.in_range(),
    {
        value_in_range(self.x) && value_in_range(self.y) && value_in_range(self.width) && value_in_range(self.height)
    }

    /// Every number of the screen lies in the computable range.
    pub open spec fn in_range(self) -> bool {
        &&& in_range(self.x as int)
        &&& in_range(self.y as int)
        &&& in_range(self.width as int)
        &&& in_range(self.height as int)
    }

    /// The screen as a position and a size.
    pub fn to_position_size(&self) -> (r: (Position, Size))
        ensures
            r.0 == (Position { x: self.x, y: self.y }),
            r.1 == (Size { width: self.width, height: self.height }),
    {
        (Position { x: self.x, y: self.y }, Size { width: self.width, height: self.height })
    }
}

} // verus!
