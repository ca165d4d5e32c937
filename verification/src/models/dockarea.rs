use vstd::prelude::*;
use crate::geometry::{in_range, value_in_range, Position, Rect, Size};
use crate::models::screen::Screen;

verus! {

/// The space reserved by a dock on each edge of a screen, as a dock
/// announces it in its strut property.
#[derive(Clone, Copy, Debug, PartialEq, Eq, Structural)]
pub struct DockArea {
    pub top: i32,
    pub top_start_x: i32,
    pub top_end_x: i32,
    pub bottom: i32,
    pub bottom_start_x: i32,
    pub bottom_end_x: i32,
    pub right: i32,
    pub right_start_y: i32,
    pub right_end_y: i32,
    pub left: i32,
    pub left_start_y: i32,
    pub left_end_y: i32,
}

impl DockArea {
    /// No space is reserved.
    pub fn default() -> (d: DockArea)
        ensures
            d == DockArea::empty(),
    {
        DockArea {
            top: 0,
            top_start_x: 0,
            top_end_x: 0,
            bottom: 0,
            bottom_start_x: 0,
            bottom_end_x: 0,
            right: 0,
            right_start_y: 0,
            right_end_y: 0,
            left: 0,
            left_start_y: 0,
            left_end_y: 0,
        }
    }

    pub open spec fn empty() -> DockArea {
        DockArea {
            top: 0,
            top_start_x: 0,
            top_end_x: 0,
            bottom: 0,
            bottom_start_x: 0,
            bottom_end_x: 0,
            right: 0,
            right_start_y: 0,
            right_end_y: 0,
            left: 0,
            left_start_y: 0,
            left_end_y: 0,
        }
    }

    /// A dock area from its twelve fields in the order of the
    /// `_NET_WM_STRUT_PARTIAL` property.
    pub open spec fn from_fields(f: Seq<i32>) -> DockArea
        recommends
            f.len() >= 12,
    {
        DockArea {
            left: f[0],
            right: f[1],
            top: f[2],
            bottom: f[3],
            left_start_y: f[4],
            left_end_y: f[5],
            right_start_y: f[6],
            right_end_y: f[7],
            top_start_x: f[8],
            top_end_x: f[9],
            bottom_start_x: f[10],
            bottom_end_x: f[11],
        }
    }

    /// Reads a strut property: `left, right, top, bottom, left_start_y,
    /// left_end_y, right_start_y, right_end_y, top_start_x, top_end_x,
    /// bottom_start_x, bottom_end_x`, each truncated to 32 bits.
    pub fn from_strut(slice: &[i64]) -> (d: DockArea)
        requires
            slice@.len() >= 12,
        ensures
            d == DockArea::from_fields(Seq::new(12, |i: int| slice@[i] as i32)),
    {
        DockArea {
            left: slice[0] as i32,
            right: slice[1] as i32,
            top: slice[2] as i32,
            bottom: slice[3] as i32,
            left_start_y: slice[4] as i32,
            left_end_y: slice[5] as i32,
            right_start_y: slice[6] as i32,
            right_end_y: slice[7] as i32,
            top_start_x: slice[8] as i32,
            top_end_x: slice[9] as i32,
            bottom_start_x: slice[10] as i32,
            bottom_end_x: slice[11] as i32,
        }
    }

    /// Whether every field lies in the computable range.
    pub fn is_in_range(&self) -> (r: bool)
        ensures
            r == self.in_range(),
    {
        value_in_range(self.top) && value_in_range(self.top_start_x) && value_in_range(self.top_end_x)
            && value_in_range(self.bottom) && value_in_range(self.bottom_start_x) && value_in_range(self.bottom_end_x)
            && value_in_range(self.right) && value_in_range(self.right_start_y) && value_in_range(self.right_end_y)
            && value_in_range(self.left) && value_in_range(self.left_start_y) && value_in_range(self.left_end_y)
    }

    /// Every field lies in the computable range.
    pub open spec fn in_range(self) -> bool {
        &&& in_range(self.top as int)
        &&& in_range(self.top_start_x as int)
        &&& in_range(self.top_end_x as int)
        &&& in_range(self.bottom as int)
        &&& in_range(self.bottom_start_x as int)
        &&& in_range(self.bottom_end_x as int)
        &&& in_range(self.right as int)
        &&& in_range(self.right_start_y as int)
        &&& in_range(self.right_end_y as int)
        &&& in_range(self.left as int)
        &&& in_range(self.left_start_y as int)
        &&& in_range(self.left_end_y as int)
    }

    pub open spec fn spec_rect_from_top(self) -> Rect {
        Rect::mk(
            Position { x: self.top_start_x, y: 0 },
            Size { width: (self.top_end_x - self.top_start_x) as i32, height: self.top },
        )
    }

    pub open spec fn spec_rect_from_bottom(self, screen_height: i32) -> Rect {
        Rect::mk(
            Position { x: self.bottom_start_x, y: (screen_height - self.bottom) as i32 },
            Size { width: (self.bottom_end_x - self.bottom_start_x) as i32, height: self.bottom },
        )
    }

    pub open spec fn spec_rect_from_left(self) -> Rect {
        Rect::mk(
            Position { x: 0, y: self.left_start_y },
            Size { width: self.left, height: (self.left_end_y - self.left_start_y) as i32 },
        )
    }

    pub open spec fn spec_rect_from_right(self, screen_width: i32) -> Rect {
        Rect::mk(
            Position { x: (screen_width - self.right) as i32, y: self.right_start_y },
            Size { width: self.right, height: (self.right_end_y - self.right_start_y) as i32 },
        )
    }

    /// The reserved rectangle: the first edge with a positive reservation,
    /// tried in the order top, bottom, left, right; none when no edge is
    /// reserved.
    pub open spec fn spec_as_rect(self, s: Screen) -> Option<Rect> {
        if self.top > 0 {
            Some(self.spec_rect_from_top())
        } else if self.bottom > 0 {
            Some(self.spec_rect_from_bottom(s.height))
        } else if self.left > 0 {
            Some(self.spec_rect_from_left())
        } else if self.right > 0 {
            Some(self.spec_rect_from_right(s.width))
        } else {
            None
        }
    }

    /// The height that the dock takes from the screen, zero without a dock.
    pub open spec fn dock_height(self, s: Screen) -> int {
        match self.spec_as_rect(s) {
            Some(r) => r.sz().height as int,
            None => 0,
        }
    }

    pub fn as_rect(&self, s: &Screen) -> (r: Option<Rect>)
        ensures
            r == self.spec_as_rect(*s),
    {
        let screen_width = s.width;
        let screen_height = s.height;
        if self.top > 0 {
            return Some(self.rect_from_top());
        }
        if self.bottom > 0 {
            return Some(self.rect_from_bottom(screen_height));
        }
        if self.left > 0 {
            return Some(self.rect_from_left());
        }
        if self.right > 0 {
            return Some(self.rect_from_right(screen_width));
        }
        None
    }

    pub fn rect_from_top(&self) -> (r: Rect)
        ensures
            r == self.spec_rect_from_top(),
    {
        Rect::new(
            Position { x: self.top_start_x, y: 0 },
            Size { width: ((self.top_end_x as i64) - (self.top_start_x as i64)) as i32, height: self.top },
        )
    }

    pub fn rect_from_bottom(&self, screen_height: i32) -> (r: Rect)
        ensures
            r == self.spec_rect_from_bottom(screen_height),
    {
        Rect::new(
            Position { x: self.bottom_start_x, y: ((screen_height as i64) - (self.bottom as i64)) as i32 },
            Size { width: ((self.bottom_end_x as i64) - (self.bottom_start_x as i64)) as i32, height: self.bottom },
        )
    }

    pub fn rect_from_left(&self) -> (r: Rect)
        ensures
            r == self.spec_rect_from_left(),
    {
        Rect::new(
            Position { x: 0, y: self.left_start_y },
            Size { width: self.left, height: ((self.left_end_y as i64) - (self.left_start_y as i64)) as i32 },
        )
    }

    pub fn rect_from_right(&self, screen_width: i32) -> (r: Rect)
        ensures
            r == self.spec_rect_from_right(screen_width),
    {
        Rect::new(
            Position { x: ((screen_width as i64) - (self.right as i64)) as i32, y: self.right_start_y },
            Size { width: self.right, height: ((self.right_end_y as i64) - (self.right_start_y as i64)) as i32 },
        )
    }
}

} // verus!
