//! Axis-aligned rectangles on the integer pixel grid.
//!
//! Every panel bound and widget row is a `Rect`.  Coordinates are kept inside
//! a generous window (`COORD_LIMIT`) so that the layout arithmetic — offsets,
//! cursor advances, hit tests — never overflows an `i32`.

use vstd::prelude::*;

verus! {

/// Bound on every coordinate and extent the layout engine works with.
/// Real screens are a few thousand pixels wide; this leaves ample room
/// for off-screen panels while keeping all sums well inside `i32`.
pub const COORD_LIMIT: i32 = 16_000_000;

/// The layout grid unit: outer padding of a panel's content column; half of
/// it separates consecutive rows.
pub const PADDING: i32 = 20;

/// An axis-aligned rectangle: origin (`x`, `y`), extent (`w`, `h`).
#[derive(Clone, Copy, PartialEq, Eq, Structural, Debug)]
pub struct Rect {
    pub x: i32,
    pub y: i32,
    pub w: i32,
    pub h: i32,
}

impl Rect {
    /// A rectangle is well formed when its origin lies inside the coordinate
    /// window and its extents are non-negative and bounded.
    pub open spec fn wf(self) -> bool {
        &&& -COORD_LIMIT <= self.x <= COORD_LIMIT
        &&& -COORD_LIMIT <= self.y <= COORD_LIMIT
        &&& 0 <= self.w <= COORD_LIMIT
        &&& 0 <= self.h <= COORD_LIMIT
    }

    /// Whether the point lies strictly inside the rectangle: points on the
    /// border do not count, matching the hit tests of the widgets.
    pub open spec fn spec_contains(self, px: int, py: int) -> bool {
        &&& self.x < px < self.x + self.w
        &&& self.y < py < self.y + self.h
    }

    pub fn new(x: i32, y: i32, w: i32, h: i32) -> (r: Rect)
        requires
            -COORD_LIMIT <= x <= COORD_LIMIT,
            -COORD_LIMIT <= y <= COORD_LIMIT,
            0 <= w <= COORD_LIMIT,
            0 <= h <= COORD_LIMIT,
        ensures
            r == (Rect { x, y, w, h }),
            r.wf(),
    {
        Rect { x, y, w, h }
    }

    /// Strict interior hit test.
    pub fn contains(&self, px: i32, py: i32) -> (r: bool)
        requires
            self.wf(),
        ensures
            r == self.spec_contains(px as int, py as int),
    {
        px > self.x && px < self.x + self.w && py > self.y && py < self.y + self.h
    }
}

} // verus!
