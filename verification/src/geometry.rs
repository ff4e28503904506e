//! Axis-aligned rectangle: the single geometry primitive.
//!
//! A rectangle is a position (top-left corner, `(0,0)` is the top-left of the
//! board, y grows downward) and a size.  The only geometric question the
//! simulation ever asks is whether two rectangles overlap.

use vstd::prelude::*;

verus! {

/// Axis-aligned rectangle with top-left corner `(x, y)`, width `w` and height `h`.
#[derive(Clone, Copy, PartialEq, Eq, Structural, Debug)]
pub struct Rect {
    pub x: i32,
    pub y: i32,
    pub w: u32,
    pub h: u32,
}

/// Coordinates small enough that every sum or difference the simulation forms
/// stays far away from the `i32` limits.
pub open spec fn rect_in_coord_range(r: Rect) -> bool {
    &&& -100_000 <= r.x <= 100_000
    &&& -100_000 <= r.y <= 100_000
    &&& 0 < r.w <= 100
    &&& 0 < r.h <= 100
}

/// Two rectangles overlap when they share interior area; rectangles that only
/// touch along an edge do not overlap.
pub open spec fn spec_overlaps(a: Rect, b: Rect) -> bool {
    &&& a.x < b.x + b.w
    &&& b.x < a.x + a.w
    &&& a.y < b.y + b.h
    &&& b.y < a.y + a.h
}

/// Center of a rectangle, each axis rounded toward the top-left corner.
pub open spec fn spec_center(r: Rect) -> (int, int) {
    (r.x + r.w / 2, r.y + r.h / 2)
}

impl Rect {
    /// Build a rectangle from its corner and size.
    pub fn new(x: i32, y: i32, w: u32, h: u32) -> (r: Rect)
        ensures
            r == (Rect { x, y, w, h }),
    {
        Rect { x, y, w, h }
    }

    /// Whether `self` and `other` share interior area.
    pub fn has_intersection(&self, other: &Rect) -> (r: bool)
        requires
            rect_in_coord_range(*self),
            rect_in_coord_range(*other),
        ensures
            r == spec_overlaps(*self, *other),
    {
        self.x < other.x + other.w as i32 && other.x < self.x + self.w as i32
            && self.y < other.y + other.h as i32 && other.y < self.y + self.h as i32
    }

    /// The rectangle's center, each axis rounded toward the top-left corner.
    pub fn center(&self) -> (c: (i32, i32))
        requires
            rect_in_coord_range(*self),
        ensures
            (c.0 as int, c.1 as int) == spec_center(*self),
    {
        (self.x + (self.w / 2) as i32, self.y + (self.h / 2) as i32)
    }

    /// Move the rectangle by `(dx, dy)` without changing its size.
    pub fn offset(&mut self, dx: i32, dy: i32)
        requires
            rect_in_coord_range(*old(self)),
            -1000 <= dx <= 1000,
            -1000 <= dy <= 1000,
        ensures
            *final(self) == (Rect {
                x: (old(self).x + dx) as i32,
                y: (old(self).y + dy) as i32,
                ..*old(self)
            }),
    {
        self.x = self.x + dx;
        self.y = self.y + dy;
    }
}

} // verus!
