//! Points, sizes and rectangles in whole-pixel viewport coordinates.
//!
//! Every coordinate is bounded by [`COORD_BOUND`] so that the handful of
//! additions and subtractions the positioning engine performs can never
//! overflow an `i64`.

use vstd::prelude::*;

verus! {

/// Largest magnitude any coordinate or extent may have (2^30 pixels).
pub const COORD_BOUND: i64 = 0x4000_0000;

/// A position in viewport coordinates.
#[derive(Debug, Clone, Copy, PartialEq, Eq, Structural)]
pub struct Point {
    pub x: i64,
    pub y: i64,
}

/// The measured extent of a box. Extents are never negative.
#[derive(Debug, Clone, Copy, PartialEq, Eq, Structural)]
pub struct Size {
    pub w: i64,
    pub h: i64,
}

/// An axis-aligned rectangle: origin plus extent.
#[derive(Debug, Clone, Copy, PartialEq, Eq, Structural)]
pub struct Rect {
    pub x: i64,
    pub y: i64,
    pub w: i64,
    pub h: i64,
}

impl Point {
    /// True when both coordinates are within [`COORD_BOUND`].
    pub open spec fn wf(self) -> bool {
        -COORD_BOUND <= self.x <= COORD_BOUND && -COORD_BOUND <= self.y <= COORD_BOUND
    }
}

impl Size {
    /// True when both extents are non-negative and within [`COORD_BOUND`].
    pub open spec fn wf(self) -> bool {
        0 <= self.w <= COORD_BOUND && 0 <= self.h <= COORD_BOUND
    }

    pub fn new(w: i64, h: i64) -> (r: Size)
        requires
            0 <= w <= COORD_BOUND,
            0 <= h <= COORD_BOUND,
        ensures
            r == (Size { w, h }),
            r.wf(),
    {
        Size { w, h }
    }
}

impl Rect {
    /// True when the origin is in bounds and the extents are non-negative
    /// and in bounds.
    pub open spec fn wf(self) -> bool {
        &&& -COORD_BOUND <= self.x <= COORD_BOUND
        &&& -COORD_BOUND <= self.y <= COORD_BOUND
        &&& 0 <= self.w <= COORD_BOUND
        &&& 0 <= self.h <= COORD_BOUND
    }

    /// The x coordinate one past the right edge.
    pub open spec fn right(self) -> int {
        self.x + self.w
    }

    /// The y coordinate one past the bottom edge.
    pub open spec fn bottom(self) -> int {
        self.y + self.h
    }

    /// The measured extent of this rectangle.
    pub open spec fn size(self) -> Size {
        Size { w: self.w, h: self.h }
    }

    /// Whether `p` lies inside this rectangle. The left and top edges are
    /// inclusive, the right and bottom edges exclusive.
    pub open spec fn contains_spec(self, p: Point) -> bool {
        self.x <= p.x < self.right() && self.y <= p.y < self.bottom()
    }

    pub fn new(x: i64, y: i64, w: i64, h: i64) -> (r: Rect)
        requires
            -COORD_BOUND <= x <= COORD_BOUND,
            -COORD_BOUND <= y <= COORD_BOUND,
            0 <= w <= COORD_BOUND,
            0 <= h <= COORD_BOUND,
        ensures
            r == (Rect { x, y, w, h }),
            r.wf(),
    {
        Rect { x, y, w, h }
    }

    /// Hit test: does `p` lie inside this rectangle?
    pub fn contains(&self, p: Point) -> (r: bool)
        requires
            self.wf(),
            p.wf(),
        ensures
            r == self.contains_spec(p),
    {
        self.x <= p.x && p.x < self.x + self.w && self.y <= p.y && p.y < self.y + self.h
    }
}

/// Half of a non-negative quantity, rounded toward zero.
pub open spec fn half_spec(n: int) -> int
    recommends
        n >= 0,
{
    n / 2
}

/// The signed centering offset between an anchor extent `a` and a content
/// extent `c`: how far the content origin moves from the anchor origin so
/// that both midpoints coincide (rounded toward the anchor origin).
pub open spec fn center_offset_spec(a: int, c: int) -> int {
    if c <= a {
        half_spec(a - c)
    } else {
        -half_spec(c - a)
    }
}

/// Half of a non-negative `i64`, rounded down.
pub fn half(n: i64) -> (r: i64)
    requires
        0 <= n,
    ensures
        r == half_spec(n as int),
{
    n / 2
}

/// The centering offset between an anchor extent and a content extent.
pub fn center_offset(a: i64, c: i64) -> (r: i64)
    requires
        0 <= a <= COORD_BOUND,
        0 <= c <= COORD_BOUND,
    ensures
        r == center_offset_spec(a as int, c as int),
        -COORD_BOUND <= r <= COORD_BOUND,
{
    if c <= a {
        half(a - c)
    } else {
        let d = half(c - a);
        -d
    }
}

} // verus!
