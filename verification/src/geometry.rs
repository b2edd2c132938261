//! Screen-space geometry: points, rectangles and the truncating division
//! used by the fixed-point layout arithmetic.

use vstd::prelude::*;

verus! {

/// A point in screen space (pixel coordinates).
#[derive(Clone, Copy, PartialEq, Eq, Structural, Debug)]
pub struct Point {
    pub x: i64,
    pub y: i64,
}

/// An axis-aligned rectangle in screen space: origin `(x, y)`, width `w`,
/// height `h`.
#[derive(Clone, Copy, PartialEq, Eq, Structural, Debug)]
pub struct Rect {
    pub x: i64,
    pub y: i64,
    pub w: i64,
    pub h: i64,
}

/// Bound on the screen coordinates the layout works with; keeps every sum
/// and difference of two coordinates inside `i64`.
pub const COORD_LIMIT: i64 = 0x2000_0000_0000_0000;

impl Rect {
    /// A rectangle the layout can work with: non-negative extent, and
    /// coordinates far enough from the ends of `i64` that sums stay
    /// representable.
    pub open spec fn wf(self) -> bool {
        &&& 0 <= self.w
        &&& 0 <= self.h
        &&& -COORD_LIMIT <= self.x
        &&& self.x + self.w <= COORD_LIMIT
        &&& -COORD_LIMIT <= self.y
        &&& self.y + self.h <= COORD_LIMIT
    }

    /// What it means for a point to lie inside a rectangle: half-open on the
    /// right and bottom edges, so that two rectangles that share an edge
    /// never both contain the same point.
    pub open spec fn spec_contains(self, p: Point) -> bool {
        &&& self.x <= p.x < self.x + self.w
        &&& self.y <= p.y < self.y + self.h
    }

    /// Point-in-rectangle test against screen-space coordinates.
    pub fn contains(&self, p: Point) -> (r: bool)
        requires
            self.wf(),
        ensures
            r == self.spec_contains(p),
    {
        self.x <= p.x && p.x < self.x + self.w && self.y <= p.y && p.y < self.y + self.h
    }
}

/// Division that truncates toward zero, the rounding rule of the
/// world-to-grid projection.
pub open spec fn trunc_div(a: int, d: int) -> int
    recommends
        d > 0,
{
    if a >= 0 {
        a / d
    } else {
        -((-a) / d)
    }
}

/// Truncating division computed on magnitudes, so that only unsigned
/// machine division is needed.
pub fn trunc_div_i64(a: i64, d: i64) -> (r: i64)
    requires
        d > 0,
        a > i64::MIN,
    ensures
        r == trunc_div(a as int, d as int),
{
    if a >= 0 {
        let q: u64 = (a as u64) / (d as u64);
        q as i64
    } else {
        let m: u64 = (-a) as u64;
        let q: u64 = m / (d as u64);
        assert(q <= m);
        -(q as i64)
    }
}

} // verus!
