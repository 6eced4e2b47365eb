//! Points, sizes and rectangles in whole units, with saturating helpers.

use vstd::prelude::*;

verus! {

/// A position in whole logical (or physical) units.
#[derive(Clone, Copy, Debug, PartialEq, Eq, Structural)]
pub struct Point {
    pub x: i32,
    pub y: i32,
}

/// An extent in whole logical (or physical) units.
#[derive(Clone, Copy, Debug, PartialEq, Eq, Structural)]
pub struct Size {
    pub w: i32,
    pub h: i32,
}

/// An axis-aligned rectangle: origin and extent.
#[derive(Clone, Copy, Debug, PartialEq, Eq, Structural)]
pub struct Rect {
    pub x: i32,
    pub y: i32,
    pub w: i32,
    pub h: i32,
}

/// The value of `v` brought into the range of `i32`.
pub open spec fn clamp_i32(v: int) -> int {
    if v < i32::MIN {
        i32::MIN as int
    } else if v > i32::MAX {
        i32::MAX as int
    } else {
        v
    }
}

/// Whether the half-open box at `pos` with extent `size` holds `p`.
///
/// The far edges are computed without wrapping, so a box that would reach
/// past the largest coordinate simply extends to it.
pub open spec fn box_contains(pos: Point, size: Size, p: Point) -> bool {
    &&& pos.x <= p.x < pos.x + size.w
    &&& pos.y <= p.y < pos.y + size.h
}

/// Narrows a 64-bit value to `i32`, saturating at the ends of the range.
pub fn saturate(v: i64) -> (r: i32)
    ensures
        r == clamp_i32(v as int),
{
    if v < -2147483648i64 {
        i32::MIN
    } else if v > 2147483647i64 {
        i32::MAX
    } else {
        v as i32
    }
}

impl Point {
    pub fn new(x: i32, y: i32) -> (p: Point)
        ensures
            p.x == x,
            p.y == y,
    {
        Point { x, y }
    }
}

impl Size {
    pub fn new(w: i32, h: i32) -> (s: Size)
        ensures
            s.w == w,
            s.h == h,
    {
        Size { w, h }
    }
}

impl Rect {
    pub fn new(x: i32, y: i32, w: i32, h: i32) -> (r: Rect)
        ensures
            r.x == x,
            r.y == y,
            r.w == w,
            r.h == h,
    {
        Rect { x, y, w, h }
    }

    /// The rectangle grown by `margin` on every side, each component
    /// saturating.
    pub open spec fn outset_spec(self, margin: int) -> Rect {
        Rect {
            x: clamp_i32(self.x - margin) as i32,
            y: clamp_i32(self.y - margin) as i32,
            w: clamp_i32(self.w + 2 * margin) as i32,
            h: clamp_i32(self.h + 2 * margin) as i32,
        }
    }

    /// Grows the rectangle by `margin` on every side.
    pub fn outset(&self, margin: i32) -> (r: Rect)
        ensures
            r == self.outset_spec(margin as int),
    {
        Rect {
            x: saturate(self.x as i64 - margin as i64),
            y: saturate(self.y as i64 - margin as i64),
            w: saturate(self.w as i64 + 2 * (margin as i64)),
            h: saturate(self.h as i64 + 2 * (margin as i64)),
        }
    }
}

} // verus!
