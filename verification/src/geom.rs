//! Integer geometry: points, extents and rectangles in logical pixels.

use vstd::prelude::*;

verus! {

/// All coordinates handled by the toolkit stay within this bound, so that
/// the handful of additions and comparisons layout performs never overflow
/// an `i64`.
pub const COORD_LIMIT: i64 = 0x4000_0000;

/// Content metrics (text footprints, paddings, spacings) stay within this
/// tighter bound, so that a widget's accumulated desired size stays within
/// [`COORD_LIMIT`].
pub const SIZE_LIMIT: i64 = 0x0400_0000;

/// A 2-D vector: a point, an extent, or an offset, in logical pixels.
#[derive(Clone, Copy, PartialEq, Eq, Structural, Debug)]
pub struct Vec2 {
    pub x: i64,
    pub y: i64,
}

impl Vec2 {
    /// Both coordinates within the toolkit's coordinate bound.
    pub open spec fn wf(self) -> bool {
        -COORD_LIMIT <= self.x <= COORD_LIMIT && -COORD_LIMIT <= self.y <= COORD_LIMIT
    }

    /// Both coordinates non-negative (an extent).
    pub open spec fn is_extent(self) -> bool {
        0 <= self.x && 0 <= self.y
    }

    /// A non-negative extent within the content-metric bound.
    pub open spec fn small_extent(self) -> bool {
        0 <= self.x <= SIZE_LIMIT && 0 <= self.y <= SIZE_LIMIT
    }

    /// A position within the content-metric bound, either sign.
    pub open spec fn small(self) -> bool {
        -SIZE_LIMIT <= self.x <= SIZE_LIMIT && -SIZE_LIMIT <= self.y <= SIZE_LIMIT
    }

    pub fn zero() -> (r: Self)
        ensures
            r.x == 0 && r.y == 0,
    {
        Vec2 { x: 0, y: 0 }
    }

    pub fn new(x: i64, y: i64) -> (r: Self)
        ensures
            r.x == x && r.y == y,
    {
        Vec2 { x, y }
    }

    /// Both coordinates equal to `v`.
    pub fn splat(v: i64) -> (r: Self)
        ensures
            r.x == v && r.y == v,
    {
        Vec2 { x: v, y: v }
    }

    /// Component-wise sum.
    pub fn add(self, other: Vec2) -> (r: Self)
        requires
            self.wf(),
            other.wf(),
        ensures
            r.x == self.x + other.x,
            r.y == self.y + other.y,
    {
        Vec2 { x: self.x + other.x, y: self.y + other.y }
    }

    /// Component-wise maximum: the smallest extent at least as large as both.
    pub fn at_least(self, floor: Vec2) -> (r: Self)
        ensures
            r.x == max_i64(self.x, floor.x),
            r.y == max_i64(self.y, floor.y),
    {
        Vec2 { x: max(self.x, floor.x), y: max(self.y, floor.y) }
    }

    /// Component-wise minimum.
    pub fn at_most(self, ceil: Vec2) -> (r: Self)
        ensures
            r.x == min_i64(self.x, ceil.x),
            r.y == min_i64(self.y, ceil.y),
    {
        Vec2 { x: min(self.x, ceil.x), y: min(self.y, ceil.y) }
    }
}

pub open spec fn max_i64(a: i64, b: i64) -> i64 {
    if a >= b { a } else { b }
}

pub open spec fn min_i64(a: i64, b: i64) -> i64 {
    if a <= b { a } else { b }
}

/// The larger of two coordinates.
pub fn max(a: i64, b: i64) -> (r: i64)
    ensures
        r == max_i64(a, b),
{
    if a >= b { a } else { b }
}

/// The smaller of two coordinates.
pub fn min(a: i64, b: i64) -> (r: i64)
    ensures
        r == min_i64(a, b),
{
    if a <= b { a } else { b }
}

/// `v` forced into `[lo, hi]` (`lo <= hi`).
pub fn clamp_i64(v: i64, lo: i64, hi: i64) -> (r: i64)
    requires
        lo <= hi,
    ensures
        r == clamp_spec(v, lo, hi),
        lo <= r <= hi,
        lo <= v <= hi ==> r == v,
{
    if v < lo {
        lo
    } else if v > hi {
        hi
    } else {
        v
    }
}

pub open spec fn clamp_spec(v: i64, lo: i64, hi: i64) -> i64 {
    if v < lo { lo } else if v > hi { hi } else { v }
}

/// An axis-aligned rectangle, `min` the top-left corner and `max` the
/// bottom-right corner.
#[derive(Clone, Copy, PartialEq, Eq, Structural, Debug)]
pub struct Rect {
    pub min: Vec2,
    pub max: Vec2,
}

impl Rect {
    /// Non-degenerate: `min` at or before `max` on both axes, within bounds.
    pub open spec fn wf(self) -> bool {
        self.min.wf() && self.max.wf() && self.min.x <= self.max.x && self.min.y <= self.max.y
    }

    pub open spec fn spec_width(self) -> int {
        self.max.x - self.min.x
    }

    pub open spec fn spec_height(self) -> int {
        self.max.y - self.min.y
    }

    /// Whether `p` lies inside the rectangle (edges included).
    pub open spec fn spec_contains(self, p: Vec2) -> bool {
        self.min.x <= p.x <= self.max.x && self.min.y <= p.y <= self.max.y
    }

    pub fn from_min_size(min: Vec2, size: Vec2) -> (r: Self)
        requires
            min.wf(),
            size.wf(),
            size.is_extent(),
        ensures
            r.min == min,
            r.max.x == min.x + size.x,
            r.max.y == min.y + size.y,
    {
        Rect { min, max: Vec2 { x: min.x + size.x, y: min.y + size.y } }
    }

    pub fn width(self) -> (r: i64)
        requires
            self.wf(),
        ensures
            r == self.spec_width(),
    {
        self.max.x - self.min.x
    }

    pub fn height(self) -> (r: i64)
        requires
            self.wf(),
        ensures
            r == self.spec_height(),
    {
        self.max.y - self.min.y
    }

    pub fn size(self) -> (r: Vec2)
        requires
            self.wf(),
        ensures
            r.x == self.spec_width(),
            r.y == self.spec_height(),
    {
        Vec2 { x: self.max.x - self.min.x, y: self.max.y - self.min.y }
    }

    pub fn contains(self, p: Vec2) -> (r: bool)
        ensures
            r == self.spec_contains(p),
    {
        self.min.x <= p.x && p.x <= self.max.x && self.min.y <= p.y && p.y <= self.max.y
    }

    /// The rectangle grown by `amount` on every side.
    pub fn expand2(self, amount: Vec2) -> (r: Self)
        requires
            self.wf(),
            amount.wf(),
        ensures
            r.min.x == self.min.x - amount.x,
            r.min.y == self.min.y - amount.y,
            r.max.x == self.max.x + amount.x,
            r.max.y == self.max.y + amount.y,
    {
        Rect {
            min: Vec2 { x: self.min.x - amount.x, y: self.min.y - amount.y },
            max: Vec2 { x: self.max.x + amount.x, y: self.max.y + amount.y },
        }
    }

    /// The rectangle shrunk by `amount` on every side.
    pub fn shrink2(self, amount: Vec2) -> (r: Self)
        requires
            self.wf(),
            amount.wf(),
        ensures
            r.min.x == self.min.x + amount.x,
            r.min.y == self.min.y + amount.y,
            r.max.x == self.max.x - amount.x,
            r.max.y == self.max.y - amount.y,
    {
        Rect {
            min: Vec2 { x: self.min.x + amount.x, y: self.min.y + amount.y },
            max: Vec2 { x: self.max.x - amount.x, y: self.max.y - amount.y },
        }
    }

    /// The smallest rectangle containing both `self` and `other`.
    pub fn union(self, other: Rect) -> (r: Self)
        ensures
            r.min.x == min_i64(self.min.x, other.min.x),
            r.min.y == min_i64(self.min.y, other.min.y),
            r.max.x == max_i64(self.max.x, other.max.x),
            r.max.y == max_i64(self.max.y, other.max.y),
    {
        Rect {
            min: Vec2 { x: min(self.min.x, other.min.x), y: min(self.min.y, other.min.y) },
            max: Vec2 { x: max(self.max.x, other.max.x), y: max(self.max.y, other.max.y) },
        }
    }
}

} // verus!
