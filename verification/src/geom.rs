//! Integer 2D vectors and axis-aligned boxes.
//!
//! All geometry handled by this crate is expressed on an exact integer grid:
//! canvas-local units before scaling, device pixels after. Coordinates are
//! bounded by [`COORD_LIMIT`] so that every product formed by the encoder
//! fits comfortably in an `i64`.

use vstd::prelude::*;

verus! {

/// Width and height, in device pixels, of one square tile of the grid.
pub const TILE_SIZE: i64 = 8;

/// Largest magnitude accepted for a coordinate, a translation component or a
/// viewport extent (2^24). Keeps all encoder arithmetic well inside `i64`.
pub const COORD_LIMIT: i64 = 16777216;

/// Largest accepted device-to-logical scale factor.
pub const SCALE_LIMIT: i64 = 256;

/// A 2D vector with integer components.
#[derive(Debug, Clone, Copy, PartialEq, Eq, Structural)]
pub struct Vec2i {
    pub x: i64,
    pub y: i64,
}

impl Vec2i {
    /// Both components within the coordinate bound.
    pub open spec fn in_range(self) -> bool {
        &&& -COORD_LIMIT <= self.x <= COORD_LIMIT
        &&& -COORD_LIMIT <= self.y <= COORD_LIMIT
    }

    /// Both components non-negative and within the coordinate bound.
    pub open spec fn in_extent_range(self) -> bool {
        &&& 0 <= self.x <= COORD_LIMIT
        &&& 0 <= self.y <= COORD_LIMIT
    }
}

/// An axis-aligned box given by its two corners.
#[derive(Debug, Clone, Copy, PartialEq, Eq, Structural)]
pub struct Box2i {
    pub min: Vec2i,
    pub max: Vec2i,
}

impl Box2i {
    pub open spec fn in_range(self) -> bool {
        self.min.in_range() && self.max.in_range()
    }
}

/// The smaller of two values.
pub open spec fn spec_min(a: int, b: int) -> int {
    if a <= b {
        a
    } else {
        b
    }
}

/// The larger of two values.
pub open spec fn spec_max(a: int, b: int) -> int {
    if a >= b {
        a
    } else {
        b
    }
}

/// `v` clamped to the interval `[lo, hi]`.
pub open spec fn spec_clamp(v: int, lo: int, hi: int) -> int {
    if v < lo {
        lo
    } else if v > hi {
        hi
    } else {
        v
    }
}

/// Clamp `v` to `[lo, hi]`.
pub fn clamp_i64(v: i64, lo: i64, hi: i64) -> (r: i64)
    requires
        lo <= hi,
    ensures
        r == spec_clamp(v as int, lo as int, hi as int),
{
    if v < lo {
        lo
    } else if v > hi {
        hi
    } else {
        v
    }
}

/// The smaller of two values.
pub fn min_i64(a: i64, b: i64) -> (r: i64)
    ensures
        r == if a <= b { a as int } else { b as int },
{
    if a <= b {
        a
    } else {
        b
    }
}

/// The larger of two values.
pub fn max_i64(a: i64, b: i64) -> (r: i64)
    ensures
        r == if a >= b { a as int } else { b as int },
{
    if a >= b {
        a
    } else {
        b
    }
}

} // verus!
