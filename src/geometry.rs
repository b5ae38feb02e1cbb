//! Integer points and axis-aligned rectangles.
use vstd::prelude::*;

verus! {

/// Bound on world and screen coordinates: sums and differences of a few
/// coordinates, offsets and sizes stay well inside `i64`.
pub const COORD_LIMIT: i64 = 0x1000_0000_0000_0000;

/// Bound on the corner of a rectangle that is placed relative to its owner
/// (a collision box, a dead zone).
pub const OFFSET_LIMIT: i64 = 0x100_0000_0000;

/// Whether a coordinate lies within `[-COORD_LIMIT, COORD_LIMIT]`.
pub open spec fn coord_ok(v: int) -> bool {
    -COORD_LIMIT <= v <= COORD_LIMIT
}

/// Contains x, y position components.
#[derive(Clone, Copy, Debug, PartialEq, Eq, Structural)]
pub struct Point {
    pub x: i64,
    pub y: i64,
}

impl Point {
    /// The origin, `(0, 0)`.
    pub fn origin() -> (r: Self)
        ensures
            r.x == 0,
            r.y == 0,
    {
        Point { x: 0, y: 0 }
    }

    /// Both components lie within the coordinate bound.
    pub open spec fn in_range(self) -> bool {
        coord_ok(self.x as int) && coord_ok(self.y as int)
    }
}

/// An axis-aligned rectangle: top-left corner and size in pixels.
#[derive(Clone, Copy, Debug, PartialEq, Eq, Structural)]
pub struct Rect {
    pub x: i64,
    pub y: i64,
    pub w: u32,
    pub h: u32,
}

impl Rect {
    /// A rectangle with the given corner and size.
    pub fn new(x: i64, y: i64, w: u32, h: u32) -> (r: Self)
        ensures
            r == (Rect { x, y, w, h }),
    {
        Rect { x, y, w, h }
    }

    /// The corner lies within the offset bound.
    pub open spec fn is_local(self) -> bool {
        -OFFSET_LIMIT <= self.x <= OFFSET_LIMIT && -OFFSET_LIMIT <= self.y <= OFFSET_LIMIT
    }
}

} // verus!
