//! The viewport that follows the player.
use vstd::prelude::*;

use crate::geometry::{Point, Rect, COORD_LIMIT};

verus! {

/// Holds information pertaining to the game's camera: its top-left corner
/// in the world, the size of the view, and the dead zone (relative to the
/// corner) in which the player may move without the camera moving.
pub struct Camera {
    pub pos: Point,
    pub width: i64,
    pub height: i64,
    pub collision_rect: Rect,
}

impl Camera {
    /// Create a new `Camera`.
    pub fn new(p: Point, w: i64, h: i64, cr: Rect) -> (r: Self)
        ensures
            r.pos == p,
            r.width == w,
            r.height == h,
            r.collision_rect == cr,
    {
        Camera { pos: p, width: w, height: h, collision_rect: cr }
    }

    /// Position, view size and dead zone lie within the coordinate bounds.
    pub open spec fn in_range(&self) -> bool {
        &&& self.pos.in_range()
        &&& self.collision_rect.is_local()
        &&& 0 <= self.width <= COORD_LIMIT
        &&& 0 <= self.height <= COORD_LIMIT
    }
}

/// Camera corner on one axis after following the span `[lo, hi]` of the
/// player: where the span leaves the dead zone `[pos + off, pos + off + len]`
/// the camera moves by exactly the overflow.
pub open spec fn follow_axis(pos: int, off: int, len: int, lo: int, hi: int) -> int {
    if hi > pos + off + len {
        hi - len - off
    } else if lo < pos + off {
        lo - off
    } else {
        pos
    }
}

/// Camera corner on one axis kept inside a map of `extent` pixels with a
/// view of `view` pixels.
pub open spec fn clamp_axis(pos: int, view: int, extent: int) -> int {
    if pos + view > extent {
        extent - view
    } else if pos < 0 {
        0
    } else {
        pos
    }
}

/// Wherever the player stands, a camera whose view (of `view` pixels) fits
/// the map (of `extent` pixels) shows only the map once it has followed the
/// player and been clamped: its corner lies in `[0, extent - view]`.
pub proof fn lemma_camera_stays_on_map(
    pos: int,
    off: int,
    len: int,
    lo: int,
    hi: int,
    view: int,
    extent: int,
)
    requires
        0 <= view <= extent,
    ensures
        0 <= clamp_axis(follow_axis(pos, off, len, lo, hi), view, extent) <= extent - view,
{
}

} // verus!
