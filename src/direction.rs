//! Facing and motion states.
use vstd::prelude::*;

verus! {

/// Number of `Direction` values; per-direction tables have this length.
pub const DIRECTION_COUNT: usize = 8;

/// Enumeration of directions in a platformer.
#[derive(Clone, Copy, Debug, PartialEq, Eq, Hash, Structural)]
pub enum Direction {
    Up,
    DoubleUp,
    Down,
    Left,
    StillLeft,
    Right,
    StillRight,
    Landed,
}

impl Direction {
    /// Dense position of the direction in per-direction tables.
    pub open spec fn ord(self) -> int {
        match self {
            Direction::Up => 0,
            Direction::DoubleUp => 1,
            Direction::Down => 2,
            Direction::Left => 3,
            Direction::StillLeft => 4,
            Direction::Right => 5,
            Direction::StillRight => 6,
            Direction::Landed => 7,
        }
    }

    /// Ascending after one or two jumps.
    pub open spec fn is_airborne(self) -> bool {
        self is Up || self is DoubleUp
    }

    /// Dense position of the direction in per-direction tables.
    pub fn index(&self) -> (r: usize)
        ensures
            r as int == self.ord(),
            r < DIRECTION_COUNT,
    {
        match self {
            Direction::Up => 0,
            Direction::DoubleUp => 1,
            Direction::Down => 2,
            Direction::Left => 3,
            Direction::StillLeft => 4,
            Direction::Right => 5,
            Direction::StillRight => 6,
            Direction::Landed => 7,
        }
    }
}

} // verus!
