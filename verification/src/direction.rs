//! The four headings of the chain.

use vstd::prelude::*;

verus! {

/// A heading along one axis of the plane. The y axis points down.
#[derive(Clone, Copy, Debug, PartialEq, Eq, Structural)]
pub enum Direction {
    Up,
    Left,
    Right,
    Down,
}

impl Direction {
    /// The heading that points the other way along the same axis.
    pub open spec fn reversed(self) -> Direction {
        match self {
            Direction::Up => Direction::Down,
            Direction::Left => Direction::Right,
            Direction::Right => Direction::Left,
            Direction::Down => Direction::Up,
        }
    }

    /// Sign of the heading along the x axis: -1, 0 or 1.
    pub open spec fn dx(self) -> int {
        match self {
            Direction::Left => -1,
            Direction::Right => 1,
            _ => 0,
        }
    }

    /// Sign of the heading along the y axis: -1, 0 or 1.
    pub open spec fn dy(self) -> int {
        match self {
            Direction::Up => -1,
            Direction::Down => 1,
            _ => 0,
        }
    }

    /// Returns the heading that points the other way.
    pub fn opposite(self) -> (other: Direction)
        ensures
            other == self.reversed(),
    {
        match self {
            Direction::Up => Direction::Down,
            Direction::Left => Direction::Right,
            Direction::Right => Direction::Left,
            Direction::Down => Direction::Up,
        }
    }

    /// The velocity of a chain that heads this way at `speed`: one component
    /// is zero, the other has magnitude `speed`.
    pub fn velocity(self, speed: u32) -> (v: (i64, i64))
        ensures
            v.0 == self.dx() * speed,
            v.1 == self.dy() * speed,
    {
        let s: i64 = speed as i64;
        match self {
            Direction::Up => (0, -s),
            Direction::Left => (-s, 0),
            Direction::Right => (s, 0),
            Direction::Down => (0, s),
        }
    }
}

/// Reversing a heading twice gives the heading back, and no heading is its
/// own reverse.
pub proof fn reversed_is_an_involution(d: Direction)
    ensures
        d.reversed().reversed() == d,
        d.reversed() != d,
{
}

} // verus!
