//! Points, colours and square cells on a fixed-point plane.

use vstd::prelude::*;

verus! {

/// Number of position steps in one arena unit.
///
/// Speeds are given in arena units per second and elapsed time in
/// microseconds, so their product is a whole number of position steps.
pub const UNIT: i64 = 1_000_000;

/// A position on the plane, in steps of one millionth of an arena unit.
#[derive(Clone, Copy, Debug, PartialEq, Eq, Structural)]
pub struct Point {
    pub x: i64,
    pub y: i64,
}

/// The fill colours that cells are painted in.
#[derive(Clone, Copy, Debug, PartialEq, Eq, Structural)]
pub enum Color {
    Blue,
    Green,
    Red,
}

/// A square cell.
///
/// `position` is where the cell's `origin` lies on the plane; `origin` is
/// measured from the cell's own top-left corner. A cell whose origin is its
/// middle is therefore positioned by its centre, one whose origin is zero by
/// its corner.
#[derive(Clone, Copy, Debug, PartialEq, Eq, Structural)]
pub struct Cell {
    pub position: Point,
    pub origin: Point,
    pub side: i64,
    pub color: Color,
}

impl Point {
    /// The point at whole arena units `(x, y)`.
    pub open spec fn at_units(x: int, y: int) -> Point {
        Point { x: (x * UNIT) as i64, y: (y * UNIT) as i64 }
    }

    /// Builds the point that lies at whole arena units `(x, y)`.
    pub fn from_units(x: i32, y: i32) -> (p: Point)
        ensures
            p == Point::at_units(x as int, y as int),
            p.x == x * UNIT,
            p.y == y * UNIT,
    {
        Point { x: (x as i64) * UNIT, y: (y as i64) * UNIT }
    }
}

impl Cell {
    /// Where the corner that the origin is measured from lies, on the x axis.
    pub open spec fn corner_x(self) -> int {
        self.position.x - self.origin.x
    }

    /// Where the corner that the origin is measured from lies, on the y axis.
    pub open spec fn corner_y(self) -> int {
        self.position.y - self.origin.y
    }

    /// Smallest x of the cell's box. A negative side spans the same square
    /// towards the other direction.
    pub open spec fn x_lo(self) -> int {
        vstd::math::min(self.corner_x(), self.corner_x() + self.side)
    }

    /// Largest x of the cell's box.
    pub open spec fn x_hi(self) -> int {
        vstd::math::max(self.corner_x(), self.corner_x() + self.side)
    }

    /// Smallest y of the cell's box.
    pub open spec fn y_lo(self) -> int {
        vstd::math::min(self.corner_y(), self.corner_y() + self.side)
    }

    /// Largest y of the cell's box.
    pub open spec fn y_hi(self) -> int {
        vstd::math::max(self.corner_y(), self.corner_y() + self.side)
    }

    /// Two cells overlap when their boxes share an area: on both axes the
    /// larger of the two low edges lies strictly below the smaller of the two
    /// high edges. Boxes that only touch along an edge or at a corner do not
    /// overlap, and a cell of side zero overlaps nothing.
    pub open spec fn overlaps(self, other: Cell) -> bool {
        &&& vstd::math::max(self.x_lo(), other.x_lo()) < vstd::math::min(self.x_hi(), other.x_hi())
        &&& vstd::math::max(self.y_lo(), other.y_lo()) < vstd::math::min(self.y_hi(), other.y_hi())
    }

    /// Tests whether the boxes of the two cells overlap.
    pub fn intersects(&self, other: &Cell) -> (hit: bool)
        ensures
            hit == self.overlaps(*other),
    {
        let (a_x_lo, a_x_hi) = span(self.position.x, self.origin.x, self.side);
        let (a_y_lo, a_y_hi) = span(self.position.y, self.origin.y, self.side);
        let (b_x_lo, b_x_hi) = span(other.position.x, other.origin.x, other.side);
        let (b_y_lo, b_y_hi) = span(other.position.y, other.origin.y, other.side);
        let left: i128 = if a_x_lo >= b_x_lo { a_x_lo } else { b_x_lo };
        let right: i128 = if a_x_hi <= b_x_hi { a_x_hi } else { b_x_hi };
        let top: i128 = if a_y_lo >= b_y_lo { a_y_lo } else { b_y_lo };
        let bottom: i128 = if a_y_hi <= b_y_hi { a_y_hi } else { b_y_hi };
        left < right && top < bottom
    }
}

/// The two ends of a cell's box along one axis, lower end first.
fn span(position: i64, origin: i64, side: i64) -> (ends: (i128, i128))
    ensures
        ends.0 == vstd::math::min(position - origin, position - origin + side),
        ends.1 == vstd::math::max(position - origin, position - origin + side),
{
    let corner: i128 = position as i128 - origin as i128;
    let far: i128 = corner + side as i128;
    if corner <= far {
        (corner, far)
    } else {
        (far, corner)
    }
}

} // verus!
