//! The food: a small square that appears at a random place of the arena.

use vstd::prelude::*;
use rand::Rng;
use crate::geometry::{Cell, Color, Point, UNIT};

verus! {

/// Side of the food.
pub const FOOD_SIZE: i64 = 20 * UNIT;

/// Colour of the food.
pub const FOOD_COLOR: Color = Color::Red;

/// Smallest x, in whole arena units, at which food appears.
pub const FOOD_X_MIN: i32 = 100;

/// The x, in whole arena units, below which food appears.
pub const FOOD_X_END: i32 = 1000;

/// Smallest y, in whole arena units, at which food appears.
pub const FOOD_Y_MIN: i32 = 100;

/// The y, in whole arena units, below which food appears.
pub const FOOD_Y_END: i32 = 600;

/// The food whose top-left corner lies at `position`.
pub open spec fn food_at(position: Point) -> Cell {
    Cell { position, origin: Point { x: 0, y: 0 }, side: FOOD_SIZE, color: FOOD_COLOR }
}

/// Whether `p` is a place where food may appear: a whole number of arena
/// units on both axes, within the food ranges.
pub open spec fn in_food_zone(p: Point) -> bool {
    exists|x: int, y: int|
        FOOD_X_MIN <= x < FOOD_X_END && FOOD_Y_MIN <= y < FOOD_Y_END && p
            == #[trigger] Point::at_units(x, y)
}

/// Draws a whole number from `low` up to but not including `high`.
///
/// Calls `rand::thread_rng()` and `Rng::gen_range` of the `rand` crate on
/// the range `low..high`. The contract claims only what holds of every draw:
/// the number lies in the range. `gen_range` panics on an empty range, which
/// the precondition rules out. Nothing is claimed of how the draws are
/// spread over the range.
#[verifier::external_body]
fn gen_range(low: i32, high: i32) -> (n: i32)
    requires
        low < high,
    ensures
        low <= n < high,
{
    rand::thread_rng().gen_range(low..high)
}

/// Makes the food with its top-left corner at `position`.
pub fn food(position: Point) -> (cell: Cell)
    ensures
        cell == food_at(position),
{
    Cell { position, origin: Point { x: 0, y: 0 }, side: FOOD_SIZE, color: FOOD_COLOR }
}

/// Picks a random place for the food. Which place comes out is open; every
/// one of them lies in the food zone.
pub fn get_food_pos() -> (p: Point)
    ensures
        in_food_zone(p),
{
    let x = gen_range(FOOD_X_MIN, FOOD_X_END);
    let y = gen_range(FOOD_Y_MIN, FOOD_Y_END);
    Point::from_units(x, y)
}

} // verus!
