//! Motion and collision core of a snake game.
//!
//! A chain of square cells follows its head across a bounded arena, grows
//! when it reaches the food and ends the game when it leaves the arena or
//! runs into itself. Positions are fixed-point integers, so every step is
//! exact and every rule is stated and proved over them.

pub mod arena;
pub mod direction;
pub mod food;
pub mod geometry;
pub mod snake;
