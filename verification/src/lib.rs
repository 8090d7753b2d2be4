//! A verified core for a grid-based snake simulation: a bounded grid, a
//! direction state machine, a deterministic step function with deferred
//! growth, random food placement that avoids the snake, and a wall-clock
//! gated tick scheduler driven by caller-supplied timestamps.
use vstd::prelude::*;

pub mod cells;
pub mod game;
pub mod game_with_menu;
pub mod grid;
pub mod internal;
pub mod menu;
pub mod simple_menu;
pub mod snakelogic;

pub use crate::internal::GameResult;

verus! {

/// The direction the snake is moving in. `Still` is the initial state,
/// before the first input: the snake does not move.
#[derive(Clone, Debug, Copy, PartialEq, Eq, Structural)]
pub enum Direction {
    Up,
    Down,
    Left,
    Right,
    Still,
}

impl Direction {
    /// The direction that would reverse this one; `Still` has none and is
    /// mapped to itself.
    pub open spec fn opposite(self) -> Direction {
        match self {
            Direction::Up => Direction::Down,
            Direction::Down => Direction::Up,
            Direction::Left => Direction::Right,
            Direction::Right => Direction::Left,
            Direction::Still => Direction::Still,
        }
    }
}

} // verus!
