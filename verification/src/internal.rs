//! The outcome of one simulation step.
use vstd::prelude::*;

verus! {

/// Whether a step ended the game. `GameOver` is a normal return value, not
/// a fault: after it, the engine must be replaced, not stepped again.
#[derive(Debug, PartialEq, Eq, Structural, Default, Clone, Copy)]
#[must_use]
pub enum GameResult {
    #[default]
    NoOp,
    GameOver,
}

impl GameResult {
    /// True exactly when this result is `GameOver`.
    pub fn is_over(&self) -> (r: bool)
        ensures
            r == (*self == GameResult::GameOver),
    {
        *self == GameResult::GameOver
    }
}

} // verus!
