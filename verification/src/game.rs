//! The tick scheduler: wraps one simulation engine and turns
//! caller-supplied wall-clock timestamps (in milliseconds) into discrete
//! simulation steps, tracking pause state and the terminal game-over
//! latch; and the difficulty profile that configures it.
use vstd::prelude::*;

use crate::Direction;
use crate::internal::GameResult;
use crate::snakelogic::{SnakeLogic, SnakeView, direction_after};
use std::collections::VecDeque;

verus! {

/// A named difficulty tier: a pure, immutable mapping to a grid size and
/// a timestep.
#[derive(Debug, Clone, Copy, PartialEq, Eq, Structural)]
pub enum GameDifficulty {
    Hard,
    Normal,
    Easy,
    Basic,
    VeryHard,
    Extreme,
    Intermediate,
    Expert,
    Insane,
    VeryEasy,
}

/// The abstract state of a [`SnakeGame`].
#[verifier::ext_equal]
pub struct GameView {
    /// The wrapped engine's state.
    pub logic: SnakeView,
    /// While paused, due ticks do not step the engine.
    pub paused: bool,
    /// The timestamp, in milliseconds, of the last due tick.
    pub last_update: u64,
    /// The last result the engine returned; `GameOver` latches.
    pub last_result: GameResult,
    /// Minimal time, in milliseconds, between two engine steps.
    pub timestep: u64,
}

/// A tick is due when strictly more than one timestep has passed since
/// the last one. A clock that appears to run backwards never makes a
/// tick due.
pub open spec fn tick_due(v: GameView, now: u64) -> bool {
    now - v.last_update > v.timestep
}

/// A session as `SnakeGame::new` starts it at the given tier and clock
/// origin: a fresh, well-formed engine with a one-cell snake that is not
/// yet moving, unpaused, with no result recorded.
pub open spec fn fresh_session(v: GameView, difficulty: GameDifficulty, now: u64) -> bool {
    &&& v.logic.wf()
    &&& v.logic.width == difficulty.game_size_spec().0
    &&& v.logic.height == difficulty.game_size_spec().1
    &&& v.logic.snake.len() == 1
    &&& v.logic.direction == Direction::Still
    &&& v.logic.growth == 0
    &&& v.logic.can_change_direction
    &&& !v.paused
    &&& v.last_update == now
    &&& v.last_result == GameResult::NoOp
    &&& v.timestep == difficulty.timestep_spec()
}

/// How `SnakeGame::update` relates a pre-state to a post-state at time
/// `now`: nothing changes after game over or before a tick is due; a due
/// tick refreshes the clock, and steps the engine unless paused.
pub open spec fn updated(pre: GameView, post: GameView, now: u64) -> bool {
    &&& post.paused == pre.paused
    &&& post.timestep == pre.timestep
    &&& (pre.last_result == GameResult::GameOver ==> post == pre)
    &&& (pre.last_result != GameResult::GameOver && !tick_due(pre, now) ==> post == pre)
    &&& (pre.last_result != GameResult::GameOver && tick_due(pre, now) && pre.paused ==> post
        == (GameView { last_update: now, ..pre }))
    &&& (pre.last_result != GameResult::GameOver && tick_due(pre, now) && !pre.paused
        ==> pre.logic.stepped(post.logic, post.last_result) && post.last_update == now)
}

impl GameDifficulty {
    pub const TIMESTEP_NORMAL: u64 = 100;

    pub const TIMESTEP_EASY: u64 = 200;

    pub const TIMESTEP_HARD: u64 = 75;

    pub const TIMESTEP_EXTREME: u64 = 35;

    pub const TIMESTEP_INSANE: u64 = 20;

    pub const TIMESTEP_VERYEASY: u64 = 400;

    pub const TIMESTEP_EXPERT: u64 = 10;

    pub const TIMESTEP_INTERMEDIATE: u64 = 60;

    pub const TIMESTEP_BASIC: u64 = 150;

    pub const TIMESTEP_VERYHARD: u64 = 30;

    /// The timestep, in milliseconds, that this tier runs at.
    pub open spec fn timestep_spec(self) -> u64 {
        match self {
            GameDifficulty::Hard => Self::TIMESTEP_HARD,
            GameDifficulty::Normal => Self::TIMESTEP_NORMAL,
            GameDifficulty::Easy => Self::TIMESTEP_EASY,
            GameDifficulty::Extreme => Self::TIMESTEP_EXTREME,
            GameDifficulty::Insane => Self::TIMESTEP_INSANE,
            GameDifficulty::VeryEasy => Self::TIMESTEP_VERYEASY,
            GameDifficulty::Intermediate => Self::TIMESTEP_INTERMEDIATE,
            GameDifficulty::Expert => Self::TIMESTEP_EXPERT,
            GameDifficulty::Basic => Self::TIMESTEP_BASIC,
            GameDifficulty::VeryHard => Self::TIMESTEP_VERYHARD,
        }
    }

    /// The grid size this tier plays on.
    pub open spec fn game_size_spec(self) -> (usize, usize) {
        match self {
            GameDifficulty::Hard => (35usize, 35usize),
            GameDifficulty::Normal => (25usize, 25usize),
            GameDifficulty::Easy => (15usize, 15usize),
            GameDifficulty::Extreme => (70usize, 70usize),
            GameDifficulty::Insane => (85usize, 85usize),
            GameDifficulty::VeryEasy => (8usize, 8usize),
            GameDifficulty::Intermediate => (45usize, 45usize),
            GameDifficulty::Expert => (100usize, 100usize),
            GameDifficulty::Basic => (11usize, 11usize),
            GameDifficulty::VeryHard => (55usize, 55usize),
        }
    }

    /// The timestep, in milliseconds, between steps at this tier.
    pub fn timestep(&self) -> (r: u64)
        ensures
            r == self.timestep_spec(),
            0 < r,
    {
        match self {
            GameDifficulty::Hard => Self::TIMESTEP_HARD,
            GameDifficulty::Normal => Self::TIMESTEP_NORMAL,
            GameDifficulty::Easy => Self::TIMESTEP_EASY,
            GameDifficulty::Extreme => Self::TIMESTEP_EXTREME,
            GameDifficulty::Insane => Self::TIMESTEP_INSANE,
            GameDifficulty::VeryEasy => Self::TIMESTEP_VERYEASY,
            GameDifficulty::Intermediate => Self::TIMESTEP_INTERMEDIATE,
            GameDifficulty::Expert => Self::TIMESTEP_EXPERT,
            GameDifficulty::Basic => Self::TIMESTEP_BASIC,
            GameDifficulty::VeryHard => Self::TIMESTEP_VERYHARD,
        }
    }

    /// The grid size this tier plays on; always within the engine's
    /// construction bounds.
    pub fn game_size(&self) -> (r: (usize, usize))
        ensures
            r == self.game_size_spec(),
            SnakeLogic::MIN_WIDTH <= r.0 <= SnakeLogic::MAX_WIDTH,
            SnakeLogic::MIN_HEIGHT <= r.1 <= SnakeLogic::MAX_HEIGHT,
    {
        match self {
            GameDifficulty::Hard => (35, 35),
            GameDifficulty::Normal => (25, 25),
            GameDifficulty::Easy => (15, 15),
            GameDifficulty::Extreme => (70, 70),
            GameDifficulty::Insane => (85, 85),
            GameDifficulty::VeryEasy => (8, 8),
            GameDifficulty::Intermediate => (45, 45),
            GameDifficulty::Expert => (100, 100),
            GameDifficulty::Basic => (11, 11),
            GameDifficulty::VeryHard => (55, 55),
        }
    }
}

/// One game session: an engine plus the wall-clock state that gates it.
#[derive(Debug)]
pub struct SnakeGame {
    snake_logic: SnakeLogic,
    paused: bool,
    last_logic_update: u64,
    last_game_result: GameResult,
    timestep: u64,
}

impl View for SnakeGame {
    type V = GameView;

    closed spec fn view(&self) -> GameView {
        GameView {
            logic: self.snake_logic@,
            paused: self.paused,
            last_update: self.last_logic_update,
            last_result: self.last_game_result,
            timestep: self.timestep,
        }
    }
}

impl SnakeGame {
    /// The wrapped engine is in a state the engine's own invariant
    /// describes.
    pub open spec fn wf(&self) -> bool {
        self@.logic.wf()
    }

    /// Starts a session at the given tier, with `now` (in milliseconds)
    /// as the clock origin: the first step runs one timestep later.
    pub fn new(difficulty: GameDifficulty, now: u64) -> (r: SnakeGame)
        ensures
            r.wf(),
            fresh_session(r@, difficulty, now),
    {
        let (width, height) = difficulty.game_size();
        let snake_logic = SnakeLogic::new(width, height).unwrap();
        SnakeGame {
            snake_logic,
            paused: false,
            last_logic_update: now,
            last_game_result: GameResult::NoOp,
            timestep: difficulty.timestep(),
        }
    }

    /// Grid height in cells.
    pub fn height(&self) -> (r: usize)
        ensures
            r == self@.logic.height,
    {
        self.snake_logic.height()
    }

    /// Grid width in cells.
    pub fn width(&self) -> (r: usize)
        ensures
            r == self@.logic.width,
    {
        self.snake_logic.width()
    }

    /// The food cell.
    pub fn food(&self) -> (r: (usize, usize))
        ensures
            r == self@.logic.food,
    {
        self.snake_logic.food()
    }

    /// Read-only view of the snake body, oldest cell first, head last.
    pub fn snake(&self) -> (r: &VecDeque<(usize, usize)>)
        ensures
            r@ == self@.logic.snake,
    {
        self.snake_logic.snake()
    }

    /// The engine's current movement direction.
    pub fn direction(&self) -> (r: Direction)
        ensures
            r == self@.logic.direction,
    {
        self.snake_logic.direction()
    }

    /// Forwards a direction-change request verbatim to the engine.
    pub fn change_direction(&mut self, direction: Direction)
        ensures
            final(self)@ == (GameView {
                logic: direction_after(old(self)@.logic, direction),
                ..old(self)@
            }),
            old(self).wf() ==> final(self).wf(),
    {
        self.snake_logic.change_direction(direction)
    }

    /// Pauses or resumes stepping; the engine state is untouched.
    pub fn set_paused(&mut self, new_paused: bool)
        ensures
            final(self)@ == (GameView { paused: new_paused, ..old(self)@ }),
    {
        self.paused = new_paused;
    }

    /// Whether due ticks currently step the engine.
    pub fn is_paused(&self) -> (r: bool)
        ensures
            r == self@.paused,
    {
        self.paused
    }

    /// The score: the snake's current length.
    pub fn score(&self) -> (r: usize)
        ensures
            r == self@.logic.snake.len(),
    {
        self.snake().len()
    }

    /// True once a step has ended the game; latched until a new session
    /// replaces this one.
    pub fn is_over(&self) -> (r: bool)
        ensures
            r == (self@.last_result == GameResult::GameOver),
    {
        self.last_game_result == GameResult::GameOver
    }

    /// Advances the session to time `now` (in milliseconds): a no-op
    /// after game over or before the next tick is due; on a due tick the
    /// clock is refreshed even while paused, but the engine steps only
    /// while not paused, and its result is recorded.
    pub fn update(&mut self, now: u64)
        requires
            old(self).wf(),
        ensures
            updated(old(self)@, final(self)@, now),
            !old(self)@.logic.fills_grid() ==> final(self).wf(),
    {
        if self.last_game_result.is_over() {
            return ;
        }
        if now > self.last_logic_update && now - self.last_logic_update > self.timestep {
            if !self.is_paused() {
                self.last_game_result = self.snake_logic.next_step();
            }
            self.last_logic_update = now;
        }
    }
}

} // verus!
