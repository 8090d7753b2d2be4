//! The snake simulation engine: owns the snake body, the food cell, the
//! direction and the deferred-growth credit, and advances the game one
//! cell per step.
use vstd::prelude::*;

use crate::Direction;
use crate::cells::{cell_in_bounds, lemma_distinct_cells_at_most_area, lemma_free_cell_exists};
use crate::internal::GameResult;
use std::collections::VecDeque;

verus! {

/// Growth credit granted for each food cell eaten, unless reconfigured.
pub const DEFAULT_GROWTH: usize = 4;

/// The abstract state of a [`SnakeLogic`]: what its contracts speak of.
#[verifier::ext_equal]
pub struct SnakeView {
    /// The snake body, oldest (tail) first, head last.
    pub snake: Seq<(usize, usize)>,
    /// The food cell.
    pub food: (usize, usize),
    /// The current movement direction.
    pub direction: Direction,
    /// Grid width in cells.
    pub width: usize,
    /// Grid height in cells.
    pub height: usize,
    /// Cells of deferred growth still owed to the snake.
    pub growth: usize,
    /// Growth credit granted per food eaten.
    pub growth_per_food: usize,
    /// Per-tick lock: true while one more direction change is allowed.
    pub can_change_direction: bool,
}

/// The direction state machine's guard: a request is accepted only if it
/// is a cardinal direction, differs from the current one, and is not its
/// exact opposite. From `Still` every cardinal direction is accepted.
pub open spec fn turn_accepted(current: Direction, requested: Direction) -> bool {
    &&& requested != Direction::Still
    &&& requested != current
    &&& requested != current.opposite()
}

/// The state after a direction-change request: on acceptance the new
/// direction is taken and the per-tick lock is consumed; otherwise the
/// request is silently ignored.
pub open spec fn direction_after(v: SnakeView, requested: Direction) -> SnakeView {
    if v.can_change_direction && turn_accepted(v.direction, requested) {
        SnakeView { direction: requested, can_change_direction: false, ..v }
    } else {
        v
    }
}

impl SnakeView {
    /// The head cell: the last element of the body.
    pub open spec fn head(self) -> (usize, usize) {
        self.snake.last()
    }

    /// Where the head would move this step, as unbounded integers, so that
    /// moving past an edge is visible as a coordinate outside the grid.
    pub open spec fn target(self) -> (int, int) {
        let h = self.head();
        match self.direction {
            Direction::Up => (h.0 as int, h.1 - 1),
            Direction::Down => (h.0 as int, h.1 + 1),
            Direction::Left => (h.0 - 1, h.1 as int),
            Direction::Right => (h.0 + 1, h.1 as int),
            Direction::Still => (h.0 as int, h.1 as int),
        }
    }

    /// True when the step would leave the grid.
    pub open spec fn hits_wall(self) -> bool {
        !(0 <= self.target().0 < self.width && 0 <= self.target().1 < self.height)
    }

    /// The head cell after the step; meaningful only when `!hits_wall()`.
    pub open spec fn next_head(self) -> (usize, usize) {
        (self.target().0 as usize, self.target().1 as usize)
    }

    /// True when the step would run into the pre-move body. A snake that
    /// is still cannot collide with itself.
    pub open spec fn hits_self(self) -> bool {
        self.direction != Direction::Still && self.snake.contains(self.next_head())
    }

    /// The result one step from this state returns.
    pub open spec fn step_result(self) -> GameResult {
        if self.hits_wall() || self.hits_self() {
            GameResult::GameOver
        } else {
            GameResult::NoOp
        }
    }

    /// True when the step lands the head on the food.
    pub open spec fn eats(self) -> bool {
        self.step_result() == GameResult::NoOp && self.next_head() == self.food
    }

    /// The body after a successful step: the new head is appended, and the
    /// tail is dropped unless growth credit is pending.
    pub open spec fn snake_after(self) -> Seq<(usize, usize)> {
        let pushed = self.snake.push(self.next_head());
        if self.growth == 0 {
            pushed.drop_first()
        } else {
            pushed
        }
    }

    /// The growth credit after a successful step: one unit is consumed if
    /// any was pending, and eating grants `growth_per_food` fresh units.
    pub open spec fn growth_after(self) -> int {
        (if self.growth == 0 {
            0
        } else {
            self.growth - 1
        }) + (if self.eats() {
            self.growth_per_food as int
        } else {
            0
        })
    }

    /// True when the step eats the food and the grown body covers the
    /// whole grid, leaving no cell for new food. Callers must treat this
    /// as the win condition and stop stepping before it occurs.
    pub open spec fn fills_grid(self) -> bool {
        self.eats() && self.snake_after().len() == self.width * self.height
    }

    /// The grid dimensions lie within the configured construction bounds.
    pub open spec fn dims_ok(self) -> bool {
        &&& SnakeLogic::MIN_WIDTH <= self.width <= SnakeLogic::MAX_WIDTH
        &&& SnakeLogic::MIN_HEIGHT <= self.height <= SnakeLogic::MAX_HEIGHT
    }

    /// How one successful or failed step relates a pre-state to a
    /// post-state and a result. `next_step` guarantees exactly this.
    pub open spec fn stepped(self, post: SnakeView, r: GameResult) -> bool {
        &&& r == self.step_result()
        &&& post.can_change_direction
        &&& post.direction == self.direction
        &&& post.width == self.width
        &&& post.height == self.height
        &&& post.growth_per_food == self.growth_per_food
        &&& (r == GameResult::GameOver ==> post.snake == self.snake && post.food == self.food
            && post.growth == self.growth)
        &&& (r == GameResult::NoOp ==> post.snake == self.snake_after() && post.growth
            == self.growth_after())
        &&& (r == GameResult::NoOp && !self.eats() ==> post.food == self.food)
        &&& (self.eats() ==> cell_in_bounds(post.food, self.width, self.height))
        &&& (self.eats() && !self.fills_grid() ==> !post.snake.contains(post.food))
    }

    /// Well-formedness: what holds of every engine state the public
    /// constructor and mutators can reach. In particular the body never
    /// contains a duplicate cell and the food never lies on the body.
    pub open spec fn wf(self) -> bool {
        &&& self.dims_ok()
        &&& 1 <= self.snake.len()
        &&& (forall|i: int|
            0 <= i < self.snake.len() ==> cell_in_bounds(
                #[trigger] self.snake[i],
                self.width,
                self.height,
            ))
        &&& self.snake.no_duplicates()
        &&& cell_in_bounds(self.food, self.width, self.height)
        &&& !self.snake.contains(self.food)
        &&& (self.direction == Direction::Still ==> self.growth == 0 && self.snake.len() == 1)
        &&& self.growth <= self.snake.len() * self.growth_per_food
        &&& (self.width * self.height + 1) * self.growth_per_food <= usize::MAX
    }
}

/// The overall snake game state.
#[derive(Debug)]
pub struct SnakeLogic {
    /// All the cells covered by the snake, oldest first.
    position_snake: VecDeque<(usize, usize)>,
    position_food: (usize, usize),
    direction: Direction,
    height: usize,
    width: usize,
    /// The amount of growth cells still to be covered before the snake
    /// walks normally again.
    amount_of_growth: usize,
    growth_per_food: usize,
    /// False from an accepted direction change until the next step.
    can_change_direction: bool,
}

impl View for SnakeLogic {
    type V = SnakeView;

    closed spec fn view(&self) -> SnakeView {
        SnakeView {
            snake: self.position_snake@,
            food: self.position_food,
            direction: self.direction,
            width: self.width,
            height: self.height,
            growth: self.amount_of_growth,
            growth_per_food: self.growth_per_food,
            can_change_direction: self.can_change_direction,
        }
    }
}

/// True when `requested` is accepted from `current`; the executable side
/// of [`turn_accepted`].
fn is_turn_accepted(current: Direction, requested: Direction) -> (b: bool)
    ensures
        b == turn_accepted(current, requested),
{
    match current {
        Direction::Up | Direction::Down => match requested {
            Direction::Left | Direction::Right => true,
            _ => false,
        },
        Direction::Left | Direction::Right => match requested {
            Direction::Up | Direction::Down => true,
            _ => false,
        },
        Direction::Still => match requested {
            Direction::Still => false,
            _ => true,
        },
    }
}

/// True when `cell` is one of the cells of `snake`.
fn snake_holds(snake: &VecDeque<(usize, usize)>, cell: (usize, usize)) -> (b: bool)
    ensures
        b == snake@.contains(cell),
{
    let n = snake.len();
    let mut i: usize = 0;
    while i < n
        invariant
            i <= n,
            n == snake@.len(),
            forall|j: int| 0 <= j < i ==> snake@[j] != cell,
        decreases n - i,
    {
        let c = snake[i];
        if c.0 == cell.0 && c.1 == cell.1 {
            assert(snake@[i as int] == cell);
            return true;
        }
        i += 1;
    }
    false
}

impl SnakeLogic {
    pub const MIN_WIDTH: usize = 5;

    pub const MIN_HEIGHT: usize = 5;

    pub const MAX_WIDTH: usize = 150;

    pub const MAX_HEIGHT: usize = 150;

    /// Well-formedness of the engine, stated over its abstract view.
    pub open spec fn wf(&self) -> bool {
        self@.wf()
    }

    /// Changes the movement direction, if the per-tick lock still allows a
    /// change and the request is neither redundant nor a reversal; an
    /// ignored request leaves the state untouched.
    pub fn change_direction(&mut self, direction: Direction)
        ensures
            final(self)@ == direction_after(old(self)@, direction),
            old(self).wf() ==> final(self).wf(),
    {
        if !self.can_change_direction {
            return ;
        }
        if is_turn_accepted(self.direction, direction) {
            self.direction = direction;
            self.can_change_direction = false;
        }
    }

    /// The cell the head would move to, or `None` when the move leaves
    /// the grid.
    pub fn new_head(&self) -> (r: Option<(usize, usize)>)
        requires
            self@.dims_ok(),
            1 <= self@.snake.len(),
        ensures
            r is Some <==> !self@.hits_wall(),
            r is Some ==> r.unwrap() == self@.next_head(),
    {
        let head: (usize, usize) = self.position_snake[self.position_snake.len() - 1];
        match self.direction {
            Direction::Up => {
                if head.1 == 0 || head.0 >= self.width || head.1 - 1 >= self.height {
                    None
                } else {
                    Some((head.0, head.1 - 1))
                }
            },
            Direction::Down => {
                if head.0 >= self.width || head.1 >= self.height - 1 {
                    None
                } else {
                    Some((head.0, head.1 + 1))
                }
            },
            Direction::Left => {
                if head.0 == 0 || head.0 - 1 >= self.width || head.1 >= self.height {
                    None
                } else {
                    Some((head.0 - 1, head.1))
                }
            },
            Direction::Right => {
                if head.0 >= self.width - 1 || head.1 >= self.height {
                    None
                } else {
                    Some((head.0 + 1, head.1))
                }
            },
            Direction::Still => {
                if head.0 >= self.width || head.1 >= self.height {
                    None
                } else {
                    Some(head)
                }
            },
        }
    }

    /// Read-only view of the snake body, oldest cell first, head last.
    pub fn snake(&self) -> (r: &VecDeque<(usize, usize)>)
        ensures
            r@ == self@.snake,
    {
        &self.position_snake
    }

    /// The food cell.
    pub fn food(&self) -> (r: (usize, usize))
        ensures
            r == self@.food,
    {
        self.position_food
    }

    /// Grid height in cells.
    pub fn height(&self) -> (r: usize)
        ensures
            r == self@.height,
    {
        self.height
    }

    /// Grid width in cells.
    pub fn width(&self) -> (r: usize)
        ensures
            r == self@.width,
    {
        self.width
    }

    /// The current movement direction.
    pub fn direction(&self) -> (r: Direction)
        ensures
            r == self@.direction,
    {
        self.direction
    }

    /// Growth cells still owed to the snake.
    pub fn amount_of_growth(&self) -> (r: usize)
        ensures
            r == self@.growth,
    {
        self.amount_of_growth
    }

    /// Growth credit granted per food eaten.
    pub fn growth_per_food(&self) -> (r: usize)
        ensures
            r == self@.growth_per_food,
    {
        self.growth_per_food
    }

    /// Whether a direction change would still be accepted this tick.
    pub fn can_change_direction(&self) -> (r: bool)
        ensures
            r == self@.can_change_direction,
    {
        self.can_change_direction
    }
}


/// How many random draws food placement makes before it falls back to a
/// deterministic scan for a free cell.
const FOOD_SAMPLE_TRIES: usize = 1024;

/// Relies on rand::random_range: returns a uniformly distributed sample
/// of `0..bound`; it panics only on an empty range, which the
/// precondition rules out.
#[verifier::external_body]
fn random_below(bound: usize) -> (r: usize)
    requires
        0 < bound,
    ensures
        r < bound,
{
    rand::random_range(0..bound)
}

/// For every well-formed state, a step that does not fill the grid
/// reaches a well-formed state again: in particular the snake never
/// holds a duplicate cell and the food never lies on the snake.
pub proof fn lemma_step_preserves_wf(pre: SnakeView, post: SnakeView, r: GameResult)
    requires
        pre.wf(),
        pre.stepped(post, r),
        !pre.fills_grid(),
    ensures
        post.wf(),
{
    if r == GameResult::NoOp {
        let nh = pre.next_head();
        let pushed = pre.snake.push(nh);
        assert(cell_in_bounds(nh, pre.width, pre.height));
        assert(pre.snake.contains(pre.head())) by {
            assert(pre.snake[pre.snake.len() - 1] == pre.head());
        }
        if pre.direction == Direction::Still {
            assert(nh == pre.head());
            assert(!pre.eats());
            assert(pre.snake_after() =~= pre.snake);
        } else {
            assert(!pre.snake.contains(nh));
            assert(pushed.no_duplicates()) by {
                assert forall|i: int, j: int|
                    0 <= i < pushed.len() && 0 <= j < pushed.len() && i != j implies pushed[i]
                    != pushed[j] by {
                    if pushed[i] == pushed[j] {
                        if i == pre.snake.len() {
                            assert(pre.snake[j] == nh);
                        } else if j == pre.snake.len() {
                            assert(pre.snake[i] == nh);
                        }
                    }
                }
            }
            assert(pre.snake_after().no_duplicates()) by {
                if pre.growth == 0 {
                    assert forall|i: int, j: int|
                        0 <= i < pre.snake_after().len() && 0 <= j < pre.snake_after().len() && i
                        != j implies pre.snake_after()[i] != pre.snake_after()[j] by {
                        assert(pre.snake_after()[i] == pushed[i + 1]);
                        assert(pre.snake_after()[j] == pushed[j + 1]);
                    }
                }
            }
        }
        // every post-step cell is an old cell or the new head
        assert forall|c: (usize, usize)| post.snake.contains(c) implies pre.snake.contains(c) || c
            == nh by {
            let i = choose|i: int| 0 <= i < post.snake.len() && post.snake[i] == c;
            if pre.growth == 0 {
                assert(post.snake[i] == pushed[i + 1]);
            } else {
                assert(post.snake[i] == pushed[i]);
            }
            if i + (if pre.growth == 0 { 1int } else { 0 }) < pre.snake.len() {
                assert(pre.snake.contains(c));
            }
        }
        assert forall|i: int| 0 <= i < post.snake.len() implies cell_in_bounds(
            #[trigger] post.snake[i],
            post.width,
            post.height,
        ) by {
            if pre.growth == 0 {
                assert(post.snake[i] == pushed[i + 1]);
            } else {
                assert(post.snake[i] == pushed[i]);
            }
        }
        // the food stays off the snake
        if pre.eats() {
            assert(!post.snake.contains(post.food));
        } else {
            assert(post.food == pre.food);
            if post.snake.contains(post.food) {
                assert(pre.snake.contains(post.food) || post.food == nh);
                assert(nh != pre.food);
            }
        }
        // growth stays within its credit bound
        assert(1 <= post.snake.len());
        assert(post.growth <= post.snake.len() * post.growth_per_food) by {
            let g = pre.growth_per_food as int;
            let mid: int = if pre.growth == 0 {
                0
            } else {
                pre.growth - 1
            };
            assert(mid + (if pre.eats() {
                g
            } else {
                0
            }) <= post.snake.len() * g) by (nonlinear_arith)
                requires
                    0 <= g,
                    mid == (if pre.growth == 0 {
                        0int
                    } else {
                        pre.growth - 1
                    }),
                    pre.growth <= pre.snake.len() * g,
                    1 <= pre.snake.len(),
                    post.snake.len() == pre.snake.len() + (if pre.growth == 0 {
                        0int
                    } else {
                        1int
                    }),
                    post.growth == mid + (if pre.eats() {
                        g
                    } else {
                        0
                    }),
            ;
        }
    }
}

/// A run of steps: each state follows from the one before it by one
/// call of `next_step`, whose result a step determines.
pub open spec fn run_ok(states: Seq<SnakeView>) -> bool {
    forall|i: int|
        0 <= i < states.len() - 1 ==> #[trigger] states[i].stepped(
            states[i + 1],
            states[i].step_result(),
        )
}

/// How many foods a run eats.
pub open spec fn foods_eaten(states: Seq<SnakeView>) -> int
    decreases states.len(),
{
    if states.len() <= 1 {
        0
    } else {
        foods_eaten(states.drop_last()) + (if states[states.len() - 2].eats() {
            1int
        } else {
            0
        })
    }
}

/// Along any run of steps from a well-formed start that never fills the
/// grid, every state is well-formed: the snake never holds a duplicate
/// cell and the food never lies on the snake, however many steps are
/// taken.
pub proof fn lemma_run_preserves_wf(states: Seq<SnakeView>)
    requires
        states.len() >= 1,
        states[0].wf(),
        run_ok(states),
        forall|i: int| 0 <= i < states.len() - 1 ==> !(#[trigger] states[i]).fills_grid(),
    ensures
        forall|i: int| 0 <= i < states.len() ==> (#[trigger] states[i]).wf(),
    decreases states.len(),
{
    if states.len() > 1 {
        let prefix = states.drop_last();
        assert(run_ok(prefix)) by {
            assert forall|i: int|
                0 <= i < prefix.len() - 1 implies #[trigger] prefix[i].stepped(
                prefix[i + 1],
                prefix[i].step_result(),
            ) by {
                assert(prefix[i] == states[i] && prefix[i + 1] == states[i + 1]);
            }
        }
        lemma_run_preserves_wf(prefix);
        let n = states.len() as int;
        let k = n - 2;
        assert(states[k] == prefix[k] && prefix[k].wf());
        assert(states[k].stepped(states[k + 1], states[k].step_result()));
        lemma_step_preserves_wf(states[k], states[k + 1], states[k].step_result());
        assert forall|i: int| 0 <= i < states.len() implies (#[trigger] states[i]).wf() by {
            if i < n - 1 {
                assert(states[i] == prefix[i]);
            }
        }
    }
}

/// Growth conservation over a whole run whose steps all succeed: the
/// body length plus the pending credit grows by exactly growth-per-food
/// for each food eaten, so the total credit ever issued is the number of
/// foods eaten times growth-per-food.
pub proof fn lemma_run_growth_conservation(states: Seq<SnakeView>)
    requires
        states.len() >= 1,
        run_ok(states),
        forall|i: int|
            0 <= i < states.len() - 1 ==> (#[trigger] states[i]).step_result()
                == GameResult::NoOp,
    ensures
        states.last().growth_per_food == states[0].growth_per_food,
        states.last().snake.len() + states.last().growth == states[0].snake.len()
            + states[0].growth + states[0].growth_per_food * foods_eaten(states),
    decreases states.len(),
{
    if states.len() > 1 {
        let prefix = states.drop_last();
        let n = states.len() as int;
        assert(run_ok(prefix) && (forall|i: int|
            0 <= i < prefix.len() - 1 ==> (#[trigger] prefix[i]).step_result()
                == GameResult::NoOp)) by {
            assert forall|i: int| 0 <= i < prefix.len() - 1 implies #[trigger] prefix[i].stepped(
                prefix[i + 1],
                prefix[i].step_result(),
            ) && prefix[i].step_result() == GameResult::NoOp by {
                assert(prefix[i] == states[i] && prefix[i + 1] == states[i + 1]);
            }
        }
        lemma_run_growth_conservation(prefix);
        let k = n - 2;
        let pre = states[k];
        let post = states[k + 1];
        assert(states[k].stepped(states[k + 1], states[k].step_result()));
        lemma_growth_conservation(pre);
        assert(prefix.last() == pre && prefix[0] == states[0]);
        let g = states[0].growth_per_food as int;
        vstd::arithmetic::mul::lemma_mul_is_distributive_add(g, foods_eaten(prefix), 1);
        assert(g * (foods_eaten(prefix) + 1) == g * foods_eaten(prefix) + g);
    }
}

/// Growth conservation over one successful step: the body length plus
/// the pending credit grows by exactly `growth_per_food` when food is
/// eaten and is otherwise unchanged, and the body itself lengthens by
/// exactly one cell per step while credit is pending and not at all
/// while none is.
pub proof fn lemma_growth_conservation(pre: SnakeView)
    requires
        pre.step_result() == GameResult::NoOp,
    ensures
        pre.snake_after().len() + pre.growth_after() == pre.snake.len() + pre.growth + (
        if pre.eats() {
            pre.growth_per_food as int
        } else {
            0
        }),
        pre.snake_after().len() == pre.snake.len() + (if pre.growth > 0 {
            1int
        } else {
            0
        }),
{
}

/// After an accepted direction change, any further request in the same
/// tick is ignored: the per-tick lock has been consumed.
pub proof fn lemma_direction_change_locks(v: SnakeView, first: Direction, second: Direction)
    requires
        v.can_change_direction,
        turn_accepted(v.direction, first),
    ensures
        direction_after(direction_after(v, first), second) == direction_after(v, first),
{
}

/// Reversal rejection: a request for the exact opposite of the current
/// direction is ignored, as is a redundant request or a request to stop;
/// once moving, the snake can never be sent back into itself or halted.
pub proof fn lemma_reversal_rejected(v: SnakeView, requested: Direction)
    requires
        requested == v.direction.opposite() || requested == v.direction || requested
            == Direction::Still,
    ensures
        direction_after(v, requested) == v,
{
}

/// Adding the food cell to the snake stays within the grid's area, so
/// the credit update below cannot overflow.
proof fn lemma_growth_update_bounded(pre: SnakeView)
    requires
        pre.wf(),
    ensures
        pre.snake.len() < pre.width * pre.height,
        (if pre.growth == 0 {
            0int
        } else {
            pre.growth - 1
        }) + pre.growth_per_food <= usize::MAX,
{
    let withfood = pre.snake.push(pre.food);
    assert(withfood.no_duplicates()) by {
        assert forall|i: int, j: int|
            0 <= i < withfood.len() && 0 <= j < withfood.len() && i != j implies withfood[i]
            != withfood[j] by {
            if withfood[i] == withfood[j] {
                if i == pre.snake.len() {
                    assert(pre.snake[j] == pre.food);
                } else if j == pre.snake.len() {
                    assert(pre.snake[i] == pre.food);
                }
            }
        }
    }
    assert(forall|i: int|
        0 <= i < withfood.len() ==> cell_in_bounds(#[trigger] withfood[i], pre.width, pre.height));
    lemma_distinct_cells_at_most_area(withfood, pre.width, pre.height);
    let g = pre.growth_per_food as int;
    let area = pre.width * pre.height;
    assert((if pre.growth == 0 {
        0int
    } else {
        pre.growth - 1
    }) + g <= usize::MAX) by (nonlinear_arith)
        requires
            0 <= g,
            0 <= pre.growth,
            pre.growth <= pre.snake.len() * g,
            pre.snake.len() + 1 <= area,
            (area + 1) * g <= usize::MAX,
    ;
}

impl SnakeLogic {
    /// A uniformly random in-bounds cell.
    fn random_square(width: usize, height: usize) -> (r: (usize, usize))
        requires
            0 < width,
            0 < height,
        ensures
            cell_in_bounds(r, width, height),
    {
        let square_x = random_below(width);
        let square_y = random_below(height);
        (square_x, square_y)
    }

    /// Picks a random in-bounds cell for the initial snake.
    fn generate_initial_snake(width: usize, height: usize) -> (r: (usize, usize))
        requires
            0 < width,
            0 < height,
        ensures
            cell_in_bounds(r, width, height),
    {
        Self::random_square(width, height)
    }

    /// Picks an in-bounds food cell off the snake: a bounded number of
    /// random draws, then the first free cell in column-major order. Only
    /// a snake covering the whole grid leaves no free cell; callers must
    /// stop stepping before that (the win condition).
    fn generate_food_inner(width: usize, height: usize, snake: &VecDeque<(usize, usize)>) -> (r: (
        usize,
        usize,
    ))
        requires
            0 < width,
            0 < height,
        ensures
            cell_in_bounds(r, width, height),
            snake@.len() < width * height ==> !snake@.contains(r),
    {
        let mut tries: usize = 0;
        while tries < FOOD_SAMPLE_TRIES
            invariant
                0 < width,
                0 < height,
            decreases FOOD_SAMPLE_TRIES - tries,
        {
            let candidate = Self::random_square(width, height);
            if !snake_holds(snake, candidate) {
                return candidate;
            }
            tries = tries + 1;
        }
        let mut x: usize = 0;
        while x < width
            invariant
                x <= width,
                0 < width,
                0 < height,
                forall|c: (usize, usize)|
                    cell_in_bounds(c, width, height) && c.0 < x ==> snake@.contains(c),
            decreases width - x,
        {
            let mut y: usize = 0;
            while y < height
                invariant
                    y <= height,
                    x < width,
                    0 < height,
                    forall|c: (usize, usize)|
                        cell_in_bounds(c, width, height) && c.0 < x ==> snake@.contains(c),
                    forall|c: (usize, usize)| c.0 == x && c.1 < y ==> snake@.contains(c),
                decreases height - y,
            {
                if !snake_holds(snake, (x, y)) {
                    return (x, y);
                }
                y = y + 1;
            }
            x = x + 1;
        }
        proof {
            if snake@.len() < width * height {
                lemma_free_cell_exists(snake@, width, height);
                assert(false);
            }
        }
        (0, 0)
    }

    /// Picks a new food cell off the current snake.
    pub fn generate_food(&self) -> (r: (usize, usize))
        requires
            self@.dims_ok(),
        ensures
            cell_in_bounds(r, self@.width, self@.height),
            self@.snake.len() < self@.width * self@.height ==> !self@.snake.contains(r),
    {
        Self::generate_food_inner(self.width, self.height, &self.position_snake)
    }

    /// Creates a new engine for a `width` by `height` grid, or `None`
    /// when either dimension falls outside the `MIN`/`MAX` bounds. The
    /// snake starts as one random cell, still, with no growth pending,
    /// and the food is placed on a random free cell.
    pub fn new(width: usize, height: usize) -> (r: Option<SnakeLogic>)
        ensures
            r is Some <==> (Self::MIN_WIDTH <= width <= Self::MAX_WIDTH && Self::MIN_HEIGHT
                <= height <= Self::MAX_HEIGHT),
            r is Some ==> {
                let v = r.unwrap()@;
                &&& v.wf()
                &&& v.width == width
                &&& v.height == height
                &&& v.snake.len() == 1
                &&& v.direction == Direction::Still
                &&& v.growth == 0
                &&& v.growth_per_food == DEFAULT_GROWTH
                &&& v.can_change_direction
            },
    {
        if width < Self::MIN_WIDTH || height < Self::MIN_HEIGHT || width > Self::MAX_WIDTH
            || height > Self::MAX_HEIGHT {
            return None;
        }
        let start = Self::generate_initial_snake(width, height);
        let mut position_snake: VecDeque<(usize, usize)> = VecDeque::new();
        position_snake.push_back(start);
        proof {
            assert(1 < width * height) by (nonlinear_arith)
                requires
                    5 <= width,
                    5 <= height,
            ;
        }
        let position_food = Self::generate_food_inner(width, height, &position_snake);
        proof {
            assert((width * height + 1) * DEFAULT_GROWTH <= usize::MAX) by (nonlinear_arith)
                requires
                    width <= 150,
                    height <= 150,
            ;
        }
        Some(
            SnakeLogic {
                position_snake,
                direction: Direction::Still,
                position_food,
                height,
                width,
                amount_of_growth: 0,
                growth_per_food: DEFAULT_GROWTH,
                can_change_direction: true,
            },
        )
    }

    /// One simulation step without touching the direction-change lock:
    /// aborts with `GameOver` on a wall or body collision, otherwise
    /// advances the head, consumes growth credit or drops the tail, and
    /// eats and replaces the food when the head lands on it.
    fn abstract_next_step(&mut self) -> (r: GameResult)
        requires
            old(self).wf(),
        ensures
            r == old(self)@.step_result(),
            final(self)@.can_change_direction == old(self)@.can_change_direction,
            final(self)@.direction == old(self)@.direction,
            final(self)@.width == old(self)@.width,
            final(self)@.height == old(self)@.height,
            final(self)@.growth_per_food == old(self)@.growth_per_food,
            r == GameResult::GameOver ==> final(self)@.snake == old(self)@.snake && final(self)@.food == old(self)@.food && final(self)@.growth == old(self)@.growth,
            r == GameResult::NoOp ==> final(self)@.snake == old(self)@.snake_after() && final(self)@.growth == old(self)@.growth_after(),
            r == GameResult::NoOp && !old(self)@.eats() ==> final(self)@.food == old(self)@.food,
            old(self)@.eats() ==> cell_in_bounds(
                final(self)@.food,
                old(self)@.width,
                old(self)@.height,
            ),
            old(self)@.eats() && !old(self)@.fills_grid() ==> !final(self)@.snake.contains(
                final(self)@.food,
            ),
    {
        let nh = match self.new_head() {
            Some(h) => h,
            None => { return GameResult::GameOver },
        };
        if snake_holds(&self.position_snake, nh) && self.direction != Direction::Still {
            return GameResult::GameOver;
        }
        assert(old(self)@.step_result() == GameResult::NoOp);
        self.position_snake.push_back(nh);
        if self.amount_of_growth == 0 {
            let _ = self.position_snake.pop_front();
            assert(self@.snake =~= old(self)@.snake_after());
        } else {
            self.amount_of_growth = self.amount_of_growth - 1;
        }
        let ate = nh.0 == self.position_food.0 && nh.1 == self.position_food.1;
        assert(ate == old(self)@.eats());
        if ate {
            proof {
                lemma_growth_update_bounded(old(self)@);
            }
            self.amount_of_growth = self.amount_of_growth + self.growth_per_food;
            proof {
                if !old(self)@.fills_grid() {
                    assert(self@.snake.len() < old(self)@.width * old(self)@.height);
                }
            }
            self.position_food = Self::generate_food_inner(
                self.width,
                self.height,
                &self.position_snake,
            );
        }
        GameResult::NoOp
    }

    /// One simulation step: re-arms the direction-change lock for the new
    /// tick and advances the snake as `stepped` describes. A step that
    /// would fill the grid is the win condition; callers must stop
    /// stepping before it, as afterwards no free cell is left for food.
    pub fn next_step(&mut self) -> (r: GameResult)
        requires
            old(self).wf(),
        ensures
            old(self)@.stepped(final(self)@, r),
            !old(self)@.fills_grid() ==> final(self).wf(),
    {
        let r = self.abstract_next_step();
        self.can_change_direction = true;
        proof {
            if !old(self)@.fills_grid() {
                lemma_step_preserves_wf(old(self)@, self@, r);
            }
        }
        return r;
    }

    /// Replaces the snake body, oldest cell first; meant for preparing a
    /// specific scenario.
    pub fn set_snake(&mut self, cells: Vec<(usize, usize)>)
        ensures
            final(self)@ == (SnakeView { snake: cells@, ..old(self)@ }),
    {
        let mut body: VecDeque<(usize, usize)> = VecDeque::new();
        let mut i: usize = 0;
        while i < cells.len()
            invariant
                i <= cells.len(),
                body@ =~= cells@.subrange(0, i as int),
            decreases cells.len() - i,
        {
            body.push_back(cells[i]);
            i = i + 1;
        }
        assert(body@ =~= cells@);
        self.position_snake = body;
    }

    /// Moves the food to the given cell; meant for preparing a specific
    /// scenario.
    pub fn set_food(&mut self, food: (usize, usize))
        ensures
            final(self)@ == (SnakeView { food: food, ..old(self)@ }),
    {
        self.position_food = food;
    }

    /// Forces the movement direction, bypassing the direction state
    /// machine; meant for preparing a specific scenario.
    pub fn set_direction(&mut self, direction: Direction)
        ensures
            final(self)@ == (SnakeView { direction: direction, ..old(self)@ }),
    {
        self.direction = direction;
    }

    /// Reconfigures how much growth credit each food grants.
    pub fn set_growth_per_food(&mut self, growth_per_food: usize)
        ensures
            final(self)@ == (SnakeView { growth_per_food: growth_per_food, ..old(self)@ }),
    {
        self.growth_per_food = growth_per_food;
    }
}

} // verus!
