use std::collections::VecDeque;

use snake_game::Direction;
use snake_game::GameResult;
use snake_game::game::{GameDifficulty, SnakeGame};
use snake_game::game_with_menu::snake_square_geometry;
use snake_game::menu::{Difficulty, Menu, MenuAction, MenuType, SelectedSetting};
use snake_game::snakelogic::SnakeLogic;

/// Construction succeeds exactly on grids within the configured bounds.
#[test]
fn construction_bounds() {
    assert!(SnakeLogic::new(5, 5).is_some());
    assert!(SnakeLogic::new(150, 150).is_some());
    assert!(SnakeLogic::new(5, 150).is_some());
    assert!(SnakeLogic::new(37, 92).is_some());
    assert!(SnakeLogic::new(4, 5).is_none());
    assert!(SnakeLogic::new(5, 4).is_none());
    assert!(SnakeLogic::new(151, 5).is_none());
    assert!(SnakeLogic::new(5, 151).is_none());
    assert!(SnakeLogic::new(0, 0).is_none());
    assert!(SnakeLogic::new(usize::MAX, usize::MAX).is_none());
}

/// A fresh engine starts with one in-bounds snake cell, food off the
/// snake, no movement, and no growth pending.
#[test]
fn fresh_engine_state() {
    for _ in 0..20 {
        let logic = SnakeLogic::new(6, 9).unwrap();
        assert_eq!(logic.width(), 6);
        assert_eq!(logic.height(), 9);
        assert_eq!(logic.snake().len(), 1);
        assert_eq!(logic.direction(), Direction::Still);
        assert_eq!(logic.amount_of_growth(), 0);
        assert!(logic.can_change_direction());
        let head = *logic.snake().back().unwrap();
        assert!(head.0 < 6 && head.1 < 9);
        let food = logic.food();
        assert!(food.0 < 6 && food.1 < 9);
        assert_ne!(food, head);
    }
}

/// Movement: on a 10 by 10 grid the snake advances by one cell and the
/// tail follows.
#[test]
fn scenario_movement() {
    let mut logic = SnakeLogic::new(10, 10).unwrap();
    logic.set_snake(vec![(2, 3), (2, 2), (2, 1), (2, 0)]);
    logic.set_food((9, 9));
    logic.set_direction(Direction::Right);
    assert_eq!(logic.next_step(), GameResult::NoOp);
    let expected: VecDeque<(usize, usize)> = vec![(2, 2), (2, 1), (2, 0), (3, 0)].into();
    assert_eq!(*logic.snake(), expected);
}

/// Wall collision: a head on the left edge moving left ends the game
/// and mutates nothing.
#[test]
fn scenario_wall_collision() {
    for y in 0..5 {
        let mut logic = SnakeLogic::new(5, 5).unwrap();
        logic.set_snake(vec![(0, y)]);
        logic.set_food((3, 3));
        logic.set_direction(Direction::Left);
        assert_eq!(logic.next_step(), GameResult::GameOver);
        assert_eq!(*logic.snake(), [(0usize, y)]);
        assert_eq!(logic.food(), (3, 3));
    }
}

/// Self collision: a head moving onto a cell of the pre-move body ends
/// the game.
#[test]
fn scenario_self_collision() {
    let mut logic = SnakeLogic::new(10, 10).unwrap();
    logic.set_snake(vec![(2, 3), (2, 2), (1, 2), (1, 3)]);
    logic.set_food((9, 9));
    logic.set_direction(Direction::Right);
    assert_eq!(logic.next_step(), GameResult::GameOver);
    assert_eq!(*logic.snake(), vec![(2, 3), (2, 2), (1, 2), (1, 3)]);
}

/// Eating with growth-per-food 2: the eating step grants two cells of
/// credit, which the following steps consume by growing.
#[test]
fn scenario_eating_growth() {
    let mut logic = SnakeLogic::new(25, 25).unwrap();
    logic.set_growth_per_food(2);
    logic.set_snake(vec![(1, 0), (2, 0), (3, 0)]);
    logic.set_food((4, 0));
    logic.set_direction(Direction::Right);

    // The eating step itself: the tail is dropped before the food is
    // noticed, so the length is unchanged and the credit is 2.
    assert_eq!(logic.next_step(), GameResult::NoOp);
    assert_eq!(*logic.snake(), [(2, 0), (3, 0), (4, 0)]);
    assert_eq!(logic.amount_of_growth(), 2);

    // The next two steps grow the snake by one cell each.
    logic.set_food((24, 24));
    assert_eq!(logic.next_step(), GameResult::NoOp);
    assert_eq!(*logic.snake(), [(2, 0), (3, 0), (4, 0), (5, 0)]);
    assert_eq!(logic.amount_of_growth(), 1);
    assert_eq!(logic.next_step(), GameResult::NoOp);
    assert_eq!(*logic.snake(), [(2, 0), (3, 0), (4, 0), (5, 0), (6, 0)]);
    assert_eq!(logic.amount_of_growth(), 0);

    // Shrinking resumes: length stays constant once the credit is gone.
    assert_eq!(logic.next_step(), GameResult::NoOp);
    assert_eq!(*logic.snake(), [(3, 0), (4, 0), (5, 0), (6, 0), (7, 0)]);
}

/// The direction-change lock: one accepted change per tick, re-armed by
/// every step, and reversals are always ignored.
#[test]
fn direction_lock_and_reversal() {
    let mut logic = SnakeLogic::new(25, 25).unwrap();
    logic.set_snake(vec![(10, 10)]);
    logic.set_food((0, 0));

    // From Still, the first cardinal request is accepted and consumes
    // the lock.
    logic.change_direction(Direction::Down);
    assert_eq!(logic.direction(), Direction::Down);
    assert!(!logic.can_change_direction());
    // A second same-tick request is ignored, even a legal one.
    logic.change_direction(Direction::Left);
    assert_eq!(logic.direction(), Direction::Down);

    // Any step, including a no-op one, re-arms the lock.
    assert!(!logic.next_step().is_over());
    assert!(logic.can_change_direction());

    // Reversal is rejected on every axis; so are repeats and Still.
    logic.change_direction(Direction::Up);
    assert_eq!(logic.direction(), Direction::Down);
    logic.change_direction(Direction::Down);
    assert_eq!(logic.direction(), Direction::Down);
    logic.change_direction(Direction::Still);
    assert_eq!(logic.direction(), Direction::Down);
    assert!(logic.can_change_direction());

    logic.change_direction(Direction::Right);
    assert_eq!(logic.direction(), Direction::Right);
    assert!(!logic.next_step().is_over());
    logic.change_direction(Direction::Left);
    assert_eq!(logic.direction(), Direction::Right);
    logic.change_direction(Direction::Up);
    assert_eq!(logic.direction(), Direction::Up);
    assert!(!logic.next_step().is_over());
    logic.change_direction(Direction::Down);
    assert_eq!(logic.direction(), Direction::Up);
}

/// Food never lands on the snake and the snake never holds a duplicate
/// cell, across a whole random game.
#[test]
fn invariants_across_random_game() {
    let mut logic = SnakeLogic::new(8, 8).unwrap();
    let dirs = [
        Direction::Right,
        Direction::Down,
        Direction::Left,
        Direction::Up,
    ];
    let mut i = 0;
    loop {
        logic.change_direction(dirs[i % 4]);
        i += 1;
        // Stop near the win condition, as the engine's contract asks.
        if logic.snake().len() + 2 > 64 {
            break;
        }
        if logic.next_step().is_over() {
            break;
        }
        let food = logic.food();
        assert!(!logic.snake().contains(&food));
        assert!(food.0 < 8 && food.1 < 8);
        let cells: Vec<(usize, usize)> = logic.snake().iter().copied().collect();
        for a in 0..cells.len() {
            assert!(cells[a].0 < 8 && cells[a].1 < 8);
            for b in 0..a {
                assert_ne!(cells[a], cells[b]);
            }
        }
        if i > 4000 {
            break;
        }
    }
}

/// Bounded play on a bounded grid terminates: stepping a small grid a
/// fixed number of times neither hangs nor overruns.
#[test]
fn full_grid_bounded_termination() {
    let mut logic = SnakeLogic::new(5, 5).unwrap();
    logic.set_growth_per_food(1);
    let dirs = [
        Direction::Right,
        Direction::Down,
        Direction::Left,
        Direction::Up,
    ];
    let mut steps = 0;
    while steps < 600 {
        logic.change_direction(dirs[(steps / 4) % 4]);
        if logic.snake().len() == 5 * 5 {
            // The win condition must be handled outside the engine.
            break;
        }
        if logic.next_step().is_over() {
            logic = SnakeLogic::new(5, 5).unwrap();
            logic.set_growth_per_food(1);
        }
        steps += 1;
    }
    assert!(logic.snake().len() <= 5 * 5);
}

/// Growth conservation at runtime: length plus pending credit changes
/// only when food is eaten, and then by exactly growth-per-food.
#[test]
fn growth_conservation_runtime() {
    let mut logic = SnakeLogic::new(25, 25).unwrap();
    logic.set_growth_per_food(3);
    logic.set_snake(vec![(0, 0)]);
    logic.set_food((3, 0));
    logic.set_direction(Direction::Right);
    let mut eaten = 0;
    for _ in 0..10 {
        let before_food = logic.food();
        let before = logic.snake().len() + logic.amount_of_growth();
        assert!(!logic.next_step().is_over());
        let ate = logic.snake().back() == Some(&before_food);
        if ate {
            eaten += 1;
            assert_eq!(logic.snake().len() + logic.amount_of_growth(), before + 3);
            // Park the food out of the snake's path so it is eaten once.
            logic.set_food((24, 24));
        } else {
            assert_eq!(logic.snake().len() + logic.amount_of_growth(), before);
        }
    }
    assert_eq!(eaten, 1);
    assert_eq!(logic.snake().len() + logic.amount_of_growth(), 1 + 3);
}

/// The difficulty profile is total and matches its published table.
#[test]
fn difficulty_profile_table() {
    let cases = [
        (GameDifficulty::Hard, (35, 35), 75),
        (GameDifficulty::Normal, (25, 25), 100),
        (GameDifficulty::Easy, (15, 15), 200),
        (GameDifficulty::Basic, (11, 11), 150),
        (GameDifficulty::VeryHard, (55, 55), 30),
        (GameDifficulty::Extreme, (70, 70), 35),
        (GameDifficulty::Intermediate, (45, 45), 60),
        (GameDifficulty::Expert, (100, 100), 10),
        (GameDifficulty::Insane, (85, 85), 20),
        (GameDifficulty::VeryEasy, (8, 8), 400),
    ];
    for (difficulty, size, timestep) in cases {
        assert_eq!(difficulty.game_size(), size);
        assert_eq!(difficulty.timestep(), timestep);
        assert!(difficulty.timestep() > 0);
        assert!(size.0 >= SnakeLogic::MIN_WIDTH && size.0 <= SnakeLogic::MAX_WIDTH);
    }
}

/// The scheduler steps only when a full timestep has passed, latches
/// game over, and keeps the clock running while paused.
#[test]
fn scheduler_gating_and_pause() {
    let mut game = SnakeGame::new(GameDifficulty::Normal, 1_000);
    assert_eq!(game.width(), 25);
    assert_eq!(game.height(), 25);
    assert!(!game.is_over());
    assert!(!game.is_paused());
    assert_eq!(game.score(), 1);

    // Before a timestep has passed, nothing moves.
    game.change_direction(Direction::Down);
    let before: Vec<(usize, usize)> = game.snake().iter().copied().collect();
    game.update(1_050);
    let after: Vec<(usize, usize)> = game.snake().iter().copied().collect();
    assert_eq!(before, after);

    // Exactly one timestep is still not enough: strictly more is needed.
    game.update(1_100);
    let after: Vec<(usize, usize)> = game.snake().iter().copied().collect();
    assert_eq!(before, after);

    // A due tick while paused refreshes the clock but does not step.
    game.set_paused(true);
    assert!(game.is_paused());
    game.update(1_300);
    let after: Vec<(usize, usize)> = game.snake().iter().copied().collect();
    assert_eq!(before, after);

    // Unpausing needs a full further timestep before the next step.
    game.set_paused(false);
    game.update(1_350);
    let after: Vec<(usize, usize)> = game.snake().iter().copied().collect();
    assert_eq!(before, after);
    game.update(1_500);
    let after: Vec<(usize, usize)> = game.snake().iter().copied().collect();
    // The engine stepped: the snake moved, or hit a wall and the game
    // ended.
    assert!(after != before || game.is_over());
}

/// Game over latches: once over, updates change nothing until a new
/// session is made.
#[test]
fn scheduler_game_over_latch() {
    let mut game = SnakeGame::new(GameDifficulty::Normal, 0);
    game.change_direction(Direction::Up);
    // Drive the snake into the top wall; each due tick is one step.
    let mut now = 0;
    for _ in 0..30 {
        now += 101;
        game.update(now);
        if game.is_over() {
            break;
        }
    }
    assert!(game.is_over());
    let frozen: Vec<(usize, usize)> = game.snake().iter().copied().collect();
    game.update(now + 10_000);
    let after: Vec<(usize, usize)> = game.snake().iter().copied().collect();
    assert_eq!(frozen, after);
    assert!(game.is_over());
}

/// The menu walks between its screens and cycles the difficulty, and
/// reports a new game only from the main screen's first entry.
#[test]
fn menu_navigation() {
    let mut menu = Menu::new();
    assert!(matches!(menu.menu_type(), MenuType::MainMenu));
    assert_eq!(menu.selected_option(), 0);

    // Walk to the settings screen.
    menu.select_next_option();
    assert_eq!(menu.selected_option(), 1);
    assert!(matches!(menu.enter_or_space_pressed(), MenuAction::NoOp));
    assert!(matches!(menu.menu_type(), MenuType::SettingsMenu));

    // Confirming the difficulty line cycles the tier.
    assert_eq!(menu.settings().difficulty(), Difficulty::Normal);
    assert!(matches!(menu.enter_or_space_pressed(), MenuAction::NoOp));
    assert_eq!(menu.settings().difficulty(), Difficulty::Intermediate);
    menu.previous_difficulty();
    assert_eq!(menu.settings().difficulty(), Difficulty::Normal);
    menu.next_difficulty();
    assert_eq!(menu.settings().difficulty(), Difficulty::Intermediate);

    // The captions follow the chosen difficulty.
    let captions = menu.all_possibilities();
    assert_eq!(captions, vec!["Difficulty: Intermediate", "Back"]);

    // Back returns to the main screen, where the first entry starts a
    // game.
    menu.select_next_option();
    assert_eq!(menu.selected_setting(), SelectedSetting::Back);
    assert!(matches!(menu.enter_or_space_pressed(), MenuAction::NoOp));
    assert!(matches!(menu.menu_type(), MenuType::MainMenu));
    let captions = menu.all_possibilities();
    assert_eq!(captions, vec!["New Game", "Settings"]);
    menu.select_previous_option();
    assert_eq!(menu.selected_option(), 0);
    assert!(matches!(menu.enter_or_space_pressed(), MenuAction::NewGame));
}

/// The difficulty cycle visits all ten tiers and wraps around, in both
/// directions.
#[test]
fn difficulty_cycle() {
    let order = [
        Difficulty::VeryEasy,
        Difficulty::Easy,
        Difficulty::Normal,
        Difficulty::Intermediate,
        Difficulty::Hard,
        Difficulty::Expert,
        Difficulty::Extreme,
        Difficulty::Insane,
        Difficulty::Basic,
        Difficulty::VeryHard,
    ];
    let mut d = Difficulty::VeryEasy;
    for expected in order.iter().cycle().skip(1).take(20) {
        d.next_difficulty();
        assert_eq!(d, *expected);
    }
    let mut d = Difficulty::VeryEasy;
    for expected in order.iter().rev().cycle().take(20) {
        d.previous_difficulty();
        assert_eq!(d, *expected);
    }
}

/// Cell-to-pixel geometry: integer scaling, in bounds of the surface.
#[test]
fn geometry_scaling() {
    let (size, top_left) = snake_square_geometry(800, 600, 10, 10, (3, 4));
    assert_eq!(size, (80, 60));
    assert_eq!(top_left, (240, 240));

    // A surface smaller than the grid collapses cells to zero pixels.
    let (size, top_left) = snake_square_geometry(5, 5, 10, 10, (9, 9));
    assert_eq!(size, (0, 0));
    assert_eq!(top_left, (0, 0));

    // The last cell's corner stays within the surface.
    let (size, top_left) = snake_square_geometry(799, 601, 25, 25, (24, 24));
    assert_eq!(size, (31, 24));
    assert_eq!(top_left, (24 * 31, 24 * 24));
    assert!(top_left.0 <= 799 && top_left.1 <= 601);
}
