//! One top-level session: a game and a menu, with key events routed to
//! whichever is active, and the geometry that maps grid cells to surface
//! pixels for a renderer.
use vstd::prelude::*;

use crate::Direction;
use crate::game::{GameView, SnakeGame, fresh_session, updated};
use crate::internal::GameResult;
use crate::menu::{Menu, MenuAction, MenuType, SelectedSetting, Settings};
use crate::snakelogic::direction_after;

verus! {

/// Whether key events drive the game or the menu.
#[derive(Default, Debug, PartialEq, Eq, Structural, Clone, Copy)]
pub enum GameOrMenu {
    InGame,
    #[default]
    InMainMenu,
}

/// A game session together with its menu.
#[derive(Debug)]
pub struct GameWithMenu {
    pub game: SnakeGame,
    pub menu: Menu,
    pub game_or_menu: GameOrMenu,
}

/// The menu after a left key: on the settings screen with the difficulty
/// line highlighted it cycles the tier back, anywhere else it does
/// nothing.
pub open spec fn menu_after_left(m: Menu) -> Menu {
    if m.menu_type == MenuType::SettingsMenu && m.setting.selected_setting
        == SelectedSetting::Difficulty {
        Menu {
            setting: Settings { difficulty: m.setting.difficulty.previous_spec(), ..m.setting },
            ..m
        }
    } else {
        m
    }
}

/// The menu after a right key: on the settings screen with the
/// difficulty line highlighted it cycles the tier forward, anywhere else
/// it does nothing.
pub open spec fn menu_after_right(m: Menu) -> Menu {
    if m.menu_type == MenuType::SettingsMenu && m.setting.selected_setting
        == SelectedSetting::Difficulty {
        Menu { setting: Settings { difficulty: m.setting.difficulty.next_spec(), ..m.setting }, ..m }
    } else {
        m
    }
}

impl GameWithMenu {
    /// The wrapped game is in a state the engine's invariant describes.
    pub open spec fn wf(&self) -> bool {
        self.game.wf()
    }

    /// A fresh session at the given tier and clock origin, starting in
    /// the main menu.
    pub fn new(difficulty: crate::game::GameDifficulty, now: u64) -> (r: GameWithMenu)
        ensures
            r.wf(),
            fresh_session(r.game@, difficulty, now),
            r.menu.selected_option == crate::menu::SelectedOption::NewGame,
            r.menu.setting.selected_setting == SelectedSetting::Difficulty,
            r.menu.setting.difficulty == crate::menu::Difficulty::Normal,
            r.menu.menu_type == MenuType::MainMenu,
            r.game_or_menu == GameOrMenu::InMainMenu,
    {
        GameWithMenu {
            game: SnakeGame::new(difficulty, now),
            menu: Menu::new(),
            game_or_menu: GameOrMenu::InMainMenu,
        }
    }

    /// Advances whichever side is active to time `now`; the menu ignores
    /// time.
    pub fn update(&mut self, now: u64)
        requires
            old(self).wf(),
        ensures
            final(self).game_or_menu == old(self).game_or_menu,
            final(self).menu == old(self).menu,
            old(self).game_or_menu == GameOrMenu::InGame ==> updated(
                old(self).game@,
                final(self).game@,
                now,
            ),
            old(self).game_or_menu == GameOrMenu::InMainMenu ==> final(self).game@ == old(self).game@,
            !old(self).game@.logic.fills_grid() ==> final(self).wf(),
    {
        match self.game_or_menu {
            GameOrMenu::InGame => {
                self.game.update(now);
            },
            GameOrMenu::InMainMenu => {
                self.menu.update(now);
            },
        }
    }

    /// An up key: turns the snake upwards in game, or moves the menu
    /// highlight one entry up.
    pub fn up_pressed(&mut self)
        ensures
            final(self).game_or_menu == old(self).game_or_menu,
            old(self).game_or_menu == GameOrMenu::InGame ==> final(self).game@ == (GameView {
                logic: direction_after(old(self).game@.logic, Direction::Up),
                ..old(self).game@
            }) && final(self).menu == old(self).menu,
            old(self).game_or_menu == GameOrMenu::InMainMenu ==> final(self).menu == old(self).menu.select_previous_spec() && final(self).game@ == old(self).game@,
            old(self).wf() ==> final(self).wf(),
    {
        match self.game_or_menu {
            GameOrMenu::InGame => self.game.change_direction(Direction::Up),
            GameOrMenu::InMainMenu => self.menu.select_previous_option(),
        }
    }

    /// A down key: turns the snake downwards in game, or moves the menu
    /// highlight one entry down.
    pub fn down_pressed(&mut self)
        ensures
            final(self).game_or_menu == old(self).game_or_menu,
            old(self).game_or_menu == GameOrMenu::InGame ==> final(self).game@ == (GameView {
                logic: direction_after(old(self).game@.logic, Direction::Down),
                ..old(self).game@
            }) && final(self).menu == old(self).menu,
            old(self).game_or_menu == GameOrMenu::InMainMenu ==> final(self).menu == old(self).menu.select_next_spec() && final(self).game@ == old(self).game@,
            old(self).wf() ==> final(self).wf(),
    {
        match self.game_or_menu {
            GameOrMenu::InGame => self.game.change_direction(Direction::Down),
            GameOrMenu::InMainMenu => self.menu.select_next_option(),
        }
    }

    /// A left key: turns the snake left in game, or cycles the
    /// difficulty back on the settings screen.
    pub fn left_pressed(&mut self)
        ensures
            final(self).game_or_menu == old(self).game_or_menu,
            old(self).game_or_menu == GameOrMenu::InGame ==> final(self).game@ == (GameView {
                logic: direction_after(old(self).game@.logic, Direction::Left),
                ..old(self).game@
            }) && final(self).menu == old(self).menu,
            old(self).game_or_menu == GameOrMenu::InMainMenu ==> final(self).menu
                == menu_after_left(old(self).menu) && final(self).game@ == old(self).game@,
            old(self).wf() ==> final(self).wf(),
    {
        match self.game_or_menu {
            GameOrMenu::InGame => self.game.change_direction(Direction::Left),
            GameOrMenu::InMainMenu => match self.menu.menu_type() {
                MenuType::MainMenu => (),
                MenuType::SettingsMenu => match self.menu.selected_setting() {
                    SelectedSetting::Difficulty => self.menu.previous_difficulty(),
                    SelectedSetting::Back => (),
                },
            },
        }
    }

    /// A right key: turns the snake right in game, or cycles the
    /// difficulty forward on the settings screen.
    pub fn right_pressed(&mut self)
        ensures
            final(self).game_or_menu == old(self).game_or_menu,
            old(self).game_or_menu == GameOrMenu::InGame ==> final(self).game@ == (GameView {
                logic: direction_after(old(self).game@.logic, Direction::Right),
                ..old(self).game@
            }) && final(self).menu == old(self).menu,
            old(self).game_or_menu == GameOrMenu::InMainMenu ==> final(self).menu
                == menu_after_right(old(self).menu) && final(self).game@ == old(self).game@,
            old(self).wf() ==> final(self).wf(),
    {
        match self.game_or_menu {
            GameOrMenu::InGame => self.game.change_direction(Direction::Right),
            GameOrMenu::InMainMenu => match self.menu.menu_type() {
                MenuType::MainMenu => (),
                MenuType::SettingsMenu => match self.menu.selected_setting() {
                    SelectedSetting::Difficulty => self.menu.next_difficulty(),
                    SelectedSetting::Back => (),
                },
            },
        }
    }

    /// An enter or space key at time `now`: in game it restarts after a
    /// game over (back in the menu, at the chosen difficulty) and
    /// otherwise toggles pause; in the menu it confirms the highlighted
    /// entry, and a confirmed new game starts at the chosen difficulty.
    pub fn enter_or_space_pressed(&mut self, now: u64)
        ensures
            old(self).game_or_menu == GameOrMenu::InGame && old(self).game@.last_result
                == GameResult::GameOver ==> final(self).game_or_menu == GameOrMenu::InMainMenu
                && fresh_session(
                final(self).game@,
                old(self).menu.setting.difficulty.game_difficulty_spec(),
                now,
            ) && final(self).menu == old(self).menu,
            old(self).game_or_menu == GameOrMenu::InGame && old(self).game@.last_result
                != GameResult::GameOver ==> final(self).game_or_menu == GameOrMenu::InGame && final(self).game@ == (GameView { paused: !old(self).game@.paused, ..old(self).game@ }) && final(self).menu == old(self).menu,
            old(self).game_or_menu == GameOrMenu::InMainMenu ==> final(self).menu == old(self).menu.enter_spec().0,
            old(self).game_or_menu == GameOrMenu::InMainMenu && old(self).menu.enter_spec().1
                == MenuAction::NewGame ==> final(self).game_or_menu == GameOrMenu::InGame
                && fresh_session(
                final(self).game@,
                old(self).menu.setting.difficulty.game_difficulty_spec(),
                now,
            ),
            old(self).game_or_menu == GameOrMenu::InMainMenu && old(self).menu.enter_spec().1
                == MenuAction::NoOp ==> final(self).game_or_menu == GameOrMenu::InMainMenu && final(self).game@ == old(self).game@,
            old(self).wf() ==> final(self).wf(),
    {
        match self.game_or_menu {
            GameOrMenu::InGame => {
                let difficulty = self.menu.settings().difficulty().game_difficulty();
                if self.game.is_over() {
                    self.game_or_menu = GameOrMenu::InMainMenu;
                    self.game = SnakeGame::new(difficulty, now);
                } else {
                    let paused = self.game.is_paused();
                    self.game.set_paused(!paused);
                }
            },
            GameOrMenu::InMainMenu => {
                match self.menu.enter_or_space_pressed() {
                    MenuAction::NoOp => (),
                    MenuAction::NewGame => {
                        let difficulty = self.menu.settings().difficulty().game_difficulty();
                        self.game = SnakeGame::new(difficulty, now);
                        self.game_or_menu = GameOrMenu::InGame;
                    },
                }
            },
        }
    }
}

/// How one grid cell maps onto a drawing surface: the cell's size in
/// pixels per axis, and the top-left corner of the given cell. The
/// products cannot overflow: an in-bounds cell lands within the surface.
pub fn snake_square_geometry(
    frame_width: usize,
    frame_height: usize,
    game_width: usize,
    game_height: usize,
    square: (usize, usize),
) -> (r: ((usize, usize), (usize, usize)))
    requires
        0 < game_width,
        0 < game_height,
        square.0 < game_width,
        square.1 < game_height,
    ensures
        r.0 == (frame_width / game_width, frame_height / game_height),
        r.1.0 == square.0 * (frame_width / game_width),
        r.1.1 == square.1 * (frame_height / game_height),
        r.1.0 <= frame_width,
        r.1.1 <= frame_height,
{
    let w_s = frame_width / game_width;
    let h_s = frame_height / game_height;
    proof {
        vstd::arithmetic::div_mod::lemma_remainder_lower(frame_width as int, game_width as int);
        vstd::arithmetic::div_mod::lemma_remainder_lower(frame_height as int, game_height as int);
        assert(square.0 * w_s <= frame_width) by (nonlinear_arith)
            requires
                0 < game_width,
                square.0 < game_width,
                w_s == frame_width / game_width,
                (frame_width / game_width) * game_width <= frame_width,
        ;
        assert(square.1 * h_s <= frame_height) by (nonlinear_arith)
            requires
                0 < game_height,
                square.1 < game_height,
                h_s == frame_height / game_height,
                (frame_height / game_height) * game_height <= frame_height,
        ;
    }
    let ix = square.0 * w_s;
    let iy = square.1 * h_s;
    ((w_s, h_s), (ix, iy))
}

} // verus!
