use snake_game::Direction;
use snake_game::game::GameDifficulty;
use snake_game::game_with_menu::{GameOrMenu, GameWithMenu};
use snake_game::menu::SelectedOption;

#[test]
fn up_test() {
    let mut game_with_menu = GameWithMenu::new(GameDifficulty::Normal, 0);
    assert_eq!(game_with_menu.game_or_menu, GameOrMenu::InMainMenu);
    game_with_menu.up_pressed();
    assert_eq!(
        game_with_menu.menu.selected_option(),
        SelectedOption::Settings as u8
    );

    game_with_menu.game_or_menu = GameOrMenu::InGame;
    game_with_menu.up_pressed();
    assert_eq!(game_with_menu.game.direction(), Direction::Up);
}

#[test]
fn right_test() {
    let mut game_with_menu = GameWithMenu::new(GameDifficulty::Normal, 0);
    assert_eq!(game_with_menu.game_or_menu, GameOrMenu::InMainMenu);
    game_with_menu.right_pressed();
    assert_eq!(
        game_with_menu.menu.selected_option(),
        SelectedOption::NewGame as u8
    );

    game_with_menu.game_or_menu = GameOrMenu::InGame;
    game_with_menu.right_pressed();
    assert_eq!(game_with_menu.game.direction(), Direction::Right);
}

#[test]
fn left_test() {
    let mut game_with_menu = GameWithMenu::new(GameDifficulty::Normal, 0);
    assert_eq!(game_with_menu.game_or_menu, GameOrMenu::InMainMenu);
    game_with_menu.left_pressed();
    assert_eq!(
        game_with_menu.menu.selected_option(),
        SelectedOption::NewGame as u8
    );

    game_with_menu.game_or_menu = GameOrMenu::InGame;
    game_with_menu.left_pressed();
    assert_eq!(game_with_menu.game.direction(), Direction::Left);
}

#[test]
fn down_test() {
    let mut game_with_menu = GameWithMenu::new(GameDifficulty::Normal, 0);
    assert_eq!(game_with_menu.game_or_menu, GameOrMenu::InMainMenu);
    game_with_menu.down_pressed();

    assert_eq!(
        game_with_menu.menu.selected_option(),
        SelectedOption::Settings as u8
    );

    game_with_menu.game_or_menu = GameOrMenu::InGame;
    game_with_menu.down_pressed();
    assert_eq!(game_with_menu.game.direction(), Direction::Down);
}

#[test]
fn enter_or_space_test() {
    let mut game_with_menu = GameWithMenu::new(GameDifficulty::Normal, 0);
    assert_eq!(game_with_menu.game_or_menu, GameOrMenu::InMainMenu);
    game_with_menu.enter_or_space_pressed(0);
    assert_eq!(
        game_with_menu.menu.selected_option(),
        SelectedOption::NewGame as u8
    );
    assert_eq!(game_with_menu.game.is_paused(), false);

    game_with_menu.game_or_menu = GameOrMenu::InGame;
    game_with_menu.enter_or_space_pressed(0);

    assert_eq!(game_with_menu.game.is_paused(), true);
}
