use snake_game::menu::SelectedOption;

#[test]
fn menu_all() {
    let mut option = SelectedOption::default();
    assert_eq!(option, SelectedOption::NewGame);
    option.next_selection();
    assert_eq!(option, SelectedOption::Settings);
    option.next_selection();
    assert_eq!(option, SelectedOption::NewGame);
    option.next_selection();
    assert_eq!(option, SelectedOption::Settings);
    option.previous_selection();
    assert_eq!(option, SelectedOption::NewGame);
    option.previous_selection();
    assert_eq!(option, SelectedOption::Settings);
    option.previous_selection();
    assert_eq!(option, SelectedOption::NewGame);
    option.previous_selection();
    assert_eq!(option, SelectedOption::Settings);
}
