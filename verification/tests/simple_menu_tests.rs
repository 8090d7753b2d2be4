use snake_game::simple_menu::SelectedOption;

#[test]
fn all() {
    let mut option = SelectedOption::default();
    assert_eq!(option, SelectedOption::NewGame);
    option.next_selection();
    assert_eq!(option, SelectedOption::Options);
    option.next_selection();
    assert_eq!(option, SelectedOption::Exit);
    option.next_selection();
    assert_eq!(option, SelectedOption::NewGame);
    option.previous_selection();
    assert_eq!(option, SelectedOption::Exit);
    option.previous_selection();
    assert_eq!(option, SelectedOption::Options);
    option.previous_selection();
    assert_eq!(option, SelectedOption::NewGame);
    option.previous_selection();
    assert_eq!(option, SelectedOption::Exit);
    assert_eq!(
        SelectedOption::all_possibilities(),
        vec![
            SelectedOption::NewGame,
            SelectedOption::Options,
            SelectedOption::Exit
        ]
    );
}
