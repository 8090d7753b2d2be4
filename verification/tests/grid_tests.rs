use snake_game::grid::Grid;

#[test]
fn test() {
    let mut grid = Grid::<u128>::new(4, 2);
    assert_eq!(grid.at(2, 5), None);
    assert_eq!(grid.at(1, 3), None);
    assert_eq!(*grid.at(3, 1).unwrap(), 0);

    *grid.at_mut(3, 1).unwrap() = 4;
    assert_eq!(*grid.at(3, 1).unwrap(), 4);
    assert_eq!(grid.data()[7], 4);
    *grid.at_mut(2, 1).unwrap() = 10;
    assert_eq!(grid.data()[5], 10);

    assert_eq!(grid.at(4, 0), None);
    assert!(grid.at(3, 0).is_some());
    assert_eq!(grid.at(4, 2), None);
    assert_eq!(grid.at(0, 2), None);
    assert!(grid.at(0, 1).is_some());
    assert_eq!(*grid.at(0, 0).unwrap(), 0)
}
