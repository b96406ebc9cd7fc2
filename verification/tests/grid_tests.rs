use deet::grid::Grid;

#[test]
fn test_grid_starts_zeroed() {
    let g = Grid::new(2, 3);
    assert_eq!(g.size(), (2, 3));
    for r in 0..2 {
        for c in 0..3 {
            assert_eq!(g.get(r, c), Some(0));
        }
    }
}

#[test]
fn test_grid_set_and_get() {
    let mut g = Grid::new(2, 2);
    assert_eq!(g.set(0, 1, 7), Ok(()));
    assert_eq!(g.set(1, 0, 9), Ok(()));
    assert_eq!(g.get(0, 1), Some(7));
    assert_eq!(g.get(1, 0), Some(9));
    assert_eq!(g.get(0, 0), Some(0));
}

#[test]
fn test_grid_out_of_range() {
    let mut g = Grid::new(2, 2);
    assert_eq!(g.get(2, 0), None);
    assert_eq!(g.get(0, 2), None);
    assert_eq!(g.set(2, 0, 1), Err(()));
    assert_eq!(g.set(0, 2, 1), Err(()));
    assert_eq!(g.get(1, 1), Some(0));
}
