use snake::apple::{choose_cell, gen_apple_location};
use snake::direction::SnakeDirection;
use snake::grid::{free_cells, occupies, Grid, GridPos};

fn pos(x: i64, y: i64) -> GridPos {
    GridPos { x, y }
}

#[test]
fn free_cells_row_by_row() {
    let g = Grid::new(3, 3);
    let cells = free_cells(&g, &vec![pos(0, 0), pos(1, 1)]);
    assert_eq!(
        cells,
        vec![pos(-1, -1), pos(0, -1), pos(1, -1), pos(-1, 0), pos(1, 0), pos(-1, 1), pos(0, 1)]
    );
}

#[test]
fn free_cells_ignores_tiles_off_grid() {
    let g = Grid::new(1, 1);
    assert_eq!(free_cells(&g, &vec![pos(5, 5)]), vec![pos(0, 0)]);
    assert_eq!(free_cells(&g, &vec![pos(0, 0)]), vec![]);
}

#[test]
fn bounds_of_default_grid() {
    let g = Grid::new(21, 21);
    assert!(g.in_bounds(pos(10, -10)));
    assert!(!g.in_bounds(pos(11, 0)));
    assert!(!g.in_bounds(pos(0, -11)));
    assert_eq!(g.center(), pos(0, 0));
}

#[test]
fn step_moves_one_tile() {
    assert_eq!(pos(2, 3).step(SnakeDirection::Left), pos(1, 3));
    assert_eq!(pos(2, 3).step(SnakeDirection::Down), pos(2, 2));
}

#[test]
fn occupies_finds_tile() {
    let cells = vec![pos(1, 2), pos(3, 4)];
    assert!(occupies(&cells, pos(3, 4)));
    assert!(!occupies(&cells, pos(4, 3)));
}

#[test]
fn apple_location_on_nearly_full_grid() {
    let g = Grid::new(3, 1);
    for _ in 0..20 {
        assert_eq!(gen_apple_location(&g, &vec![pos(-1, 0), pos(1, 0)]), Some(pos(0, 0)));
    }
    assert_eq!(gen_apple_location(&g, &vec![pos(-1, 0), pos(0, 0), pos(1, 0)]), None);
}

#[test]
fn apple_location_covers_free_tiles() {
    let g = Grid::new(3, 1);
    let mut seen_left = false;
    let mut seen_right = false;
    for _ in 0..200 {
        match gen_apple_location(&g, &vec![pos(0, 0)]) {
            Some(p) if p == pos(-1, 0) => seen_left = true,
            Some(p) if p == pos(1, 0) => seen_right = true,
            other => panic!("unexpected {:?}", other),
        }
    }
    assert!(seen_left && seen_right);
}

#[test]
fn choose_cell_counts_round() {
    let free = vec![pos(1, 1), pos(2, 2), pos(3, 3)];
    assert_eq!(choose_cell(&free, 1), Some(pos(2, 2)));
    assert_eq!(choose_cell(&free, 4), Some(pos(2, 2)));
    assert_eq!(choose_cell(&vec![], 4), None);
}
