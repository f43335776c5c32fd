//! Grid occupancy, row completion, and row clearing.

use tetramino::grid::{Cell, Grid, TetraminoPart};

fn count_occupied(g: &Grid) -> usize {
    let mut n = 0;
    for c in 0..g.width {
        for r in 0..g.height {
            if g.is_occupied(c, r) {
                n += 1;
            }
        }
    }
    n
}

#[test]
fn new_grid_empty() {
    let g = Grid::new(10, 20);
    assert_eq!(g.width, 10);
    assert_eq!(g.height, 20);
    assert_eq!(count_occupied(&g), 0);
}

#[test]
fn default_grid_is_ten_by_twenty() {
    let g = Grid::default();
    assert_eq!(g.width, 10);
    assert_eq!(g.height, 20);
    assert_eq!(count_occupied(&g), 0);
}

#[test]
fn set_get_clear_roundtrip() {
    let mut g = Grid::new(4, 3);
    assert_eq!(g.get(2, 1), Cell::Empty);
    g.set(2, 1, Cell::Locked(5));
    assert_eq!(g.get(2, 1), Cell::Locked(5));
    assert!(g.is_occupied(2, 1));
    assert!(!g.is_occupied(1, 1));
    g.clear(2, 1);
    assert_eq!(g.get(2, 1), Cell::Empty);
    assert!(!g.is_occupied(2, 1));
}

#[test]
fn row_complete_iff_all_cells_occupied() {
    let mut g = Grid::new(4, 3);
    assert!(!g.row_is_complete(1));
    g.set(0, 1, Cell::Locked(1));
    g.set(1, 1, Cell::Locked(1));
    g.set(2, 1, Cell::Locked(1));
    assert!(!g.row_is_complete(1));
    g.set(3, 1, Cell::Locked(1));
    assert!(g.row_is_complete(1));
    g.clear(2, 1);
    assert!(!g.row_is_complete(1));
}

#[test]
fn first_complete_row_is_lowest() {
    let mut g = Grid::new(2, 4);
    assert_eq!(g.first_complete_row(), None);
    for c in 0..2 {
        g.set(c, 3, Cell::Locked(1));
        g.set(c, 1, Cell::Locked(1));
    }
    assert_eq!(g.first_complete_row(), Some(1));
}

#[test]
fn clear_row_and_shift_moves_row_above_down() {
    let mut g = Grid::new(4, 3);
    for c in 0..4 {
        g.set(c, 1, Cell::Locked(9));
    }
    g.set(2, 2, Cell::Locked(7));
    assert_eq!(count_occupied(&g), 5);
    g.clear_row_and_shift(1);
    // row 1 now holds what was row 2
    assert_eq!(g.get(2, 1), Cell::Locked(7));
    assert!(!g.is_occupied(0, 1));
    assert!(!g.is_occupied(1, 1));
    assert!(!g.is_occupied(3, 1));
    // the top row became empty
    for c in 0..4 {
        assert!(!g.is_occupied(c, 2));
    }
    // exactly `width` occupants vanished
    assert_eq!(count_occupied(&g), 1);
}

#[test]
fn clear_single_complete_row_empties_grid() {
    let mut g = Grid::new(4, 3);
    for c in 0..4 {
        g.set(c, 1, Cell::Locked(9));
    }
    g.clear_row_and_shift(1);
    assert_eq!(count_occupied(&g), 0);
}

#[test]
fn resolve_two_nonadjacent_rows() {
    let mut g = Grid::new(3, 6);
    // partial rows 0, 2, 4 and complete rows 1, 3
    g.set(0, 0, Cell::Locked(1));
    g.set(2, 2, Cell::Locked(2));
    g.set(1, 4, Cell::Locked(3));
    for c in 0..3 {
        g.set(c, 1, Cell::Locked(9));
        g.set(c, 3, Cell::Locked(9));
    }
    assert_eq!(count_occupied(&g), 9);
    g.resolve_completed_rows();
    // exactly 2 * width cells removed
    assert_eq!(count_occupied(&g), 3);
    // surviving rows keep their relative order: old 0, 2, 4 become 0, 1, 2
    assert_eq!(g.get(0, 0), Cell::Locked(1));
    assert_eq!(g.get(2, 1), Cell::Locked(2));
    assert_eq!(g.get(1, 2), Cell::Locked(3));
    for r in 3..6 {
        for c in 0..3 {
            assert!(!g.is_occupied(c, r));
        }
    }
}

#[test]
fn resolve_adjacent_rows_cascade() {
    let mut g = Grid::new(2, 4);
    for c in 0..2 {
        g.set(c, 0, Cell::Locked(9));
        g.set(c, 1, Cell::Locked(9));
    }
    g.set(0, 2, Cell::Locked(4));
    g.resolve_completed_rows();
    assert_eq!(count_occupied(&g), 1);
    assert_eq!(g.get(0, 0), Cell::Locked(4));
}

#[test]
fn resolve_without_complete_rows_changes_nothing() {
    let mut g = Grid::new(3, 3);
    g.set(0, 0, Cell::Locked(1));
    g.set(2, 1, Cell::Locked(2));
    g.resolve_completed_rows();
    assert_eq!(g.get(0, 0), Cell::Locked(1));
    assert_eq!(g.get(2, 1), Cell::Locked(2));
    assert_eq!(count_occupied(&g), 2);
}

#[test]
fn locked_part_at_reports_locked_cells() {
    let mut g = Grid::new(3, 3);
    g.set(1, 2, Cell::Locked(6));
    g.set(0, 0, Cell::Active);
    assert_eq!(g.locked_part_at(1, 2), Some((TetraminoPart { col: 1, row: 2 }, 6)));
    assert_eq!(g.locked_part_at(0, 0), None);
    assert_eq!(g.locked_part_at(2, 2), None);
}
