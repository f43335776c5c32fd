//! Shapes, collision predicates, committed moves, and spawning.

use tetramino::grid::{Cell, Grid};
use tetramino::movement::{
    apply_move, can_tetramino_fall, can_tetramino_left, can_tetramino_right, lock_tetramino,
};
use tetramino::shape::{Shape, Tetramino};
use tetramino::spawn::{
    spawn_tetramino_i, spawn_tetramino_j, spawn_tetramino_l, spawn_tetramino_o, spawn_tetramino_s,
    spawn_tetramino_t, spawn_tetramino_z, tetramino_fits,
};

fn count_occupied(g: &Grid) -> usize {
    let mut n = 0;
    for c in 0..g.width {
        for r in 0..g.height {
            if g.is_occupied(c, r) {
                n += 1;
            }
        }
    }
    n
}

#[test]
fn shape_catalog_data() {
    assert_eq!(Shape::L.delta_coords(), [(0, 0), (0, -1), (0, -2), (1, -2)]);
    assert_eq!(Shape::J.delta_coords(), [(0, 0), (0, -1), (0, -2), (1, 0)]);
    assert_eq!(Shape::I.delta_coords(), [(0, 0), (0, -1), (0, -2), (0, -3)]);
    assert_eq!(Shape::O.delta_coords(), [(0, 0), (0, -1), (1, 0), (1, -1)]);
    assert_eq!(Shape::T.delta_coords(), [(0, 0), (1, 0), (2, 0), (1, -1)]);
    assert_eq!(Shape::Z.delta_coords(), [(0, 0), (1, 0), (1, -1), (2, -1)]);
    assert_eq!(Shape::S.delta_coords(), [(1, 0), (2, 0), (0, -1), (1, -1)]);

    assert_eq!((Shape::L.width(), Shape::L.height(), Shape::L.sprite_index()), (2, 3, 3));
    assert_eq!((Shape::J.width(), Shape::J.height(), Shape::J.sprite_index()), (2, 3, 1));
    assert_eq!((Shape::I.width(), Shape::I.height(), Shape::I.sprite_index()), (1, 4, 6));
    assert_eq!((Shape::O.width(), Shape::O.height(), Shape::O.sprite_index()), (2, 2, 7));
    assert_eq!((Shape::T.width(), Shape::T.height(), Shape::T.sprite_index()), (3, 2, 4));
    assert_eq!((Shape::Z.width(), Shape::Z.height(), Shape::Z.sprite_index()), (3, 2, 5));
    assert_eq!((Shape::S.width(), Shape::S.height(), Shape::S.sprite_index()), (3, 2, 2));
}

#[test]
fn absolute_cells_from_anchor() {
    let t = Tetramino { col: 0, row: 19, shape: Shape::O };
    assert_eq!(t.cells(), [(0, 19), (0, 18), (1, 19), (1, 18)]);
    let t = Tetramino { col: 3, row: 5, shape: Shape::S };
    assert_eq!(t.cells(), [(4, 5), (5, 5), (3, 4), (4, 4)]);
}

#[test]
fn spawn_o_at_right_wall_fails_and_writes_nothing() {
    let mut g = Grid::new(10, 20);
    let spawned = spawn_tetramino_o(&mut g, 9, 19);
    assert!(spawned.is_none());
    assert_eq!(count_occupied(&g), 0);
}

#[test]
fn spawn_bounds_per_shape() {
    let mut g = Grid::new(10, 20);
    assert!(!tetramino_fits(&g, Shape::L, 9, 19));
    assert!(tetramino_fits(&g, Shape::L, 8, 19));
    assert!(!tetramino_fits(&g, Shape::L, 0, 1));
    assert!(tetramino_fits(&g, Shape::I, 9, 19));
    assert!(!tetramino_fits(&g, Shape::I, 9, 2));
    assert!(!tetramino_fits(&g, Shape::T, 8, 19));
    assert!(tetramino_fits(&g, Shape::T, 7, 19));
    assert!(!tetramino_fits(&g, Shape::T, 0, 0));
    assert!(!tetramino_fits(&g, Shape::O, 0, 20));
    assert!(spawn_tetramino_l(&mut g, 9, 19).is_none());
    assert!(spawn_tetramino_j(&mut g, 8, 0).is_none());
    assert!(spawn_tetramino_z(&mut g, 8, 19).is_none());
    assert!(spawn_tetramino_s(&mut g, 9, 19).is_none());
    assert_eq!(count_occupied(&g), 0);
}

#[test]
fn spawn_marks_exactly_the_four_cells() {
    let mut g = Grid::new(10, 20);
    let t = spawn_tetramino_o(&mut g, 0, 19).expect("O fits at the left wall");
    assert_eq!((t.col, t.row, t.shape), (0, 19, Shape::O));
    assert_eq!(g.get(0, 19), Cell::Active);
    assert_eq!(g.get(0, 18), Cell::Active);
    assert_eq!(g.get(1, 19), Cell::Active);
    assert_eq!(g.get(1, 18), Cell::Active);
    assert_eq!(count_occupied(&g), 4);
}

#[test]
fn can_fall_false_on_floor_whatever_the_grid() {
    let g = Grid::new(10, 20);
    let t = Tetramino { col: 0, row: 1, shape: Shape::O };
    assert!(!can_tetramino_fall(&g, &t));
    let mut g2 = Grid::new(10, 20);
    g2.set(9, 19, Cell::Locked(1));
    g2.set(5, 3, Cell::Locked(1));
    assert!(!can_tetramino_fall(&g2, &t));
}

#[test]
fn can_fall_own_cells_do_not_block() {
    let g = Grid::new(10, 20);
    let mut g2 = Grid::new(10, 20);
    let t = spawn_tetramino_i(&mut g2, 4, 19).expect("I fits");
    // the cells below the piece's upper cells are its own
    assert!(can_tetramino_fall(&g2, &t));
    let t2 = Tetramino { col: 4, row: 19, shape: Shape::I };
    assert!(can_tetramino_fall(&g, &t2));
}

#[test]
fn can_fall_blocked_by_locked_below() {
    let mut g = Grid::new(10, 20);
    let t = spawn_tetramino_o(&mut g, 0, 5).expect("O fits");
    assert!(can_tetramino_fall(&g, &t));
    g.set(1, 3, Cell::Locked(2));
    assert!(!can_tetramino_fall(&g, &t));
}

#[test]
fn can_move_left_wall_and_occupants() {
    let mut g = Grid::new(10, 20);
    let t0 = spawn_tetramino_o(&mut g, 0, 19).expect("O fits");
    assert!(!can_tetramino_left(&g, &t0));

    let mut g1 = Grid::new(10, 20);
    let t1 = spawn_tetramino_o(&mut g1, 1, 19).expect("O fits");
    assert!(can_tetramino_left(&g1, &t1));
    g1.set(0, 18, Cell::Locked(3));
    assert!(!can_tetramino_left(&g1, &t1));
}

#[test]
fn can_move_right_wall_and_occupants() {
    let mut g = Grid::new(10, 20);
    let t0 = spawn_tetramino_o(&mut g, 8, 19).expect("O fits");
    assert!(!can_tetramino_right(&g, &t0));

    let mut g1 = Grid::new(10, 20);
    let t1 = spawn_tetramino_o(&mut g1, 6, 19).expect("O fits");
    assert!(can_tetramino_right(&g1, &t1));
    g1.set(8, 19, Cell::Locked(3));
    assert!(!can_tetramino_right(&g1, &t1));
}

#[test]
fn apply_move_clears_old_cells_and_writes_new() {
    let mut g = Grid::new(10, 20);
    let mut t = spawn_tetramino_o(&mut g, 5, 19).expect("O fits");
    apply_move(&mut g, &mut t, 5, 18);
    assert_eq!((t.col, t.row), (5, 18));
    assert_eq!(g.get(5, 19), Cell::Empty);
    assert_eq!(g.get(6, 19), Cell::Empty);
    assert_eq!(g.get(5, 18), Cell::Active);
    assert_eq!(g.get(6, 18), Cell::Active);
    assert_eq!(g.get(5, 17), Cell::Active);
    assert_eq!(g.get(6, 17), Cell::Active);
    assert_eq!(count_occupied(&g), 4);
}

#[test]
fn lock_retags_cells_with_sprite() {
    let mut g = Grid::new(10, 20);
    let t = spawn_tetramino_o(&mut g, 5, 19).expect("O fits");
    lock_tetramino(&mut g, &t);
    assert_eq!(g.get(5, 19), Cell::Locked(7));
    assert_eq!(g.get(6, 19), Cell::Locked(7));
    assert_eq!(g.get(5, 18), Cell::Locked(7));
    assert_eq!(g.get(6, 18), Cell::Locked(7));
    assert_eq!(count_occupied(&g), 4);
}
