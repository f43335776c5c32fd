//! Spawning a tetramino into the grid.
//!
//! A spawn first validates that all four cells of the requested shape at
//! the requested anchor lie inside the grid. On success the cells are
//! marked `Active` and the piece is returned; on a bounds failure nothing
//! is written and no piece is created.

use vstd::prelude::*;

use crate::grid::{Cell, Grid};
use crate::movement::{lemma_in_grid_anchored, piece_in_grid};
use crate::shape::{lemma_offsets_bounds, Shape, Tetramino};

verus! {

/// `g2` is `g1` with the cells of `t` marked `Active` and nothing else
/// touched.
pub open spec fn spawned_into(g1: Grid, g2: Grid, t: Tetramino) -> bool {
    &&& g2.wf()
    &&& g2.width == g1.width
    &&& g2.height == g1.height
    &&& forall|c: int, r: int|
        g2.in_bounds(c, r) ==> g2.cell(c, r) == (if t.occupies(c, r) {
            Cell::Active
        } else {
            g1.cell(c, r)
        })
}

/// What a spawn request leaves behind: when the shape fits at the anchor,
/// the piece is registered and returned; when it does not, no piece is
/// created and the grid is untouched.
pub open spec fn spawn_outcome(
    g1: Grid,
    g2: Grid,
    spawned: Option<Tetramino>,
    shape: Shape,
    col: usize,
    row: usize,
) -> bool {
    let t = Tetramino { col, row, shape };
    if piece_in_grid(g1, t) {
        spawned == Some(t) && spawned_into(g1, g2, t)
    } else {
        spawned is None && g2 == g1
    }
}

/// A shape fits at an anchor exactly when its bounding box does: the box
/// stays left of the right wall, has its headroom below the top, and the
/// anchor row is inside the grid.
pub proof fn lemma_fits_box(g: Grid, t: Tetramino)
    requires
        g.wf(),
    ensures
        piece_in_grid(g, t) <==> (t.col + t.shape.spec_width() <= g.width
            && t.row + 1 >= t.shape.spec_height() && t.row < g.height),
{
    lemma_offsets_bounds(t.shape);
    match t.shape {
        Shape::L => {
            assert(t.cell_col(3) == t.col + 1);
            assert(t.cell_row(2) == t.row - 2);
            assert(t.cell_row(0) == t.row);
        },
        Shape::J => {
            assert(t.cell_col(3) == t.col + 1);
            assert(t.cell_row(2) == t.row - 2);
            assert(t.cell_row(0) == t.row);
        },
        Shape::I => {
            assert(t.cell_col(0) == t.col);
            assert(t.cell_row(3) == t.row - 3);
            assert(t.cell_row(0) == t.row);
        },
        Shape::O => {
            assert(t.cell_col(2) == t.col + 1);
            assert(t.cell_row(1) == t.row - 1);
            assert(t.cell_row(0) == t.row);
        },
        Shape::T => {
            assert(t.cell_col(2) == t.col + 2);
            assert(t.cell_row(3) == t.row - 1);
            assert(t.cell_row(0) == t.row);
        },
        Shape::Z => {
            assert(t.cell_col(3) == t.col + 2);
            assert(t.cell_row(2) == t.row - 1);
            assert(t.cell_row(0) == t.row);
        },
        Shape::S => {
            assert(t.cell_col(1) == t.col + 2);
            assert(t.cell_row(2) == t.row - 1);
            assert(t.cell_row(0) == t.row);
        },
    }
    if t.col + t.shape.spec_width() <= g.width && t.row + 1 >= t.shape.spec_height()
        && t.row < g.height {
        assert forall|i: int| 0 <= i < 4 implies g.in_bounds(t.cell_col(i), t.cell_row(i)) by {
            assert(0 <= t.shape.offsets()[i].0 <= 2 && -3 <= t.shape.offsets()[i].1 <= 0);
            assert(t.shape.offsets()[i].0 < t.shape.spec_width()) by {
                match t.shape {
                    Shape::L => {
                        if i == 0 {
                        } else if i == 1 {
                        } else if i == 2 {
                        } else {
                            assert(i == 3);
                        }
                    },
                    Shape::J => {
                        if i == 0 {
                        } else if i == 1 {
                        } else if i == 2 {
                        } else {
                            assert(i == 3);
                        }
                    },
                    Shape::I => {
                        if i == 0 {
                        } else if i == 1 {
                        } else if i == 2 {
                        } else {
                            assert(i == 3);
                        }
                    },
                    Shape::O => {
                        if i == 0 {
                        } else if i == 1 {
                        } else if i == 2 {
                        } else {
                            assert(i == 3);
                        }
                    },
                    Shape::T => {
                        if i == 0 {
                        } else if i == 1 {
                        } else if i == 2 {
                        } else {
                            assert(i == 3);
                        }
                    },
                    Shape::Z => {
                        if i == 0 {
                        } else if i == 1 {
                        } else if i == 2 {
                        } else {
                            assert(i == 3);
                        }
                    },
                    Shape::S => {
                        if i == 0 {
                        } else if i == 1 {
                        } else if i == 2 {
                        } else {
                            assert(i == 3);
                        }
                    },
                }
            }
            assert(t.shape.offsets()[i].1 > -t.shape.spec_height()) by {
                match t.shape {
                    Shape::L => {
                        if i == 0 {
                        } else if i == 1 {
                        } else if i == 2 {
                        } else {
                            assert(i == 3);
                        }
                    },
                    Shape::J => {
                        if i == 0 {
                        } else if i == 1 {
                        } else if i == 2 {
                        } else {
                            assert(i == 3);
                        }
                    },
                    Shape::I => {
                        if i == 0 {
                        } else if i == 1 {
                        } else if i == 2 {
                        } else {
                            assert(i == 3);
                        }
                    },
                    Shape::O => {
                        if i == 0 {
                        } else if i == 1 {
                        } else if i == 2 {
                        } else {
                            assert(i == 3);
                        }
                    },
                    Shape::T => {
                        if i == 0 {
                        } else if i == 1 {
                        } else if i == 2 {
                        } else {
                            assert(i == 3);
                        }
                    },
                    Shape::Z => {
                        if i == 0 {
                        } else if i == 1 {
                        } else if i == 2 {
                        } else {
                            assert(i == 3);
                        }
                    },
                    Shape::S => {
                        if i == 0 {
                        } else if i == 1 {
                        } else if i == 2 {
                        } else {
                            assert(i == 3);
                        }
                    },
                }
            }
        }
    }
}

/// Whether every cell of `shape` anchored at `(col, row)` lies inside
/// the grid.
pub fn tetramino_fits(g: &Grid, shape: Shape, col: usize, row: usize) -> (b: bool)
    requires
        g.wf(),
    ensures
        b == piece_in_grid(*g, Tetramino { col, row, shape }),
{
    proof {
        lemma_fits_box(*g, Tetramino { col, row, shape });
    }
    let sw = shape.width();
    let sh = shape.height();
    col < g.width && g.width - col >= sw as usize && row < g.height && row + 1 >= sh as usize
}

/// Register a fitting piece: mark its four cells `Active` and return it.
fn spawn_tetramino(g: &mut Grid, shape: Shape, col: usize, row: usize) -> (t: Tetramino)
    requires
        old(g).wf(),
        piece_in_grid(*old(g), Tetramino { col, row, shape }),
    ensures
        t == (Tetramino { col, row, shape }),
        spawned_into(*old(g), *final(g), t),
{
    let t = Tetramino { col, row, shape };
    proof {
        lemma_in_grid_anchored(*g, t);
    }
    let cs = t.cells();
    let mut i: usize = 0;
    while i < 4
        invariant
            g.wf(),
            g.width == old(g).width,
            g.height == old(g).height,
            piece_in_grid(*old(g), t),
            t == (Tetramino { col, row, shape }),
            i <= 4,
            forall|i0: int|
                0 <= i0 < 4 ==> cs@[i0].0 == t.cell_col(i0) && cs@[i0].1 == t.cell_row(i0),
            forall|c: int, r: int|
                g.in_bounds(c, r)
                    ==> g.cell(c, r) == (if (exists|j: int|
                        0 <= j < i && t.cell_col(j) == c && t.cell_row(j) == r) {
                        Cell::Active
                    } else {
                        old(g).cell(c, r)
                    }),
        decreases 4 - i,
    {
        let (c, r) = cs[i];
        proof {
            assert(old(g).in_bounds(t.cell_col(i as int), t.cell_row(i as int)));
        }
        g.set(c, r, Cell::Active);
        proof {
            assert forall|c0: int, r0: int| g.in_bounds(c0, r0) implies g.cell(c0, r0)
                == (if (exists|j: int|
                    0 <= j < i + 1 && t.cell_col(j) == c0 && t.cell_row(j) == r0) {
                    Cell::Active
                } else {
                    old(g).cell(c0, r0)
                }) by {
                if c0 == c && r0 == r {
                    assert(t.cell_col(i as int) == c0 && t.cell_row(i as int) == r0);
                }
            }
        }
        i = i + 1;
    }
    t
}

/// Spawn an L-shape anchored at `(col, row)`, if it fits.
pub fn spawn_tetramino_l(g: &mut Grid, col: usize, row: usize) -> (spawned: Option<Tetramino>)
    requires
        old(g).wf(),
    ensures
        spawn_outcome(*old(g), *final(g), spawned, Shape::L, col, row),
{
    if tetramino_fits(g, Shape::L, col, row) {
        Some(spawn_tetramino(g, Shape::L, col, row))
    } else {
        None
    }
}

/// Spawn a J-shape anchored at `(col, row)`, if it fits.
pub fn spawn_tetramino_j(g: &mut Grid, col: usize, row: usize) -> (spawned: Option<Tetramino>)
    requires
        old(g).wf(),
    ensures
        spawn_outcome(*old(g), *final(g), spawned, Shape::J, col, row),
{
    if tetramino_fits(g, Shape::J, col, row) {
        Some(spawn_tetramino(g, Shape::J, col, row))
    } else {
        None
    }
}

/// Spawn an I-shape anchored at `(col, row)`, if it fits.
pub fn spawn_tetramino_i(g: &mut Grid, col: usize, row: usize) -> (spawned: Option<Tetramino>)
    requires
        old(g).wf(),
    ensures
        spawn_outcome(*old(g), *final(g), spawned, Shape::I, col, row),
{
    if tetramino_fits(g, Shape::I, col, row) {
        Some(spawn_tetramino(g, Shape::I, col, row))
    } else {
        None
    }
}

/// Spawn an O-shape anchored at `(col, row)`, if it fits.
pub fn spawn_tetramino_o(g: &mut Grid, col: usize, row: usize) -> (spawned: Option<Tetramino>)
    requires
        old(g).wf(),
    ensures
        spawn_outcome(*old(g), *final(g), spawned, Shape::O, col, row),
{
    if tetramino_fits(g, Shape::O, col, row) {
        Some(spawn_tetramino(g, Shape::O, col, row))
    } else {
        None
    }
}

/// Spawn a T-shape anchored at `(col, row)`, if it fits.
pub fn spawn_tetramino_t(g: &mut Grid, col: usize, row: usize) -> (spawned: Option<Tetramino>)
    requires
        old(g).wf(),
    ensures
        spawn_outcome(*old(g), *final(g), spawned, Shape::T, col, row),
{
    if tetramino_fits(g, Shape::T, col, row) {
        Some(spawn_tetramino(g, Shape::T, col, row))
    } else {
        None
    }
}

/// Spawn a Z-shape anchored at `(col, row)`, if it fits.
pub fn spawn_tetramino_z(g: &mut Grid, col: usize, row: usize) -> (spawned: Option<Tetramino>)
    requires
        old(g).wf(),
    ensures
        spawn_outcome(*old(g), *final(g), spawned, Shape::Z, col, row),
{
    if tetramino_fits(g, Shape::Z, col, row) {
        Some(spawn_tetramino(g, Shape::Z, col, row))
    } else {
        None
    }
}

/// Spawn an S-shape anchored at `(col, row)`, if it fits.
pub fn spawn_tetramino_s(g: &mut Grid, col: usize, row: usize) -> (spawned: Option<Tetramino>)
    requires
        old(g).wf(),
    ensures
        spawn_outcome(*old(g), *final(g), spawned, Shape::S, col, row),
{
    if tetramino_fits(g, Shape::S, col, row) {
        Some(spawn_tetramino(g, Shape::S, col, row))
    } else {
        None
    }
}

} // verus!
