//! Collision predicates and committed moves for the falling tetramino.
//!
//! Each predicate checks the piece's four cells against the grid. A cell
//! of the piece never blocks the piece itself: the grid marks the falling
//! piece's cells `Active`, and only `Locked` blocks (or the floor and the
//! walls) stop a move.

use vstd::prelude::*;

use crate::grid::{Cell, Grid};
use crate::shape::Tetramino;

verus! {

/// Every cell of the piece lies inside the grid.
pub open spec fn piece_in_grid(g: Grid, t: Tetramino) -> bool {
    forall|i: int| 0 <= i < 4 ==> g.in_bounds(t.cell_col(i), t.cell_row(i))
}

/// The grid's `Active` cells are exactly the cells of the piece.
pub open spec fn active_matches(g: Grid, t: Tetramino) -> bool {
    forall|c: int, r: int|
        g.in_bounds(c, r) ==> ((g.cell(c, r) is Active) <==> t.occupies(c, r))
}

/// The grid holds no `Active` cell at all.
pub open spec fn no_active_cells(g: Grid) -> bool {
    forall|c: int, r: int| g.in_bounds(c, r) ==> !(g.cell(c, r) is Active)
}

/// `g2` is `g1` with the piece moved from `t1` to `t2`: the new cells are
/// `Active`, the vacated cells empty, everything else kept.
pub open spec fn moved_grid(g1: Grid, g2: Grid, t1: Tetramino, t2: Tetramino) -> bool {
    &&& g2.wf()
    &&& g2.width == g1.width
    &&& g2.height == g1.height
    &&& forall|c: int, r: int|
        g2.in_bounds(c, r) ==> g2.cell(c, r) == (if t2.occupies(c, r) {
            Cell::Active
        } else if t1.occupies(c, r) {
            Cell::Empty
        } else {
            g1.cell(c, r)
        })
}

/// `g2` is `g1` with the piece's four cells re-tagged as locked blocks
/// carrying its sprite index, everything else kept.
pub open spec fn locked_grid(g1: Grid, g2: Grid, t: Tetramino) -> bool {
    &&& g2.wf()
    &&& g2.width == g1.width
    &&& g2.height == g1.height
    &&& forall|c: int, r: int|
        g2.in_bounds(c, r) ==> g2.cell(c, r) == (if t.occupies(c, r) {
            Cell::Locked(t.shape.spec_sprite_index() as usize)
        } else {
            g1.cell(c, r)
        })
}

/// The piece can descend one row: no cell sits on the floor and no cell
/// has a locked block directly below it.
pub open spec fn spec_can_fall(g: Grid, t: Tetramino) -> bool {
    forall|i: int|
        0 <= i < 4
            ==> t.cell_row(i) >= 1 && !(g.cell(t.cell_col(i), t.cell_row(i) - 1) is Locked)
}

/// The piece can move one column left: no cell touches the left wall and
/// no cell has a locked block directly to its left.
pub open spec fn spec_can_left(g: Grid, t: Tetramino) -> bool {
    forall|i: int|
        0 <= i < 4
            ==> t.cell_col(i) >= 1 && !(g.cell(t.cell_col(i) - 1, t.cell_row(i)) is Locked)
}

/// The piece can move one column right: no cell touches the right wall
/// and no cell has a locked block directly to its right.
pub open spec fn spec_can_right(g: Grid, t: Tetramino) -> bool {
    forall|i: int|
        0 <= i < 4
            ==> t.cell_col(i) + 1 < g.width
                && !(g.cell(t.cell_col(i) + 1, t.cell_row(i)) is Locked)
}

/// A piece inside a well-formed grid has machine-representable cells.
pub proof fn lemma_in_grid_anchored(g: Grid, t: Tetramino)
    requires
        g.wf(),
        piece_in_grid(g, t),
    ensures
        t.anchored(),
{
    assert forall|i: int| 0 <= i < 4 implies 0 <= t.cell_col(i) <= usize::MAX
        && 0 <= t.cell_row(i) by {
        assert(g.in_bounds(t.cell_col(i), t.cell_row(i)));
    }
}

/// Law: a piece with a cell on the floor row cannot fall, whatever the
/// grid holds elsewhere.
pub proof fn lemma_floor_blocks_fall(g: Grid, t: Tetramino, i: int)
    requires
        0 <= i < 4,
        t.cell_row(i) == 0,
    ensures
        !spec_can_fall(g, t),
{
    assert(!(t.cell_row(i) >= 1));
}

/// Law: while the grid's `Active` cells are exactly the piece's cells, a
/// side move is possible exactly when no cell of the piece touches that
/// wall and each adjacent cell is empty or belongs to the piece itself;
/// it is blocked exactly by the wall or by a cell of another occupant.
pub proof fn lemma_side_move_blocking(g: Grid, t: Tetramino)
    requires
        g.wf(),
        piece_in_grid(g, t),
        active_matches(g, t),
    ensures
        spec_can_left(g, t) <==> (forall|i: int|
            0 <= i < 4 ==> (#[trigger] t.cell_col(i)) >= 1 && (!g.occupied(
                t.cell_col(i) - 1,
                t.cell_row(i),
            ) || t.occupies(t.cell_col(i) - 1, t.cell_row(i)))),
        spec_can_right(g, t) <==> (forall|i: int|
            0 <= i < 4 ==> (#[trigger] t.cell_col(i)) + 1 < g.width && (!g.occupied(
                t.cell_col(i) + 1,
                t.cell_row(i),
            ) || t.occupies(t.cell_col(i) + 1, t.cell_row(i)))),
{
    assert forall|i: int| 0 <= i < 4 && t.cell_col(i) >= 1 implies (!(g.cell(
        t.cell_col(i) - 1,
        t.cell_row(i),
    ) is Locked) <==> (!g.occupied(t.cell_col(i) - 1, t.cell_row(i)) || t.occupies(
        t.cell_col(i) - 1,
        t.cell_row(i),
    ))) by {
        assert(g.in_bounds(t.cell_col(i), t.cell_row(i)));
        assert(g.in_bounds(t.cell_col(i) - 1, t.cell_row(i)));
        assert(g.cell(t.cell_col(i) - 1, t.cell_row(i)) is Active <==> t.occupies(
            t.cell_col(i) - 1,
            t.cell_row(i),
        ));
    }
    assert forall|i: int| 0 <= i < 4 && t.cell_col(i) + 1 < g.width implies (!(g.cell(
        t.cell_col(i) + 1,
        t.cell_row(i),
    ) is Locked) <==> (!g.occupied(t.cell_col(i) + 1, t.cell_row(i)) || t.occupies(
        t.cell_col(i) + 1,
        t.cell_row(i),
    ))) by {
        assert(g.in_bounds(t.cell_col(i), t.cell_row(i)));
        assert(g.in_bounds(t.cell_col(i) + 1, t.cell_row(i)));
        assert(g.cell(t.cell_col(i) + 1, t.cell_row(i)) is Active <==> t.occupies(
            t.cell_col(i) + 1,
            t.cell_row(i),
        ));
    }
}

/// Whether the falling piece can descend one row.
pub fn can_tetramino_fall(g: &Grid, t: &Tetramino) -> (b: bool)
    requires
        g.wf(),
        piece_in_grid(*g, *t),
    ensures
        b == spec_can_fall(*g, *t),
{
    proof {
        lemma_in_grid_anchored(*g, *t);
    }
    let cs = t.cells();
    let mut i: usize = 0;
    while i < 4
        invariant
            g.wf(),
            piece_in_grid(*g, *t),
            i <= 4,
            forall|i0: int|
                0 <= i0 < 4 ==> cs@[i0].0 == t.cell_col(i0) && cs@[i0].1 == t.cell_row(i0),
            forall|j: int|
                0 <= j < i
                    ==> t.cell_row(j) >= 1
                        && !(g.cell(t.cell_col(j), t.cell_row(j) - 1) is Locked),
        decreases 4 - i,
    {
        let (c, r) = cs[i];
        if r < 1 {
            assert(!spec_can_fall(*g, *t)) by {
                assert(t.cell_row(i as int) < 1);
            }
            return false;
        }
        if matches!(g.get(c, r - 1), Cell::Locked(_)) {
            assert(!spec_can_fall(*g, *t)) by {
                assert(g.cell(t.cell_col(i as int), t.cell_row(i as int) - 1) is Locked);
            }
            return false;
        }
        i = i + 1;
    }
    true
}

/// Whether the falling piece can move one column left.
pub fn can_tetramino_left(g: &Grid, t: &Tetramino) -> (b: bool)
    requires
        g.wf(),
        piece_in_grid(*g, *t),
    ensures
        b == spec_can_left(*g, *t),
{
    proof {
        lemma_in_grid_anchored(*g, *t);
    }
    let cs = t.cells();
    let mut i: usize = 0;
    while i < 4
        invariant
            g.wf(),
            piece_in_grid(*g, *t),
            i <= 4,
            forall|i0: int|
                0 <= i0 < 4 ==> cs@[i0].0 == t.cell_col(i0) && cs@[i0].1 == t.cell_row(i0),
            forall|j: int|
                0 <= j < i
                    ==> t.cell_col(j) >= 1
                        && !(g.cell(t.cell_col(j) - 1, t.cell_row(j)) is Locked),
        decreases 4 - i,
    {
        let (c, r) = cs[i];
        if c < 1 {
            assert(!spec_can_left(*g, *t)) by {
                assert(t.cell_col(i as int) < 1);
            }
            return false;
        }
        if matches!(g.get(c - 1, r), Cell::Locked(_)) {
            assert(!spec_can_left(*g, *t)) by {
                assert(g.cell(t.cell_col(i as int) - 1, t.cell_row(i as int)) is Locked);
            }
            return false;
        }
        i = i + 1;
    }
    true
}

/// Whether the falling piece can move one column right.
pub fn can_tetramino_right(g: &Grid, t: &Tetramino) -> (b: bool)
    requires
        g.wf(),
        piece_in_grid(*g, *t),
    ensures
        b == spec_can_right(*g, *t),
{
    proof {
        lemma_in_grid_anchored(*g, *t);
    }
    let cs = t.cells();
    let mut i: usize = 0;
    while i < 4
        invariant
            g.wf(),
            piece_in_grid(*g, *t),
            i <= 4,
            forall|i0: int|
                0 <= i0 < 4 ==> cs@[i0].0 == t.cell_col(i0) && cs@[i0].1 == t.cell_row(i0),
            forall|j: int|
                0 <= j < i
                    ==> t.cell_col(j) + 1 < g.width
                        && !(g.cell(t.cell_col(j) + 1, t.cell_row(j)) is Locked),
        decreases 4 - i,
    {
        let (c, r) = cs[i];
        if c + 1 >= g.width {
            assert(!spec_can_right(*g, *t)) by {
                assert(!(t.cell_col(i as int) + 1 < g.width));
            }
            return false;
        }
        if matches!(g.get(c + 1, r), Cell::Locked(_)) {
            assert(!spec_can_right(*g, *t)) by {
                assert(g.cell(t.cell_col(i as int) + 1, t.cell_row(i as int)) is Locked);
            }
            return false;
        }
        i = i + 1;
    }
    true
}

/// Commit a move of the falling piece to a new anchor: clear its four old
/// cells, update the anchor, mark its four new cells `Active`.
pub fn apply_move(g: &mut Grid, t: &mut Tetramino, new_col: usize, new_row: usize)
    requires
        old(g).wf(),
        piece_in_grid(*old(g), *old(t)),
        piece_in_grid(
            *old(g),
            Tetramino { col: new_col, row: new_row, shape: old(t).shape },
        ),
    ensures
        *final(t) == (Tetramino { col: new_col, row: new_row, shape: old(t).shape }),
        moved_grid(*old(g), *final(g), *old(t), *final(t)),
{
    proof {
        lemma_in_grid_anchored(*g, *t);
    }
    let cs_old = t.cells();
    let mut i: usize = 0;
    while i < 4
        invariant
            g.wf(),
            g.width == old(g).width,
            g.height == old(g).height,
            t == old(t),
            piece_in_grid(*old(g), *old(t)),
            i <= 4,
            forall|i0: int|
                0 <= i0 < 4
                    ==> cs_old@[i0].0 == old(t).cell_col(i0)
                        && cs_old@[i0].1 == old(t).cell_row(i0),
            forall|c: int, r: int|
                g.in_bounds(c, r)
                    ==> g.cell(c, r) == (if (exists|j: int|
                        0 <= j < i && old(t).cell_col(j) == c && old(t).cell_row(j) == r) {
                        Cell::Empty
                    } else {
                        old(g).cell(c, r)
                    }),
        decreases 4 - i,
    {
        let (c, r) = cs_old[i];
        proof {
            assert(old(g).in_bounds(old(t).cell_col(i as int), old(t).cell_row(i as int)));
        }
        g.clear(c, r);
        proof {
            assert forall|c0: int, r0: int| g.in_bounds(c0, r0) implies g.cell(c0, r0)
                == (if (exists|j: int|
                    0 <= j < i + 1 && old(t).cell_col(j) == c0 && old(t).cell_row(j) == r0) {
                    Cell::Empty
                } else {
                    old(g).cell(c0, r0)
                }) by {
                if c0 == c && r0 == r {
                    assert(old(t).cell_col(i as int) == c0 && old(t).cell_row(i as int) == r0);
                }
            }
        }
        i = i + 1;
    }
    t.col = new_col;
    t.row = new_row;
    proof {
        lemma_in_grid_anchored(*old(g), *t);
        assert forall|c0: int, r0: int| g.in_bounds(c0, r0) implies g.cell(c0, r0)
            == (if old(t).occupies(c0, r0) {
                Cell::Empty
            } else {
                old(g).cell(c0, r0)
            }) by {}
    }
    let ghost g_mid = *g;
    let cs_new = t.cells();
    let mut k: usize = 0;
    while k < 4
        invariant
            g.wf(),
            g.width == old(g).width,
            g.height == old(g).height,
            t.col == new_col && t.row == new_row && t.shape == old(t).shape,
            piece_in_grid(*old(g), *t),
            g_mid.wf(),
            g_mid.width == old(g).width,
            g_mid.height == old(g).height,
            k <= 4,
            forall|i0: int|
                0 <= i0 < 4
                    ==> cs_new@[i0].0 == t.cell_col(i0) && cs_new@[i0].1 == t.cell_row(i0),
            forall|c: int, r: int|
                g.in_bounds(c, r)
                    ==> g.cell(c, r) == (if (exists|j: int|
                        0 <= j < k && t.cell_col(j) == c && t.cell_row(j) == r) {
                        Cell::Active
                    } else {
                        g_mid.cell(c, r)
                    }),
        decreases 4 - k,
    {
        let (c, r) = cs_new[k];
        proof {
            assert(old(g).in_bounds(t.cell_col(k as int), t.cell_row(k as int)));
        }
        g.set(c, r, Cell::Active);
        proof {
            assert forall|c0: int, r0: int| g.in_bounds(c0, r0) implies g.cell(c0, r0)
                == (if (exists|j: int|
                    0 <= j < k + 1 && t.cell_col(j) == c0 && t.cell_row(j) == r0) {
                    Cell::Active
                } else {
                    g_mid.cell(c0, r0)
                }) by {
                if c0 == c && r0 == r {
                    assert(t.cell_col(k as int) == c0 && t.cell_row(k as int) == r0);
                }
            }
        }
        k = k + 1;
    }
}

/// Convert the falling piece's four cells into independent locked blocks
/// carrying the piece's sprite index; every other cell is kept.
pub fn lock_tetramino(g: &mut Grid, t: &Tetramino)
    requires
        old(g).wf(),
        piece_in_grid(*old(g), *t),
    ensures
        locked_grid(*old(g), *final(g), *t),
{
    proof {
        lemma_in_grid_anchored(*g, *t);
    }
    let sprite = t.shape.sprite_index();
    let cs = t.cells();
    let mut i: usize = 0;
    while i < 4
        invariant
            g.wf(),
            g.width == old(g).width,
            g.height == old(g).height,
            piece_in_grid(*old(g), *t),
            sprite == t.shape.spec_sprite_index(),
            i <= 4,
            forall|i0: int|
                0 <= i0 < 4 ==> cs@[i0].0 == t.cell_col(i0) && cs@[i0].1 == t.cell_row(i0),
            forall|c: int, r: int|
                g.in_bounds(c, r)
                    ==> g.cell(c, r) == (if (exists|j: int|
                        0 <= j < i && t.cell_col(j) == c && t.cell_row(j) == r) {
                        Cell::Locked(t.shape.spec_sprite_index() as usize)
                    } else {
                        old(g).cell(c, r)
                    }),
        decreases 4 - i,
    {
        let (c, r) = cs[i];
        proof {
            assert(old(g).in_bounds(t.cell_col(i as int), t.cell_row(i as int)));
        }
        g.set(c, r, Cell::Locked(sprite));
        proof {
            assert forall|c0: int, r0: int| g.in_bounds(c0, r0) implies g.cell(c0, r0)
                == (if (exists|j: int|
                    0 <= j < i + 1 && t.cell_col(j) == c0 && t.cell_row(j) == r0) {
                    Cell::Locked(t.shape.spec_sprite_index() as usize)
                } else {
                    old(g).cell(c0, r0)
                }) by {
                if c0 == c && r0 == r {
                    assert(t.cell_col(i as int) == c0 && t.cell_row(i as int) == r0);
                }
            }
        }
        i = i + 1;
    }
}

} // verus!
