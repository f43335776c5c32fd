//! The playing field: a `width x height` matrix of cells, each empty,
//! part of the falling tetramino, or a locked block left behind by one.

use vstd::prelude::*;

use crate::rows::{
    count_full_rows, drop_full_rows, empty_row, empty_rows, lemma_count_full_rows_push,
    lemma_count_full_rows_remove, lemma_count_full_rows_zero, lemma_drop_full_rows_id,
    lemma_drop_full_rows_push, lemma_drop_full_rows_remove, lemma_empty_row_not_full,
    lemma_row_count_empty, lemma_row_count_full, lemma_rows_count_push, lemma_rows_count_remove,
    row_full, rows_count,
};

verus! {

/// One cell of the grid: empty, part of the single active (falling)
/// tetramino, or a locked block carrying its sprite index.
#[derive(Clone, Copy, Debug, PartialEq, Eq, Structural)]
pub enum Cell {
    Empty,
    Active,
    Locked(usize),
}

/// One locked unit block, independently addressable by its cell, as the
/// renderer consumes it.
#[derive(Clone, Copy, Debug, PartialEq, Eq, Structural)]
pub struct TetraminoPart {
    pub col: usize,
    pub row: usize,
}

/// The occupancy grid, indexed `grid[col][row]` with row 0 at the bottom.
pub struct Grid {
    pub width: usize,
    pub height: usize,
    pub grid: Vec<Vec<Cell>>,
}

impl Grid {
    /// Well-formed: positive dimensions and a fully allocated matrix.
    pub open spec fn wf(self) -> bool {
        &&& self.width >= 1
        &&& self.height >= 1
        &&& self.grid@.len() == self.width
        &&& forall|c: int| 0 <= c < self.width ==> self.grid@[c]@.len() == self.height
    }

    /// The cell at `(col, row)`.
    pub open spec fn cell(self, col: int, row: int) -> Cell {
        self.grid@[col]@[row]
    }

    /// Whether `(col, row)` lies inside the grid.
    pub open spec fn in_bounds(self, col: int, row: int) -> bool {
        0 <= col < self.width && 0 <= row < self.height
    }

    /// Whether the cell at `(col, row)` holds an occupant.
    pub open spec fn occupied(self, col: int, row: int) -> bool {
        self.cell(col, row) != Cell::Empty
    }

    /// A grid of the given dimensions with every cell empty.
    pub fn new(width: usize, height: usize) -> (g: Grid)
        requires
            width >= 1,
            height >= 1,
        ensures
            g.wf(),
            g.width == width,
            g.height == height,
            forall|c: int, r: int| g.in_bounds(c, r) ==> !g.occupied(c, r),
    {
        let mut cols: Vec<Vec<Cell>> = Vec::new();
        while cols.len() < width
            invariant
                cols.len() <= width,
                forall|c: int| 0 <= c < cols.len() ==> cols@[c]@.len() == height,
                forall|c: int, r: int|
                    0 <= c < cols.len() && 0 <= r < height ==> cols@[c]@[r] == Cell::Empty,
            decreases width - cols.len(),
        {
            let mut col: Vec<Cell> = Vec::new();
            while col.len() < height
                invariant
                    col.len() <= height,
                    forall|r: int| 0 <= r < col.len() ==> col@[r] == Cell::Empty,
                decreases height - col.len(),
            {
                col.push(Cell::Empty);
            }
            cols.push(col);
        }
        Grid { width, height, grid: cols }
    }

    /// Read the cell at `(col, row)`.
    pub fn get(&self, col: usize, row: usize) -> (c: Cell)
        requires
            self.wf(),
            self.in_bounds(col as int, row as int),
        ensures
            c == self.cell(col as int, row as int),
    {
        self.grid[col][row]
    }

    /// Whether the cell at `(col, row)` holds an occupant.
    pub fn is_occupied(&self, col: usize, row: usize) -> (b: bool)
        requires
            self.wf(),
            self.in_bounds(col as int, row as int),
        ensures
            b == self.occupied(col as int, row as int),
    {
        !matches!(self.grid[col][row], Cell::Empty)
    }

    /// Write `value` into the cell at `(col, row)`; every other cell is kept.
    pub fn set(&mut self, col: usize, row: usize, value: Cell)
        requires
            old(self).wf(),
            old(self).in_bounds(col as int, row as int),
        ensures
            final(self).wf(),
            final(self).width == old(self).width,
            final(self).height == old(self).height,
            final(self).cell(col as int, row as int) == value,
            forall|c: int, r: int|
                final(self).in_bounds(c, r) && !(c == col && r == row)
                    ==> final(self).cell(c, r) == old(self).cell(c, r),
    {
        self.grid[col].set(row, value);
    }

    /// The grid as a sequence of rows, bottom row first.
    pub open spec fn rows_view(self) -> Seq<Seq<Cell>> {
        Seq::new(
            self.height as nat,
            |r: int| Seq::new(self.width as nat, |c: int| self.cell(c, r)),
        )
    }

    /// Every one of the `width` cells in `row` is occupied.
    pub open spec fn spec_row_complete(self, row: int) -> bool {
        forall|c: int| 0 <= c < self.width ==> self.occupied(c, row)
    }

    /// The cell at `(c, r)` once row `row` is removed and every row above
    /// it has moved one row down, with an empty top row.
    pub open spec fn shifted_cell(self, row: int, c: int, r: int) -> Cell {
        if r < row {
            self.cell(c, r)
        } else if r + 1 < self.height {
            self.cell(c, r + 1)
        } else {
            Cell::Empty
        }
    }

    /// Whether every cell of `row` is occupied.
    pub fn row_is_complete(&self, row: usize) -> (b: bool)
        requires
            self.wf(),
            row < self.height,
        ensures
            b == self.spec_row_complete(row as int),
    {
        let mut col: usize = 0;
        while col < self.width
            invariant
                self.wf(),
                row < self.height,
                col <= self.width,
                forall|c: int| 0 <= c < col ==> self.occupied(c, row as int),
            decreases self.width - col,
        {
            if !self.is_occupied(col, row) {
                assert(!self.spec_row_complete(row as int)) by {
                    assert(!self.occupied(col as int, row as int));
                }
                return false;
            }
            col = col + 1;
        }
        true
    }

    /// The lowest complete row, if any row is complete.
    pub fn first_complete_row(&self) -> (found: Option<usize>)
        requires
            self.wf(),
        ensures
            match found {
                Some(r) => r < self.height && self.spec_row_complete(r as int)
                    && forall|r0: int| 0 <= r0 < r ==> !self.spec_row_complete(r0),
                None => forall|r0: int|
                    0 <= r0 < self.height ==> !self.spec_row_complete(r0),
            },
    {
        let mut row: usize = 0;
        while row < self.height
            invariant
                self.wf(),
                row <= self.height,
                forall|r0: int| 0 <= r0 < row ==> !self.spec_row_complete(r0),
            decreases self.height - row,
        {
            if self.row_is_complete(row) {
                return Some(row);
            }
            row = row + 1;
        }
        None
    }

    /// Remove all occupants of `row`; every row above it moves one row
    /// down and the top row becomes empty. Rows below `row` are kept.
    pub fn clear_row_and_shift(&mut self, row: usize)
        requires
            old(self).wf(),
            row < old(self).height,
        ensures
            final(self).wf(),
            final(self).width == old(self).width,
            final(self).height == old(self).height,
            final(self).rows_view() == old(self).rows_view().remove(row as int).push(
                empty_row(old(self).width as nat),
            ),
    {
        let w = self.width;
        let h = self.height;
        let mut col: usize = 0;
        while col < w
            invariant
                self.wf(),
                self.width == w,
                self.height == h,
                w == old(self).width,
                h == old(self).height,
                row < h,
                col <= w,
                forall|c: int, r: int|
                    0 <= c < col && 0 <= r < h
                        ==> self.cell(c, r) == old(self).shifted_cell(row as int, c, r),
                forall|c: int, r: int|
                    col <= c < w && 0 <= r < h ==> self.cell(c, r) == old(self).cell(c, r),
            decreases w - col,
        {
            let mut r: usize = row;
            while r + 1 < h
                invariant
                    self.wf(),
                    self.width == w,
                    self.height == h,
                    w == old(self).width,
                    h == old(self).height,
                    row < h,
                    col < w,
                    row <= r < h,
                    forall|c0: int, r0: int|
                        0 <= c0 < col && 0 <= r0 < h
                            ==> self.cell(c0, r0) == old(self).shifted_cell(row as int, c0, r0),
                    forall|c0: int, r0: int|
                        col < c0 < w && 0 <= r0 < h
                            ==> self.cell(c0, r0) == old(self).cell(c0, r0),
                    forall|r0: int|
                        0 <= r0 < row ==> self.cell(col as int, r0) == old(self).cell(col as int, r0),
                    forall|r0: int|
                        row <= r0 < r
                            ==> self.cell(col as int, r0) == old(self).cell(col as int, r0 + 1),
                    forall|r0: int|
                        r <= r0 < h ==> self.cell(col as int, r0) == old(self).cell(col as int, r0),
                decreases h - r,
            {
                let v = self.get(col, r + 1);
                self.set(col, r, v);
                r = r + 1;
            }
            self.set(col, h - 1, Cell::Empty);
            col = col + 1;
        }
        proof {
            let rv_new = self.rows_view();
            let rv_old = old(self).rows_view();
            let target = rv_old.remove(row as int).push(empty_row(w as nat));
            assert forall|r: int| 0 <= r < h implies rv_new[r] == target[r] by {
                if r < row {
                    assert(rv_new[r] =~= target[r]);
                } else if r + 1 < h {
                    assert(target[r] == rv_old[r + 1]);
                    assert(rv_new[r] =~= target[r]);
                } else {
                    assert(target[r] == empty_row(w as nat));
                    assert(rv_new[r] =~= target[r]);
                }
            }
            assert(rv_new =~= target);
        }
    }

    /// Clear every complete row: scan for the lowest complete row, clear
    /// it and shift the rows above down, and rescan until none is left.
    /// Incomplete rows survive in their relative order; as many empty
    /// rows as were cleared top the grid up.
    pub fn resolve_completed_rows(&mut self)
        requires
            old(self).wf(),
        ensures
            final(self).wf(),
            final(self).width == old(self).width,
            final(self).height == old(self).height,
            forall|r: int|
                0 <= r < final(self).height ==> !final(self).spec_row_complete(r),
            final(self).rows_view() == drop_full_rows(old(self).rows_view()) + empty_rows(
                old(self).width as nat,
                count_full_rows(old(self).rows_view()),
            ),
    {
        let w = self.width;
        let ghost orig = *self;
        let ghost mut k: nat = 0nat;
        let mut has_completed_rows = true;
        while has_completed_rows
            invariant
                self.wf(),
                self.width == orig.width,
                self.height == orig.height,
                w == orig.width,
                drop_full_rows(self.rows_view()) == drop_full_rows(orig.rows_view())
                    + empty_rows(w as nat, k),
                count_full_rows(self.rows_view()) + k == count_full_rows(orig.rows_view()),
                !has_completed_rows
                    ==> forall|r: int| 0 <= r < self.height ==> !self.spec_row_complete(r),
            decreases count_full_rows(self.rows_view()), (if has_completed_rows {
                1int
            } else {
                0int
            }),
        {
            match self.first_complete_row() {
                Some(row) => {
                    let ghost pre = *self;
                    proof {
                        lemma_row_complete_full(pre, row as int);
                    }
                    self.clear_row_and_shift(row);
                    proof {
                        let rv_pre = pre.rows_view();
                        lemma_empty_row_not_full(w as nat);
                        lemma_drop_full_rows_push(
                            rv_pre.remove(row as int),
                            empty_row(w as nat),
                        );
                        lemma_drop_full_rows_remove(rv_pre, row as int);
                        lemma_count_full_rows_push(
                            rv_pre.remove(row as int),
                            empty_row(w as nat),
                        );
                        lemma_count_full_rows_remove(rv_pre, row as int);
                        assert((drop_full_rows(orig.rows_view()) + empty_rows(w as nat, k)).push(
                            empty_row(w as nat),
                        ) =~= drop_full_rows(orig.rows_view()) + empty_rows(w as nat, k + 1));
                        k = k + 1;
                    }
                },
                None => {
                    has_completed_rows = false;
                },
            }
        }
        proof {
            assert forall|r: int|
                0 <= r < self.rows_view().len() implies !row_full(self.rows_view()[r]) by {
                lemma_row_complete_full(*self, r);
            }
            lemma_drop_full_rows_id(self.rows_view());
            lemma_count_full_rows_zero(self.rows_view());
        }
    }

    /// The locked block at `(col, row)` and its sprite index, if the
    /// cell holds one.
    pub fn locked_part_at(&self, col: usize, row: usize) -> (p: Option<(TetraminoPart, usize)>)
        requires
            self.wf(),
            self.in_bounds(col as int, row as int),
        ensures
            match p {
                Some(pair) => self.cell(col as int, row as int) == Cell::Locked(pair.1)
                    && pair.0 == (TetraminoPart { col, row }),
                None => !(self.cell(col as int, row as int) is Locked),
            },
    {
        match self.get(col, row) {
            Cell::Locked(s) => Some((TetraminoPart { col, row }, s)),
            _ => None,
        }
    }

    /// Empty the cell at `(col, row)`; every other cell is kept.
    pub fn clear(&mut self, col: usize, row: usize)
        requires
            old(self).wf(),
            old(self).in_bounds(col as int, row as int),
        ensures
            final(self).wf(),
            final(self).width == old(self).width,
            final(self).height == old(self).height,
            !final(self).occupied(col as int, row as int),
            forall|c: int, r: int|
                final(self).in_bounds(c, r) && !(c == col && r == row)
                    ==> final(self).cell(c, r) == old(self).cell(c, r),
    {
        self.set(col, row, Cell::Empty);
    }
}

impl Default for Grid {
    /// The standard playing field: 10 columns by 20 rows, all empty.
    fn default() -> (g: Grid)
        ensures
            g.wf(),
            g.width == 10,
            g.height == 20,
            forall|c: int, r: int| g.in_bounds(c, r) ==> !g.occupied(c, r),
    {
        Grid::new(10, 20)
    }
}

/// A row of the grid is complete exactly when its row in the row view
/// is full.
pub proof fn lemma_row_complete_full(g: Grid, row: int)
    requires
        g.wf(),
        0 <= row < g.height,
    ensures
        g.spec_row_complete(row) <==> row_full(g.rows_view()[row]),
{
    if g.spec_row_complete(row) {
        assert forall|i: int|
            0 <= i < g.rows_view()[row].len() implies g.rows_view()[row][i] != Cell::Empty by {
            assert(g.occupied(i, row));
        }
    }
    if row_full(g.rows_view()[row]) {
        assert forall|c: int| 0 <= c < g.width implies g.occupied(c, row) by {
            assert(g.rows_view()[row][c] != Cell::Empty);
        }
    }
}

/// Law: `clear_row_and_shift` on a grid whose single complete row is `r`
/// and whose other rows are all empty leaves row `r` holding what was row
/// `r + 1` (empty when nothing was above), and lowers the occupied-cell
/// count by exactly the grid's width.
pub proof fn lemma_clear_single_complete_row(g1: Grid, g2: Grid, r: usize)
    requires
        g1.wf(),
        r < g1.height,
        g1.spec_row_complete(r as int),
        forall|c: int, r0: int|
            0 <= c < g1.width && 0 <= r0 < g1.height && r0 != r ==> !g1.occupied(c, r0),
        g2.width == g1.width,
        g2.height == g1.height,
        g2.rows_view() == g1.rows_view().remove(r as int).push(empty_row(g1.width as nat)),
    ensures
        g2.rows_view()[r as int] == (if r + 1 < g1.height {
            g1.rows_view()[r as int + 1]
        } else {
            empty_row(g1.width as nat)
        }),
        rows_count(g2.rows_view()) + g1.width == rows_count(g1.rows_view()),
{
    let rv1 = g1.rows_view();
    let w = g1.width as nat;
    lemma_row_complete_full(g1, r as int);
    lemma_row_count_full(rv1[r as int]);
    lemma_rows_count_remove(rv1, r as int);
    lemma_rows_count_push(rv1.remove(r as int), empty_row(w));
    lemma_row_count_empty(empty_row(w));
    if r + 1 < g1.height {
        assert(g2.rows_view()[r as int] == rv1.remove(r as int)[r as int]);
        assert(rv1.remove(r as int)[r as int] == rv1[r as int + 1]);
    } else {
        assert(r as int == g1.height - 1);
        assert(g2.rows_view()[r as int] == empty_row(w));
    }
}

/// Law: one clear-resolution pass over a grid with exactly two complete
/// rows, not adjacent, removes exactly twice the grid's width in occupied
/// cells and keeps every other row in its relative order, with two empty
/// rows topping the grid up.
pub proof fn lemma_clear_two_complete_rows(g1: Grid, g2: Grid, r1: usize, r2: usize)
    requires
        g1.wf(),
        r1 + 1 < r2,
        r2 < g1.height,
        g1.spec_row_complete(r1 as int),
        g1.spec_row_complete(r2 as int),
        forall|r0: int|
            0 <= r0 < g1.height && r0 != r1 && r0 != r2 ==> !g1.spec_row_complete(r0),
        g2.width == g1.width,
        g2.height == g1.height,
        g2.rows_view() == drop_full_rows(g1.rows_view()) + empty_rows(
            g1.width as nat,
            count_full_rows(g1.rows_view()),
        ),
    ensures
        g2.rows_view() == g1.rows_view().remove(r2 as int).remove(r1 as int) + empty_rows(
            g1.width as nat,
            2,
        ),
        rows_count(g2.rows_view()) + 2 * g1.width == rows_count(g1.rows_view()),
{
    let rv1 = g1.rows_view();
    let w = g1.width as nat;
    lemma_row_complete_full(g1, r1 as int);
    lemma_row_complete_full(g1, r2 as int);
    assert forall|j: int| 0 <= j < rv1.len() && j != r1 && j != r2 implies !row_full(
        rv1[j],
    ) by {
        lemma_row_complete_full(g1, j);
    }
    lemma_drop_full_rows_remove(rv1, r2 as int);
    let rv_a = rv1.remove(r2 as int);
    assert(rv_a[r1 as int] == rv1[r1 as int]);
    assert forall|j: int| 0 <= j < rv_a.len() && j != r1 implies !row_full(rv_a[j]) by {
        if j < r2 {
            assert(rv_a[j] == rv1[j]);
        } else {
            assert(rv_a[j] == rv1[j + 1]);
        }
    }
    lemma_drop_full_rows_remove(rv_a, r1 as int);
    let rv_b = rv_a.remove(r1 as int);
    assert forall|j: int| 0 <= j < rv_b.len() implies !row_full(rv_b[j]) by {
        if j < r1 {
            assert(rv_b[j] == rv_a[j]);
        } else {
            assert(rv_b[j] == rv_a[j + 1]);
        }
    }
    lemma_drop_full_rows_id(rv_b);
    lemma_count_full_rows_remove(rv1, r2 as int);
    lemma_count_full_rows_remove(rv_a, r1 as int);
    lemma_count_full_rows_zero(rv_b);
    assert(count_full_rows(rv1) == 2);
    assert(g2.rows_view() == rv_b + empty_rows(w, 2));
    lemma_rows_count_remove(rv1, r2 as int);
    lemma_rows_count_remove(rv_a, r1 as int);
    lemma_row_count_full(rv1[r1 as int]);
    lemma_row_count_full(rv1[r2 as int]);
    assert(rv_b + empty_rows(w, 2) =~= rv_b.push(empty_row(w)).push(empty_row(w)));
    lemma_rows_count_push(rv_b, empty_row(w));
    lemma_rows_count_push(rv_b.push(empty_row(w)), empty_row(w));
    lemma_row_count_empty(empty_row(w));
}

} // verus!
