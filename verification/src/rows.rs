//! Row-level model of the grid and the facts behind row clearing.
//!
//! A grid is viewed as a sequence of rows, bottom first; each row is a
//! sequence of cells across the columns. Clearing completed rows keeps
//! the incomplete rows in order and tops the grid up with empty rows.

use vstd::prelude::*;

use crate::grid::Cell;

verus! {

/// A row is full (complete) when every one of its cells is occupied.
pub open spec fn row_full(row: Seq<Cell>) -> bool {
    forall|i: int| 0 <= i < row.len() ==> row[i] != Cell::Empty
}

/// A row of `w` empty cells.
pub open spec fn empty_row(w: nat) -> Seq<Cell> {
    Seq::new(w, |i: int| Cell::Empty)
}

/// The rows that survive a clear-resolution pass: the full rows removed,
/// the rest kept in order.
pub open spec fn drop_full_rows(rows: Seq<Seq<Cell>>) -> Seq<Seq<Cell>>
    decreases rows.len(),
{
    if rows.len() == 0 {
        Seq::empty()
    } else if row_full(rows.last()) {
        drop_full_rows(rows.drop_last())
    } else {
        drop_full_rows(rows.drop_last()).push(rows.last())
    }
}

/// How many cells of the row are occupied.
pub open spec fn row_count(row: Seq<Cell>) -> nat
    decreases row.len(),
{
    if row.len() == 0 {
        0
    } else {
        row_count(row.drop_last()) + (if row.last() != Cell::Empty {
            1nat
        } else {
            0nat
        })
    }
}

/// How many cells of the whole grid are occupied.
pub open spec fn rows_count(rows: Seq<Seq<Cell>>) -> nat
    decreases rows.len(),
{
    if rows.len() == 0 {
        0
    } else {
        rows_count(rows.drop_last()) + row_count(rows.last())
    }
}

/// How many rows of the grid are full.
pub open spec fn count_full_rows(rows: Seq<Seq<Cell>>) -> nat
    decreases rows.len(),
{
    if rows.len() == 0 {
        0
    } else {
        count_full_rows(rows.drop_last()) + (if row_full(rows.last()) {
            1nat
        } else {
            0nat
        })
    }
}

/// `k` empty rows of width `w`.
pub open spec fn empty_rows(w: nat, k: nat) -> Seq<Seq<Cell>> {
    Seq::new(k, |i: int| empty_row(w))
}

/// An empty row of positive width is not full.
pub proof fn lemma_empty_row_not_full(w: nat)
    requires
        w >= 1,
    ensures
        !row_full(empty_row(w)),
{
    assert(empty_row(w)[0] == Cell::Empty);
}

/// A full row is fully occupied: its count is its length.
pub proof fn lemma_row_count_full(row: Seq<Cell>)
    requires
        row_full(row),
    ensures
        row_count(row) == row.len(),
    decreases row.len(),
{
    if row.len() > 0 {
        assert(row_full(row.drop_last()));
        lemma_row_count_full(row.drop_last());
    }
}

/// A row of empty cells counts no occupant.
pub proof fn lemma_row_count_empty(row: Seq<Cell>)
    requires
        forall|i: int| 0 <= i < row.len() ==> row[i] == Cell::Empty,
    ensures
        row_count(row) == 0,
    decreases row.len(),
{
    if row.len() > 0 {
        lemma_row_count_empty(row.drop_last());
    }
}

/// Appending a row adds its occupant count.
pub proof fn lemma_rows_count_push(rows: Seq<Seq<Cell>>, x: Seq<Cell>)
    ensures
        rows_count(rows.push(x)) == rows_count(rows) + row_count(x),
{
    assert(rows.push(x).drop_last() =~= rows);
}

/// Removing a row subtracts its occupant count.
pub proof fn lemma_rows_count_remove(rows: Seq<Seq<Cell>>, i: int)
    requires
        0 <= i < rows.len(),
    ensures
        rows_count(rows.remove(i)) + row_count(rows[i]) == rows_count(rows),
    decreases rows.len(),
{
    if i == rows.len() - 1 {
        assert(rows.remove(i) =~= rows.drop_last());
    } else {
        let rr = rows.remove(i);
        assert(rr.drop_last() =~= rows.drop_last().remove(i));
        assert(rr.last() == rows.last());
        lemma_rows_count_remove(rows.drop_last(), i);
    }
}

/// Appending a row leaves the full-row tally unchanged unless it is full.
pub proof fn lemma_count_full_rows_push(rows: Seq<Seq<Cell>>, x: Seq<Cell>)
    ensures
        count_full_rows(rows.push(x)) == count_full_rows(rows) + (if row_full(x) {
            1nat
        } else {
            0nat
        }),
{
    assert(rows.push(x).drop_last() =~= rows);
}

/// Removing a full row lowers the full-row tally by one.
pub proof fn lemma_count_full_rows_remove(rows: Seq<Seq<Cell>>, i: int)
    requires
        0 <= i < rows.len(),
        row_full(rows[i]),
    ensures
        count_full_rows(rows.remove(i)) + 1 == count_full_rows(rows),
    decreases rows.len(),
{
    if i == rows.len() - 1 {
        assert(rows.remove(i) =~= rows.drop_last());
    } else {
        let rr = rows.remove(i);
        assert(rr.drop_last() =~= rows.drop_last().remove(i));
        assert(rr.last() == rows.last());
        assert(rows.drop_last()[i] == rows[i]);
        lemma_count_full_rows_remove(rows.drop_last(), i);
    }
}

/// Appending a row keeps the survivors, with the row itself kept only
/// when it is not full.
pub proof fn lemma_drop_full_rows_push(rows: Seq<Seq<Cell>>, x: Seq<Cell>)
    ensures
        row_full(x) ==> drop_full_rows(rows.push(x)) == drop_full_rows(rows),
        !row_full(x) ==> drop_full_rows(rows.push(x)) == drop_full_rows(rows).push(x),
{
    assert(rows.push(x).drop_last() =~= rows);
}

/// Removing a full row does not change the survivors.
pub proof fn lemma_drop_full_rows_remove(rows: Seq<Seq<Cell>>, i: int)
    requires
        0 <= i < rows.len(),
        row_full(rows[i]),
    ensures
        drop_full_rows(rows.remove(i)) == drop_full_rows(rows),
    decreases rows.len(),
{
    if i == rows.len() - 1 {
        assert(rows.remove(i) =~= rows.drop_last());
    } else {
        let rr = rows.remove(i);
        assert(rr.drop_last() =~= rows.drop_last().remove(i));
        assert(rr.last() == rows.last());
        assert(rows.drop_last()[i] == rows[i]);
        lemma_drop_full_rows_remove(rows.drop_last(), i);
    }
}

/// Every surviving row was a row of the grid before the pass.
pub proof fn lemma_drop_full_rows_element(rows: Seq<Seq<Cell>>, j: int)
    requires
        0 <= j < drop_full_rows(rows).len(),
    ensures
        exists|i: int| 0 <= i < rows.len() && drop_full_rows(rows)[j] == rows[i],
    decreases rows.len(),
{
    if rows.len() > 0 {
        if row_full(rows.last()) {
            lemma_drop_full_rows_element(rows.drop_last(), j);
            let i = choose|i: int|
                0 <= i < rows.drop_last().len() && drop_full_rows(rows.drop_last())[j]
                    == rows.drop_last()[i];
            assert(drop_full_rows(rows)[j] == rows[i]);
        } else {
            if j < drop_full_rows(rows).len() - 1 {
                lemma_drop_full_rows_element(rows.drop_last(), j);
                let i = choose|i: int|
                    0 <= i < rows.drop_last().len() && drop_full_rows(rows.drop_last())[j]
                        == rows.drop_last()[i];
                assert(drop_full_rows(rows)[j] == rows[i]);
            } else {
                assert(drop_full_rows(rows)[j] == rows[rows.len() - 1]);
            }
        }
    }
}

/// When no row is full, the full-row tally is zero.
pub proof fn lemma_count_full_rows_zero(rows: Seq<Seq<Cell>>)
    requires
        forall|j: int| 0 <= j < rows.len() ==> !row_full(rows[j]),
    ensures
        count_full_rows(rows) == 0,
    decreases rows.len(),
{
    if rows.len() > 0 {
        assert(forall|j: int|
            0 <= j < rows.drop_last().len() ==> rows.drop_last()[j] == rows[j]);
        lemma_count_full_rows_zero(rows.drop_last());
    }
}

/// Dropping the full rows shortens the grid by exactly their number.
pub proof fn lemma_drop_full_rows_len(rows: Seq<Seq<Cell>>)
    ensures
        drop_full_rows(rows).len() + count_full_rows(rows) == rows.len(),
    decreases rows.len(),
{
    if rows.len() > 0 {
        lemma_drop_full_rows_len(rows.drop_last());
    }
}

/// When no row is full, every row survives.
pub proof fn lemma_drop_full_rows_id(rows: Seq<Seq<Cell>>)
    requires
        forall|j: int| 0 <= j < rows.len() ==> !row_full(rows[j]),
    ensures
        drop_full_rows(rows) == rows,
    decreases rows.len(),
{
    if rows.len() > 0 {
        assert(forall|j: int|
            0 <= j < rows.drop_last().len() ==> rows.drop_last()[j] == rows[j]);
        lemma_drop_full_rows_id(rows.drop_last());
        assert(drop_full_rows(rows) =~= rows);
    }
}

} // verus!
