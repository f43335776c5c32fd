//! The seven tetramino shapes and the falling piece built from one.
//!
//! Each shape is four relative `(col, row)` offsets from an anchor cell,
//! together with a bounding box and a sprite index. Offsets never reach
//! left of or above the anchor: columns grow rightward (`0..=2`) and rows
//! grow downward (`0..=-3`), so the anchor is the top-left reference.

use vstd::prelude::*;

verus! {

/// The seven tetramino variants.
#[derive(Clone, Copy, Debug, PartialEq, Eq, Structural)]
pub enum Shape {
    I,
    O,
    T,
    S,
    Z,
    J,
    L,
}

impl Shape {
    /// The four cell offsets of the shape, relative to its anchor.
    pub open spec fn offsets(self) -> Seq<(int, int)> {
        match self {
            Shape::L => seq![(0int, 0int), (0int, -1int), (0int, -2int), (1int, -2int)],
            Shape::J => seq![(0int, 0int), (0int, -1int), (0int, -2int), (1int, 0int)],
            Shape::I => seq![(0int, 0int), (0int, -1int), (0int, -2int), (0int, -3int)],
            Shape::O => seq![(0int, 0int), (0int, -1int), (1int, 0int), (1int, -1int)],
            Shape::T => seq![(0int, 0int), (1int, 0int), (2int, 0int), (1int, -1int)],
            Shape::Z => seq![(0int, 0int), (1int, 0int), (1int, -1int), (2int, -1int)],
            Shape::S => seq![(1int, 0int), (2int, 0int), (0int, -1int), (1int, -1int)],
        }
    }

    /// Width of the shape's bounding box, in cells.
    pub open spec fn spec_width(self) -> int {
        match self {
            Shape::L => 2,
            Shape::J => 2,
            Shape::I => 1,
            Shape::O => 2,
            Shape::T => 3,
            Shape::Z => 3,
            Shape::S => 3,
        }
    }

    /// Height of the shape's bounding box, in cells.
    pub open spec fn spec_height(self) -> int {
        match self {
            Shape::L => 3,
            Shape::J => 3,
            Shape::I => 4,
            Shape::O => 2,
            Shape::T => 2,
            Shape::Z => 2,
            Shape::S => 2,
        }
    }

    /// Sprite sheet index used for every cell of the shape.
    pub open spec fn spec_sprite_index(self) -> int {
        match self {
            Shape::L => 3,
            Shape::J => 1,
            Shape::I => 6,
            Shape::O => 7,
            Shape::T => 4,
            Shape::Z => 5,
            Shape::S => 2,
        }
    }

    /// The offsets as signed pairs, matching `offsets`.
    pub fn delta_coords(self) -> (d: [(i32, i32); 4])
        ensures
            forall|i: int|
                0 <= i < 4 ==> d@[i].0 == self.offsets()[i].0 && d@[i].1 == self.offsets()[i].1,
    {
        match self {
            Shape::L => [(0, 0), (0, -1), (0, -2), (1, -2)],
            Shape::J => [(0, 0), (0, -1), (0, -2), (1, 0)],
            Shape::I => [(0, 0), (0, -1), (0, -2), (0, -3)],
            Shape::O => [(0, 0), (0, -1), (1, 0), (1, -1)],
            Shape::T => [(0, 0), (1, 0), (2, 0), (1, -1)],
            Shape::Z => [(0, 0), (1, 0), (1, -1), (2, -1)],
            Shape::S => [(1, 0), (2, 0), (0, -1), (1, -1)],
        }
    }

    /// Width of the shape's bounding box.
    pub fn width(self) -> (w: i32)
        ensures
            w == self.spec_width(),
    {
        match self {
            Shape::L => 2,
            Shape::J => 2,
            Shape::I => 1,
            Shape::O => 2,
            Shape::T => 3,
            Shape::Z => 3,
            Shape::S => 3,
        }
    }

    /// Height of the shape's bounding box.
    pub fn height(self) -> (h: i32)
        ensures
            h == self.spec_height(),
    {
        match self {
            Shape::L => 3,
            Shape::J => 3,
            Shape::I => 4,
            Shape::O => 2,
            Shape::T => 2,
            Shape::Z => 2,
            Shape::S => 2,
        }
    }

    /// Sprite sheet index used for every cell of the shape.
    pub fn sprite_index(self) -> (s: usize)
        ensures
            s == self.spec_sprite_index(),
    {
        match self {
            Shape::L => 3,
            Shape::J => 1,
            Shape::I => 6,
            Shape::O => 7,
            Shape::T => 4,
            Shape::Z => 5,
            Shape::S => 2,
        }
    }
}

/// Bounds shared by every shape: four offsets, columns `0..=2` rightward,
/// rows `0..=3` downward, the anchor cell itself on the anchor row, and
/// some cell in the anchor column.
pub proof fn lemma_offsets_bounds(s: Shape)
    ensures
        s.offsets().len() == 4,
        forall|i: int| 0 <= i < 4 ==> 0 <= (#[trigger] s.offsets()[i]).0 <= 2 && -3 <= s.offsets()[i].1 <= 0,
        s.offsets()[0].1 == 0,
        exists|i: int| 0 <= i < 4 && s.offsets()[i].0 == 0,
{
    match s {
        Shape::L => {
            assert(s.offsets()[0].0 == 0);
            assert forall|i: int|
                0 <= i < 4 implies 0 <= (#[trigger] s.offsets()[i]).0 <= 2 && -3 <= s.offsets()[i].1 <= 0 by {
                if i == 0 {
                } else if i == 1 {
                } else if i == 2 {
                } else {
                    assert(i == 3);
                }
            }
        },
        Shape::J => {
            assert(s.offsets()[0].0 == 0);
            assert forall|i: int|
                0 <= i < 4 implies 0 <= (#[trigger] s.offsets()[i]).0 <= 2 && -3 <= s.offsets()[i].1 <= 0 by {
                if i == 0 {
                } else if i == 1 {
                } else if i == 2 {
                } else {
                    assert(i == 3);
                }
            }
        },
        Shape::I => {
            assert(s.offsets()[0].0 == 0);
            assert forall|i: int|
                0 <= i < 4 implies 0 <= (#[trigger] s.offsets()[i]).0 <= 2 && -3 <= s.offsets()[i].1 <= 0 by {
                if i == 0 {
                } else if i == 1 {
                } else if i == 2 {
                } else {
                    assert(i == 3);
                }
            }
        },
        Shape::O => {
            assert(s.offsets()[0].0 == 0);
            assert forall|i: int|
                0 <= i < 4 implies 0 <= (#[trigger] s.offsets()[i]).0 <= 2 && -3 <= s.offsets()[i].1 <= 0 by {
                if i == 0 {
                } else if i == 1 {
                } else if i == 2 {
                } else {
                    assert(i == 3);
                }
            }
        },
        Shape::T => {
            assert(s.offsets()[0].0 == 0);
            assert forall|i: int|
                0 <= i < 4 implies 0 <= (#[trigger] s.offsets()[i]).0 <= 2 && -3 <= s.offsets()[i].1 <= 0 by {
                if i == 0 {
                } else if i == 1 {
                } else if i == 2 {
                } else {
                    assert(i == 3);
                }
            }
        },
        Shape::Z => {
            assert(s.offsets()[0].0 == 0);
            assert forall|i: int|
                0 <= i < 4 implies 0 <= (#[trigger] s.offsets()[i]).0 <= 2 && -3 <= s.offsets()[i].1 <= 0 by {
                if i == 0 {
                } else if i == 1 {
                } else if i == 2 {
                } else {
                    assert(i == 3);
                }
            }
        },
        Shape::S => {
            assert(s.offsets()[2].0 == 0);
            assert forall|i: int|
                0 <= i < 4 implies 0 <= (#[trigger] s.offsets()[i]).0 <= 2 && -3 <= s.offsets()[i].1 <= 0 by {
                if i == 0 {
                } else if i == 1 {
                } else if i == 2 {
                } else {
                    assert(i == 3);
                }
            }
        },
    }
}

/// The single falling piece: an anchor position and its shape.
#[derive(Clone, Copy, Debug, PartialEq, Eq, Structural)]
pub struct Tetramino {
    pub col: usize,
    pub row: usize,
    pub shape: Shape,
}

impl Tetramino {
    /// Column of the piece's `i`-th cell.
    pub open spec fn cell_col(self, i: int) -> int {
        self.col + self.shape.offsets()[i].0
    }

    /// Row of the piece's `i`-th cell.
    pub open spec fn cell_row(self, i: int) -> int {
        self.row + self.shape.offsets()[i].1
    }

    /// Whether the piece covers the cell `(c, r)`.
    pub open spec fn occupies(self, c: int, r: int) -> bool {
        exists|i: int| 0 <= i < 4 && self.cell_col(i) == c && self.cell_row(i) == r
    }

    /// Every cell of the piece has machine-representable coordinates.
    pub open spec fn anchored(self) -> bool {
        forall|i: int|
            0 <= i < 4 ==> 0 <= self.cell_col(i) <= usize::MAX && 0 <= self.cell_row(i)
    }

    /// The absolute coordinates of the piece's four cells.
    pub fn cells(&self) -> (cs: [(usize, usize); 4])
        requires
            self.anchored(),
        ensures
            forall|i: int|
                0 <= i < 4
                    ==> cs@[i].0 == self.cell_col(i) && cs@[i].1 == self.cell_row(i),
    {
        proof {
            assert(0 <= self.cell_col(0) <= usize::MAX && 0 <= self.cell_row(0));
            assert(0 <= self.cell_col(1) <= usize::MAX && 0 <= self.cell_row(1));
            assert(0 <= self.cell_col(2) <= usize::MAX && 0 <= self.cell_row(2));
            assert(0 <= self.cell_col(3) <= usize::MAX && 0 <= self.cell_row(3));
        }
        let c = self.col;
        let r = self.row;
        match self.shape {
            Shape::L => [(c, r), (c, r - 1), (c, r - 2), (c + 1, r - 2)],
            Shape::J => [(c, r), (c, r - 1), (c, r - 2), (c + 1, r)],
            Shape::I => [(c, r), (c, r - 1), (c, r - 2), (c, r - 3)],
            Shape::O => [(c, r), (c, r - 1), (c + 1, r), (c + 1, r - 1)],
            Shape::T => [(c, r), (c + 1, r), (c + 2, r), (c + 1, r - 1)],
            Shape::Z => [(c, r), (c + 1, r), (c + 1, r - 1), (c + 2, r - 1)],
            Shape::S => [(c + 1, r), (c + 2, r), (c, r - 1), (c + 1, r - 1)],
        }
    }
}

} // verus!
