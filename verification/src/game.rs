//! The fall / lock / clear / spawn state machine.
//!
//! One simulation tick advances both timers by the elapsed time and then
//! runs, in order: the input-driven move, the automatic fall (locking the
//! piece when it cannot descend), the row-clear resolution, the
//! translation of the lock signal into a spawn request, and the spawn
//! itself. Everything resolves synchronously within the tick.
//!
//! The lock signal (`TetraminoDownEvent`) has two consumers: the row
//! resolution reads it, and the spawn-request step reads it and retires
//! it. A spawn that fails bounds validation marks the game over.

use vstd::prelude::*;

use rand::Rng;

use crate::grid::{Cell, Grid};
use crate::movement::{
    active_matches, apply_move, can_tetramino_fall, can_tetramino_left, can_tetramino_right,
    lock_tetramino, locked_grid, moved_grid, no_active_cells, piece_in_grid, spec_can_fall,
    spec_can_left, spec_can_right,
};
use crate::rows::{
    count_full_rows, drop_full_rows, empty_row, empty_rows, lemma_drop_full_rows_element,
    lemma_drop_full_rows_len,
};
use crate::shape::{lemma_offsets_bounds, Shape, Tetramino};
use crate::spawn::{
    spawn_tetramino_i, spawn_tetramino_j, spawn_tetramino_l, spawn_tetramino_o, spawn_tetramino_s,
    spawn_tetramino_t, spawn_tetramino_z, spawned_into,
};
use crate::timer::{
    FallTetraminosTimer, MoveMinoTimer, FALL_TIMER_TICK_MS, MOVE_MINO_TIMER_TICK_MS,
};

verus! {

/// Signal that the falling tetramino has locked into the grid.
#[derive(Clone, Copy, Debug, PartialEq, Eq, Structural)]
pub struct TetraminoDownEvent {}

/// Request to spawn the next tetramino.
#[derive(Clone, Copy, Debug, PartialEq, Eq, Structural)]
pub struct SpawnNewTetraminoEvent {}

/// The player's held movement keys, polled once per tick.
#[derive(Clone, Copy, Debug, PartialEq, Eq, Structural)]
pub struct InputState {
    pub down: bool,
    pub left: bool,
    pub right: bool,
}

/// The whole simulation state: the grid, the single falling piece, the
/// two timers, the pending signals, and the terminal marker.
pub struct Game {
    pub grid: Grid,
    pub falling: Option<Tetramino>,
    pub fall_timer: FallTetraminosTimer,
    pub move_timer: MoveMinoTimer,
    pub tetramino_down: Option<TetraminoDownEvent>,
    pub spawn_requested: Option<SpawnNewTetraminoEvent>,
    pub game_over: bool,
}

impl Game {
    /// Well-formed: the grid and timers are well-formed, and the grid's
    /// `Active` cells are exactly the falling piece's cells (none at all
    /// while no piece is falling).
    pub open spec fn wf(self) -> bool {
        &&& self.grid.wf()
        &&& self.fall_timer.timer.wf()
        &&& self.move_timer.timer.wf()
        &&& match self.falling {
            Some(t) => piece_in_grid(self.grid, t) && active_matches(self.grid, t),
            None => no_active_cells(self.grid),
        }
    }

    /// A fresh game over an empty grid of the given dimensions, with no
    /// falling piece, no pending signals, and timers at zero.
    pub fn new(width: usize, height: usize) -> (g: Game)
        requires
            width >= 1,
            height >= 1,
        ensures
            g.wf(),
            g.grid.width == width,
            g.grid.height == height,
            forall|c: int, r: int| g.grid.in_bounds(c, r) ==> !g.grid.occupied(c, r),
            g.falling is None,
            g.tetramino_down is None,
            g.spawn_requested is None,
            !g.game_over,
            g.fall_timer.timer.period_ms == FALL_TIMER_TICK_MS,
            g.fall_timer.timer.elapsed_ms == 0,
            g.move_timer.timer.period_ms == MOVE_MINO_TIMER_TICK_MS,
            g.move_timer.timer.elapsed_ms == 0,
    {
        Game {
            grid: Grid::new(width, height),
            falling: None,
            fall_timer: FallTetraminosTimer::default(),
            move_timer: MoveMinoTimer::default(),
            tetramino_down: None,
            spawn_requested: None,
            game_over: false,
        }
    }
}

/// The piece one row further down.
pub open spec fn fallen(t: Tetramino) -> Tetramino {
    Tetramino { col: t.col, row: (t.row - 1) as usize, shape: t.shape }
}

/// Where the held keys send the piece this move tick: soft drop wins over
/// the horizontals; right and left each apply when their side is free, so
/// both held together cancel out. A blocked direction is simply skipped.
pub open spec fn moved_target(g: Grid, t: Tetramino, input: InputState) -> Tetramino {
    if input.down && spec_can_fall(g, t) {
        fallen(t)
    } else {
        let dc = (if input.right && spec_can_right(g, t) {
            1int
        } else {
            0int
        }) - (if input.left && spec_can_left(g, t) {
            1int
        } else {
            0int
        });
        Tetramino { col: (t.col + dc) as usize, row: t.row, shape: t.shape }
    }
}

/// What one fall tick does: the fall timer advances; when it fires and a
/// piece is falling, the piece descends one row if it can, and otherwise
/// locks into the grid, is retired, and raises the lock signal.
pub open spec fn fall_step(g1: Game, g2: Game, delta_ms: u64) -> bool {
    &&& g2.fall_timer.timer.period_ms == g1.fall_timer.timer.period_ms
    &&& g2.fall_timer.timer.elapsed_ms == g1.fall_timer.timer.spec_elapsed_after(delta_ms)
    &&& g2.move_timer == g1.move_timer
    &&& g2.spawn_requested == g1.spawn_requested
    &&& g2.game_over == g1.game_over
    &&& if !g1.fall_timer.timer.spec_fires(delta_ms) {
        g2.grid == g1.grid && g2.falling == g1.falling && g2.tetramino_down == g1.tetramino_down
    } else {
        match g1.falling {
            None => g2.grid == g1.grid && g2.falling is None && g2.tetramino_down
                == g1.tetramino_down,
            Some(t) => if spec_can_fall(g1.grid, t) {
                &&& g2.falling == Some(fallen(t))
                &&& moved_grid(g1.grid, g2.grid, t, fallen(t))
                &&& g2.tetramino_down == g1.tetramino_down
            } else {
                &&& g2.falling is None
                &&& locked_grid(g1.grid, g2.grid, t)
                &&& g2.tetramino_down is Some
            },
        }
    }
}

/// What one move tick does: the move timer advances; when it fires and a
/// piece is falling, the piece moves to `moved_target`.
pub open spec fn move_step(g1: Game, g2: Game, input: InputState, delta_ms: u64) -> bool {
    &&& g2.move_timer.timer.period_ms == g1.move_timer.timer.period_ms
    &&& g2.move_timer.timer.elapsed_ms == g1.move_timer.timer.spec_elapsed_after(delta_ms)
    &&& g2.fall_timer == g1.fall_timer
    &&& g2.tetramino_down == g1.tetramino_down
    &&& g2.spawn_requested == g1.spawn_requested
    &&& g2.game_over == g1.game_over
    &&& if !g1.move_timer.timer.spec_fires(delta_ms) {
        g2.grid == g1.grid && g2.falling == g1.falling
    } else {
        match g1.falling {
            None => g2.grid == g1.grid && g2.falling is None,
            Some(t) => {
                let t2 = moved_target(g1.grid, t, input);
                if t2 == t {
                    g2.grid == g1.grid && g2.falling == Some(t)
                } else {
                    g2.falling == Some(t2) && moved_grid(g1.grid, g2.grid, t, t2)
                }
            },
        }
    }
}

/// Run the fall timer and, when it fires, let the falling piece descend
/// one row or lock it into the grid and raise the lock signal.
pub fn fall_tetraminos(game: &mut Game, delta_ms: u64)
    requires
        old(game).wf(),
    ensures
        final(game).wf(),
        fall_step(*old(game), *final(game), delta_ms),
{
    let fired = game.fall_timer.timer.tick(delta_ms);
    if !fired {
        return;
    }
    match game.falling {
        Some(t) => {
            if !can_tetramino_fall(&game.grid, &t) {
                lock_tetramino(&mut game.grid, &t);
                game.falling = None;
                game.tetramino_down = Some(TetraminoDownEvent {});
                proof {
                    assert forall|c: int, r: int|
                        game.grid.in_bounds(c, r) implies !(game.grid.cell(c, r) is Active) by {
                        if !t.occupies(c, r) {
                            assert(old(game).grid.cell(c, r) is Active <==> t.occupies(c, r));
                        }
                    }
                }
            } else {
                proof {
                    lemma_offsets_bounds(t.shape);
                    assert(t.cell_row(0) == t.row);
                    assert(t.row >= 1);
                    assert forall|i: int|
                        0 <= i < 4 implies old(game).grid.in_bounds(
                        fallen(t).cell_col(i),
                        fallen(t).cell_row(i),
                    ) by {
                        assert(old(game).grid.in_bounds(t.cell_col(i), t.cell_row(i)));
                        assert(t.cell_row(i) >= 1);
                        assert(fallen(t).cell_col(i) == t.cell_col(i));
                        assert(fallen(t).cell_row(i) == t.cell_row(i) - 1);
                    }
                }
                let mut t2 = t;
                apply_move(&mut game.grid, &mut t2, t.col, t.row - 1);
                game.falling = Some(t2);
                proof {
                    assert(t2 == fallen(t));
                    assert forall|c: int, r: int|
                        game.grid.in_bounds(c, r) implies ((game.grid.cell(c, r) is Active)
                        <==> t2.occupies(c, r)) by {
                        if !t2.occupies(c, r) && !t.occupies(c, r) {
                            assert(old(game).grid.cell(c, r) is Active <==> t.occupies(c, r));
                        }
                    }
                }
            }
        },
        None => {},
    }
}

/// Run the move timer and, when it fires, apply at most one nudge of the
/// falling piece from the held keys: soft drop first, else the free
/// horizontal directions.
pub fn move_tetramino(game: &mut Game, input: InputState, delta_ms: u64)
    requires
        old(game).wf(),
    ensures
        final(game).wf(),
        move_step(*old(game), *final(game), input, delta_ms),
{
    let fired = game.move_timer.timer.tick(delta_ms);
    if !fired {
        return;
    }
    match game.falling {
        Some(t) => {
            let mut new_col = t.col;
            let mut new_row = t.row;
            if input.down && can_tetramino_fall(&game.grid, &t) {
                proof {
                    lemma_offsets_bounds(t.shape);
                    assert(t.cell_row(0) == t.row);
                    assert(t.row >= 1);
                }
                new_row = t.row - 1;
            } else {
                if input.right && can_tetramino_right(&game.grid, &t) {
                    proof {
                        lemma_offsets_bounds(t.shape);
                        let i = choose|i: int| 0 <= i < 4 && t.shape.offsets()[i].0 == 0;
                        assert(t.cell_col(i) == t.col);
                        assert(t.col + 1 < game.grid.width);
                    }
                    new_col = new_col + 1;
                }
                if input.left && can_tetramino_left(&game.grid, &t) {
                    proof {
                        if new_col == t.col {
                            lemma_offsets_bounds(t.shape);
                            let i = choose|i: int| 0 <= i < 4 && t.shape.offsets()[i].0 == 0;
                            assert(t.cell_col(i) == t.col);
                            assert(t.col >= 1);
                        }
                    }
                    new_col = new_col - 1;
                }
            }
            let ghost t_target = moved_target(old(game).grid, t, input);
            proof {
                assert(t_target.col == new_col && t_target.row == new_row
                    && t_target.shape == t.shape);
            }
            if new_col == t.col && new_row == t.row {
                proof {
                    assert(t_target == t);
                }
                return;
            }
            proof {
                assert forall|i: int|
                    0 <= i < 4 implies old(game).grid.in_bounds(
                    t_target.cell_col(i),
                    t_target.cell_row(i),
                ) by {
                    assert(old(game).grid.in_bounds(t.cell_col(i), t.cell_row(i)));
                    if new_row != t.row {
                        assert(t.cell_row(i) >= 1);
                        assert(t_target.cell_col(i) == t.cell_col(i));
                        assert(t_target.cell_row(i) == t.cell_row(i) - 1);
                    } else if new_col == t.col + 1 {
                        assert(t.cell_col(i) + 1 < old(game).grid.width);
                        assert(t_target.cell_col(i) == t.cell_col(i) + 1);
                        assert(t_target.cell_row(i) == t.cell_row(i));
                    } else {
                        assert(new_col == t.col - 1);
                        assert(t.cell_col(i) >= 1);
                        assert(t_target.cell_col(i) == t.cell_col(i) - 1);
                        assert(t_target.cell_row(i) == t.cell_row(i));
                    }
                }
            }
            let mut t2 = t;
            apply_move(&mut game.grid, &mut t2, new_col, new_row);
            game.falling = Some(t2);
            proof {
                assert(t2 == t_target);
                assert forall|c: int, r: int|
                    game.grid.in_bounds(c, r) implies ((game.grid.cell(c, r) is Active)
                    <==> t2.occupies(c, r)) by {
                    if !t2.occupies(c, r) && !t.occupies(c, r) {
                        assert(old(game).grid.cell(c, r) is Active <==> t.occupies(c, r));
                    }
                }
            }
        },
        None => {},
    }
}

/// What the row-clear step does when the lock signal is pending: every
/// complete row is removed, the incomplete rows keep their order, and
/// empty rows top the grid up. Without the signal nothing changes. The
/// signal itself stays for the spawn-request step to consume.
pub open spec fn clear_step(g1: Game, g2: Game) -> bool {
    &&& g2.falling == g1.falling
    &&& g2.fall_timer == g1.fall_timer
    &&& g2.move_timer == g1.move_timer
    &&& g2.tetramino_down == g1.tetramino_down
    &&& g2.spawn_requested == g1.spawn_requested
    &&& g2.game_over == g1.game_over
    &&& if g1.tetramino_down is Some {
        &&& g2.grid.wf()
        &&& g2.grid.width == g1.grid.width
        &&& g2.grid.height == g1.grid.height
        &&& forall|r: int| 0 <= r < g2.grid.height ==> !g2.grid.spec_row_complete(r)
        &&& g2.grid.rows_view() == drop_full_rows(g1.grid.rows_view()) + empty_rows(
            g1.grid.width as nat,
            count_full_rows(g1.grid.rows_view()),
        )
    } else {
        g2.grid == g1.grid
    }
}

/// What the spawn-request step does: a pending lock signal is retired and
/// becomes a spawn request; otherwise nothing changes.
pub open spec fn spawn_signal_step(g1: Game, g2: Game) -> bool {
    &&& g2.grid == g1.grid
    &&& g2.falling == g1.falling
    &&& g2.fall_timer == g1.fall_timer
    &&& g2.move_timer == g1.move_timer
    &&& g2.game_over == g1.game_over
    &&& if g1.tetramino_down is Some {
        g2.tetramino_down is None && g2.spawn_requested is Some
    } else {
        g2.tetramino_down is None && g2.spawn_requested == g1.spawn_requested
    }
}

/// The shape drawn for each of the seven equally likely outcomes of the
/// spawn draw, in the order the dispatch tries them.
pub open spec fn shape_of_index(k: int) -> Shape {
    if k == 0 {
        Shape::L
    } else if k == 1 {
        Shape::I
    } else if k == 2 {
        Shape::O
    } else if k == 3 {
        Shape::T
    } else if k == 4 {
        Shape::J
    } else if k == 5 {
        Shape::Z
    } else {
        Shape::S
    }
}

/// What spawning shape `s` leaves behind: the anchor is the fixed start,
/// mid-width on the top row. When the shape fits there, it becomes the
/// falling piece with its cells marked in the grid; when it does not,
/// nothing is written and the game is over.
pub open spec fn spawn_attempt(g1: Game, g2: Game, s: Shape) -> bool {
    let t = Tetramino {
        col: (g1.grid.width / 2) as usize,
        row: (g1.grid.height - 1) as usize,
        shape: s,
    };
    if piece_in_grid(g1.grid, t) {
        &&& g2.falling == Some(t)
        &&& spawned_into(g1.grid, g2.grid, t)
        &&& g2.game_over == g1.game_over
    } else {
        &&& g2.falling is None
        &&& g2.grid == g1.grid
        &&& g2.game_over == true
    }
}

/// What the spawn step does: a pending spawn request is consumed and one
/// of the seven shapes is spawned at the fixed start; otherwise nothing
/// changes.
pub open spec fn spawn_step(g1: Game, g2: Game) -> bool {
    &&& g2.fall_timer == g1.fall_timer
    &&& g2.move_timer == g1.move_timer
    &&& g2.tetramino_down == g1.tetramino_down
    &&& if g1.spawn_requested is Some {
        &&& g2.spawn_requested is None
        &&& exists|k: int| 0 <= k < 7 && spawn_attempt(g1, g2, shape_of_index(k))
    } else {
        &&& g2.spawn_requested == g1.spawn_requested
        &&& g2.grid == g1.grid
        &&& g2.falling == g1.falling
        &&& g2.game_over == g1.game_over
    }
}

/// When the lock signal is pending, resolve the grid: clear every
/// complete row and shift the rest down, rescanning until none is left.
/// The signal is left pending for the spawn-request step.
pub fn clear_completed_rows(game: &mut Game)
    requires
        old(game).wf(),
        old(game).tetramino_down is Some ==> old(game).falling is None,
    ensures
        final(game).wf(),
        clear_step(*old(game), *final(game)),
{
    if game.tetramino_down.is_none() {
        return;
    }
    game.grid.resolve_completed_rows();
    proof {
        let rv1 = old(game).grid.rows_view();
        let kept = drop_full_rows(rv1);
        let w = old(game).grid.width as nat;
        assert(old(game).falling is None);
        assert(no_active_cells(old(game).grid));
        lemma_drop_full_rows_len(rv1);
        assert forall|c: int, r: int|
            game.grid.in_bounds(c, r) implies !(game.grid.cell(c, r) is Active) by {
            assert(game.grid.cell(c, r) == game.grid.rows_view()[r][c]);
            if r < kept.len() {
                lemma_drop_full_rows_element(rv1, r);
                let i = choose|i: int| 0 <= i < rv1.len() && kept[r] == rv1[i];
                assert(game.grid.rows_view()[r] == rv1[i]);
                assert(rv1[i][c] == old(game).grid.cell(c, i));
                assert(old(game).grid.in_bounds(c, i));
                assert(!(old(game).grid.cell(c, i) is Active));
            } else {
                assert(game.grid.rows_view()[r] == empty_rows(w, count_full_rows(rv1))[r - kept.len()]);
                assert(game.grid.rows_view()[r] == empty_row(w));
                assert(game.grid.rows_view()[r][c] == Cell::Empty);
            }
        }
    }
}

/// Turn a pending lock signal into a spawn request and retire the signal.
pub fn spawn_new_tetramino(game: &mut Game)
    requires
        old(game).wf(),
    ensures
        final(game).wf(),
        spawn_signal_step(*old(game), *final(game)),
{
    if game.tetramino_down.is_none() {
        return;
    }
    game.spawn_requested = Some(SpawnNewTetraminoEvent {});
    game.tetramino_down = None;
}

/// Relies on rand::thread_rng and rand::Rng::gen_range: a draw from the
/// thread-local generator over the non-empty range `0..7` always returns
/// a value below 7.
#[verifier::external_body]
fn random_shape_index() -> (k: usize)
    ensures
        k < 7,
{
    rand::thread_rng().gen_range(0..7)
}

/// Spawn the shape selected by `shape_index` at the fixed start anchor:
/// mid-width, top row. On a bounds failure no cell is written, no piece
/// is created, and the game is marked over.
pub fn spawn_mino_of(game: &mut Game, shape_index: usize)
    requires
        old(game).wf(),
        old(game).falling is None,
        shape_index < 7,
    ensures
        final(game).wf(),
        spawn_attempt(*old(game), *final(game), shape_of_index(shape_index as int)),
        final(game).fall_timer == old(game).fall_timer,
        final(game).move_timer == old(game).move_timer,
        final(game).tetramino_down == old(game).tetramino_down,
        final(game).spawn_requested == old(game).spawn_requested,
{
    let col = game.grid.width / 2;
    let row = game.grid.height - 1;
    let spawned = match shape_index {
        0 => spawn_tetramino_l(&mut game.grid, col, row),
        1 => spawn_tetramino_i(&mut game.grid, col, row),
        2 => spawn_tetramino_o(&mut game.grid, col, row),
        3 => spawn_tetramino_t(&mut game.grid, col, row),
        4 => spawn_tetramino_j(&mut game.grid, col, row),
        5 => spawn_tetramino_z(&mut game.grid, col, row),
        _ => spawn_tetramino_s(&mut game.grid, col, row),
    };
    match spawned {
        Some(t) => {
            game.falling = Some(t);
            proof {
                assert(no_active_cells(old(game).grid));
                assert(spawned_into(old(game).grid, game.grid, t));
                assert forall|c: int, r: int|
                    game.grid.in_bounds(c, r) implies ((game.grid.cell(c, r) is Active)
                    <==> t.occupies(c, r)) by {
                    if !t.occupies(c, r) {
                        assert(old(game).grid.in_bounds(c, r));
                        assert(!(old(game).grid.cell(c, r) is Active));
                    }
                }
            }
        },
        None => {
            game.game_over = true;
        },
    }
}

/// When a spawn request is pending, consume it and spawn one of the
/// seven shapes, drawn uniformly at random, at the fixed start anchor.
pub fn spawn_new_mino(game: &mut Game)
    requires
        old(game).wf(),
        old(game).spawn_requested is Some ==> old(game).falling is None,
    ensures
        final(game).wf(),
        spawn_step(*old(game), *final(game)),
{
    if game.spawn_requested.is_none() {
        return;
    }
    game.spawn_requested = None;
    let k = random_shape_index();
    spawn_mino_of(game, k);
    proof {
        assert(0 <= (k as int) && (k as int) < 7);
        assert(spawn_attempt(*old(game), *game, shape_of_index(k as int)));
    }
}

/// One simulation tick: advance both timers by `delta_ms` and run, in
/// order, the input move, the automatic fall or lock, the row-clear
/// resolution, the spawn-request translation, and the spawn. Both
/// signals are consumed within the tick.
pub fn tick(game: &mut Game, input: InputState, delta_ms: u64)
    requires
        old(game).wf(),
        old(game).tetramino_down is Some ==> old(game).falling is None,
        old(game).spawn_requested is Some ==> old(game).falling is None,
    ensures
        final(game).wf(),
        final(game).tetramino_down is None,
        final(game).spawn_requested is None,
        exists|m: Game, f: Game, c: Game, s: Game|
            move_step(*old(game), m, input, delta_ms) && fall_step(m, f, delta_ms)
                && clear_step(f, c) && spawn_signal_step(c, s) && spawn_step(s, *final(game)),
{
    move_tetramino(game, input, delta_ms);
    let ghost m = *game;
    fall_tetraminos(game, delta_ms);
    let ghost f = *game;
    clear_completed_rows(game);
    let ghost c = *game;
    spawn_new_tetramino(game);
    let ghost s = *game;
    spawn_new_mino(game);
    proof {
        assert(move_step(*old(game), m, input, delta_ms) && fall_step(m, f, delta_ms)
            && clear_step(f, c) && spawn_signal_step(c, s) && spawn_step(s, *game));
    }
}

} // verus!
