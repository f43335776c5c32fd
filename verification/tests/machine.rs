//! Timers and the fall / lock / clear / spawn state machine.

use tetramino::game::{
    clear_completed_rows, fall_tetraminos, move_tetramino, spawn_mino_of, spawn_new_mino,
    spawn_new_tetramino, tick, Game, InputState, SpawnNewTetraminoEvent, TetraminoDownEvent,
};
use tetramino::grid::{Cell, Grid};
use tetramino::shape::Shape;
use tetramino::spawn::spawn_tetramino_o;
use tetramino::timer::{FallTetraminosTimer, MoveMinoTimer, TickTimer};

const NO_KEYS: InputState = InputState { down: false, left: false, right: false };

fn count_occupied(g: &Grid) -> usize {
    let mut n = 0;
    for c in 0..g.width {
        for r in 0..g.height {
            if g.is_occupied(c, r) {
                n += 1;
            }
        }
    }
    n
}

#[test]
fn timer_accumulates_and_keeps_remainder() {
    let mut t = TickTimer::new(50);
    assert!(!t.tick(30));
    assert_eq!(t.elapsed_ms, 30);
    assert!(t.tick(30));
    assert_eq!(t.elapsed_ms, 10);
    assert!(t.tick(120));
    assert_eq!(t.elapsed_ms, 30);
}

#[test]
fn default_timer_periods() {
    let f = FallTetraminosTimer::default();
    assert_eq!(f.timer.period_ms, 1000);
    assert_eq!(f.timer.elapsed_ms, 0);
    let m = MoveMinoTimer::default();
    assert_eq!(m.timer.period_ms, 50);
    assert_eq!(m.timer.elapsed_ms, 0);
}

#[test]
fn fall_waits_for_its_timer() {
    let mut game = Game::new(10, 20);
    let t = spawn_tetramino_o(&mut game.grid, 5, 19).expect("O fits");
    game.falling = Some(t);
    fall_tetraminos(&mut game, 500);
    assert_eq!(game.falling.expect("still falling").row, 19);
    fall_tetraminos(&mut game, 500);
    assert_eq!(game.falling.expect("still falling").row, 18);
    assert_eq!(game.grid.get(5, 19), Cell::Empty);
    assert_eq!(game.grid.get(5, 18), Cell::Active);
}

#[test]
fn fall_locks_on_the_floor_and_raises_the_signal() {
    let mut game = Game::new(10, 20);
    let t = spawn_tetramino_o(&mut game.grid, 5, 1).expect("O fits");
    game.falling = Some(t);
    fall_tetraminos(&mut game, 1000);
    assert!(game.falling.is_none());
    assert!(game.tetramino_down.is_some());
    assert_eq!(game.grid.get(5, 1), Cell::Locked(7));
    assert_eq!(game.grid.get(5, 0), Cell::Locked(7));
    assert_eq!(game.grid.get(6, 1), Cell::Locked(7));
    assert_eq!(game.grid.get(6, 0), Cell::Locked(7));
}

#[test]
fn move_soft_drop_takes_priority() {
    let mut game = Game::new(10, 20);
    let t = spawn_tetramino_o(&mut game.grid, 5, 19).expect("O fits");
    game.falling = Some(t);
    let keys = InputState { down: true, left: true, right: false };
    move_tetramino(&mut game, keys, 50);
    let t = game.falling.expect("still falling");
    assert_eq!((t.col, t.row), (5, 18));
}

#[test]
fn move_left_and_right_cancel_out() {
    let mut game = Game::new(10, 20);
    let t = spawn_tetramino_o(&mut game.grid, 5, 19).expect("O fits");
    game.falling = Some(t);
    let keys = InputState { down: false, left: true, right: true };
    move_tetramino(&mut game, keys, 50);
    let t = game.falling.expect("still falling");
    assert_eq!((t.col, t.row), (5, 19));
}

#[test]
fn move_blocked_at_the_wall_does_nothing() {
    let mut game = Game::new(10, 20);
    let t = spawn_tetramino_o(&mut game.grid, 0, 19).expect("O fits");
    game.falling = Some(t);
    let keys = InputState { down: false, left: true, right: false };
    move_tetramino(&mut game, keys, 50);
    let t = game.falling.expect("still falling");
    assert_eq!((t.col, t.row), (0, 19));
    assert_eq!(game.grid.get(0, 19), Cell::Active);
}

#[test]
fn move_waits_for_its_timer() {
    let mut game = Game::new(10, 20);
    let t = spawn_tetramino_o(&mut game.grid, 5, 19).expect("O fits");
    game.falling = Some(t);
    let keys = InputState { down: false, left: true, right: false };
    move_tetramino(&mut game, keys, 20);
    assert_eq!(game.falling.expect("still falling").col, 5);
    move_tetramino(&mut game, keys, 40);
    assert_eq!(game.falling.expect("still falling").col, 4);
}

#[test]
fn clear_runs_only_on_the_lock_signal() {
    let mut game = Game::new(3, 4);
    for c in 0..3 {
        game.grid.set(c, 0, Cell::Locked(2));
    }
    clear_completed_rows(&mut game);
    assert_eq!(count_occupied(&game.grid), 3);
    game.tetramino_down = Some(TetraminoDownEvent {});
    clear_completed_rows(&mut game);
    assert_eq!(count_occupied(&game.grid), 0);
    // the signal stays for the spawn-request step
    assert!(game.tetramino_down.is_some());
}

#[test]
fn lock_signal_becomes_a_spawn_request() {
    let mut game = Game::new(10, 20);
    spawn_new_tetramino(&mut game);
    assert!(game.spawn_requested.is_none());
    game.tetramino_down = Some(TetraminoDownEvent {});
    spawn_new_tetramino(&mut game);
    assert!(game.tetramino_down.is_none());
    assert!(game.spawn_requested.is_some());
}

#[test]
fn spawn_new_mino_consumes_the_request_and_spawns() {
    let mut game = Game::new(10, 20);
    spawn_new_mino(&mut game);
    assert!(game.falling.is_none());
    game.spawn_requested = Some(SpawnNewTetraminoEvent {});
    spawn_new_mino(&mut game);
    assert!(game.spawn_requested.is_none());
    let t = game.falling.expect("a piece spawned on the standard grid");
    assert_eq!((t.col, t.row), (5, 19));
    assert_eq!(count_occupied(&game.grid), 4);
    assert!(!game.game_over);
}

#[test]
fn spawn_mino_of_dispatches_the_seven_shapes() {
    let expected = [
        Shape::L,
        Shape::I,
        Shape::O,
        Shape::T,
        Shape::J,
        Shape::Z,
        Shape::S,
    ];
    for (k, shape) in expected.iter().enumerate() {
        let mut game = Game::new(10, 20);
        spawn_mino_of(&mut game, k);
        let t = game.falling.expect("every shape fits the standard grid");
        assert_eq!(t.shape, *shape);
        assert_eq!((t.col, t.row), (5, 19));
        assert_eq!(count_occupied(&game.grid), 4);
    }
}

#[test]
fn failed_spawn_marks_the_game_over() {
    let mut game = Game::new(1, 1);
    spawn_mino_of(&mut game, 2);
    assert!(game.falling.is_none());
    assert!(game.game_over);
    assert_eq!(count_occupied(&game.grid), 0);
}

#[test]
fn o_piece_falls_from_the_corner_and_locks() {
    // A 10-wide, 20-tall empty grid; an O-piece at (0, 19) falls until it
    // locks at the floor; no row completes; the spawn request is raised
    // exactly once.
    let mut game = Game::new(10, 20);
    let t = spawn_tetramino_o(&mut game.grid, 0, 19).expect("O fits");
    game.falling = Some(t);
    let mut spawn_requests = 0;
    let mut fall_ticks = 0;
    while game.falling.is_some() {
        fall_tetraminos(&mut game, 1000);
        clear_completed_rows(&mut game);
        spawn_new_tetramino(&mut game);
        if game.spawn_requested.is_some() {
            spawn_requests += 1;
            game.spawn_requested = None;
        }
        fall_ticks += 1;
        assert!(fall_ticks <= 30, "the piece must lock within 20 falls");
    }
    assert_eq!(spawn_requests, 1);
    assert_eq!(game.grid.get(0, 0), Cell::Locked(7));
    assert_eq!(game.grid.get(0, 1), Cell::Locked(7));
    assert_eq!(game.grid.get(1, 0), Cell::Locked(7));
    assert_eq!(game.grid.get(1, 1), Cell::Locked(7));
    assert_eq!(count_occupied(&game.grid), 4);
    for r in 0..20 {
        assert!(!game.grid.row_is_complete(r));
    }
}

#[test]
fn tick_runs_one_full_cycle() {
    let mut game = Game::new(10, 20);
    game.spawn_requested = Some(SpawnNewTetraminoEvent {});
    tick(&mut game, NO_KEYS, 1000);
    let t = game.falling.expect("the first piece spawned");
    assert_eq!((t.col, t.row), (5, 19));
    assert!(game.spawn_requested.is_none());
    assert!(game.tetramino_down.is_none());
    // each further tick drops the piece one row
    tick(&mut game, NO_KEYS, 1000);
    assert_eq!(game.falling.expect("still falling").row, 18);
    // run until the piece locks; a new piece spawns within the same tick
    let first = game.falling.unwrap();
    let mut ticks = 0;
    loop {
        tick(&mut game, NO_KEYS, 1000);
        ticks += 1;
        assert!(ticks <= 30, "the piece must lock within 20 ticks");
        let now = game.falling.expect("a piece is always falling after a tick");
        if now.row == 19 {
            break;
        }
    }
    // the locked piece left exactly four blocks carrying its sprite, and
    // the fresh piece holds exactly four active cells
    let sprite = first.shape.sprite_index();
    let mut locked = 0;
    let mut active = 0;
    for c in 0..10 {
        for r in 0..20 {
            match game.grid.get(c, r) {
                Cell::Locked(s) => {
                    assert_eq!(s, sprite);
                    locked += 1;
                }
                Cell::Active => active += 1,
                Cell::Empty => {}
            }
        }
    }
    assert_eq!(locked, 4);
    assert_eq!(active, 4);
}
