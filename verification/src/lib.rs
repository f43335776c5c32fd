//! Core of a falling-block puzzle game: a grid of cells, seven tetramino
//! shapes, collision and movement rules, and the fall/lock/clear/spawn
//! state machine. Rendering, windowing and input polling live outside.

pub mod game;
pub mod grid;
pub mod movement;
pub mod rows;
pub mod shape;
pub mod spawn;
pub mod timer;
