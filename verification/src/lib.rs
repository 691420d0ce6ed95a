//! A falling-block puzzle engine: a ten-column playfield, seven piece
//! shapes drawn from a queue, and the rules for movement, rotation,
//! collision, locking and line clearing.
//!
//! Coordinates are in pixel-sized cell units: a cell is 48 by 48, the
//! playfield columns run from `INIT_GRID` to `END_GRID`, and rows grow
//! downward to `END_GRID_BOTTOM`. The engine is driven from outside:
//! a presentation layer calls [`game::GameState::tick`] once per
//! simulation step, forwards discrete [`game::Command`]s, and reads
//! the state back through the snapshot accessors to render it.

pub mod board;
pub mod figure;
pub mod game;
pub mod geometry;
pub mod rng;
