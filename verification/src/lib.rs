//! A tick-driven arcade simulation: a player-controlled marker dodges debris
//! drifting leftward across a fixed-size character grid, scoring a point for
//! each debris that survives past a fixed column and ending the round when a
//! debris reaches the player's cell.  The crate holds the whole game state
//! machine: the player, the debris entities and their bounded pool, seeded
//! spawning, per-tick update order, scoring, and multi-difficulty high-score
//! tracking.  Rendering and input decoding are left to the caller, which feeds
//! decoded key events and tick signals in and reads the state back out.

pub mod debris;
pub mod game;
pub mod grid;
pub mod input;
pub mod laws;
pub mod pass;
pub mod player;
pub mod pool;
pub mod rng;
