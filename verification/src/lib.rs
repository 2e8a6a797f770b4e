//! Core logic of a small "flappy dragon" arcade game: a player sprite falls
//! under gravity, flaps upward on input, and scrolls toward procedurally
//! generated gap obstacles. The game tracks a score and ends on collision
//! with an obstacle or on leaving the play field.
//!
//! Rendering, input polling and the frame-loop driver live outside this
//! crate; the library holds the physics, collision, scoring and screen-flow
//! rules, each with its contract.

use vstd::prelude::*;

pub mod game;
pub mod obstacle;
pub mod player;

verus! {

/// Width of the play field in character cells.
pub const SCREEN_WIDTH: i32 = 80;

/// Height of the play field in character cells; a player below this bound is
/// dead.
pub const SCREEN_HEIGHT: i32 = 45;

/// Render time that must accumulate before one physics tick runs, in
/// microseconds (16.66 ms, roughly one tick per frame at 60 Hz).
pub const FRAME_DURATION_US: u64 = 16660;

} // verus!
