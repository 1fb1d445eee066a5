use vstd::prelude::*;

pub mod game;
pub mod paddle;
pub mod render;
pub mod rng;

verus! {

/// Width of the character grid, in columns.
pub const WIDTH: usize = 60;

/// Height of the character grid, in rows.
pub const HEIGHT: usize = 30;

/// Vertical extent of a paddle, in rows.
pub const PADDLE_HEIGHT: usize = 4;

/// Horizontal extent of a paddle, in columns.
pub const PADDLE_WIDTH: usize = 1;

/// A player wins on reaching this many points.
pub const WINNING_SCORE: u32 = 5;

} // verus!
