//! Core logic of a small side-scrolling arcade game: a player glyph falls
//! under gravity, flaps to rise, and must pass through the gap of a scrolling
//! wall obstacle while the score counts the walls passed.
//!
//! Vertical positions and velocities are held in tenths of a screen row, so
//! that the smooth fall of the original design (gravity of 0.1 rows per step,
//! flap impulse of -0.5 rows, terminal velocity of 1.0 rows) is exact integer
//! arithmetic here. A value of `120` tenths is screen row `12`.
//!
//! The library draws nothing itself: every frame it returns a list of
//! [`draw::DrawCommand`] values, and an unverified renderer around the library
//! carries them to the screen.

use vstd::prelude::*;

pub mod draw;
pub mod obstacle;
pub mod player;
pub mod state;

verus! {

/// Width of the play field in columns.
pub const SCREEN_WIDTH: i32 = 40;

/// Height of the play field in rows; the bottom row is the ground.
pub const SCREEN_HEIGHT: i32 = 25;

/// Milliseconds of frame time that must accumulate before one physics step runs.
pub const FRAME_DURATION: u32 = 50;

/// Greatest downward velocity gravity will reach, in tenths of a row per step.
pub const TERMINAL_VELOCITY: i32 = 10;

/// Velocity gained from gravity each physics step, in tenths of a row.
pub const DELTA_V: i32 = 1;

/// Velocity set by a flap, in tenths of a row per step (negative is upward).
pub const FLAP_DELTA_V: i32 = -5;

/// Tenths of a row per whole screen row.
pub const Y_SCALE: i32 = 10;

/// Glyph code of the player sprite.
pub const DRAGON_GLYPH: i32 = 64;

/// Glyph code of an obstacle wall cell.
pub const WALL_GLYPH: i32 = 179;

/// Glyph code of a ground cell.
pub const GROUND_GLYPH: i32 = 35;

/// Lowest row (inclusive) at which an obstacle gap may be centered.
pub const GAP_Y_MIN: i32 = 5;

/// Highest row (exclusive) from which a random gap center is drawn.
pub const GAP_Y_MAX: i32 = 20;

/// World column at which the player starts.
pub const PLAYER_START_X: i32 = 5;

} // verus!
