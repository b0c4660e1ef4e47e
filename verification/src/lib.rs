//! Core simulation of a single-screen brick-breaking arcade game.
//!
//! The library holds the verified heart of the game: axis-aligned
//! geometry, the brick grid, the collision/physics engine, the round
//! state machine, and the per-tick simulation driver. Rendering,
//! window management and input polling live outside the library and
//! exchange plain values with it.
//!
//! Positions are continuous values held in milli-pixels (one pixel is
//! 1000 units); screen rectangles are derived from them by truncation
//! toward zero, the way a cast from a fractional value to an integer
//! coordinate behaves. Speeds are in pixels per second and elapsed
//! time is in milliseconds, so `speed * elapsed` lands directly in
//! milli-pixels.

pub mod bricks;
pub mod game;
pub mod geometry;
pub mod physics;
pub mod round;
pub mod world;

use vstd::prelude::*;

verus! {

/// Width of the playfield in pixels.
pub const WINDOW_WIDTH: i64 = 800;

/// Height of the playfield in pixels.
pub const WINDOW_HEIGHT: i64 = 600;

/// Milli-pixel units that make up one pixel.
pub const MILLI_PER_PIXEL: i64 = 1000;

/// Largest magnitude of a position coordinate (in milli-pixels) the
/// physics functions accept; generous next to the playfield, forced
/// only by 64-bit arithmetic.
pub const POSITION_LIMIT: i64 = 1_000_000_000_000;

/// Largest magnitude of a speed component in pixels per second.
pub const SPEED_LIMIT: i64 = 1_000_000;

/// Longest elapsed time accepted for one tick, in milliseconds.
pub const ELAPSED_LIMIT: u32 = 10_000;

/// Largest travel in milli-pixels during one tick.
pub const STEP_LIMIT: i64 = 10_000_000_000;

} // verus!
