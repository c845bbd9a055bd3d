//! The fixed gameplay constants the resolver and the guards consult.

use vstd::prelude::*;

verus! {

/// Horizontal and plain vertical movement, in units per tick.
pub const PLAYER_SPEED: i64 = 8;

/// Vertical displacement while a jump is driving, in units per tick.
pub const JUMP_SPEED: i64 = 15;

/// Horizontal displacement while a dash is driving, in units per tick.
pub const DASH_SPEED: i64 = 20;

/// Constant downward pull applied once per tick while gravity is on,
/// in units per tick.
pub const PLAYER_GRAVITY: i64 = 15;

/// How long a held jump keeps driving before it expires, in milliseconds.
pub const TIME_TO_JUMP_EXPIRE_MS: u64 = 400;

/// How long a dash keeps driving before it expires, in milliseconds.
pub const TIME_TO_DASH_EXPIRE_MS: u64 = 300;

/// Extent of the playfield window, in units.
pub const WINDOW_WIDTH: i64 = 1024;

/// Extent of the playfield window, in units.
pub const WINDOW_HEIGHT: i64 = 720;

/// Horizontal coordinate of the fixed spawn point: the window center.
pub const SPAWN_X: i64 = 512;

/// Vertical coordinate of the fixed spawn point: the window center.
pub const SPAWN_Y: i64 = 360;

/// A position at or below this vertical coordinate counts as fallen out of
/// the level and is pulled back to the spawn point.
pub const DEATH_LINE_Y: i64 = 0;

} // verus!
