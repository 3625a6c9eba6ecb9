//! Tunable constants of the simulation core.

use vstd::prelude::*;

verus! {

/// Fixed-point scale: all positions, velocities and input axes are stored in
/// hundredths of a world unit.
pub const SCALE: i32 = 100;

/// Horizontal speed, in world units per second. The horizontal velocity is
/// the input axis (in hundredths) times this value, which yields a velocity
/// in hundredths of a unit per second.
pub const PLAYER_SPEED: i32 = 240;

/// Vertical speed set on a jump, in world units per second.
pub const JUMP_SPEED: i32 = 520;

/// Grounding tolerance, in world units: a platform still supports the
/// character when its top surface is at most this far above the character's
/// bottom edge.
pub const EPSILON: i32 = 1;

/// Half the character's height, in hundredths of a world unit.
pub const PLAYER_HALF_HEIGHT: i32 = 3200;

/// Number of indicator slots; the collection counter is clamped to it.
pub const COIN_SLOTS: usize = 3;

/// The frame-rate sample is refreshed each time this many milliseconds of
/// wall-clock time have accumulated.
pub const FPS_SAMPLE_INTERVAL_MS: u64 = 250;

} // verus!
