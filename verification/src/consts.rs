//! Game constants, in micro-units (positions, sizes) and micro-units per
//! millisecond (velocities). One game unit is `UNIT` micro-units; one game
//! unit per second equals 1000 micro-units per millisecond.

use vstd::prelude::*;

verus! {

/// Micro-units per game unit.
pub const UNIT: i64 = 1_000_000;

/// Horizontal distance of each paddle's centre from the court centre.
pub const PLAYER_LOCATION: i64 = 450_000_000;

/// Largest vertical distance a paddle centre may have from the court centre.
pub const MAX_PLAYER_HEIGHT: i64 = 275_000_000;

/// Vertical distance a paddle moves per tick while a key is held.
pub const PLAYER_SPEED: i64 = 5_000_000;

/// Half extents of a paddle (full size 20 by 150 game units).
pub const PLAYER_HALF_WIDTH: i64 = 10_000_000;
pub const PLAYER_HALF_HEIGHT: i64 = 75_000_000;

/// Ball radius (10 game units).
pub const BALL_RADIUS: i64 = 10_000_000;

/// Horizontal speed of the ball right after a reset, in micro-units per
/// millisecond (175 game units per second). The vertical speed after a
/// reset is half of this.
pub const BALL_STARTING_SPEED: i64 = 175_000;

/// Extra distance beyond the paddle line the ball must cross to score.
pub const GOAL_BUFFER: i64 = 75_000_000;

/// A goal is scored once the ball centre passes this line on either side.
pub const GOAL_LINE: i64 = PLAYER_LOCATION + GOAL_BUFFER;

/// On each bounce the reflected velocity component is scaled by
/// `BOUNCE_NUM / BOUNCE_DEN` (a 1.1 speed-up), then capped at `MAX_BALL_SPEED`.
pub const BOUNCE_NUM: i64 = 11;
pub const BOUNCE_DEN: i64 = 10;

/// Cap on the magnitude of each velocity component, far above any speed a
/// volley can reach; it keeps every computation inside `i64`.
pub const MAX_BALL_SPEED: i64 = 1_000_000_000;

/// Ticks after a contact during which the collision resolver stays idle,
/// so a sustained overlap reflects the ball only once.
pub const GRACE_TICKS: u64 = 1;

/// Largest elapsed time a single tick may integrate, in milliseconds.
pub const MAX_TICK_MS: i64 = 60_000;

/// Bound on ball coordinates and viewport extents accepted by a tick;
/// together with `MAX_BALL_SPEED` and `MAX_TICK_MS` it keeps every
/// position computation inside `i64`.
pub const MAX_COORD: i64 = 1_000_000_000_000_000;

} // verus!
