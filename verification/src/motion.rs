//! The ball integrator, and the two interchangeable encodings of a
//! velocity: a signed vector per axis, or a non-negative speed with a
//! direction per axis. Integration advances the position by velocity
//! times elapsed milliseconds, exactly; it does no clamping and knows
//! nothing of boundaries, which the collision resolver handles after the
//! move.

use vstd::prelude::*;

use crate::consts::{MAX_BALL_SPEED, MAX_COORD, MAX_TICK_MS};
use crate::entities::Ball;

verus! {

/// Position reached from `p` after `dt` milliseconds at velocity `v`
/// (micro-units per millisecond).
pub open spec fn spec_integrate(p: int, v: int, dt: int) -> int {
    p + v * dt
}

/// Advances the ball by `dt` milliseconds of its current velocity, on
/// both axes exactly; velocity and contact record stay untouched.
pub fn integrate_ball(b: &mut Ball, dt: i64)
    requires
        -MAX_COORD <= old(b)@.x <= MAX_COORD,
        -MAX_COORD <= old(b)@.y <= MAX_COORD,
        -MAX_BALL_SPEED <= old(b)@.vx <= MAX_BALL_SPEED,
        -MAX_BALL_SPEED <= old(b)@.vy <= MAX_BALL_SPEED,
        0 <= dt <= MAX_TICK_MS,
    ensures
        final(b)@.x == spec_integrate(old(b)@.x, old(b)@.vx, dt as int),
        final(b)@.y == spec_integrate(old(b)@.y, old(b)@.vy, dt as int),
        final(b)@.vx == old(b)@.vx,
        final(b)@.vy == old(b)@.vy,
        final(b)@.last_contact == old(b)@.last_contact,
{
    proof {
        lemma_step_bound(b@.vx, dt as int);
        lemma_step_bound(b@.vy, dt as int);
    }
    b.x = b.x + b.vx * dt;
    b.y = b.y + b.vy * dt;
}

/// One tick's travel along an axis is bounded by the speed cap times the
/// tick length cap.
pub proof fn lemma_step_bound(v: int, dt: int)
    requires
        -MAX_BALL_SPEED <= v <= MAX_BALL_SPEED,
        0 <= dt <= MAX_TICK_MS,
    ensures
        -(MAX_BALL_SPEED as int * MAX_TICK_MS as int) <= v * dt <= MAX_BALL_SPEED as int
            * MAX_TICK_MS as int,
{
    assert(-(MAX_BALL_SPEED as int * MAX_TICK_MS as int) <= v * dt <= MAX_BALL_SPEED as int
        * MAX_TICK_MS as int) by (nonlinear_arith)
        requires
            -MAX_BALL_SPEED <= v <= MAX_BALL_SPEED,
            0 <= dt <= MAX_TICK_MS,
    ;
}

/// Sense of one velocity component in the speed-and-direction encoding.
/// A component of zero counts as `Positive`.
#[derive(Clone, Copy, Debug, PartialEq, Eq, Structural)]
pub enum AxisDir {
    Positive,
    Negative,
}

/// A velocity encoded as a non-negative speed and a direction per axis,
/// the alternate representation of the same physical velocity as the
/// signed vector the ball carries.
#[derive(Clone, Copy, Debug, PartialEq, Eq, Structural)]
pub struct SpeedDir {
    pub speed_x: i64,
    pub dir_x: AxisDir,
    pub speed_y: i64,
    pub dir_y: AxisDir,
}

/// Speed (magnitude) of one velocity component.
pub open spec fn spec_axis_speed(v: int) -> int {
    if v >= 0 {
        v
    } else {
        -v
    }
}

/// Direction of one velocity component.
pub open spec fn spec_axis_dir(v: int) -> AxisDir {
    if v >= 0 {
        AxisDir::Positive
    } else {
        AxisDir::Negative
    }
}

/// Signed velocity component recomposed from a speed and a direction.
pub open spec fn spec_axis_vel(speed: int, dir: AxisDir) -> int {
    match dir {
        AxisDir::Positive => speed,
        AxisDir::Negative => -speed,
    }
}

/// Law: decomposing a velocity component into speed and direction and
/// recomposing it gives the component back unchanged, so the two
/// encodings describe the same physical velocity.
pub proof fn lemma_velocity_round_trip(v: int)
    ensures
        spec_axis_vel(spec_axis_speed(v), spec_axis_dir(v)) == v,
{
}

/// Law: the two encodings integrate to the same position, exactly: a tick
/// computed from the recomposed speed-and-direction form lands where one
/// computed from the signed vector lands.
pub proof fn lemma_encodings_integrate_alike(p: int, v: int, dt: int)
    ensures
        spec_integrate(p, spec_axis_vel(spec_axis_speed(v), spec_axis_dir(v)), dt)
            == spec_integrate(p, v, dt),
{
    lemma_velocity_round_trip(v);
}

/// Encodes the ball's signed velocity vector as speeds and directions.
pub fn to_speed_dir(vx: i64, vy: i64) -> (r: SpeedDir)
    requires
        i64::MIN < vx,
        i64::MIN < vy,
    ensures
        r.speed_x == spec_axis_speed(vx as int),
        r.dir_x == spec_axis_dir(vx as int),
        r.speed_y == spec_axis_speed(vy as int),
        r.dir_y == spec_axis_dir(vy as int),
        r.speed_x >= 0,
        r.speed_y >= 0,
{
    SpeedDir {
        speed_x: if vx >= 0 {
            vx
        } else {
            -vx
        },
        dir_x: if vx >= 0 {
            AxisDir::Positive
        } else {
            AxisDir::Negative
        },
        speed_y: if vy >= 0 {
            vy
        } else {
            -vy
        },
        dir_y: if vy >= 0 {
            AxisDir::Positive
        } else {
            AxisDir::Negative
        },
    }
}

/// Decodes a speed-and-direction velocity back to the signed vector.
pub fn to_velocity(sd: &SpeedDir) -> (r: (i64, i64))
    requires
        sd.speed_x >= 0,
        sd.speed_y >= 0,
    ensures
        r.0 == spec_axis_vel(sd.speed_x as int, sd.dir_x),
        r.1 == spec_axis_vel(sd.speed_y as int, sd.dir_y),
{
    let vx: i64 = match sd.dir_x {
        AxisDir::Positive => sd.speed_x,
        AxisDir::Negative => -sd.speed_x,
    };
    let vy: i64 = match sd.dir_y {
        AxisDir::Positive => sd.speed_y,
        AxisDir::Negative => -sd.speed_y,
    };
    (vx, vy)
}

} // verus!
