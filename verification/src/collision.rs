//! The collision resolver: detects the ball's contacts against the two
//! paddles and the four court boundaries, reflects the velocity component
//! that is moving into the obstacle, speeds the reflected component up by
//! the bounce multiplier, and emits one event per contact.
//!
//! Order within a tick is fixed: left paddle, right paddle, then
//! boundaries. A grace window keeps the resolver idle for the tick after
//! a recorded contact, so one sustained overlap reflects the ball once.

use vstd::prelude::*;

use crate::consts::{BOUNCE_DEN, BOUNCE_NUM, GRACE_TICKS, MAX_BALL_SPEED};
use crate::entities::{Ball, BallView, CollisionEvent, Paddle, PaddleView};
use crate::geom::{paddle_contact_face, spec_paddle_face, Face};

verus! {

/// The grace window is active: a contact is recorded and lies at most
/// `GRACE_TICKS` ticks in the past, so the resolver stays idle.
pub open spec fn spec_grace_active(last_contact: Option<u64>, tick: u64) -> bool {
    match last_contact {
        Some(l) => tick as int - l as int <= GRACE_TICKS as int,
        None => false,
    }
}

/// Speed of a reflected component: scaled by `BOUNCE_NUM / BOUNCE_DEN`
/// and capped at `MAX_BALL_SPEED`.
pub open spec fn spec_bounce_mag(m: int) -> int
    recommends
        0 <= m,
{
    if m * (BOUNCE_NUM as int) / (BOUNCE_DEN as int) > MAX_BALL_SPEED {
        MAX_BALL_SPEED as int
    } else {
        m * (BOUNCE_NUM as int) / (BOUNCE_DEN as int)
    }
}

/// Velocity after a contact on `face`: only the component moving into the
/// obstacle is reflected, and the reflected component is sped up by the
/// bounce multiplier. A component already receding, and any contact
/// reported as `Inside`, leaves the velocity unchanged.
pub open spec fn spec_reflect(face: Face, vx: int, vy: int) -> (int, int) {
    match face {
        Face::Left => if vx > 0 {
            (-spec_bounce_mag(vx), vy)
        } else {
            (vx, vy)
        },
        Face::Right => if vx < 0 {
            (spec_bounce_mag(-vx), vy)
        } else {
            (vx, vy)
        },
        Face::Top => if vy < 0 {
            (vx, spec_bounce_mag(-vy))
        } else {
            (vx, vy)
        },
        Face::Bottom => if vy > 0 {
            (vx, -spec_bounce_mag(vy))
        } else {
            (vx, vy)
        },
        Face::Inside => (vx, vy),
    }
}

/// Velocity after an optional contact: unchanged when there is none.
pub open spec fn spec_apply_face(face: Option<Face>, vx: int, vy: int) -> (int, int) {
    match face {
        Some(f) => spec_reflect(f, vx, vy),
        None => (vx, vy),
    }
}

/// Boundary contact of the ball centre against the court: beyond the
/// ceiling the ball strikes the underside (`Bottom`) of the boundary,
/// beyond the floor its top, beyond the right wall the wall's left side,
/// beyond the left wall its right side. Checked in that order.
pub open spec fn spec_boundary_face(x: int, y: int, ceiling: int, wall: int) -> Option<Face> {
    if y > ceiling {
        Some(Face::Bottom)
    } else if y < -ceiling {
        Some(Face::Top)
    } else if x > wall {
        Some(Face::Left)
    } else if x < -wall {
        Some(Face::Right)
    } else {
        None
    }
}

/// One event per detected contact, in resolution order.
pub open spec fn spec_resolve_events(
    left_face: Option<Face>,
    right_face: Option<Face>,
    boundary_face: Option<Face>,
) -> Seq<CollisionEvent> {
    (if left_face is Some {
        seq![CollisionEvent { is_goal: false }]
    } else {
        Seq::<CollisionEvent>::empty()
    }) + (if right_face is Some {
        seq![CollisionEvent { is_goal: false }]
    } else {
        Seq::<CollisionEvent>::empty()
    }) + (if boundary_face is Some {
        seq![CollisionEvent { is_goal: false }]
    } else {
        Seq::<CollisionEvent>::empty()
    })
}

/// Ball state and events after one tick of collision resolution: idle
/// while the grace window is active; otherwise the left paddle, the right
/// paddle and the boundaries are resolved in that order, each reflecting
/// the current velocity in turn, and any contact records the tick.
pub open spec fn spec_resolve(
    ball: BallView,
    lp: PaddleView,
    rp: PaddleView,
    ceiling: int,
    wall: int,
    tick: u64,
) -> (BallView, Seq<CollisionEvent>) {
    if spec_grace_active(ball.last_contact, tick) {
        (ball, Seq::<CollisionEvent>::empty())
    } else {
        let left_face = spec_paddle_face(ball.x, ball.y, lp.x, lp.y);
        let right_face = spec_paddle_face(ball.x, ball.y, rp.x, rp.y);
        let boundary_face = spec_boundary_face(ball.x, ball.y, ceiling, wall);
        let v1 = spec_apply_face(left_face, ball.vx, ball.vy);
        let v2 = spec_apply_face(right_face, v1.0, v1.1);
        let v3 = spec_apply_face(boundary_face, v2.0, v2.1);
        let contact = left_face is Some || right_face is Some || boundary_face is Some;
        (
            BallView {
                x: ball.x,
                y: ball.y,
                vx: v3.0,
                vy: v3.1,
                last_contact: if contact {
                    Some(tick)
                } else {
                    ball.last_contact
                },
            },
            spec_resolve_events(left_face, right_face, boundary_face),
        )
    }
}

/// Scaled speed of a reflected component, capped at `MAX_BALL_SPEED`.
pub fn bounce_mag(m: i64) -> (r: i64)
    requires
        0 <= m <= MAX_BALL_SPEED,
    ensures
        r == spec_bounce_mag(m as int),
        0 <= r <= MAX_BALL_SPEED,
{
    let scaled: i64 = m * BOUNCE_NUM / BOUNCE_DEN;
    if scaled > MAX_BALL_SPEED {
        MAX_BALL_SPEED
    } else {
        scaled
    }
}

/// Reflects the ball's velocity for a contact on `face`, leaving the
/// position and the contact record untouched.
fn apply_reflect(b: &mut Ball, face: Face)
    requires
        -MAX_BALL_SPEED <= old(b)@.vx <= MAX_BALL_SPEED,
        -MAX_BALL_SPEED <= old(b)@.vy <= MAX_BALL_SPEED,
    ensures
        (final(b)@.vx, final(b)@.vy) == spec_reflect(face, old(b)@.vx, old(b)@.vy),
        -MAX_BALL_SPEED <= final(b)@.vx <= MAX_BALL_SPEED,
        -MAX_BALL_SPEED <= final(b)@.vy <= MAX_BALL_SPEED,
        final(b)@.x == old(b)@.x,
        final(b)@.y == old(b)@.y,
        final(b)@.last_contact == old(b)@.last_contact,
{
    match face {
        Face::Left => {
            if b.vx > 0 {
                b.vx = -bounce_mag(b.vx);
            }
        },
        Face::Right => {
            if b.vx < 0 {
                b.vx = bounce_mag(-b.vx);
            }
        },
        Face::Top => {
            if b.vy < 0 {
                b.vy = bounce_mag(-b.vy);
            }
        },
        Face::Bottom => {
            if b.vy > 0 {
                b.vy = -bounce_mag(b.vy);
            }
        },
        Face::Inside => {},
    }
}

/// Resolves one tick of collisions against the two paddles and the court
/// boundaries, reflecting the ball's velocity and appending one event per
/// contact, exactly as `spec_resolve` says.
pub fn resolve_collisions(
    b: &mut Ball,
    lp: &Paddle,
    rp: &Paddle,
    ceiling: i64,
    wall: i64,
    tick: u64,
    events: &mut Vec<CollisionEvent>,
)
    requires
        -MAX_BALL_SPEED <= old(b)@.vx <= MAX_BALL_SPEED,
        -MAX_BALL_SPEED <= old(b)@.vy <= MAX_BALL_SPEED,
        match old(b)@.last_contact {
            Some(l) => l <= tick,
            None => true,
        },
        i64::MIN < ceiling,
        i64::MIN < wall,
    ensures
        final(b)@ == spec_resolve(old(b)@, lp@, rp@, ceiling as int, wall as int, tick).0,
        final(events)@ == old(events)@ + spec_resolve(
            old(b)@,
            lp@,
            rp@,
            ceiling as int,
            wall as int,
            tick,
        ).1,
{
    let ghost spec_result = spec_resolve(b@, lp@, rp@, ceiling as int, wall as int, tick);

    if let Some(l) = b.last_contact {
        if tick - l <= GRACE_TICKS {
            proof {
                assert(events@ =~= old(events)@ + Seq::<CollisionEvent>::empty());
            }
            return ;
        }
    }

    let left_face = paddle_contact_face(b.x, b.y, lp.x, lp.y);
    let right_face = paddle_contact_face(b.x, b.y, rp.x, rp.y);
    let boundary_face = boundary_contact_face(b.x, b.y, ceiling, wall);

    if let Some(f) = left_face {
        apply_reflect(b, f);
    }
    if let Some(f) = right_face {
        apply_reflect(b, f);
    }
    if let Some(f) = boundary_face {
        apply_reflect(b, f);
    }

    let mut contact = false;
    if left_face.is_some() {
        events.push(CollisionEvent { is_goal: false });
        contact = true;
    }
    if right_face.is_some() {
        events.push(CollisionEvent { is_goal: false });
        contact = true;
    }
    if boundary_face.is_some() {
        events.push(CollisionEvent { is_goal: false });
        contact = true;
    }
    if contact {
        b.last_contact = Some(tick);
    }

    proof {
        assert(events@ =~= old(events)@ + spec_result.1);
        assert(b@ == spec_result.0);
    }
}

/// Boundary contact of the ball centre, as `spec_boundary_face` says.
pub fn boundary_contact_face(x: i64, y: i64, ceiling: i64, wall: i64) -> (r: Option<Face>)
    requires
        i64::MIN < ceiling,
        i64::MIN < wall,
    ensures
        r == spec_boundary_face(x as int, y as int, ceiling as int, wall as int),
{
    if y > ceiling {
        Some(Face::Bottom)
    } else if y < -ceiling {
        Some(Face::Top)
    } else if x > wall {
        Some(Face::Left)
    } else if x < -wall {
        Some(Face::Right)
    } else {
        None
    }
}

/// Law (reflection sign rule): on a `Left` face contact only a component
/// moving into the obstacle is reflected. A positive `vx` (below the
/// speed cap's reach) comes back as `-(vx * BOUNCE_NUM / BOUNCE_DEN)`
/// with `vy` untouched; a non-positive `vx` — a ball already receding —
/// is left entirely unchanged.
pub proof fn lemma_reflection_sign_rule(vx: int, vy: int)
    ensures
        vx > 0 && vx * (BOUNCE_NUM as int) / (BOUNCE_DEN as int) <= MAX_BALL_SPEED ==> spec_reflect(
            Face::Left,
            vx,
            vy,
        ) == (-(vx * (BOUNCE_NUM as int) / (BOUNCE_DEN as int)), vy),
        vx <= 0 ==> spec_reflect(Face::Left, vx, vy) == (vx, vy),
        spec_reflect(Face::Left, vx, vy).1 == vy,
{
}

/// Law (debounce): any contact recorded by a resolve stamps the ball with
/// the current tick.
pub proof fn lemma_contact_recorded(
    ball: BallView,
    lp: PaddleView,
    rp: PaddleView,
    ceiling: int,
    wall: int,
    tick: u64,
)
    ensures
        spec_resolve(ball, lp, rp, ceiling, wall, tick).1.len() > 0 ==> spec_resolve(
            ball,
            lp,
            rp,
            ceiling,
            wall,
            tick,
        ).0.last_contact == Some(tick),
{
}

/// Law (debounce): on the tick right after a recorded contact the
/// resolver is idle — whatever the ball still overlaps, it is not
/// reflected again and no event is emitted. Together with
/// `lemma_contact_recorded`, two consecutive ticks of sustained overlap
/// produce exactly one reflection.
pub proof fn lemma_debounce(
    ball: BallView,
    lp: PaddleView,
    rp: PaddleView,
    ceiling: int,
    wall: int,
    tick: u64,
)
    requires
        ball.last_contact == Some(tick),
        tick < u64::MAX,
    ensures
        spec_resolve(ball, lp, rp, ceiling, wall, (tick + 1) as u64) == (
            ball,
            Seq::<CollisionEvent>::empty(),
        ),
{
}

} // verus!
