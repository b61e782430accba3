use pong_core::consts::{
    BALL_STARTING_SPEED, GOAL_LINE, MAX_BALL_SPEED, MAX_PLAYER_HEIGHT, PLAYER_LOCATION,
    PLAYER_SPEED, UNIT,
};
use pong_core::collision::{bounce_mag, resolve_collisions};
use pong_core::entities::{Ball, CollisionEvent, Paddle, PaddleInput, World};
use pong_core::geom::{paddle_contact_face, Face};
use pong_core::input::move_paddle;
use pong_core::motion::{integrate_ball, to_speed_dir, to_velocity, AxisDir};

fn ball_at(x: i64, y: i64, vx: i64, vy: i64) -> Ball {
    Ball { x, y, vx, vy, last_contact: None }
}

fn paddles() -> (Paddle, Paddle) {
    (Paddle { x: -PLAYER_LOCATION, y: 0 }, Paddle { x: PLAYER_LOCATION, y: 0 })
}

#[test]
fn paddle_up_never_exceeds_max_height() {
    let mut p = Paddle { x: PLAYER_LOCATION, y: 0 };
    let up = PaddleInput { up: true, down: false };
    for _ in 0..200 {
        move_paddle(&mut p, up);
        assert!(p.y <= MAX_PLAYER_HEIGHT);
    }
    assert_eq!(p.y, MAX_PLAYER_HEIGHT);
}

#[test]
fn paddle_down_never_exceeds_max_height() {
    let mut p = Paddle { x: PLAYER_LOCATION, y: 0 };
    let down = PaddleInput { up: false, down: true };
    for _ in 0..200 {
        move_paddle(&mut p, down);
        assert!(p.y >= -MAX_PLAYER_HEIGHT);
    }
    assert_eq!(p.y, -MAX_PLAYER_HEIGHT);
}

#[test]
fn paddle_both_keys_up_wins() {
    let mut p = Paddle { x: PLAYER_LOCATION, y: 0 };
    let both = PaddleInput { up: true, down: true };
    move_paddle(&mut p, both);
    assert_eq!(p.y, PLAYER_SPEED);
}

#[test]
fn paddle_no_keys_stays() {
    let mut p = Paddle { x: PLAYER_LOCATION, y: 10 * PLAYER_SPEED };
    move_paddle(&mut p, PaddleInput { up: false, down: false });
    assert_eq!(p.y, 10 * PLAYER_SPEED);
}

#[test]
fn integration_advances_exactly() {
    // Velocity (100, 0) game units per second for 0.1 s moves (10, 0) units.
    let mut b = ball_at(0, 0, 100_000, 0);
    integrate_ball(&mut b, 100);
    assert_eq!(b.x, 10 * UNIT);
    assert_eq!(b.y, 0);
    assert_eq!(b.vx, 100_000);
    assert_eq!(b.vy, 0);
}

#[test]
fn integration_both_axes() {
    let mut b = ball_at(3 * UNIT, -2 * UNIT, -50_000, 25_000);
    integrate_ball(&mut b, 40);
    assert_eq!(b.x, 3 * UNIT - 2 * UNIT);
    assert_eq!(b.y, -2 * UNIT + UNIT);
}

#[test]
fn speed_dir_round_trip() {
    let cases: [(i64, i64); 5] =
        [(0, 0), (100_000, -50_000), (-175_000, 87_500), (1, -1), (MAX_BALL_SPEED, MAX_BALL_SPEED)];
    for (vx, vy) in cases {
        let sd = to_speed_dir(vx, vy);
        assert!(sd.speed_x >= 0 && sd.speed_y >= 0);
        assert_eq!(to_velocity(&sd), (vx, vy));
    }
}

#[test]
fn speed_dir_integrates_alike() {
    let (vx, vy) = (-125_000_i64, 87_500_i64);
    let sd = to_speed_dir(vx, vy);
    let (rvx, rvy) = to_velocity(&sd);
    let mut a = ball_at(7 * UNIT, -UNIT, vx, vy);
    let mut b = ball_at(7 * UNIT, -UNIT, rvx, rvy);
    integrate_ball(&mut a, 33);
    integrate_ball(&mut b, 33);
    assert_eq!((a.x, a.y), (b.x, b.y));
    assert_eq!(sd.dir_x, AxisDir::Negative);
    assert_eq!(sd.dir_y, AxisDir::Positive);
}

#[test]
fn face_detection_cases() {
    let px = PLAYER_LOCATION;
    // Ball to the left of the right paddle, shallow x penetration.
    assert_eq!(paddle_contact_face(px - 15 * UNIT, 0, px, 0), Some(Face::Left));
    // Ball to the right of the right paddle.
    assert_eq!(paddle_contact_face(px + 15 * UNIT, 0, px, 0), Some(Face::Right));
    // Ball above the paddle, shallow y penetration.
    assert_eq!(paddle_contact_face(px, 80 * UNIT, px, 0), Some(Face::Top));
    // Ball below the paddle.
    assert_eq!(paddle_contact_face(px, -80 * UNIT, px, 0), Some(Face::Bottom));
    // Ball box entirely within the paddle box.
    assert_eq!(paddle_contact_face(px, 0, px, 0), Some(Face::Inside));
    // No overlap.
    assert_eq!(paddle_contact_face(px - 25 * UNIT, 0, px, 0), None);
    assert_eq!(paddle_contact_face(px, 90 * UNIT, px, 0), None);
}

#[test]
fn reflection_left_face_scales_by_eleven_tenths() {
    // vx = +100 units/s into the right paddle's left face comes back as
    // -110 units/s; vy stays.
    let (lp, rp) = paddles();
    let mut b = ball_at(PLAYER_LOCATION - 15 * UNIT, 0, 100_000, 5_000);
    let mut events: Vec<CollisionEvent> = Vec::new();
    resolve_collisions(&mut b, &lp, &rp, 360 * UNIT, 640 * UNIT, 5, &mut events);
    assert_eq!(b.vx, -110_000);
    assert_eq!(b.vy, 5_000);
    assert_eq!(events, vec![CollisionEvent { is_goal: false }]);
    assert_eq!(b.last_contact, Some(5));
}

#[test]
fn reflection_receding_ball_unchanged() {
    // A ball overlapping the same face but already moving away keeps its
    // velocity; the contact is still reported.
    let (lp, rp) = paddles();
    let mut b = ball_at(PLAYER_LOCATION - 15 * UNIT, 0, -100_000, 5_000);
    let mut events: Vec<CollisionEvent> = Vec::new();
    resolve_collisions(&mut b, &lp, &rp, 360 * UNIT, 640 * UNIT, 5, &mut events);
    assert_eq!(b.vx, -100_000);
    assert_eq!(b.vy, 5_000);
    assert_eq!(events.len(), 1);
}

#[test]
fn debounce_two_ticks_one_reflection() {
    // Two consecutive resolves with the ball still overlapping the same
    // paddle reflect exactly once: the grace window keeps the second idle.
    let (lp, rp) = paddles();
    let mut b = ball_at(PLAYER_LOCATION - 15 * UNIT, 0, 100_000, 0);
    let mut events: Vec<CollisionEvent> = Vec::new();
    resolve_collisions(&mut b, &lp, &rp, 360 * UNIT, 640 * UNIT, 7, &mut events);
    assert_eq!(b.vx, -110_000);
    assert_eq!(events.len(), 1);
    resolve_collisions(&mut b, &lp, &rp, 360 * UNIT, 640 * UNIT, 8, &mut events);
    assert_eq!(b.vx, -110_000);
    assert_eq!(events.len(), 1);
    // Two ticks later the window has passed; a still-overlapping ball
    // moving towards the face reflects again.
    resolve_collisions(&mut b, &lp, &rp, 360 * UNIT, 640 * UNIT, 9, &mut events);
    assert_eq!(events.len(), 2);
}

#[test]
fn ceiling_bounce_reflects_vertical() {
    let (lp, rp) = paddles();
    // Ball above the ceiling and still rising: vertical component
    // reflects downwards with the bounce speed-up, horizontal stays.
    let mut b = ball_at(0, 365 * UNIT, 60_000, 100_000);
    let mut events: Vec<CollisionEvent> = Vec::new();
    resolve_collisions(&mut b, &lp, &rp, 360 * UNIT, 640 * UNIT, 3, &mut events);
    assert_eq!(b.vy, -110_000);
    assert_eq!(b.vx, 60_000);
    assert_eq!(events.len(), 1);
}

#[test]
fn wall_bounce_reflects_horizontal() {
    let (lp, rp) = paddles();
    // Court narrower than the goal lines: beyond the right wall the
    // horizontal component reflects back.
    let mut b = ball_at(410 * UNIT, 0, 100_000, 7_000);
    let mut events: Vec<CollisionEvent> = Vec::new();
    resolve_collisions(&mut b, &lp, &rp, 300 * UNIT, 400 * UNIT, 3, &mut events);
    assert_eq!(b.vx, -110_000);
    assert_eq!(b.vy, 7_000);
}

#[test]
fn bounce_speed_is_capped() {
    assert_eq!(bounce_mag(100_000), 110_000);
    assert_eq!(bounce_mag(MAX_BALL_SPEED), MAX_BALL_SPEED);
    assert_eq!(bounce_mag(0), 0);
}

#[test]
fn world_well_formed_ball_stays_within_goal_lines() {
    let w = World::new(true, true);
    assert!(w.ball.x.abs() <= GOAL_LINE);
    assert_eq!(w.ball.vx.abs(), BALL_STARTING_SPEED);
}

#[test]
fn touching_boxes_do_not_overlap() {
    // Centre distance exactly the sum of the half extents: strict
    // comparison, no contact on either axis.
    let px = PLAYER_LOCATION;
    assert_eq!(paddle_contact_face(px - 20 * UNIT, 0, px, 0), None);
    assert_eq!(paddle_contact_face(px, 85 * UNIT, px, 0), None);
    // One micro-unit closer makes contact.
    assert_eq!(paddle_contact_face(px - 20 * UNIT + 1, 0, px, 0), Some(Face::Left));
}
