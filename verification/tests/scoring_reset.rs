use pong_core::consts::{BALL_STARTING_SPEED, GOAL_LINE, PLAYER_LOCATION, PLAYER_SPEED, UNIT};
use pong_core::controller::{new_game, tick, tick_with_signs};
use pong_core::entities::{Ball, Paddle, PaddleInput, Scoreboard, World};
use pong_core::scoring::{score_step, Side};

fn idle() -> PaddleInput {
    PaddleInput { up: false, down: false }
}

fn world_with_ball(b: Ball) -> World {
    World {
        left_paddle: Paddle { x: -PLAYER_LOCATION, y: 0 },
        right_paddle: Paddle { x: PLAYER_LOCATION, y: 0 },
        ball: b,
        scoreboard: Scoreboard { left_score: 0, right_score: 0 },
        tick: 0,
    }
}

const WIDTH: i64 = 1280 * UNIT;
const HEIGHT: i64 = 720 * UNIT;

#[test]
fn ball_past_right_goal_line_scores_left() {
    // x = 450 + 75 + 1 game units lies one unit beyond the goal line.
    let mut sb = Scoreboard { left_score: 0, right_score: 0 };
    let side = score_step(526 * UNIT, &mut sb);
    assert_eq!(side, Some(Side::Left));
    assert_eq!(sb.left_score, 1);
    assert_eq!(sb.right_score, 0);
}

#[test]
fn ball_past_left_goal_line_scores_right() {
    let mut sb = Scoreboard { left_score: 3, right_score: 4 };
    let side = score_step(-526 * UNIT, &mut sb);
    assert_eq!(side, Some(Side::Right));
    assert_eq!(sb.left_score, 3);
    assert_eq!(sb.right_score, 5);
}

#[test]
fn ball_on_goal_line_does_not_score() {
    let mut sb = Scoreboard { left_score: 0, right_score: 0 };
    assert_eq!(score_step(GOAL_LINE, &mut sb), None);
    assert_eq!(score_step(-GOAL_LINE, &mut sb), None);
    assert_eq!((sb.left_score, sb.right_score), (0, 0));
}

#[test]
fn goal_tick_scores_once_and_resets() {
    // The ball crosses the right goal line during the tick: the left
    // player gains exactly one point, a single goal event fires, and the
    // ball and paddles are reset within the same tick.
    let mut w = world_with_ball(Ball { x: 520 * UNIT, y: 0, vx: 100_000, vy: 0, last_contact: None });
    w.left_paddle.y = 10 * PLAYER_SPEED;
    let events = tick_with_signs(&mut w, idle(), idle(), 100, WIDTH, HEIGHT, true, false);
    assert_eq!(w.scoreboard.left_score, 1);
    assert_eq!(w.scoreboard.right_score, 0);
    assert_eq!((w.ball.x, w.ball.y), (0, 0));
    assert_eq!(w.ball.vx, BALL_STARTING_SPEED);
    assert_eq!(w.ball.vy, -(BALL_STARTING_SPEED / 2));
    assert_eq!(w.left_paddle.y, 0);
    assert_eq!(w.right_paddle.y, 0);
    assert_eq!(events.len(), 1);
    assert!(events[0].is_goal);

    // The pass is over; the following tick scores nothing further.
    let events2 = tick_with_signs(&mut w, idle(), idle(), 16, WIDTH, HEIGHT, true, true);
    assert_eq!(w.scoreboard.left_score, 1);
    assert!(events2.iter().all(|e| !e.is_goal));
}

#[test]
fn goal_tick_all_sign_combinations() {
    for (sx, sy) in [(false, false), (false, true), (true, false), (true, true)] {
        let mut w =
            world_with_ball(Ball { x: -520 * UNIT, y: 0, vx: -100_000, vy: 0, last_contact: None });
        let events = tick_with_signs(&mut w, idle(), idle(), 100, WIDTH, HEIGHT, sx, sy);
        assert_eq!(w.scoreboard.right_score, 1);
        assert_eq!(events.len(), 1);
        assert!(events[0].is_goal);
        let expect_vx = if sx { BALL_STARTING_SPEED } else { -BALL_STARTING_SPEED };
        let expect_vy = if sy { BALL_STARTING_SPEED / 2 } else { -(BALL_STARTING_SPEED / 2) };
        assert_eq!(w.ball.vx, expect_vx);
        assert_eq!(w.ball.vy, expect_vy);
    }
}

#[test]
fn random_reset_speeds_have_fixed_magnitude() {
    // Through the randomized tick: whatever signs were drawn, the serve
    // speed is the starting speed horizontally and half of it vertically.
    for _ in 0..8 {
        let mut w =
            world_with_ball(Ball { x: 520 * UNIT, y: 0, vx: 100_000, vy: 0, last_contact: None });
        let events = tick(&mut w, idle(), idle(), 100, WIDTH, HEIGHT);
        assert_eq!(w.scoreboard.left_score, 1);
        assert!(events.iter().any(|e| e.is_goal));
        assert_eq!(w.ball.vx.abs(), BALL_STARTING_SPEED);
        assert_eq!(w.ball.vy.abs(), BALL_STARTING_SPEED / 2);
    }
}

#[test]
fn random_serve_shows_both_signs() {
    // Statistical check on the serve signs: over many fresh games each
    // axis shows both directions. A miss has probability 2^-63 per axis.
    let mut seen_pos_x = false;
    let mut seen_neg_x = false;
    let mut seen_pos_y = false;
    let mut seen_neg_y = false;
    for _ in 0..64 {
        let w = new_game();
        assert_eq!(w.ball.vx.abs(), BALL_STARTING_SPEED);
        assert_eq!(w.ball.vy.abs(), BALL_STARTING_SPEED / 2);
        if w.ball.vx > 0 {
            seen_pos_x = true;
        } else {
            seen_neg_x = true;
        }
        if w.ball.vy > 0 {
            seen_pos_y = true;
        } else {
            seen_neg_y = true;
        }
    }
    assert!(seen_pos_x && seen_neg_x && seen_pos_y && seen_neg_y);
}

#[test]
fn scores_never_decrease_over_a_rally() {
    let mut w = new_game();
    let mut last = (0_u32, 0_u32);
    let up = PaddleInput { up: true, down: false };
    let down = PaddleInput { up: false, down: true };
    for i in 0..2000_u32 {
        let (li, ri) = if i % 3 == 0 { (up, down) } else { (down, up) };
        tick(&mut w, li, ri, 16, WIDTH, HEIGHT);
        let now = (w.scoreboard.left_score, w.scoreboard.right_score);
        assert!(now.0 >= last.0 && now.1 >= last.1);
        assert!(w.ball.x.abs() <= GOAL_LINE);
        assert!(w.left_paddle.y.abs() <= pong_core::consts::MAX_PLAYER_HEIGHT);
        last = now;
    }
}

#[test]
fn tick_counter_advances() {
    let mut w = new_game();
    tick_with_signs(&mut w, idle(), idle(), 16, WIDTH, HEIGHT, true, true);
    tick_with_signs(&mut w, idle(), idle(), 16, WIDTH, HEIGHT, true, true);
    assert_eq!(w.tick, 2);
}

#[test]
fn serve_reaching_goal_line_exactly_does_not_score() {
    // From the centre at the starting speed, three seconds of travel land
    // exactly on the goal line, which is not beyond it.
    let mut w = world_with_ball(Ball { x: 0, y: 0, vx: BALL_STARTING_SPEED, vy: 0, last_contact: None });
    let events = tick_with_signs(&mut w, idle(), idle(), 3000, WIDTH, HEIGHT, true, true);
    assert_eq!(w.scoreboard.left_score, 0);
    assert_eq!(w.ball.x, GOAL_LINE);
    assert!(events.iter().all(|e| !e.is_goal));
}

#[test]
fn longer_serve_crossing_goal_line_is_a_new_pass() {
    // One millisecond more of travel crosses the line: a genuine new pass,
    // scored as such.
    let mut w = world_with_ball(Ball { x: 0, y: 0, vx: BALL_STARTING_SPEED, vy: 0, last_contact: None });
    let events = tick_with_signs(&mut w, idle(), idle(), 3001, WIDTH, HEIGHT, true, true);
    assert_eq!(w.scoreboard.left_score, 1);
    assert!(events.iter().any(|e| e.is_goal));
}
