//! The round controller: one simulation tick in its fixed order — input
//! mapping for both paddles, ball integration, collision resolution
//! (paddles before walls), goal detection and tally, and, when a goal was
//! scored, an atomic reset of ball and paddles within the same tick. The
//! serve direction after a reset comes from two independent random sign
//! draws.

use vstd::prelude::*;

use crate::consts::{
    BALL_STARTING_SPEED, GOAL_LINE, MAX_BALL_SPEED, MAX_COORD, MAX_PLAYER_HEIGHT, MAX_TICK_MS,
    PLAYER_HALF_HEIGHT, PLAYER_HALF_WIDTH, PLAYER_SPEED,
};
use crate::collision::{resolve_collisions, spec_resolve};
use crate::entities::{
    spec_start_vx, spec_start_vy, Ball, BallView, CollisionEvent, PaddleInput, PaddleView, World,
    WorldView,
};
use crate::input::{move_paddle, spec_move_paddle};
use crate::motion::{integrate_ball, spec_integrate};
use crate::scoring::{score_step, spec_apply_goal, spec_goal_side, Side};

verus! {

/// Ball after a goal reset: back at the court centre, served with the
/// starting speed towards the sides the two drawn signs pick. The contact
/// record is left as it is; at the centre it can suppress nothing.
pub open spec fn spec_reset_ball(b: BallView, sign_x: bool, sign_y: bool) -> BallView {
    BallView {
        x: 0,
        y: 0,
        vx: spec_start_vx(sign_x),
        vy: spec_start_vy(sign_y),
        last_contact: b.last_contact,
    }
}

/// Paddle after a goal reset: vertically centred on its own line.
pub open spec fn spec_reset_paddle(p: PaddleView) -> PaddleView {
    PaddleView { x: p.x, y: 0 }
}

/// What a tick accepts: a well-formed world, a vertical ball position and
/// viewport extents within the coordinate bound, a tick length within the
/// cap, and room left on the tick counter. These bounds are what keeps
/// every position computation inside `i64`.
pub open spec fn spec_tick_pre(w: WorldView, dt: int, width: int, height: int) -> bool {
    &&& w.wf()
    &&& -MAX_COORD <= w.ball.y <= MAX_COORD
    &&& 0 <= dt <= MAX_TICK_MS
    &&& 0 <= width <= MAX_COORD
    &&& 0 <= height <= MAX_COORD
    &&& w.tick < u64::MAX
}

/// One simulation tick: paddles move by the held keys, the ball advances
/// by `dt` milliseconds, collisions are resolved against the moved
/// paddles and the court derived from the viewport (`ceiling` is half the
/// height, `wall` half the width), a goal is detected against the
/// resolved ball and tallied, and a goal resets ball and paddles in the
/// same tick and appends one goal event after the tick's bounce events.
/// The tick counter always advances by one.
pub open spec fn spec_tick(
    w: WorldView,
    left_input: PaddleInput,
    right_input: PaddleInput,
    dt: int,
    width: int,
    height: int,
    sign_x: bool,
    sign_y: bool,
) -> (WorldView, Seq<CollisionEvent>) {
    let lp = PaddleView { x: w.left_paddle.x, y: spec_move_paddle(w.left_paddle.y, left_input) };
    let rp = PaddleView {
        x: w.right_paddle.x,
        y: spec_move_paddle(w.right_paddle.y, right_input),
    };
    let moved = BallView {
        x: spec_integrate(w.ball.x, w.ball.vx, dt),
        y: spec_integrate(w.ball.y, w.ball.vy, dt),
        vx: w.ball.vx,
        vy: w.ball.vy,
        last_contact: w.ball.last_contact,
    };
    let resolved = spec_resolve(moved, lp, rp, height / 2, width / 2, w.tick);
    let side = spec_goal_side(resolved.0.x);
    let scoreboard = spec_apply_goal(w.scoreboard, side);
    let ball = if side is Some {
        spec_reset_ball(resolved.0, sign_x, sign_y)
    } else {
        resolved.0
    };
    let left_paddle = if side is Some {
        spec_reset_paddle(lp)
    } else {
        lp
    };
    let right_paddle = if side is Some {
        spec_reset_paddle(rp)
    } else {
        rp
    };
    let events = resolved.1 + (if side is Some {
        seq![CollisionEvent { is_goal: true }]
    } else {
        Seq::<CollisionEvent>::empty()
    });
    (
        WorldView {
            left_paddle,
            right_paddle,
            ball,
            scoreboard,
            tick: (w.tick + 1) as u64,
        },
        events,
    )
}

/// Runs one tick with the two serve signs given by the caller, exactly as
/// `spec_tick` says. Well-formedness is preserved, both tallies are
/// non-decreasing, and the ball's vertical position stays within one
/// capped step of the coordinate bound.
pub fn tick_with_signs(
    w: &mut World,
    left_input: PaddleInput,
    right_input: PaddleInput,
    dt: i64,
    width: i64,
    height: i64,
    sign_x: bool,
    sign_y: bool,
) -> (events: Vec<CollisionEvent>)
    requires
        spec_tick_pre(old(w)@, dt as int, width as int, height as int),
    ensures
        final(w)@ == spec_tick(
            old(w)@,
            left_input,
            right_input,
            dt as int,
            width as int,
            height as int,
            sign_x,
            sign_y,
        ).0,
        events@ == spec_tick(
            old(w)@,
            left_input,
            right_input,
            dt as int,
            width as int,
            height as int,
            sign_x,
            sign_y,
        ).1,
        final(w)@.wf(),
        -(MAX_COORD as int) - MAX_BALL_SPEED as int * MAX_TICK_MS as int <= final(w)@.ball.y
            <= MAX_COORD as int + MAX_BALL_SPEED as int * MAX_TICK_MS as int,
        final(w)@.scoreboard.left_score >= old(w)@.scoreboard.left_score,
        final(w)@.scoreboard.right_score >= old(w)@.scoreboard.right_score,
        final(w)@.tick == old(w)@.tick + 1,
{
    let ghost w0 = w@;
    let ghost expected = spec_tick(
        w@,
        left_input,
        right_input,
        dt as int,
        width as int,
        height as int,
        sign_x,
        sign_y,
    );

    move_paddle(&mut w.left_paddle, left_input);
    move_paddle(&mut w.right_paddle, right_input);
    integrate_ball(&mut w.ball, dt);

    let ceiling: i64 = height / 2;
    let wall: i64 = width / 2;
    let mut events: Vec<CollisionEvent> = Vec::new();
    resolve_collisions(
        &mut w.ball,
        &w.left_paddle,
        &w.right_paddle,
        ceiling,
        wall,
        w.tick,
        &mut events,
    );

    let side = score_step(w.ball.x, &mut w.scoreboard);
    if side.is_some() {
        w.ball.x = 0;
        w.ball.y = 0;
        w.ball.vx = if sign_x {
            BALL_STARTING_SPEED
        } else {
            -BALL_STARTING_SPEED
        };
        w.ball.vy = if sign_y {
            BALL_STARTING_SPEED / 2
        } else {
            -(BALL_STARTING_SPEED / 2)
        };
        w.left_paddle.y = 0;
        w.right_paddle.y = 0;
        events.push(CollisionEvent { is_goal: true });
    }
    w.tick = w.tick + 1;

    proof {
        crate::motion::lemma_step_bound(w0.ball.vy, dt as int);
        assert(events@ =~= expected.1);
        assert(w@ == expected.0);
    }
    events
}

/// Relies on `rand::random::<bool>`: a fresh draw from the thread-local
/// generator, each value with probability one half and successive draws
/// independent. Nothing can be promised of a single outcome.
#[verifier::external_body]
fn random_sign() -> bool {
    rand::random::<bool>()
}

/// Runs one tick, drawing the two serve signs from the process-wide
/// random source. The result is `spec_tick` for some pair of signs; all
/// the sign-independent guarantees of `tick_with_signs` hold of every
/// outcome.
pub fn tick(
    w: &mut World,
    left_input: PaddleInput,
    right_input: PaddleInput,
    dt: i64,
    width: i64,
    height: i64,
) -> (events: Vec<CollisionEvent>)
    requires
        spec_tick_pre(old(w)@, dt as int, width as int, height as int),
    ensures
        exists|sign_x: bool, sign_y: bool|
            {
                let r = #[trigger] spec_tick(
                    old(w)@,
                    left_input,
                    right_input,
                    dt as int,
                    width as int,
                    height as int,
                    sign_x,
                    sign_y,
                );
                final(w)@ == r.0 && events@ == r.1
            },
        final(w)@.wf(),
        final(w)@.scoreboard.left_score >= old(w)@.scoreboard.left_score,
        final(w)@.scoreboard.right_score >= old(w)@.scoreboard.right_score,
        final(w)@.tick == old(w)@.tick + 1,
{
    let sign_x = random_sign();
    let sign_y = random_sign();
    tick_with_signs(w, left_input, right_input, dt, width, height, sign_x, sign_y)
}

/// Starts a fresh game, drawing the serve signs from the process-wide
/// random source: the serve speed is `BALL_STARTING_SPEED` horizontally
/// and half of it vertically, towards sides that nothing here can
/// promise.
pub fn new_game() -> (r: World)
    ensures
        r@.wf(),
        r@.scoreboard.left_score == 0,
        r@.scoreboard.right_score == 0,
        r@.tick == 0,
        r@.ball.x == 0,
        r@.ball.y == 0,
        r@.ball.vx == spec_start_vx(true) || r@.ball.vx == spec_start_vx(false),
        r@.ball.vy == spec_start_vy(true) || r@.ball.vy == spec_start_vy(false),
{
    let sign_x = random_sign();
    let sign_y = random_sign();
    World::new(sign_x, sign_y)
}

/// Law (goal detection and reset): when the integrated ball passes the
/// right-hand goal line, the tick awards the left player exactly one
/// point (its tally takes one step, the other side's is untouched), the
/// ball and both paddles are reset within the same tick, the serve speed
/// is the starting speed horizontally and half of it vertically, and the
/// tick's events end with exactly one goal event.
pub proof fn lemma_goal_scores_and_resets(
    w: WorldView,
    left_input: PaddleInput,
    right_input: PaddleInput,
    dt: int,
    width: int,
    height: int,
    sign_x: bool,
    sign_y: bool,
)
    requires
        spec_tick_pre(w, dt, width, height),
        spec_integrate(w.ball.x, w.ball.vx, dt) > GOAL_LINE,
    ensures
        ({
            let (w2, events) = spec_tick(
                w,
                left_input,
                right_input,
                dt,
                width,
                height,
                sign_x,
                sign_y,
            );
            &&& w2.scoreboard.left_score == crate::scoring::spec_tally_after_goal(
                w.scoreboard.left_score,
            )
            &&& w2.scoreboard.right_score == w.scoreboard.right_score
            &&& w2.ball.x == 0
            &&& w2.ball.y == 0
            &&& w2.ball.vx == spec_start_vx(sign_x)
            &&& w2.ball.vy == spec_start_vy(sign_y)
            &&& (w2.ball.vx == BALL_STARTING_SPEED || w2.ball.vx == -(BALL_STARTING_SPEED as int))
            &&& (w2.ball.vy == BALL_STARTING_SPEED as int / 2 || w2.ball.vy == -(
            BALL_STARTING_SPEED as int / 2))
            &&& w2.left_paddle.y == 0
            &&& w2.right_paddle.y == 0
            &&& events.len() > 0
            &&& events.last().is_goal
            &&& forall|i: int| 0 <= i < events.len() - 1 ==> !(#[trigger] events[i]).is_goal
        }),
{
    let moved_x = spec_integrate(w.ball.x, w.ball.vx, dt);
    let lp = PaddleView { x: w.left_paddle.x, y: spec_move_paddle(w.left_paddle.y, left_input) };
    let rp = PaddleView {
        x: w.right_paddle.x,
        y: spec_move_paddle(w.right_paddle.y, right_input),
    };
    let moved = BallView {
        x: moved_x,
        y: spec_integrate(w.ball.y, w.ball.vy, dt),
        vx: w.ball.vx,
        vy: w.ball.vy,
        last_contact: w.ball.last_contact,
    };
    let resolved = spec_resolve(moved, lp, rp, height / 2, width / 2, w.tick);
    assert(resolved.0.x == moved_x);
    assert(spec_goal_side(resolved.0.x) == Some(Side::Left));
    assert(forall|i: int|
        0 <= i < resolved.1.len() ==> !(#[trigger] resolved.1[i]).is_goal);
}

/// Law (one goal per pass): right after a goal the ball serves from the
/// centre at the starting speed, so as long as one tick's travel at that
/// speed stays within the goal line, the following tick can score no
/// goal: both tallies and the events stay goal-free. A tick so long that
/// the serve itself crosses a goal line (here, beyond three seconds) is a
/// genuine new pass and is not covered.
pub proof fn lemma_no_goal_right_after_reset(
    w: WorldView,
    left_input: PaddleInput,
    right_input: PaddleInput,
    dt: int,
    width: int,
    height: int,
    sign_x: bool,
    sign_y: bool,
)
    requires
        spec_tick_pre(w, dt, width, height),
        w.ball.x == 0,
        w.ball.vx == BALL_STARTING_SPEED || w.ball.vx == -(BALL_STARTING_SPEED as int),
        BALL_STARTING_SPEED * dt <= GOAL_LINE,
    ensures
        ({
            let (w2, events) = spec_tick(
                w,
                left_input,
                right_input,
                dt,
                width,
                height,
                sign_x,
                sign_y,
            );
            &&& w2.scoreboard == w.scoreboard
            &&& forall|i: int| 0 <= i < events.len() ==> !(#[trigger] events[i]).is_goal
        }),
{
    assert(-GOAL_LINE <= w.ball.vx * dt <= GOAL_LINE) by (nonlinear_arith)
        requires
            w.ball.vx == BALL_STARTING_SPEED || w.ball.vx == -(BALL_STARTING_SPEED as int),
            0 <= dt,
            0 <= BALL_STARTING_SPEED,
            BALL_STARTING_SPEED * dt <= GOAL_LINE,
    ;
    let moved_x = spec_integrate(w.ball.x, w.ball.vx, dt);
    assert(-GOAL_LINE <= moved_x <= GOAL_LINE);
    assert(spec_goal_side(moved_x) is None);
}

/// Law (debounce across ticks): a tick whose events include a bounce
/// leaves the ball stamped with that tick's number, so the very next
/// tick's resolver is idle whatever the ball still overlaps: it emits no
/// bounce event, and unless that next tick scores a goal, the ball's
/// velocity comes through it unchanged. Two consecutive ticks of
/// sustained overlap therefore reflect the ball exactly once.
pub proof fn lemma_debounce_across_ticks(
    w: WorldView,
    li1: PaddleInput,
    ri1: PaddleInput,
    dt1: int,
    width1: int,
    height1: int,
    sx1: bool,
    sy1: bool,
    li2: PaddleInput,
    ri2: PaddleInput,
    dt2: int,
    width2: int,
    height2: int,
    sx2: bool,
    sy2: bool,
)
    requires
        spec_tick_pre(w, dt1, width1, height1),
        exists|i: int|
            0 <= i < spec_tick(w, li1, ri1, dt1, width1, height1, sx1, sy1).1.len() && !(
            #[trigger] spec_tick(w, li1, ri1, dt1, width1, height1, sx1, sy1).1[i]).is_goal,
    ensures
        ({
            let w1 = spec_tick(w, li1, ri1, dt1, width1, height1, sx1, sy1).0;
            let (w2, events2) = spec_tick(w1, li2, ri2, dt2, width2, height2, sx2, sy2);
            &&& forall|i: int| 0 <= i < events2.len() ==> (#[trigger] events2[i]).is_goal
            &&& (spec_goal_side(spec_integrate(w1.ball.x, w1.ball.vx, dt2)) is None ==> {
                &&& w2.ball.vx == w1.ball.vx
                &&& w2.ball.vy == w1.ball.vy
                &&& events2.len() == 0
            })
        }),
{
    let lp1 = PaddleView { x: w.left_paddle.x, y: spec_move_paddle(w.left_paddle.y, li1) };
    let rp1 = PaddleView { x: w.right_paddle.x, y: spec_move_paddle(w.right_paddle.y, ri1) };
    let moved1 = BallView {
        x: spec_integrate(w.ball.x, w.ball.vx, dt1),
        y: spec_integrate(w.ball.y, w.ball.vy, dt1),
        vx: w.ball.vx,
        vy: w.ball.vy,
        last_contact: w.ball.last_contact,
    };
    let resolved1 = spec_resolve(moved1, lp1, rp1, height1 / 2, width1 / 2, w.tick);
    let events1 = spec_tick(w, li1, ri1, dt1, width1, height1, sx1, sy1).1;
    let i = choose|i: int| 0 <= i < events1.len() && !(#[trigger] events1[i]).is_goal;
    assert(i < resolved1.1.len());
    crate::collision::lemma_contact_recorded(
        moved1,
        lp1,
        rp1,
        height1 / 2,
        width1 / 2,
        w.tick,
    );
    let w1 = spec_tick(w, li1, ri1, dt1, width1, height1, sx1, sy1).0;
    assert(w1.ball.last_contact == Some(w.tick));
    assert(w1.tick == w.tick + 1);
    let moved2 = BallView {
        x: spec_integrate(w1.ball.x, w1.ball.vx, dt2),
        y: spec_integrate(w1.ball.y, w1.ball.vy, dt2),
        vx: w1.ball.vx,
        vy: w1.ball.vy,
        last_contact: w1.ball.last_contact,
    };
    assert(crate::collision::spec_grace_active(moved2.last_contact, w1.tick));
    let lp2 = PaddleView { x: w1.left_paddle.x, y: spec_move_paddle(w1.left_paddle.y, li2) };
    let rp2 = PaddleView { x: w1.right_paddle.x, y: spec_move_paddle(w1.right_paddle.y, ri2) };
    assert(spec_resolve(moved2, lp2, rp2, height2 / 2, width2 / 2, w1.tick) == (
        moved2,
        Seq::<CollisionEvent>::empty(),
    ));
}

/// Law (startup configuration): the court geometry the constants describe
/// is non-degenerate — paddles and ball have positive extents, the goal
/// lines lie beyond the paddle lines, the serve speed is positive and
/// within the cap, and the paddle range is a whole number of paddle
/// steps.
pub proof fn lemma_constants_valid()
    ensures
        PLAYER_HALF_WIDTH > 0,
        PLAYER_HALF_HEIGHT > 0,
        crate::consts::BALL_RADIUS > 0,
        GOAL_LINE > crate::consts::PLAYER_LOCATION,
        0 < BALL_STARTING_SPEED <= MAX_BALL_SPEED,
        PLAYER_SPEED > 0,
        (MAX_PLAYER_HEIGHT as int) % (PLAYER_SPEED as int) == 0,
{
}

} // verus!
