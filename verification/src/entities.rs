//! The entity model: paddles, ball, scoreboard, collision events and the
//! world that ties them together, each with a ghost view over mathematical
//! integers and a well-formedness predicate.

use vstd::prelude::*;

use crate::consts::{
    BALL_STARTING_SPEED, GOAL_LINE, MAX_BALL_SPEED, MAX_PLAYER_HEIGHT, PLAYER_LOCATION,
    PLAYER_SPEED,
};

verus! {

/// The direction keys held for one paddle during one tick.
#[derive(Clone, Copy, Debug, PartialEq, Eq, Structural)]
pub struct PaddleInput {
    pub up: bool,
    pub down: bool,
}

/// A paddle, as the centre of a fixed-size rectangle. `x` never changes
/// after construction; `y` is moved by the input mapper and reset when a
/// goal is scored.
#[derive(Clone, Copy, Debug, PartialEq, Eq, Structural)]
pub struct Paddle {
    pub x: i64,
    pub y: i64,
}

/// Mathematical view of a paddle.
pub ghost struct PaddleView {
    pub x: int,
    pub y: int,
}

impl View for Paddle {
    type V = PaddleView;

    open spec fn view(&self) -> PaddleView {
        PaddleView { x: self.x as int, y: self.y as int }
    }
}

impl PaddleView {
    /// A paddle's centre stays within the court's vertical play range and,
    /// since it starts centred and moves in whole steps of `PLAYER_SPEED`,
    /// is always a multiple of that step.
    pub open spec fn wf(self) -> bool {
        &&& -MAX_PLAYER_HEIGHT <= self.y <= MAX_PLAYER_HEIGHT
        &&& self.y % (PLAYER_SPEED as int) == 0
    }
}

impl Paddle {
    /// A paddle at horizontal offset `x`, vertically centred.
    pub fn new(x: i64) -> (r: Paddle)
        ensures
            r@ == (PaddleView { x: x as int, y: 0 }),
            r@.wf(),
    {
        Paddle { x, y: 0 }
    }
}

/// The ball: centre position, velocity in micro-units per millisecond,
/// and the tick of its most recent contact, used by the collision
/// resolver's grace window.
#[derive(Clone, Copy, Debug, PartialEq, Eq, Structural)]
pub struct Ball {
    pub x: i64,
    pub y: i64,
    pub vx: i64,
    pub vy: i64,
    pub last_contact: Option<u64>,
}

/// Mathematical view of the ball.
pub ghost struct BallView {
    pub x: int,
    pub y: int,
    pub vx: int,
    pub vy: int,
    pub last_contact: Option<u64>,
}

impl View for Ball {
    type V = BallView;

    open spec fn view(&self) -> BallView {
        BallView {
            x: self.x as int,
            y: self.y as int,
            vx: self.vx as int,
            vy: self.vy as int,
            last_contact: self.last_contact,
        }
    }
}

impl BallView {
    /// Velocity components stay within the speed cap, and between ticks
    /// the ball's horizontal position never rests beyond a goal line: a
    /// tick that carries it past one ends in a reset to the centre.
    pub open spec fn wf(self) -> bool {
        &&& -MAX_BALL_SPEED <= self.vx <= MAX_BALL_SPEED
        &&& -MAX_BALL_SPEED <= self.vy <= MAX_BALL_SPEED
        &&& -GOAL_LINE <= self.x <= GOAL_LINE
    }
}

/// Horizontal velocity right after a reset: `BALL_STARTING_SPEED` towards
/// the side the drawn sign picks.
pub open spec fn spec_start_vx(sign_x: bool) -> int {
    if sign_x {
        BALL_STARTING_SPEED as int
    } else {
        -(BALL_STARTING_SPEED as int)
    }
}

/// Vertical velocity right after a reset: half of `BALL_STARTING_SPEED`,
/// towards the side the drawn sign picks.
pub open spec fn spec_start_vy(sign_y: bool) -> int {
    if sign_y {
        BALL_STARTING_SPEED as int / 2
    } else {
        -(BALL_STARTING_SPEED as int / 2)
    }
}

impl Ball {
    /// A ball at the court centre with the starting velocity the two
    /// drawn signs pick, and no contact recorded yet.
    pub fn new(sign_x: bool, sign_y: bool) -> (r: Ball)
        ensures
            r@ == (BallView {
                x: 0,
                y: 0,
                vx: spec_start_vx(sign_x),
                vy: spec_start_vy(sign_y),
                last_contact: None::<u64>,
            }),
            r@.wf(),
    {
        Ball {
            x: 0,
            y: 0,
            vx: if sign_x {
                BALL_STARTING_SPEED
            } else {
                -BALL_STARTING_SPEED
            },
            vy: if sign_y {
                BALL_STARTING_SPEED / 2
            } else {
                -(BALL_STARTING_SPEED / 2)
            },
            last_contact: None,
        }
    }
}

/// Score tallies for the two players.
#[derive(Clone, Copy, Debug, PartialEq, Eq, Structural)]
pub struct Scoreboard {
    pub left_score: u32,
    pub right_score: u32,
}

/// Mathematical view of the scoreboard.
pub ghost struct ScoreboardView {
    pub left_score: int,
    pub right_score: int,
}

impl View for Scoreboard {
    type V = ScoreboardView;

    open spec fn view(&self) -> ScoreboardView {
        ScoreboardView {
            left_score: self.left_score as int,
            right_score: self.right_score as int,
        }
    }
}

impl Scoreboard {
    /// A fresh scoreboard, both tallies zero.
    pub fn new() -> (r: Scoreboard)
        ensures
            r@.left_score == 0,
            r@.right_score == 0,
    {
        Scoreboard { left_score: 0, right_score: 0 }
    }
}

/// A transient per-tick event: a bounce against a paddle or a court
/// boundary (`is_goal` false), or a scored goal (`is_goal` true).
/// Consumers drain the tick's events before the next tick.
#[derive(Clone, Copy, Debug, PartialEq, Eq, Structural)]
pub struct CollisionEvent {
    pub is_goal: bool,
}

/// The whole simulation state: two paddles, one ball, the scoreboard and
/// the tick counter.
#[derive(Clone, Copy, Debug, PartialEq, Eq, Structural)]
pub struct World {
    pub left_paddle: Paddle,
    pub right_paddle: Paddle,
    pub ball: Ball,
    pub scoreboard: Scoreboard,
    pub tick: u64,
}

/// Mathematical view of the world.
pub ghost struct WorldView {
    pub left_paddle: PaddleView,
    pub right_paddle: PaddleView,
    pub ball: BallView,
    pub scoreboard: ScoreboardView,
    pub tick: u64,
}

impl View for World {
    type V = WorldView;

    open spec fn view(&self) -> WorldView {
        WorldView {
            left_paddle: self.left_paddle@,
            right_paddle: self.right_paddle@,
            ball: self.ball@,
            scoreboard: self.scoreboard@,
            tick: self.tick,
        }
    }
}

impl WorldView {
    /// Both paddles sit on their own goal line offsets and are well
    /// formed, the ball is well formed, and a recorded contact never lies
    /// in the future.
    pub open spec fn wf(self) -> bool {
        &&& self.left_paddle.wf()
        &&& self.right_paddle.wf()
        &&& self.left_paddle.x == -PLAYER_LOCATION
        &&& self.right_paddle.x == PLAYER_LOCATION
        &&& self.ball.wf()
        &&& match self.ball.last_contact {
            Some(l) => l <= self.tick,
            None => true,
        }
    }
}

impl World {
    /// A fresh world: paddles centred on their lines, scoreboard at zero,
    /// tick counter at zero, and the ball served from the centre with the
    /// velocity the two drawn signs pick.
    pub fn new(sign_x: bool, sign_y: bool) -> (r: World)
        ensures
            r@.left_paddle == (PaddleView { x: -PLAYER_LOCATION as int, y: 0 }),
            r@.right_paddle == (PaddleView { x: PLAYER_LOCATION as int, y: 0 }),
            r@.ball == (BallView {
                x: 0,
                y: 0,
                vx: spec_start_vx(sign_x),
                vy: spec_start_vy(sign_y),
                last_contact: None::<u64>,
            }),
            r@.scoreboard.left_score == 0,
            r@.scoreboard.right_score == 0,
            r@.tick == 0,
            r@.wf(),
    {
        World {
            left_paddle: Paddle::new(-PLAYER_LOCATION),
            right_paddle: Paddle::new(PLAYER_LOCATION),
            ball: Ball::new(sign_x, sign_y),
            scoreboard: Scoreboard::new(),
            tick: 0,
        }
    }

    /// Scoreboard snapshot for the display layer, which refreshes only
    /// when the pair changes.
    pub fn scores(&self) -> (r: (u32, u32))
        ensures
            r.0 == self@.scoreboard.left_score,
            r.1 == self@.scoreboard.right_score,
    {
        (self.scoreboard.left_score, self.scoreboard.right_score)
    }
}

} // verus!
