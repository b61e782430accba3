//! The scoring state machine's detection and tally step: a goal is scored
//! the moment the ball centre passes a goal line, which lies
//! `GOAL_BUFFER` beyond the paddle line so a grazing contact never
//! counts. Passing the right-hand line scores for the left player and the
//! other way round; the tally rises by exactly one whole point per goal
//! and never decreases.

use vstd::prelude::*;

use crate::consts::GOAL_LINE;
use crate::entities::{Scoreboard, ScoreboardView};

verus! {

/// The player a goal is awarded to.
#[derive(Clone, Copy, Debug, PartialEq, Eq, Structural)]
pub enum Side {
    Left,
    Right,
}

/// The goal, if any, a ball resting at horizontal position `x` scores:
/// for the left player beyond the right-hand goal line, for the right
/// player beyond the left-hand one.
pub open spec fn spec_goal_side(x: int) -> Option<Side> {
    if x > GOAL_LINE {
        Some(Side::Left)
    } else if x < -GOAL_LINE {
        Some(Side::Right)
    } else {
        None
    }
}

/// A tally after a goal: one more point, saturating at the type's limit.
pub open spec fn spec_tally_after_goal(score: int) -> int {
    if score < u32::MAX {
        score + 1
    } else {
        score
    }
}

/// Scoreboard after a detected goal is applied to the scoring side.
pub open spec fn spec_apply_goal(sb: ScoreboardView, side: Option<Side>) -> ScoreboardView {
    match side {
        Some(Side::Left) => ScoreboardView {
            left_score: spec_tally_after_goal(sb.left_score),
            right_score: sb.right_score,
        },
        Some(Side::Right) => ScoreboardView {
            left_score: sb.left_score,
            right_score: spec_tally_after_goal(sb.right_score),
        },
        None => sb,
    }
}

/// Detects a goal for the ball centre at `ball_x` and applies it to the
/// scoreboard: exactly one point to the scoring side, nothing otherwise.
/// Both tallies are non-decreasing, and together they rise by at most one
/// per tick.
pub fn score_step(ball_x: i64, sb: &mut Scoreboard) -> (r: Option<Side>)
    ensures
        r == spec_goal_side(ball_x as int),
        final(sb)@ == spec_apply_goal(old(sb)@, r),
        final(sb)@.left_score >= old(sb)@.left_score,
        final(sb)@.right_score >= old(sb)@.right_score,
        final(sb)@.left_score + final(sb)@.right_score <= old(sb)@.left_score + old(
            sb,
        )@.right_score + 1,
{
    if ball_x > GOAL_LINE {
        if sb.left_score < u32::MAX {
            sb.left_score = sb.left_score + 1;
        }
        Some(Side::Left)
    } else if ball_x < -GOAL_LINE {
        if sb.right_score < u32::MAX {
            sb.right_score = sb.right_score + 1;
        }
        Some(Side::Right)
    } else {
        None
    }
}

} // verus!
