//! The input mapper: turns the held direction keys into a paddle move of
//! one `PLAYER_SPEED` step, refusing a step that would start beyond the
//! play range. "Up" is checked first, so with both keys held it wins by
//! design.

use vstd::prelude::*;

use crate::consts::{MAX_PLAYER_HEIGHT, PLAYER_SPEED};
use crate::entities::{Paddle, PaddleInput};

verus! {

/// New vertical position of a paddle at `y` for one tick of held keys:
/// one step up if "up" is held below the top of the range, else one step
/// down if "down" is held above the bottom, else unchanged.
pub open spec fn spec_move_paddle(y: int, input: PaddleInput) -> int {
    if input.up && y < MAX_PLAYER_HEIGHT {
        y + PLAYER_SPEED
    } else if input.down && y > -MAX_PLAYER_HEIGHT {
        y - PLAYER_SPEED
    } else {
        y
    }
}

/// Law: starting from any well-formed paddle height, one tick of input
/// never leaves `[-MAX_PLAYER_HEIGHT, MAX_PLAYER_HEIGHT]` and keeps the
/// height a whole number of steps, so repeated input of either key keeps
/// the paddle within the range forever.
pub proof fn lemma_paddle_stays_in_range(y: int, input: PaddleInput)
    requires
        -MAX_PLAYER_HEIGHT <= y <= MAX_PLAYER_HEIGHT,
        y % (PLAYER_SPEED as int) == 0,
    ensures
        -MAX_PLAYER_HEIGHT <= spec_move_paddle(y, input) <= MAX_PLAYER_HEIGHT,
        spec_move_paddle(y, input) % (PLAYER_SPEED as int) == 0,
{
    let s = PLAYER_SPEED as int;
    if input.up && y < MAX_PLAYER_HEIGHT {
        assert(y + s <= MAX_PLAYER_HEIGHT) by (nonlinear_arith)
            requires
                y % s == 0,
                y < MAX_PLAYER_HEIGHT,
                s == PLAYER_SPEED as int,
        ;
        assert((y + s) % s == 0) by (nonlinear_arith)
            requires
                y % s == 0,
                s == PLAYER_SPEED as int,
        ;
    } else if input.down && y > -MAX_PLAYER_HEIGHT {
        assert(-MAX_PLAYER_HEIGHT <= y - s) by (nonlinear_arith)
            requires
                y % s == 0,
                y > -MAX_PLAYER_HEIGHT,
                s == PLAYER_SPEED as int,
        ;
        assert((y - s) % s == 0) by (nonlinear_arith)
            requires
                y % s == 0,
                s == PLAYER_SPEED as int,
        ;
    }
}

/// Applies one tick of held keys to a paddle: the vertical position moves
/// by one step as `spec_move_paddle` says, the horizontal offset stays.
pub fn move_paddle(p: &mut Paddle, input: PaddleInput)
    requires
        old(p)@.wf(),
    ensures
        final(p)@.y == spec_move_paddle(old(p)@.y, input),
        final(p)@.x == old(p)@.x,
        final(p)@.wf(),
{
    proof {
        lemma_paddle_stays_in_range(p@.y, input);
    }
    if input.up && p.y < MAX_PLAYER_HEIGHT {
        p.y = p.y + PLAYER_SPEED;
    } else if input.down && p.y > -MAX_PLAYER_HEIGHT {
        p.y = p.y - PLAYER_SPEED;
    }
}

} // verus!
