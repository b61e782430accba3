//! Axis-aligned box geometry: the overlap test between the ball's bounding
//! box and a paddle, and the choice of the dominant contact face.
//!
//! The ball's box has half extents `BALL_RADIUS` on both axes; a paddle's
//! box has half extents `PLAYER_HALF_WIDTH` by `PLAYER_HALF_HEIGHT`. When
//! the boxes overlap, the contact face is the side of the paddle the ball
//! sits on along the axis of least penetration; ties go to the horizontal
//! axis. A ball whose box lies entirely within the paddle's reports
//! `Inside`.

use vstd::prelude::*;

use crate::consts::{BALL_RADIUS, PLAYER_HALF_HEIGHT, PLAYER_HALF_WIDTH};

verus! {

/// The face of an obstacle the ball is in contact with, seen from the
/// obstacle: `Left` means the ball sits on the obstacle's left side, and
/// so on. `Inside` means the ball's box lies entirely within the
/// obstacle's box, with no dominant face.
#[derive(Clone, Copy, Debug, PartialEq, Eq, Structural)]
pub enum Face {
    Left,
    Right,
    Top,
    Bottom,
    Inside,
}

/// The ball's box strictly overlaps the paddle's box: on each axis the
/// centre distance is below the sum of the half extents.
pub open spec fn spec_boxes_overlap(bx: int, by: int, px: int, py: int) -> bool {
    &&& bx - BALL_RADIUS < px + PLAYER_HALF_WIDTH
    &&& bx + BALL_RADIUS > px - PLAYER_HALF_WIDTH
    &&& by - BALL_RADIUS < py + PLAYER_HALF_HEIGHT
    &&& by + BALL_RADIUS > py - PLAYER_HALF_HEIGHT
}

/// Horizontal face candidate with its penetration depth: `Left` when the
/// ball's box straddles only the paddle's left edge, `Right` when it
/// straddles only the right edge.
pub open spec fn spec_x_face(bx: int, px: int) -> Option<(Face, int)> {
    let a_min = bx - BALL_RADIUS;
    let a_max = bx + BALL_RADIUS;
    let b_min = px - PLAYER_HALF_WIDTH;
    let b_max = px + PLAYER_HALF_WIDTH;
    if a_min < b_min && a_max > b_min && a_max < b_max {
        Some((Face::Left, a_max - b_min))
    } else if a_min > b_min && a_min < b_max && a_max > b_max {
        Some((Face::Right, b_max - a_min))
    } else {
        None
    }
}

/// Vertical face candidate with its penetration depth: `Bottom` when the
/// ball's box straddles only the paddle's bottom edge, `Top` when it
/// straddles only the top edge.
pub open spec fn spec_y_face(by: int, py: int) -> Option<(Face, int)> {
    let a_min = by - BALL_RADIUS;
    let a_max = by + BALL_RADIUS;
    let b_min = py - PLAYER_HALF_HEIGHT;
    let b_max = py + PLAYER_HALF_HEIGHT;
    if a_min < b_min && a_max > b_min && a_max < b_max {
        Some((Face::Bottom, a_max - b_min))
    } else if a_min > b_min && a_min < b_max && a_max > b_max {
        Some((Face::Top, b_max - a_min))
    } else {
        None
    }
}

/// Dominant contact face of the ball against a paddle, or `None` when the
/// boxes do not overlap. With candidates on both axes, the shallower
/// penetration wins and a tie goes to the horizontal face; with a
/// candidate on neither axis the ball is `Inside`.
pub open spec fn spec_paddle_face(bx: int, by: int, px: int, py: int) -> Option<Face> {
    if !spec_boxes_overlap(bx, by, px, py) {
        None
    } else {
        match (spec_x_face(bx, px), spec_y_face(by, py)) {
            (Some((xf, xd)), Some((yf, yd))) => if yd < xd {
                Some(yf)
            } else {
                Some(xf)
            },
            (Some((xf, _)), None) => Some(xf),
            (None, Some((yf, _))) => Some(yf),
            (None, None) => Some(Face::Inside),
        }
    }
}

/// Dominant contact face of the ball centred at `(bx, by)` against the
/// paddle centred at `(px, py)`. Total over all coordinates: the box
/// arithmetic is carried out in `i128`.
pub fn paddle_contact_face(bx: i64, by: i64, px: i64, py: i64) -> (r: Option<Face>)
    ensures
        r == spec_paddle_face(bx as int, by as int, px as int, py as int),
{
    let a_min_x: i128 = bx as i128 - BALL_RADIUS as i128;
    let a_max_x: i128 = bx as i128 + BALL_RADIUS as i128;
    let a_min_y: i128 = by as i128 - BALL_RADIUS as i128;
    let a_max_y: i128 = by as i128 + BALL_RADIUS as i128;
    let b_min_x: i128 = px as i128 - PLAYER_HALF_WIDTH as i128;
    let b_max_x: i128 = px as i128 + PLAYER_HALF_WIDTH as i128;
    let b_min_y: i128 = py as i128 - PLAYER_HALF_HEIGHT as i128;
    let b_max_y: i128 = py as i128 + PLAYER_HALF_HEIGHT as i128;

    if !(a_min_x < b_max_x && a_max_x > b_min_x && a_min_y < b_max_y && a_max_y > b_min_y) {
        return None;
    }

    let x_face: Option<(Face, i128)> = if a_min_x < b_min_x && a_max_x > b_min_x && a_max_x < b_max_x {
        Some((Face::Left, a_max_x - b_min_x))
    } else if a_min_x > b_min_x && a_min_x < b_max_x && a_max_x > b_max_x {
        Some((Face::Right, b_max_x - a_min_x))
    } else {
        None
    };

    let y_face: Option<(Face, i128)> = if a_min_y < b_min_y && a_max_y > b_min_y && a_max_y < b_max_y {
        Some((Face::Bottom, a_max_y - b_min_y))
    } else if a_min_y > b_min_y && a_min_y < b_max_y && a_max_y > b_max_y {
        Some((Face::Top, b_max_y - a_min_y))
    } else {
        None
    };

    match (x_face, y_face) {
        (Some((xf, xd)), Some((yf, yd))) => if yd < xd {
            Some(yf)
        } else {
            Some(xf)
        },
        (Some((xf, _)), None) => Some(xf),
        (None, Some((yf, _))) => Some(yf),
        (None, None) => Some(Face::Inside),
    }
}

} // verus!
