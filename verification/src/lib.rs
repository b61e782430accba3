//! Fixed-step physics and scoring core for a two-paddle ball-bouncing game.
//!
//! All geometry is carried in integer micro-units (one game unit is
//! `consts::UNIT` micro-units) and all velocities in micro-units per
//! millisecond, so that integration, reflection and scoring are exact and
//! can be verified. Rendering, window management, audio and key polling
//! live outside this crate; each tick they hand the core the current
//! input state, the elapsed milliseconds and the viewport extents, and
//! read back positions, scores and the tick's events.

pub mod consts;
pub mod entities;
pub mod geom;
pub mod collision;
pub mod controller;
pub mod input;
pub mod motion;
pub mod scoring;
