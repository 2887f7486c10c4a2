//! Tuned play-field constants, in milli-units.

use vstd::prelude::*;

verus! {

/// Radius of the ball.
pub const BALL_RADIUS: i64 = 8_000;

/// Width of the ball's bounding square.
pub const BALL_SIZE_X: i64 = 16_000;

/// Height of the ball's bounding square.
pub const BALL_SIZE_Y: i64 = 16_000;

/// Distance between a paddle and its side of the field.
pub const PLAYER_PADDING: i64 = 50_000;

/// Width of a paddle.
pub const PLAYER_WIDTH: i64 = 15_000;

/// Height of a paddle.
pub const PLAYER_HEIGHT: i64 = 70_000;

/// Greatest horizontal paddle speed.
pub const PLAYER_VELOCITY_X: i64 = 0;

/// Greatest vertical paddle speed.
pub const PLAYER_VELOCITY_Y: i64 = 2_000_000;

/// Greatest horizontal paddle acceleration.
pub const PLAYER_ACCELERATION_X: i64 = 0;

/// Greatest vertical paddle acceleration.
pub const PLAYER_ACCELERATION_Y: i64 = 20_000_000;

/// Left edge of the play field.
pub const BOUNDS_X: i64 = 0;

/// Top edge of the play field.
pub const BOUNDS_Y: i64 = 0;

/// Right edge of the play field.
pub const BOUNDS_W: i64 = 1_200_000;

/// Bottom edge of the play field.
pub const BOUNDS_H: i64 = 1_000_000;

/// Thickness of the wall and goal colliders placed around the field.
pub const BOUNDS_THICKNESS: i64 = 1_000_000;

/// Horizontal speed given to the ball when a serve launches it.
pub const LAUNCH_SPEED: i64 = 1_000_000;

/// Greatest magnitude of the vertical speed drawn at a serve launch.
pub const LAUNCH_VY_RANGE: i64 = 400_000;

/// How long a serve holds the ball frozen at the field center.
pub const SERVE_DELAY: i64 = 1_000;

/// The serve timer starts slightly advanced, so that a fresh game serves
/// the ball shortly after it begins.
pub const INITIAL_SCORE_TIME: i64 = 200;

} // verus!
