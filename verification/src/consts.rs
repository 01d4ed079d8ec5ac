//! Fixed parameters of the simulation.
//!
//! Geometry is in milli-units (1000 milli-units to one world unit), speeds
//! in world units per second, which equals milli-units per millisecond.

use vstd::prelude::*;

verus! {

/// Vertical center of the top wall.
pub const TOP_WALL: i64 = 300_000;
/// Vertical center of the bottom wall.
pub const BOTTOM_WALL: i64 = -300_000;
/// Horizontal center of the left goal.
pub const LEFT_WALL: i64 = -500_000;
/// Horizontal center of the right goal.
pub const RIGHT_WALL: i64 = 500_000;
/// Full thickness of every wall and goal.
pub const WALL_THICKNESS: i64 = 10_000;
/// Gap between a goal and the paddle in front of it.
pub const WALL_PADDING: i64 = 15_000;

/// Full width of a paddle.
pub const PADDLE_WIDTH: i64 = 15_000;
/// Full height of a paddle.
pub const PADDLE_HEIGHT: i64 = 100_000;
/// Full width and height of the (square) ball.
pub const BALL_SIZE: i64 = 30_000;

/// Full height of a goal: it spans the arena plus the walls' thickness.
pub const GOAL_HEIGHT: i64 = TOP_WALL - BOTTOM_WALL + WALL_THICKNESS;
/// Full width of the top and bottom walls: the arena plus the goals' thickness.
pub const ARENA_SPAN: i64 = RIGHT_WALL - LEFT_WALL + WALL_THICKNESS;

/// Vertical paddle speed, in units per second.
pub const PADDLE_SPEED: i64 = 450;
/// Ball speed right after a spawn or a goal reset, in units per second.
pub const BALL_INITIAL_SPEED: i64 = 400;
/// Ball speed right after a paddle or side bounce, in units per second.
pub const BALL_SPEED: i64 = 600;

/// Half the paddle height.
pub const PADDLE_HALF_HEIGHT: i64 = 50_000;
/// Lowest admissible paddle center: the paddle stays inside the arena.
pub const PADDLE_Y_MIN: i64 = BOTTOM_WALL + PADDLE_HALF_HEIGHT;
/// Highest admissible paddle center.
pub const PADDLE_Y_MAX: i64 = TOP_WALL - PADDLE_HALF_HEIGHT;

/// Horizontal center of the left paddle.
pub const LEFT_PADDLE_X: i64 = LEFT_WALL + WALL_PADDING;
/// Horizontal center of the right paddle.
pub const RIGHT_PADDLE_X: i64 = RIGHT_WALL - WALL_PADDING;

/// Smallest per-mille horizontal component of a re-aim draw.
pub const AIM_X_MIN: i64 = 300;
/// Largest per-mille horizontal component of a re-aim draw.
pub const AIM_X_MAX: i64 = 1000;
/// Smallest per-mille vertical component of a re-aim draw.
pub const AIM_Y_MIN: i64 = -1000;
/// Largest per-mille vertical component of a re-aim draw.
pub const AIM_Y_MAX: i64 = 1000;

/// Longest frame time a step accepts, in milliseconds.
pub const MAX_DT_MS: u64 = 10_000;
/// A step keeps the ball within this band; callers must start inside it.
pub const POS_LIMIT: i64 = 1_000_000_000;
/// Positions stay within this bound across one step from inside the band.
pub const POS_MAX: i64 = POS_LIMIT + 10_000_000;

/// Upper bound on the squared ball speed: `(BALL_SPEED + 2)^2`.
pub const MAX_SPEED_SQ: i64 = 362_404;

} // verus!
