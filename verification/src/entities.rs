//! The entity store: the static colliders of the arena, each a rectangle
//! carrying a variant tag, and the side-tagged paddles.
//!
//! The four walls are built once at startup and never change. Their scan
//! order — left goal, right goal, top wall, bottom wall — is the order in
//! which the simulation step tests them, paddles after.

use vstd::prelude::*;

use crate::consts::ARENA_SPAN;
use crate::consts::BOTTOM_WALL;
use crate::consts::GOAL_HEIGHT;
use crate::consts::LEFT_PADDLE_X;
use crate::consts::LEFT_WALL;
use crate::consts::PADDLE_HEIGHT;
use crate::consts::PADDLE_WIDTH;
use crate::consts::RIGHT_PADDLE_X;
use crate::consts::RIGHT_WALL;
use crate::consts::TOP_WALL;
use crate::consts::WALL_THICKNESS;
use crate::geom::Rect;

verus! {

/// What striking a static collider means: a plain wall reflects the ball,
/// a goal scores for the tagged side's opponent.
#[derive(Clone, Copy, PartialEq, Eq, Structural, Debug)]
pub enum WallKind {
    Plain,
    LeftGoal,
    RightGoal,
}

/// One static collider: its rectangle and its variant tag.
#[derive(Clone, Copy, PartialEq, Eq, Structural, Debug)]
pub struct Collider {
    pub rect: Rect,
    pub kind: WallKind,
}

/// Which player a paddle belongs to.
#[derive(Clone, Copy, PartialEq, Eq, Structural, Debug)]
pub enum PaddleSide {
    Left,
    Right,
}

/// The left goal's rectangle.
pub open spec fn left_goal_rect() -> Rect {
    Rect { cx: LEFT_WALL, cy: 0, w: WALL_THICKNESS, h: GOAL_HEIGHT }
}

/// The right goal's rectangle.
pub open spec fn right_goal_rect() -> Rect {
    Rect { cx: RIGHT_WALL, cy: 0, w: WALL_THICKNESS, h: GOAL_HEIGHT }
}

/// The top wall's rectangle.
pub open spec fn top_wall_rect() -> Rect {
    Rect { cx: 0, cy: TOP_WALL, w: ARENA_SPAN, h: WALL_THICKNESS }
}

/// The bottom wall's rectangle.
pub open spec fn bottom_wall_rect() -> Rect {
    Rect { cx: 0, cy: BOTTOM_WALL, w: ARENA_SPAN, h: WALL_THICKNESS }
}

/// A paddle's fixed horizontal center: a side-specific constant.
pub open spec fn paddle_x_spec(side: PaddleSide) -> i64 {
    match side {
        PaddleSide::Left => LEFT_PADDLE_X,
        PaddleSide::Right => RIGHT_PADDLE_X,
    }
}

/// A paddle's fixed horizontal center.
pub fn paddle_x(side: PaddleSide) -> (x: i64)
    ensures
        x == paddle_x_spec(side),
{
    match side {
        PaddleSide::Left => LEFT_PADDLE_X,
        PaddleSide::Right => RIGHT_PADDLE_X,
    }
}

/// A paddle's rectangle, given its side and vertical center.
pub fn paddle_rect(side: PaddleSide, y: i64) -> (r: Rect)
    ensures
        r == (Rect { cx: paddle_x_spec(side), cy: y, w: PADDLE_WIDTH, h: PADDLE_HEIGHT }),
{
    Rect { cx: paddle_x(side), cy: y, w: PADDLE_WIDTH, h: PADDLE_HEIGHT }
}

/// Builds the four static wall colliders, tagged and in scan order:
/// left goal, right goal, top wall, bottom wall.
pub fn static_colliders() -> (cs: Vec<Collider>)
    ensures
        cs@.len() == 4,
        cs@[0] == (Collider { rect: left_goal_rect(), kind: WallKind::LeftGoal }),
        cs@[1] == (Collider { rect: right_goal_rect(), kind: WallKind::RightGoal }),
        cs@[2] == (Collider { rect: top_wall_rect(), kind: WallKind::Plain }),
        cs@[3] == (Collider { rect: bottom_wall_rect(), kind: WallKind::Plain }),
{
    let mut cs: Vec<Collider> = Vec::new();
    cs.push(Collider {
        rect: Rect { cx: LEFT_WALL, cy: 0, w: WALL_THICKNESS, h: GOAL_HEIGHT },
        kind: WallKind::LeftGoal,
    });
    cs.push(Collider {
        rect: Rect { cx: RIGHT_WALL, cy: 0, w: WALL_THICKNESS, h: GOAL_HEIGHT },
        kind: WallKind::RightGoal,
    });
    cs.push(Collider {
        rect: Rect { cx: 0, cy: TOP_WALL, w: ARENA_SPAN, h: WALL_THICKNESS },
        kind: WallKind::Plain,
    });
    cs.push(Collider {
        rect: Rect { cx: 0, cy: BOTTOM_WALL, w: ARENA_SPAN, h: WALL_THICKNESS },
        kind: WallKind::Plain,
    });
    cs
}

} // verus!
