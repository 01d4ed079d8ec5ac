//! The per-frame simulation step: ball integration, collision scan,
//! reflection, goal detection, score update and ball reset.
//!
//! One step integrates the ball, then tests it against the static colliders
//! in a fixed order: left goal, right goal, top wall, bottom wall, left
//! paddle, right paddle. A goal overlap scores for the opponent, resets the
//! ball to the arena center with a fresh draw at `BALL_INITIAL_SPEED`, and
//! ends the scan. A plain overlap reflects: a horizontal hit re-aims the
//! ball at `BALL_SPEED` with its horizontal sign reversed, a vertical hit
//! negates the vertical component only.

use vstd::prelude::*;

use crate::aim::aim_velocity;
use crate::aim::aim_vx;
use crate::aim::aim_vy;
use crate::aim::draw_ranges;
use crate::aim::lemma_aim_bounds;
use crate::aim::speed_sq;
use crate::consts::ARENA_SPAN;
use crate::consts::BALL_INITIAL_SPEED;
use crate::consts::BALL_SIZE;
use crate::consts::BALL_SPEED;
use crate::consts::BOTTOM_WALL;
use crate::consts::GOAL_HEIGHT;
use crate::consts::LEFT_PADDLE_X;
use crate::consts::LEFT_WALL;
use crate::consts::MAX_DT_MS;
use crate::consts::MAX_SPEED_SQ;
use crate::consts::PADDLE_HEIGHT;
use crate::consts::PADDLE_SPEED;
use crate::consts::PADDLE_WIDTH;
use crate::consts::PADDLE_Y_MAX;
use crate::consts::PADDLE_Y_MIN;
use crate::consts::POS_LIMIT;
use crate::consts::POS_MAX;
use crate::consts::RIGHT_PADDLE_X;
use crate::consts::RIGHT_WALL;
use crate::consts::TOP_WALL;
use crate::consts::WALL_THICKNESS;
use crate::entities::paddle_rect;
use crate::entities::PaddleSide;
use crate::geom::collide;
use crate::geom::collide_spec;
use crate::geom::overlap_spec;
use crate::geom::Face;
use crate::geom::Rect;
use crate::paddle::clamp_spec;
use crate::paddle::intent;
use crate::paddle::paddle_step;

verus! {

/// The ball: center position in milli-units, velocity in units per second.
#[derive(Clone, Copy, PartialEq, Eq, Structural, Debug)]
pub struct Ball {
    pub x: i64,
    pub y: i64,
    pub vx: i64,
    pub vy: i64,
}

/// The two players' scores.
#[derive(Clone, Copy, PartialEq, Eq, Structural, Debug)]
pub struct Score {
    pub left: u32,
    pub right: u32,
}

/// Everything the simulation owns: ball, score and paddle centers.
#[derive(Clone, Copy, PartialEq, Eq, Structural, Debug)]
pub struct GameState {
    pub ball: Ball,
    pub score: Score,
    pub left_paddle_y: i64,
    pub right_paddle_y: i64,
}

/// One direction draw for a re-aim: per-mille components.
#[derive(Clone, Copy, PartialEq, Eq, Structural, Debug)]
pub struct AimDraws {
    pub dx: i64,
    pub dy: i64,
}

/// A draw whose components lie in the admissible ranges.
pub open spec fn draws_wf(d: AimDraws) -> bool {
    draw_ranges(d.dx as int, d.dy as int)
}

/// A game state over unbounded integers, for contracts to speak of.
pub struct StateView {
    pub bx: int,
    pub by: int,
    pub vx: int,
    pub vy: int,
    pub left: int,
    pub right: int,
    pub lp_y: int,
    pub rp_y: int,
}

/// The mathematical image of a game state.
pub open spec fn view_of(g: GameState) -> StateView {
    StateView {
        bx: g.ball.x as int,
        by: g.ball.y as int,
        vx: g.ball.vx as int,
        vy: g.ball.vy as int,
        left: g.score.left as int,
        right: g.score.right as int,
        lp_y: g.left_paddle_y as int,
        rp_y: g.right_paddle_y as int,
    }
}

/// A well-formed ball: bounded position, bounded speed, and horizontal
/// motion that never degenerates to a standstill.
pub open spec fn ball_wf(b: Ball) -> bool {
    &&& -POS_MAX <= b.x <= POS_MAX
    &&& -POS_MAX <= b.y <= POS_MAX
    &&& speed_sq(b.vx as int, b.vy as int) <= MAX_SPEED_SQ as int
    &&& b.vx != 0
}

/// A well-formed game state: well-formed ball, paddles inside the arena.
pub open spec fn state_wf(g: GameState) -> bool {
    &&& ball_wf(g.ball)
    &&& PADDLE_Y_MIN <= g.left_paddle_y <= PADDLE_Y_MAX
    &&& PADDLE_Y_MIN <= g.right_paddle_y <= PADDLE_Y_MAX
}

/// What the overlap test reports for the ball centered at `(px, py)`
/// against a collider of center `(bcx, bcy)` and extent `(bw, bh)`.
pub open spec fn ball_collide(
    px: int, py: int, bcx: int, bcy: int, bw: int, bh: int,
) -> Option<Face> {
    collide_spec(px, py, BALL_SIZE as int, BALL_SIZE as int, bcx, bcy, bw, bh)
}

/// The ball centered at `(px, py)` overlaps the left goal.
pub open spec fn hits_left_goal(px: int, py: int) -> bool {
    overlap_spec(
        px, py, BALL_SIZE as int, BALL_SIZE as int,
        LEFT_WALL as int, 0, WALL_THICKNESS as int, GOAL_HEIGHT as int,
    )
}

/// The ball centered at `(px, py)` overlaps the right goal.
pub open spec fn hits_right_goal(px: int, py: int) -> bool {
    overlap_spec(
        px, py, BALL_SIZE as int, BALL_SIZE as int,
        RIGHT_WALL as int, 0, WALL_THICKNESS as int, GOAL_HEIGHT as int,
    )
}

/// A struck left face with rightward motion, or a struck right face with
/// leftward motion, triggers a horizontal reflection.
pub open spec fn reflect_x_trigger(face: Face, vx: int) -> bool {
    ||| (face == Face::Left && vx > 0)
    ||| (face == Face::Right && vx < 0)
}

/// A struck bottom face with upward motion, or a struck top face with
/// downward motion, triggers a vertical reflection.
pub open spec fn reflect_y_trigger(face: Face, vy: int) -> bool {
    ||| (face == Face::Bottom && vy > 0)
    ||| (face == Face::Top && vy < 0)
}

/// The velocity after one collider's reflection. A horizontal reflection
/// re-aims at `BALL_SPEED`, forcing the horizontal sign opposite to the
/// incoming one; a vertical reflection negates the (possibly re-aimed)
/// vertical component. Both can act on a corner hit.
pub open spec fn bounce_spec(vx: int, vy: int, face: Face, d: AimDraws) -> (int, int) {
    let rx = reflect_x_trigger(face, vx);
    let ry = reflect_y_trigger(face, vy);
    let ax = aim_vx(d.dx as int, d.dy as int, BALL_SPEED as int);
    let ay = aim_vy(d.dx as int, d.dy as int, BALL_SPEED as int);
    let nvx = if rx { if vx > 0 { -ax } else { ax } } else { vx };
    let mvy = if rx { ay } else { vy };
    let nvy = if ry { -mvy } else { mvy };
    (nvx, nvy)
}

/// The velocity after testing one collider: unchanged without an overlap,
/// else reflected according to the struck face.
pub open spec fn bounce_col(
    v: (int, int), px: int, py: int,
    bcx: int, bcy: int, bw: int, bh: int, d: AimDraws,
) -> (int, int) {
    match ball_collide(px, py, bcx, bcy, bw, bh) {
        Option::Some(f) => bounce_spec(v.0, v.1, f, d),
        Option::None => v,
    }
}

/// The velocity of a freshly reset ball: a draw normalized and scaled to
/// `BALL_INITIAL_SPEED`, sent toward the side that just scored against.
pub open spec fn goal_aim(toward_right: bool, d: AimDraws) -> (int, int) {
    let ax = aim_vx(d.dx as int, d.dy as int, BALL_INITIAL_SPEED as int);
    let ay = aim_vy(d.dx as int, d.dy as int, BALL_INITIAL_SPEED as int);
    (if toward_right { ax } else { -ax }, ay)
}

/// One whole simulation step of the ball, as a mathematical function of the
/// pre-step state, the frame time and the five direction draws (one for a
/// possible goal reset, one per plain collider).
pub open spec fn step_spec(
    s: StateView, dt: int,
    dg: AimDraws, dtw: AimDraws, dbw: AimDraws, dlp: AimDraws, drp: AimDraws,
) -> StateView {
    let px = s.bx + s.vx * dt;
    let py = s.by + s.vy * dt;
    if hits_left_goal(px, py) {
        let v = goal_aim(false, dg);
        StateView { bx: 0, by: 0, vx: v.0, vy: v.1, right: s.right + 1, ..s }
    } else if hits_right_goal(px, py) {
        let v = goal_aim(true, dg);
        StateView { bx: 0, by: 0, vx: v.0, vy: v.1, left: s.left + 1, ..s }
    } else {
        let v0 = (s.vx, s.vy);
        let v1 = bounce_col(v0, px, py, 0, TOP_WALL as int, ARENA_SPAN as int, WALL_THICKNESS as int, dtw);
        let v2 = bounce_col(v1, px, py, 0, BOTTOM_WALL as int, ARENA_SPAN as int, WALL_THICKNESS as int, dbw);
        let v3 = bounce_col(v2, px, py, LEFT_PADDLE_X as int, s.lp_y, PADDLE_WIDTH as int, PADDLE_HEIGHT as int, dlp);
        let v4 = bounce_col(v3, px, py, RIGHT_PADDLE_X as int, s.rp_y, PADDLE_WIDTH as int, PADDLE_HEIGHT as int, drp);
        StateView { bx: px, by: py, vx: v4.0, vy: v4.1, ..s }
    }
}

/// A bounded squared speed bounds each component.
pub proof fn lemma_speed_component_bounds(vx: int, vy: int)
    requires
        speed_sq(vx, vy) <= MAX_SPEED_SQ as int,
    ensures
        -602 <= vx <= 602,
        -602 <= vy <= 602,
{
    assert(-602 <= vx <= 602 && -602 <= vy <= 602) by (nonlinear_arith)
        requires
            vx * vx + vy * vy <= 362_404,
    ;
}

/// The squared speed is unchanged by negating either component.
proof fn lemma_speed_sq_negate(vx: int, vy: int)
    ensures
        speed_sq(-vx, vy) == speed_sq(vx, vy),
        speed_sq(vx, -vy) == speed_sq(vx, vy),
{
    assert((-vx) * (-vx) == vx * vx && (-vy) * (-vy) == vy * vy) by (nonlinear_arith);
}

/// A horizontal bounce leaves the ball at `BALL_SPEED` up to integer
/// rounding: its squared speed lies within `[(BALL_SPEED - 3)^2,
/// (BALL_SPEED + 2)^2]`. Without a horizontal reflection the squared speed
/// is exactly what it was before, whether or not the vertical component
/// flipped.
pub proof fn lemma_bounce_speed(vx: int, vy: int, face: Face, d: AimDraws)
    requires
        draws_wf(d),
    ensures
        reflect_x_trigger(face, vx) ==> (BALL_SPEED - 3) * (BALL_SPEED - 3)
            <= speed_sq(bounce_spec(vx, vy, face, d).0, bounce_spec(vx, vy, face, d).1)
            <= (BALL_SPEED + 2) * (BALL_SPEED + 2),
        !reflect_x_trigger(face, vx) ==> speed_sq(
            bounce_spec(vx, vy, face, d).0, bounce_spec(vx, vy, face, d).1,
        ) == speed_sq(vx, vy),
{
    lemma_aim_bounds(d.dx as int, d.dy as int, BALL_SPEED as int);
    let ax = aim_vx(d.dx as int, d.dy as int, BALL_SPEED as int);
    let ay = aim_vy(d.dx as int, d.dy as int, BALL_SPEED as int);
    lemma_speed_sq_negate(ax, ay);
    lemma_speed_sq_negate(-ax, ay);
    lemma_speed_sq_negate(vx, vy);
}

/// A horizontal bounce always reverses the sign of the horizontal velocity:
/// a ball that came in moving rightward leaves moving leftward, and the
/// other way round, never at a standstill.
pub proof fn lemma_bounce_reverses_x(vx: int, vy: int, face: Face, d: AimDraws)
    requires
        draws_wf(d),
        reflect_x_trigger(face, vx),
    ensures
        vx > 0 ==> bounce_spec(vx, vy, face, d).0 <= -1,
        vx < 0 ==> bounce_spec(vx, vy, face, d).0 >= 1,
{
    lemma_aim_bounds(d.dx as int, d.dy as int, BALL_SPEED as int);
}

/// Applies one collider's reflection to the ball's velocity.
pub fn bounce(vx: i64, vy: i64, face: Face, d: &AimDraws) -> (v: (i64, i64))
    requires
        draws_wf(*d),
        speed_sq(vx as int, vy as int) <= MAX_SPEED_SQ as int,
    ensures
        (v.0 as int, v.1 as int) == bounce_spec(vx as int, vy as int, face, *d),
        speed_sq(v.0 as int, v.1 as int) <= MAX_SPEED_SQ as int,
        vx != 0 ==> v.0 != 0,
{
    proof {
        lemma_speed_component_bounds(vx as int, vy as int);
        lemma_bounce_speed(vx as int, vy as int, face, *d);
    }
    let rx: bool = (face == Face::Left && vx > 0) || (face == Face::Right && vx < 0);
    let ry: bool = (face == Face::Bottom && vy > 0) || (face == Face::Top && vy < 0);
    if rx {
        let (ax, ay) = aim_velocity(d.dx, d.dy, BALL_SPEED);
        let nvx: i64 = if vx > 0 { -ax } else { ax };
        let nvy: i64 = if ry { -ay } else { ay };
        (nvx, nvy)
    } else if ry {
        (vx, -vy)
    } else {
        (vx, vy)
    }
}

/// Advances the ball by one frame, deciding every reflection and goal from
/// the given direction draws. The draws stand in for the randomness of the
/// live game, so the step is a pure function of its arguments, equal to
/// `step_spec` on the state's image. Paddles are untouched; the score
/// changes exactly when a goal overlap is detected, one counter by one.
pub fn ball_step_with(
    g: &mut GameState, dt_ms: u64,
    d_goal: AimDraws, d_top: AimDraws, d_bottom: AimDraws, d_left: AimDraws, d_right: AimDraws,
)
    requires
        state_wf(*old(g)),
        -POS_LIMIT <= old(g).ball.x <= POS_LIMIT,
        -POS_LIMIT <= old(g).ball.y <= POS_LIMIT,
        dt_ms <= MAX_DT_MS,
        old(g).score.left < 0xffff_ffffu32,
        old(g).score.right < 0xffff_ffffu32,
        draws_wf(d_goal),
        draws_wf(d_top),
        draws_wf(d_bottom),
        draws_wf(d_left),
        draws_wf(d_right),
    ensures
        state_wf(*final(g)),
        view_of(*final(g)) == step_spec(
            view_of(*old(g)), dt_ms as int, d_goal, d_top, d_bottom, d_left, d_right,
        ),
        final(g).left_paddle_y == old(g).left_paddle_y,
        final(g).right_paddle_y == old(g).right_paddle_y,
        ({
            let px = old(g).ball.x + old(g).ball.vx * (dt_ms as int);
            let py = old(g).ball.y + old(g).ball.vy * (dt_ms as int);
            &&& (hits_left_goal(px, py) ==> {
                &&& final(g).score.right == old(g).score.right + 1
                &&& final(g).score.left == old(g).score.left
                &&& final(g).ball.x == 0 && final(g).ball.y == 0
                &&& final(g).ball.vx < 0
                &&& (BALL_INITIAL_SPEED - 3) * (BALL_INITIAL_SPEED - 3)
                    <= speed_sq(final(g).ball.vx as int, final(g).ball.vy as int)
                    <= (BALL_INITIAL_SPEED + 2) * (BALL_INITIAL_SPEED + 2)
            })
            &&& (!hits_left_goal(px, py) && hits_right_goal(px, py) ==> {
                &&& final(g).score.left == old(g).score.left + 1
                &&& final(g).score.right == old(g).score.right
                &&& final(g).ball.x == 0 && final(g).ball.y == 0
                &&& final(g).ball.vx > 0
                &&& (BALL_INITIAL_SPEED - 3) * (BALL_INITIAL_SPEED - 3)
                    <= speed_sq(final(g).ball.vx as int, final(g).ball.vy as int)
                    <= (BALL_INITIAL_SPEED + 2) * (BALL_INITIAL_SPEED + 2)
            })
            &&& (!hits_left_goal(px, py) && !hits_right_goal(px, py) ==> {
                &&& final(g).score == old(g).score
                &&& final(g).ball.x == px && final(g).ball.y == py
            })
        }),
{
    proof {
        lemma_speed_component_bounds(old(g).ball.vx as int, old(g).ball.vy as int);
        assert(-6_020_000 <= (g.ball.vx as int) * (dt_ms as int) <= 6_020_000
            && -6_020_000 <= (g.ball.vy as int) * (dt_ms as int) <= 6_020_000) by (nonlinear_arith)
            requires
                -602 <= g.ball.vx as int <= 602,
                -602 <= g.ball.vy as int <= 602,
                0 <= dt_ms as int <= 10_000,
        ;
    }
    let dt: i64 = dt_ms as i64;
    let px: i64 = g.ball.x + g.ball.vx * dt;
    let py: i64 = g.ball.y + g.ball.vy * dt;
    let ball_r = Rect { cx: px, cy: py, w: BALL_SIZE, h: BALL_SIZE };
    let left_goal = Rect { cx: LEFT_WALL, cy: 0, w: WALL_THICKNESS, h: GOAL_HEIGHT };
    if collide(&ball_r, &left_goal).is_some() {
        let (ax, ay) = aim_velocity(d_goal.dx, d_goal.dy, BALL_INITIAL_SPEED);
        proof {
            lemma_speed_sq_negate(ax as int, ay as int);
        }
        g.ball.x = 0;
        g.ball.y = 0;
        g.ball.vx = -ax;
        g.ball.vy = ay;
        g.score.right = g.score.right + 1;
        return;
    }
    let right_goal = Rect { cx: RIGHT_WALL, cy: 0, w: WALL_THICKNESS, h: GOAL_HEIGHT };
    if collide(&ball_r, &right_goal).is_some() {
        let (ax, ay) = aim_velocity(d_goal.dx, d_goal.dy, BALL_INITIAL_SPEED);
        g.ball.x = 0;
        g.ball.y = 0;
        g.ball.vx = ax;
        g.ball.vy = ay;
        g.score.left = g.score.left + 1;
        return;
    }
    let mut vx: i64 = g.ball.vx;
    let mut vy: i64 = g.ball.vy;
    let top_wall = Rect { cx: 0, cy: TOP_WALL, w: ARENA_SPAN, h: WALL_THICKNESS };
    match collide(&ball_r, &top_wall) {
        Some(f) => {
            let v = bounce(vx, vy, f, &d_top);
            vx = v.0;
            vy = v.1;
        },
        None => {},
    }
    let bottom_wall = Rect { cx: 0, cy: BOTTOM_WALL, w: ARENA_SPAN, h: WALL_THICKNESS };
    match collide(&ball_r, &bottom_wall) {
        Some(f) => {
            let v = bounce(vx, vy, f, &d_bottom);
            vx = v.0;
            vy = v.1;
        },
        None => {},
    }
    let left_paddle = paddle_rect(PaddleSide::Left, g.left_paddle_y);
    match collide(&ball_r, &left_paddle) {
        Some(f) => {
            let v = bounce(vx, vy, f, &d_left);
            vx = v.0;
            vy = v.1;
        },
        None => {},
    }
    let right_paddle = paddle_rect(PaddleSide::Right, g.right_paddle_y);
    match collide(&ball_r, &right_paddle) {
        Some(f) => {
            let v = bounce(vx, vy, f, &d_right);
            vx = v.0;
            vy = v.1;
        },
        None => {},
    }
    g.ball.x = px;
    g.ball.y = py;
    g.ball.vx = vx;
    g.ball.vy = vy;
}

/// Advances both paddles by one frame of input intent, each clamped to the
/// arena; ball and score are untouched.
pub fn move_paddles(
    g: &mut GameState, dt_ms: u64,
    left_up: bool, left_down: bool, right_up: bool, right_down: bool,
)
    requires
        state_wf(*old(g)),
        dt_ms <= MAX_DT_MS,
    ensures
        state_wf(*final(g)),
        final(g).left_paddle_y == clamp_spec(
            old(g).left_paddle_y + intent(left_up, left_down) * (PADDLE_SPEED as int) * (dt_ms as int),
            PADDLE_Y_MIN as int,
            PADDLE_Y_MAX as int,
        ),
        final(g).right_paddle_y == clamp_spec(
            old(g).right_paddle_y + intent(right_up, right_down) * (PADDLE_SPEED as int) * (dt_ms as int),
            PADDLE_Y_MIN as int,
            PADDLE_Y_MAX as int,
        ),
        final(g).ball == old(g).ball,
        final(g).score == old(g).score,
{
    g.left_paddle_y = paddle_step(g.left_paddle_y, left_up, left_down, dt_ms);
    g.right_paddle_y = paddle_step(g.right_paddle_y, right_up, right_down, dt_ms);
}

/// Builds the state of a fresh game from one direction draw: score nil,
/// paddles centered, ball at the arena center moving rightward at
/// `BALL_INITIAL_SPEED`.
pub fn new_game_with(d: AimDraws) -> (g: GameState)
    requires
        draws_wf(d),
    ensures
        state_wf(g),
        g.score.left == 0 && g.score.right == 0,
        g.ball.x == 0 && g.ball.y == 0,
        g.left_paddle_y == 0 && g.right_paddle_y == 0,
        (g.ball.vx as int, g.ball.vy as int) == goal_aim(true, d),
        g.ball.vx >= 1,
        (BALL_INITIAL_SPEED - 3) * (BALL_INITIAL_SPEED - 3)
            <= speed_sq(g.ball.vx as int, g.ball.vy as int)
            <= (BALL_INITIAL_SPEED + 2) * (BALL_INITIAL_SPEED + 2),
{
    let (ax, ay) = aim_velocity(d.dx, d.dy, BALL_INITIAL_SPEED);
    GameState {
        ball: Ball { x: 0, y: 0, vx: ax, vy: ay },
        score: Score { left: 0, right: 0 },
        left_paddle_y: 0,
        right_paddle_y: 0,
    }
}

/// The score pair, as the presentation layer polls it each frame.
pub fn score_of(g: &GameState) -> (s: (u32, u32))
    ensures
        s.0 == g.score.left,
        s.1 == g.score.right,
{
    (g.score.left, g.score.right)
}

} // verus!
