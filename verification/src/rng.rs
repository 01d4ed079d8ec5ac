//! The live game's randomness: direction draws from the thread-local
//! generator, feeding the deterministic step.

use vstd::prelude::*;

use crate::consts::AIM_X_MAX;
use crate::consts::AIM_X_MIN;
use crate::consts::AIM_Y_MAX;
use crate::consts::AIM_Y_MIN;
use crate::consts::BALL_INITIAL_SPEED;
use crate::consts::MAX_DT_MS;
use crate::consts::POS_LIMIT;
use crate::sim::ball_step_with;
use crate::sim::draws_wf;
use crate::sim::hits_left_goal;
use crate::sim::hits_right_goal;
use crate::sim::new_game_with;
use crate::sim::state_wf;
use crate::sim::AimDraws;
use crate::sim::GameState;
use crate::aim::speed_sq;

verus! {

/// Relies on rand::RngExt::random_range on the thread-local generator:
/// a uniformly distributed value of the nonempty range `lo..=hi`.
#[verifier::external_body]
fn rand_in_range(lo: i64, hi: i64) -> (r: i64)
    requires
        lo <= hi,
    ensures
        lo <= r <= hi,
{
    rand::RngExt::random_range(&mut rand::rng(), lo..=hi)
}

/// Draws one re-aim direction: per-mille components, horizontal from
/// `[AIM_X_MIN, AIM_X_MAX]`, vertical from `[AIM_Y_MIN, AIM_Y_MAX]`.
fn draw_aim() -> (d: AimDraws)
    ensures
        draws_wf(d),
{
    AimDraws { dx: rand_in_range(AIM_X_MIN, AIM_X_MAX), dy: rand_in_range(AIM_Y_MIN, AIM_Y_MAX) }
}

/// Advances the ball by one frame of the live game, drawing any re-aim
/// directions from the thread-local generator. Whatever is drawn: paddles
/// are untouched; a goal overlap scores one point for the opponent alone
/// and resets the ball to the center at `BALL_INITIAL_SPEED` toward the
/// conceding side; otherwise the score is unchanged and the ball sits at
/// its integrated position.
pub fn ball_step(g: &mut GameState, dt_ms: u64)
    requires
        state_wf(*old(g)),
        -POS_LIMIT <= old(g).ball.x <= POS_LIMIT,
        -POS_LIMIT <= old(g).ball.y <= POS_LIMIT,
        dt_ms <= MAX_DT_MS,
        old(g).score.left < 0xffff_ffffu32,
        old(g).score.right < 0xffff_ffffu32,
    ensures
        state_wf(*final(g)),
        final(g).left_paddle_y == old(g).left_paddle_y,
        final(g).right_paddle_y == old(g).right_paddle_y,
        ({
            let px = old(g).ball.x + old(g).ball.vx * (dt_ms as int);
            let py = old(g).ball.y + old(g).ball.vy * (dt_ms as int);
            &&& (hits_left_goal(px, py) ==> {
                &&& final(g).score.right == old(g).score.right + 1
                &&& final(g).score.left == old(g).score.left
                &&& final(g).ball.x == 0 && final(g).ball.y == 0
                &&& final(g).ball.vx < 0
                &&& (BALL_INITIAL_SPEED - 3) * (BALL_INITIAL_SPEED - 3)
                    <= speed_sq(final(g).ball.vx as int, final(g).ball.vy as int)
                    <= (BALL_INITIAL_SPEED + 2) * (BALL_INITIAL_SPEED + 2)
            })
            &&& (!hits_left_goal(px, py) && hits_right_goal(px, py) ==> {
                &&& final(g).score.left == old(g).score.left + 1
                &&& final(g).score.right == old(g).score.right
                &&& final(g).ball.x == 0 && final(g).ball.y == 0
                &&& final(g).ball.vx > 0
                &&& (BALL_INITIAL_SPEED - 3) * (BALL_INITIAL_SPEED - 3)
                    <= speed_sq(final(g).ball.vx as int, final(g).ball.vy as int)
                    <= (BALL_INITIAL_SPEED + 2) * (BALL_INITIAL_SPEED + 2)
            })
            &&& (!hits_left_goal(px, py) && !hits_right_goal(px, py) ==> {
                &&& final(g).score == old(g).score
                &&& final(g).ball.x == px && final(g).ball.y == py
            })
        }),
{
    let d_goal = draw_aim();
    let d_top = draw_aim();
    let d_bottom = draw_aim();
    let d_left = draw_aim();
    let d_right = draw_aim();
    ball_step_with(g, dt_ms, d_goal, d_top, d_bottom, d_left, d_right);
}

/// Starts a live game: score nil, paddles centered, ball at the center
/// moving rightward at `BALL_INITIAL_SPEED` in a freshly drawn direction.
pub fn new_game() -> (g: GameState)
    ensures
        state_wf(g),
        g.score.left == 0 && g.score.right == 0,
        g.ball.x == 0 && g.ball.y == 0,
        g.left_paddle_y == 0 && g.right_paddle_y == 0,
        g.ball.vx >= 1,
        (BALL_INITIAL_SPEED - 3) * (BALL_INITIAL_SPEED - 3)
            <= speed_sq(g.ball.vx as int, g.ball.vy as int)
            <= (BALL_INITIAL_SPEED + 2) * (BALL_INITIAL_SPEED + 2),
{
    new_game_with(draw_aim())
}

} // verus!
