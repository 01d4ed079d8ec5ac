use pong_core::aim::aim_velocity;
use pong_core::geom::Face;
use pong_core::sim::ball_step_with;
use pong_core::sim::bounce;
use pong_core::sim::move_paddles;
use pong_core::sim::new_game_with;
use pong_core::sim::score_of;
use pong_core::sim::AimDraws;
use pong_core::sim::Ball;
use pong_core::sim::GameState;
use pong_core::sim::Score;

fn draws(dx: i64, dy: i64) -> AimDraws {
    AimDraws { dx, dy }
}

fn state(ball: Ball) -> GameState {
    GameState { ball, score: Score { left: 0, right: 0 }, left_paddle_y: 0, right_paddle_y: 0 }
}

#[test]
fn aim_exact_on_a_perfect_triangle() {
    // (600, 800) has length 1000 exactly, so scaling to 600 is exact.
    assert_eq!(aim_velocity(600, 800, 600), (360, 480));
    assert_eq!(360 * 360 + 480 * 480, 600 * 600);
}

#[test]
fn aim_exact_on_horizontal_draw() {
    assert_eq!(aim_velocity(1000, 0, 600), (600, 0));
    assert_eq!(aim_velocity(500, 0, 400), (400, 0));
}

#[test]
fn aim_exact_with_rounding() {
    // isqrt(300^2 + 1000^2) = 1044; components round down.
    assert_eq!(aim_velocity(300, 1000, 600), (172, 574));
    let sq: i64 = 172 * 172 + 574 * 574;
    assert!((600 - 3) * (600 - 3) <= sq && sq <= (600 + 2) * (600 + 2));
}

#[test]
fn aim_keeps_the_draw_sign() {
    assert_eq!(aim_velocity(300, -1000, 400), (114, -383));
}

#[test]
fn horizontal_bounce_reverses_sign_and_sets_ball_speed() {
    // Left face struck while moving right: re-aim at BALL_SPEED, leftward.
    let v = bounce(50, 0, Face::Left, &draws(600, 800));
    assert_eq!(v, (-360, 480));
    assert_eq!(v.0 * v.0 + v.1 * v.1, 600 * 600);
}

#[test]
fn horizontal_bounce_from_the_left_paddle_goes_right() {
    let v = bounce(-50, 10, Face::Right, &draws(600, 800));
    assert_eq!(v, (360, 480));
}

#[test]
fn receding_ball_is_not_reflected() {
    // Left face struck while already moving left: no reflection.
    assert_eq!(bounce(-50, 10, Face::Left, &draws(600, 800)), (-50, 10));
}

#[test]
fn vertical_bounce_negates_vy_only() {
    // Bottom face struck while moving up: vy flips, vx and speed kept.
    assert_eq!(bounce(50, 50, Face::Bottom, &draws(600, 800)), (50, -50));
    assert_eq!(bounce(50, -50, Face::Top, &draws(600, 800)), (50, 50));
}

#[test]
fn corner_bounce_reflects_both_axes() {
    // A horizontal reflection whose fresh vy is then negated.
    let v = bounce(50, 50, Face::Bottom, &draws(600, 800));
    assert_eq!(v, (50, -50));
    let w = bounce(50, 50, Face::Left, &draws(600, 800));
    assert_eq!(w, (-360, 480));
}

#[test]
fn step_top_wall_flips_vy_keeps_position() {
    // Ball reaching y 295 with vy +50 under the top wall at y 300:
    // vy flips to -50, vx unchanged, position the integrated one.
    let mut g = state(Ball { x: 0, y: 294_000, vx: 50, vy: 50 });
    let d = draws(600, 800);
    ball_step_with(&mut g, 20, d, d, d, d, d);
    assert_eq!(g.ball, Ball { x: 1_000, y: 295_000, vx: 50, vy: -50 });
    assert_eq!(g.score, Score { left: 0, right: 0 });
}

#[test]
fn step_past_left_goal_scores_right_and_resets() {
    // Crossing into the left goal: right score 0 -> 1, ball reset to the
    // center, new vx drawn leftward within BALL_INITIAL_SPEED's band.
    let mut g = state(Ball { x: -490_000, y: 0, vx: -600, vy: 0 });
    let d = draws(600, 800);
    ball_step_with(&mut g, 40, d, d, d, d, d);
    assert_eq!(g.score, Score { left: 0, right: 1 });
    assert_eq!(g.ball, Ball { x: 0, y: 0, vx: -240, vy: 320 });
    assert!(-400 <= g.ball.vx && g.ball.vx <= -120);
    assert_eq!(g.ball.vx * g.ball.vx + g.ball.vy * g.ball.vy, 400 * 400);
}

#[test]
fn step_past_right_goal_scores_left_and_resets() {
    let mut g = state(Ball { x: 490_000, y: 0, vx: 600, vy: 0 });
    let d = draws(600, 800);
    ball_step_with(&mut g, 40, d, d, d, d, d);
    assert_eq!(g.score, Score { left: 1, right: 0 });
    assert_eq!(g.ball, Ball { x: 0, y: 0, vx: 240, vy: 320 });
}

#[test]
fn step_without_contact_only_integrates() {
    let mut g = state(Ball { x: 0, y: 0, vx: 50, vy: 50 });
    let d = draws(600, 800);
    ball_step_with(&mut g, 100, d, d, d, d, d);
    assert_eq!(g.ball, Ball { x: 5_000, y: 5_000, vx: 50, vy: 50 });
    assert_eq!(g.score, Score { left: 0, right: 0 });
}

#[test]
fn step_off_right_paddle_reverses_and_speeds_up() {
    // The ball meets the right paddle's left face and leaves leftward at
    // BALL_SPEED, faster than it came in.
    let mut g = state(Ball { x: 460_000, y: 0, vx: 50, vy: 0 });
    let d = draws(600, 800);
    ball_step_with(&mut g, 100, d, d, d, d, d);
    assert_eq!(g.ball, Ball { x: 465_000, y: 0, vx: -360, vy: 480 });
    assert_eq!(g.score, Score { left: 0, right: 0 });
    assert_eq!(g.ball.vx * g.ball.vx + g.ball.vy * g.ball.vy, 600 * 600);
}

#[test]
fn step_keeps_paddles_where_they_were() {
    let mut g = state(Ball { x: 0, y: 0, vx: 50, vy: 50 });
    g.left_paddle_y = 120_000;
    g.right_paddle_y = -80_000;
    let d = draws(600, 800);
    ball_step_with(&mut g, 16, d, d, d, d, d);
    assert_eq!(g.left_paddle_y, 120_000);
    assert_eq!(g.right_paddle_y, -80_000);
}

#[test]
fn new_game_with_centers_everything() {
    let g = new_game_with(draws(600, 800));
    assert_eq!(g.ball, Ball { x: 0, y: 0, vx: 240, vy: 320 });
    assert_eq!(g.score, Score { left: 0, right: 0 });
    assert_eq!(g.left_paddle_y, 0);
    assert_eq!(g.right_paddle_y, 0);
}

#[test]
fn move_paddles_moves_both_independently() {
    let mut g = new_game_with(draws(600, 800));
    move_paddles(&mut g, 100, true, false, false, true);
    assert_eq!(g.left_paddle_y, 45_000);
    assert_eq!(g.right_paddle_y, -45_000);
    assert_eq!(g.ball, Ball { x: 0, y: 0, vx: 240, vy: 320 });
}

#[test]
fn score_accessor_reports_the_pair() {
    let mut g = new_game_with(draws(600, 800));
    g.score = Score { left: 3, right: 7 };
    assert_eq!(score_of(&g), (3, 7));
}
