use pong_core::rng::ball_step;
use pong_core::rng::new_game;
use pong_core::sim::Ball;
use pong_core::sim::GameState;
use pong_core::sim::Score;

#[test]
fn new_game_draws_a_rightward_serve() {
    // Whatever was drawn, the serve moves rightward with a speed within
    // the integer rounding band of BALL_INITIAL_SPEED.
    for _ in 0..50 {
        let g = new_game();
        assert_eq!(g.ball.x, 0);
        assert_eq!(g.ball.y, 0);
        assert_eq!(g.score, Score { left: 0, right: 0 });
        assert!(g.ball.vx >= 1);
        let sq = g.ball.vx * g.ball.vx + g.ball.vy * g.ball.vy;
        assert!((400 - 3) * (400 - 3) <= sq && sq <= (400 + 2) * (400 + 2));
    }
}

#[test]
fn live_goal_scores_and_reaims_within_the_drawn_band() {
    // Whatever the generator hands back, a left-goal crossing increments
    // the right score alone and re-serves leftward near BALL_INITIAL_SPEED.
    for _ in 0..50 {
        let mut g = GameState {
            ball: Ball { x: -490_000, y: 0, vx: -600, vy: 0 },
            score: Score { left: 0, right: 0 },
            left_paddle_y: 0,
            right_paddle_y: 0,
        };
        ball_step(&mut g, 40);
        assert_eq!(g.score, Score { left: 0, right: 1 });
        assert_eq!((g.ball.x, g.ball.y), (0, 0));
        assert!(g.ball.vx <= -1);
        let sq = g.ball.vx * g.ball.vx + g.ball.vy * g.ball.vy;
        assert!((400 - 3) * (400 - 3) <= sq && sq <= (400 + 2) * (400 + 2));
    }
}

#[test]
fn live_bounce_reverses_sign_near_ball_speed() {
    // A live paddle bounce: sign reversed, speed within BALL_SPEED's band.
    for _ in 0..50 {
        let mut g = GameState {
            ball: Ball { x: 460_000, y: 0, vx: 50, vy: 0 },
            score: Score { left: 0, right: 0 },
            left_paddle_y: 0,
            right_paddle_y: 0,
        };
        ball_step(&mut g, 100);
        assert_eq!((g.ball.x, g.ball.y), (465_000, 0));
        assert!(g.ball.vx <= -1);
        let sq = g.ball.vx * g.ball.vx + g.ball.vy * g.ball.vy;
        assert!((600 - 3) * (600 - 3) <= sq && sq <= (600 + 2) * (600 + 2));
        assert_eq!(g.score, Score { left: 0, right: 0 });
    }
}
