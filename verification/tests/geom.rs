use pong_core::geom::collide;
use pong_core::geom::Face;
use pong_core::geom::Rect;

fn ball_at(x: i64, y: i64) -> Rect {
    Rect { cx: x, cy: y, w: 30_000, h: 30_000 }
}

#[test]
fn overlap_on_left_face_of_wide_paddle() {
    // Ball at (495, 0) moving right into a paddle spanning x 485..515:
    // the least-penetrated face is the paddle's left one.
    let ball = ball_at(495_000, 0);
    let paddle = Rect { cx: 500_000, cy: 0, w: 30_000, h: 100_000 };
    assert_eq!(collide(&ball, &paddle), Some(Face::Left));
}

#[test]
fn overlap_on_right_face() {
    // Ball past the right edge of the game's right paddle.
    let ball = ball_at(495_000, 0);
    let paddle = Rect { cx: 485_000, cy: 0, w: 15_000, h: 100_000 };
    assert_eq!(collide(&ball, &paddle), Some(Face::Right));
}

#[test]
fn overlap_on_bottom_face_of_top_wall() {
    // Ball at y 295 reaching into the top wall centered at y 300.
    let ball = ball_at(1_000, 295_000);
    let wall = Rect { cx: 0, cy: 300_000, w: 1_010_000, h: 10_000 };
    assert_eq!(collide(&ball, &wall), Some(Face::Bottom));
}

#[test]
fn overlap_on_top_face_of_bottom_wall() {
    let ball = ball_at(1_000, -295_000);
    let wall = Rect { cx: 0, cy: -300_000, w: 1_010_000, h: 10_000 };
    assert_eq!(collide(&ball, &wall), Some(Face::Top));
}

#[test]
fn disjoint_rectangles_do_not_collide() {
    let ball = ball_at(0, 0);
    let wall = Rect { cx: 0, cy: 300_000, w: 1_010_000, h: 10_000 };
    assert_eq!(collide(&ball, &wall), None);
}

#[test]
fn touching_edges_do_not_collide() {
    // Ball top edge exactly on the wall's bottom edge: no strict overlap.
    let ball = ball_at(0, 280_000);
    let wall = Rect { cx: 0, cy: 300_000, w: 1_010_000, h: 10_000 };
    assert_eq!(collide(&ball, &wall), None);
}

#[test]
fn collide_twice_same_inputs_same_result() {
    // The overlap test is pure: a second call on the same rectangles
    // yields the same overlap and face.
    let ball = ball_at(495_000, 0);
    let paddle = Rect { cx: 500_000, cy: 0, w: 30_000, h: 100_000 };
    let first = collide(&ball, &paddle);
    let second = collide(&ball, &paddle);
    assert_eq!(first, second);
    let far = ball_at(0, 0);
    assert_eq!(collide(&far, &paddle), collide(&far, &paddle));
}
