use pong_core::entities::paddle_rect;
use pong_core::entities::paddle_x;
use pong_core::entities::static_colliders;
use pong_core::entities::PaddleSide;
use pong_core::entities::WallKind;
use pong_core::geom::Rect;

#[test]
fn four_walls_in_scan_order_with_tags() {
    let cs = static_colliders();
    assert_eq!(cs.len(), 4);
    assert_eq!(cs[0].kind, WallKind::LeftGoal);
    assert_eq!(cs[1].kind, WallKind::RightGoal);
    assert_eq!(cs[2].kind, WallKind::Plain);
    assert_eq!(cs[3].kind, WallKind::Plain);
    assert_eq!(cs[0].rect, Rect { cx: -500_000, cy: 0, w: 10_000, h: 610_000 });
    assert_eq!(cs[1].rect, Rect { cx: 500_000, cy: 0, w: 10_000, h: 610_000 });
    assert_eq!(cs[2].rect, Rect { cx: 0, cy: 300_000, w: 1_010_000, h: 10_000 });
    assert_eq!(cs[3].rect, Rect { cx: 0, cy: -300_000, w: 1_010_000, h: 10_000 });
}

#[test]
fn paddles_sit_inside_their_goals_with_padding() {
    assert_eq!(paddle_x(PaddleSide::Left), -485_000);
    assert_eq!(paddle_x(PaddleSide::Right), 485_000);
}

#[test]
fn paddle_rect_carries_the_fixed_size() {
    let r = paddle_rect(PaddleSide::Right, 120_000);
    assert_eq!(r, Rect { cx: 485_000, cy: 120_000, w: 15_000, h: 100_000 });
}
