use pong_core::consts::PADDLE_Y_MAX;
use pong_core::consts::PADDLE_Y_MIN;
use pong_core::paddle::paddle_step;

#[test]
fn paddle_moves_up() {
    // 450 units per second for 100 ms: 45 units, in milli-units.
    assert_eq!(paddle_step(0, true, false, 100), 45_000);
}

#[test]
fn paddle_moves_down() {
    assert_eq!(paddle_step(0, false, true, 100), -45_000);
}

#[test]
fn both_keys_cancel() {
    assert_eq!(paddle_step(12_345, true, true, 100), 12_345);
}

#[test]
fn no_keys_no_motion() {
    assert_eq!(paddle_step(-7_000, false, false, 100), -7_000);
}

#[test]
fn zero_dt_no_motion() {
    assert_eq!(paddle_step(100_000, true, false, 0), 100_000);
}

#[test]
fn clamped_at_top() {
    assert_eq!(paddle_step(240_000, true, false, 100), PADDLE_Y_MAX);
    assert_eq!(PADDLE_Y_MAX, 250_000);
}

#[test]
fn clamped_at_bottom() {
    assert_eq!(paddle_step(-240_000, false, true, 100), PADDLE_Y_MIN);
    assert_eq!(PADDLE_Y_MIN, -250_000);
}

#[test]
fn result_always_inside_arena() {
    // The clamp invariant holds whatever the starting height and intent.
    let heights: [i64; 5] = [-900_000_000, -250_000, 0, 250_000, 900_000_000];
    let keys: [(bool, bool); 4] = [(false, false), (true, false), (false, true), (true, true)];
    let dts: [u64; 3] = [0, 16, 10_000];
    for &y in heights.iter() {
        for &(up, down) in keys.iter() {
            for &dt in dts.iter() {
                let r = paddle_step(y, up, down, dt);
                assert!(PADDLE_Y_MIN <= r && r <= PADDLE_Y_MAX);
            }
        }
    }
}
