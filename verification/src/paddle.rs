//! Paddle control: input intent moves a paddle vertically, clamped to the
//! arena.

use vstd::prelude::*;

use crate::consts::MAX_DT_MS;
use crate::consts::PADDLE_SPEED;
use crate::consts::PADDLE_Y_MAX;
use crate::consts::PADDLE_Y_MIN;
use crate::consts::POS_MAX;

verus! {

/// Net direction intent of one player: up and down held together cancel.
pub open spec fn intent(up: bool, down: bool) -> int {
    (if up { 1int } else { 0int }) - (if down { 1int } else { 0int })
}

/// `v` clamped to the closed interval `[lo, hi]`.
pub open spec fn clamp_spec(v: int, lo: int, hi: int) -> int {
    if v < lo {
        lo
    } else if v > hi {
        hi
    } else {
        v
    }
}

/// Advances one paddle's vertical center by its intent for `dt_ms`
/// milliseconds and clamps it to the arena; the result always lies within
/// `[PADDLE_Y_MIN, PADDLE_Y_MAX]`, whatever the inputs.
pub fn paddle_step(y: i64, up: bool, down: bool, dt_ms: u64) -> (r: i64)
    requires
        -POS_MAX <= y <= POS_MAX,
        dt_ms <= MAX_DT_MS,
    ensures
        r == clamp_spec(
            y + intent(up, down) * (PADDLE_SPEED as int) * (dt_ms as int),
            PADDLE_Y_MIN as int,
            PADDLE_Y_MAX as int,
        ),
        PADDLE_Y_MIN <= r <= PADDLE_Y_MAX,
{
    let disp: i64 = PADDLE_SPEED * (dt_ms as i64);
    let new_y: i64 = if up && !down {
        y + disp
    } else if down && !up {
        y - disp
    } else {
        y
    };
    proof {
        let s = PADDLE_SPEED as int;
        let d = dt_ms as int;
        let i = intent(up, down);
        if up && !down {
            assert(i * s * d == s * d) by (nonlinear_arith)
                requires
                    i == 1,
            ;
        } else if down && !up {
            assert(i * s * d == -(s * d)) by (nonlinear_arith)
                requires
                    i == -1,
            ;
        } else {
            assert(i * s * d == 0) by (nonlinear_arith)
                requires
                    i == 0,
            ;
        }
    }
    if new_y < PADDLE_Y_MIN {
        PADDLE_Y_MIN
    } else if new_y > PADDLE_Y_MAX {
        PADDLE_Y_MAX
    } else {
        new_y
    }
}

} // verus!
