//! Re-aiming the ball: a direction draw in per-mille components is
//! normalized and scaled to a target speed, in integer arithmetic.
//!
//! A draw is a horizontal component `dx` in `[300, 1000]` and a vertical
//! component `dy` in `[-1000, 1000]`. The resulting velocity is
//! `(dx * s / l, dy * s / l)` with `l` the integer square root of
//! `dx^2 + dy^2`; its squared magnitude lies within `[(s - 3)^2, (s + 2)^2]`
//! of the target speed `s`, and its horizontal component never degenerates
//! to zero.

use vstd::prelude::*;

use vstd::arithmetic::div_mod::lemma_div_pos_is_pos;
use vstd::arithmetic::div_mod::lemma_remainder_lower;
use vstd::arithmetic::div_mod::lemma_remainder_upper;

use crate::consts::AIM_X_MAX;
use crate::consts::AIM_X_MIN;
use crate::consts::AIM_Y_MAX;
use crate::consts::AIM_Y_MIN;
use crate::isqrt::isqrt;
use crate::isqrt::lemma_sqrt_floor;
use crate::isqrt::sqrt_floor;

verus! {

/// Absolute value of an integer.
pub open spec fn iabs(v: int) -> int {
    if v >= 0 {
        v
    } else {
        -v
    }
}

/// Squared magnitude of a velocity.
pub open spec fn speed_sq(vx: int, vy: int) -> int {
    vx * vx + vy * vy
}

/// Length of a direction draw: the integer square root of `dx^2 + dy^2`.
pub open spec fn aim_len(dx: int, dy: int) -> int {
    sqrt_floor(dx * dx + iabs(dy) * iabs(dy))
}

/// Horizontal velocity component of a normalized, scaled draw.
pub open spec fn aim_vx(dx: int, dy: int, s: int) -> int {
    dx * s / aim_len(dx, dy)
}

/// Vertical velocity component of a normalized, scaled draw: the scaled
/// magnitude of `dy`, carrying `dy`'s sign.
pub open spec fn aim_vy(dx: int, dy: int, s: int) -> int {
    let m = iabs(dy) * s / aim_len(dx, dy);
    if dy >= 0 {
        m
    } else {
        -m
    }
}

/// A draw the re-aim accepts, with a positive horizontal component.
pub open spec fn draw_ranges(dx: int, dy: int) -> bool {
    &&& AIM_X_MIN <= dx <= AIM_X_MAX
    &&& AIM_Y_MIN <= dy <= AIM_Y_MAX
}

/// A target speed the re-aim accepts. The lower bound keeps the integer
/// rounding loss provably small next to the speed; both game speeds lie
/// well inside.
pub open spec fn speed_range(s: int) -> bool {
    108 <= s <= 600
}

/// Normalizing and scaling an admissible draw yields a velocity whose
/// squared magnitude lies within `[(s - 3)^2, (s + 2)^2]`, whose horizontal
/// component lies in `[1, s]`, and whose vertical component carries the
/// sign of the draw and magnitude at most `s`.
pub proof fn lemma_aim_bounds(dx: int, dy: int, s: int)
    requires
        draw_ranges(dx, dy),
        speed_range(s),
    ensures
        1 <= aim_vx(dx, dy, s) <= s,
        -s <= aim_vy(dx, dy, s) <= s,
        dy >= 0 ==> aim_vy(dx, dy, s) >= 0,
        dy <= 0 ==> aim_vy(dx, dy, s) <= 0,
        (s - 3) * (s - 3) <= speed_sq(aim_vx(dx, dy, s), aim_vy(dx, dy, s)),
        speed_sq(aim_vx(dx, dy, s), aim_vy(dx, dy, s)) <= (s + 2) * (s + 2),
{
    let a = iabs(dy);
    let n = dx * dx + a * a;
    assert(0 <= n <= 2_000_000) by (nonlinear_arith)
        requires
            300 <= dx <= 1000,
            0 <= a <= 1000,
            n == dx * dx + a * a,
    ;
    lemma_sqrt_floor(n);
    let l = aim_len(dx, dy);
    assert(l == sqrt_floor(n));
    assert(dx <= l && a <= l && 300 <= l <= 1414) by (nonlinear_arith)
        requires
            0 <= l,
            l * l <= n,
            n < (l + 1) * (l + 1),
            n <= 2_000_000,
            n == dx * dx + a * a,
            300 <= dx <= 1000,
            0 <= a <= 1000,
    ;
    let bx = dx * s;
    let by = a * s;
    assert(32_400 <= bx <= 600_000 && 0 <= by <= 600_000) by (nonlinear_arith)
        requires
            300 <= dx <= 1000,
            0 <= a <= 1000,
            108 <= s <= 600,
            bx == dx * s,
            by == a * s,
    ;
    let vx = bx / l;
    let vm = by / l;
    assert(vx == aim_vx(dx, dy, s));
    lemma_div_pos_is_pos(bx, l);
    lemma_div_pos_is_pos(by, l);
    lemma_remainder_lower(bx, l);
    lemma_remainder_upper(bx, l);
    lemma_remainder_lower(by, l);
    lemma_remainder_upper(by, l);
    assert(vx * l <= bx && bx - l < vx * l) by (nonlinear_arith)
        requires
            bx / l * l <= bx,
            bx - l < bx / l * l,
            vx == bx / l,
    ;
    assert(vm * l <= by && by - l < vm * l) by (nonlinear_arith)
        requires
            by / l * l <= by,
            by - l < by / l * l,
            vm == by / l,
    ;
    // Horizontal component: at least 1, at most s.
    assert(1 <= vx && vx <= s && vm <= s) by (nonlinear_arith)
        requires
            bx - l < vx * l,
            bx >= 32_400,
            300 <= l <= 1414,
            vx * l <= bx,
            bx == dx * s,
            vm * l <= by,
            by == a * s,
            dx <= l,
            a <= l,
            0 <= vx,
            0 <= vm,
            0 <= s,
    ;
    // Upper bound on the squared magnitude.
    assert((vx * vx + vm * vm) * (l * l) <= n * (s * s)) by (nonlinear_arith)
        requires
            0 <= vx * l <= bx,
            0 <= vm * l <= by,
            bx == dx * s,
            by == a * s,
            n == dx * dx + a * a,
            0 <= dx,
            0 <= a,
            0 <= s,
    ;
    assert(n * (s * s) < ((s + 2) * (s + 2)) * (l * l)) by (nonlinear_arith)
        requires
            n < (l + 1) * (l + 1),
            0 <= s <= 2 * l,
            0 < l,
            0 <= n,
    ;
    assert(vx * vx + vm * vm <= (s + 2) * (s + 2)) by (nonlinear_arith)
        requires
            (vx * vx + vm * vm) * (l * l) < ((s + 2) * (s + 2)) * (l * l),
            0 < l,
    ;
    // Lower bound: the rounding loss is small next to the target speed.
    assert(2 * (bx + by) <= (6 * s - 9) * l) by (nonlinear_arith)
        requires
            bx == dx * s,
            by == a * s,
            n == dx * dx + a * a,
            n < (l + 1) * (l + 1),
            l * l <= n,
            16 <= l,
            108 <= s,
            0 <= dx,
            0 <= a,
    ;
    assert((vx * l) * (vx * l) >= (bx - l) * (bx - l)) by (nonlinear_arith)
        requires
            bx - l < vx * l,
            0 <= bx - l,
            0 <= vx * l,
    ;
    assert((vx * l) * (vx * l) >= bx * bx - 2 * bx * l) by (nonlinear_arith)
        requires
            (vx * l) * (vx * l) >= (bx - l) * (bx - l),
    ;
    if by >= l {
        assert((vm * l) * (vm * l) >= (by - l) * (by - l)) by (nonlinear_arith)
            requires
                by - l < vm * l,
                0 <= by - l,
                0 <= vm * l,
        ;
        assert((vm * l) * (vm * l) >= by * by - 2 * by * l) by (nonlinear_arith)
            requires
                (vm * l) * (vm * l) >= (by - l) * (by - l),
        ;
    } else {
        assert((vm * l) * (vm * l) >= by * by - 2 * by * l) by (nonlinear_arith)
            requires
                0 <= by,
                by < l,
                0 <= vm * l,
        ;
    }
    assert(bx * bx + by * by == n * (s * s)) by (nonlinear_arith)
        requires
            bx == dx * s,
            by == a * s,
            n == dx * dx + a * a,
    ;
    assert((vx * l) * (vx * l) == (vx * vx) * (l * l)) by (nonlinear_arith);
    assert((vm * l) * (vm * l) == (vm * vm) * (l * l)) by (nonlinear_arith);
    assert((vx * vx + vm * vm) * (l * l) == (vx * vx) * (l * l) + (vm * vm) * (l * l))
        by (nonlinear_arith);
    assert((bx + by) * (2 * l) == 2 * bx * l + 2 * by * l) by (nonlinear_arith);
    assert((vx * vx + vm * vm) * (l * l) >= n * (s * s) - (bx + by) * (2 * l));
    assert(n * (s * s) - (bx + by) * (2 * l) >= ((s - 3) * (s - 3)) * (l * l)) by (nonlinear_arith)
        requires
            l * l <= n,
            2 * (bx + by) <= (6 * s - 9) * l,
            0 < l,
            3 <= s,
    ;
    assert((s - 3) * (s - 3) <= vx * vx + vm * vm) by (nonlinear_arith)
        requires
            ((s - 3) * (s - 3)) * (l * l) <= (vx * vx + vm * vm) * (l * l),
            0 < l,
    ;
    // A draw with no vertical component yields no vertical velocity.
    if a == 0 {
        assert(vm == 0) by (nonlinear_arith)
            requires
                vm * l <= by,
                by == a * s,
                a == 0,
                0 <= vm,
                0 < l,
        ;
    }
    // The vertical component only changes sign, which squares away.
    let vy = aim_vy(dx, dy, s);
    assert(vy * vy == vm * vm && iabs(vy) == vm) by (nonlinear_arith)
        requires
            vy == if dy >= 0 { vm } else { -vm },
            0 <= vm,
    ;
}

/// Builds the re-aimed velocity from a direction draw and a target speed.
/// The horizontal component is positive; callers choose its final sign.
pub fn aim_velocity(dx: i64, dy: i64, s: i64) -> (v: (i64, i64))
    requires
        draw_ranges(dx as int, dy as int),
        speed_range(s as int),
    ensures
        v.0 as int == aim_vx(dx as int, dy as int, s as int),
        v.1 as int == aim_vy(dx as int, dy as int, s as int),
        1 <= v.0 <= s,
        -s <= v.1 <= s,
        (s - 3) * (s - 3) <= speed_sq(v.0 as int, v.1 as int) <= (s + 2) * (s + 2),
{
    proof {
        lemma_aim_bounds(dx as int, dy as int, s as int);
    }
    let dxm: u64 = dx as u64;
    let dym: u64 = if dy >= 0 {
        dy as u64
    } else {
        (-dy) as u64
    };
    proof {
        assert((dxm as int) * (dxm as int) <= 1_000_000 && (dym as int) * (dym as int)
            <= 1_000_000) by (nonlinear_arith)
            requires
                0 <= dxm as int <= 1000,
                0 <= dym as int <= 1000,
        ;
    }
    let n: u64 = dxm * dxm + dym * dym;
    let l: u64 = isqrt(n);
    proof {
        assert(n as int == (dx as int) * (dx as int) + iabs(dy as int) * iabs(dy as int));
        assert(l as int == aim_len(dx as int, dy as int));
        assert(l >= 300 && l <= 1414) by {
            lemma_sqrt_floor(n as int);
            assert((dx as int) <= l as int && 300 <= l as int <= 1414) by (nonlinear_arith)
                requires
                    0 <= l as int,
                    (l as int) * (l as int) <= n as int,
                    (n as int) < ((l as int) + 1) * ((l as int) + 1),
                    n as int <= 2_000_000,
                    n as int == (dx as int) * (dx as int) + iabs(dy as int) * iabs(dy as int),
                    300 <= dx as int <= 1000,
                    0 <= iabs(dy as int) <= 1000,
            ;
        }
    }
    proof {
        assert((dxm as int) * (s as int) <= 600_000 && (dym as int) * (s as int)
            <= 600_000) by (nonlinear_arith)
            requires
                0 <= dxm as int <= 1000,
                0 <= dym as int <= 1000,
                0 <= s as int <= 600,
        ;
    }
    let vx: u64 = dxm * (s as u64) / l;
    let vm: u64 = dym * (s as u64) / l;
    let vy: i64 = if dy >= 0 {
        vm as i64
    } else {
        proof {
            lemma_div_pos_is_pos(dym as int * (s as int), l as int);
        }
        -(vm as i64)
    };
    (vx as i64, vy)
}

} // verus!
