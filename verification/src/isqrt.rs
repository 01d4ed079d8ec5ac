//! Integer square root, used to normalize re-aim direction draws.

use vstd::prelude::*;

verus! {

/// The floor of the square root of `n` (meaningful for `n >= 0`).
pub closed spec fn sqrt_floor(n: int) -> int {
    choose|r: int| 0 <= r <= n && #[trigger] (r * r) <= n && n < (r + 1) * (r + 1)
}

/// `sqrt_floor(n)` really is the floor of the square root: it is
/// nonnegative, its square is at most `n`, and the next square is above `n`.
pub proof fn lemma_sqrt_floor(n: int)
    requires
        0 <= n,
    ensures
        0 <= sqrt_floor(n) <= n,
        sqrt_floor(n) * sqrt_floor(n) <= n,
        n < (sqrt_floor(n) + 1) * (sqrt_floor(n) + 1),
    decreases n,
{
    if n == 0 {
        assert(0int * 0int == 0 && (0int + 1) * (0int + 1) == 1) by (nonlinear_arith);
        assert(exists|r: int| 0 <= r <= n && #[trigger] (r * r) <= n && n < (r + 1) * (r + 1));
    } else {
        lemma_sqrt_floor(n - 1);
        let p = sqrt_floor(n - 1);
        if (p + 1) * (p + 1) <= n {
            let w = p + 1;
            assert(n - 1 < w * w);
            assert(n == w * w);
            assert(w <= n && n < (w + 1) * (w + 1)) by (nonlinear_arith)
                requires
                    1 <= w,
                    n == w * w,
            ;
            assert(0 <= w <= n && w * w <= n && n < (w + 1) * (w + 1));
        } else {
            assert(0 <= p <= n && p * p <= n && n < (p + 1) * (p + 1));
        }
        assert(exists|r: int| 0 <= r <= n && #[trigger] (r * r) <= n && n < (r + 1) * (r + 1));
    }
}

/// Only one nonnegative integer has its square at most `n` and the next
/// square above `n`, so any such integer equals `sqrt_floor(n)`.
pub proof fn lemma_sqrt_floor_unique(n: int, r: int)
    requires
        0 <= n,
        0 <= r,
        r * r <= n,
        n < (r + 1) * (r + 1),
    ensures
        r == sqrt_floor(n),
{
    lemma_sqrt_floor(n);
    let s = sqrt_floor(n);
    assert(r == s) by (nonlinear_arith)
        requires
            0 <= r,
            0 <= s,
            r * r <= n,
            n < (r + 1) * (r + 1),
            s * s <= n,
            n < (s + 1) * (s + 1),
    ;
}

/// Computes the floor of the square root of `n`.
pub fn isqrt(n: u64) -> (r: u64)
    requires
        n <= 4_000_000,
    ensures
        r as int == sqrt_floor(n as int),
        r * r <= n,
        n < (r + 1) * (r + 1),
{
    let mut r: u64 = 0;
    loop
        invariant
            n <= 4_000_000,
            r * r <= n,
            r <= n,
        ensures
            r * r <= n,
            n < (r + 1) * (r + 1),
        decreases n - r,
    {
        proof {
            assert(((r as int) + 1) <= ((r as int) + 1) * ((r as int) + 1)
                && ((r as int) + 1) * ((r as int) + 1) <= 0xffff_ffff_ffff_ffff) by (nonlinear_arith)
                requires
                    0 <= r as int <= 4_000_000,
            ;
        }
        if (r + 1) * (r + 1) > n {
            break;
        }
        r = r + 1;
    }
    proof {
        lemma_sqrt_floor_unique(n as int, r as int);
    }
    r
}

} // verus!
