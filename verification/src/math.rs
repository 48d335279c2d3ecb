//! A small fixed-point helper: an integer square root fast enough for a
//! microcontroller, with no lookup table.

use vstd::prelude::*;

verus! {

/// Integer square root by recursive halving: the root of `n` is twice the
/// root of `n / 4`, give or take one.  Returns the exact floor of the square
/// root for any radicand up to `16383`, the largest for which the doubled
/// partial root still fits in an `i8`.
pub fn fast_sqrt(n: i16) -> (r: i8)
    requires
        0 <= n < 16384,
    ensures
        0 <= r,
        r * r <= n,
        n < (r + 1) * (r + 1),
    decreases n,
{
    if n < 2 {
        proof {
            assert(n * n <= n && n < (n + 1) * (n + 1)) by (nonlinear_arith)
                requires
                    0 <= n < 2,
            ;
        }
        return n as i8;
    }
    let quarter: i16 = n / 4;
    let half_root: i8 = fast_sqrt(quarter);
    proof {
        assert(half_root <= 63) by (nonlinear_arith)
            requires
                0 <= half_root,
                half_root * half_root <= quarter,
                quarter < 4096,
        ;
    }
    let small: i8 = half_root * 2;
    let big: i8 = small + 1;
    proof {
        assert(4 * quarter <= n && n <= 4 * quarter + 3);
        assert((2 * half_root) * (2 * half_root) <= 4 * quarter) by (nonlinear_arith)
            requires
                0 <= half_root,
                half_root * half_root <= quarter,
        ;
        assert(4 * quarter + 3 < (2 * half_root + 2) * (2 * half_root + 2)) by (nonlinear_arith)
            requires
                0 <= half_root,
                quarter < (half_root + 1) * (half_root + 1),
        ;
    }
    let big16: i16 = big as i16;
    proof {
        assert(0 <= big16 * big16 <= 16129) by (nonlinear_arith)
            requires
                0 <= big16 <= 127,
        ;
    }
    if big16 * big16 > n {
        small
    } else {
        big
    }
}

} // verus!
