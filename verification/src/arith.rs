//! Bounded integer multiplication helpers and an exact integer square root.
//!
//! The algebra's formulas are long signed sums of products. Each helper
//! multiplies two values whose magnitudes are capped by its precondition and
//! returns the exact product together with a bound tight enough that the
//! callers' sums stay inside `i64`.

use vstd::prelude::*;

verus! {

/// Product of two factors no larger than `2^29` in magnitude; the result is
/// no larger than `2^58`, so sums of up to sixteen such products fit in `i64`.
pub fn mul_c(x: i64, y: i64) -> (r: i64)
    requires
        -0x2000_0000 <= x <= 0x2000_0000,
        -0x2000_0000 <= y <= 0x2000_0000,
    ensures
        r == x * y,
        -0x400_0000_0000_0000 <= r <= 0x400_0000_0000_0000,
{
    proof {
        assert(-0x400_0000_0000_0000 <= x * y <= 0x400_0000_0000_0000) by (nonlinear_arith)
            requires
                -0x2000_0000 <= x <= 0x2000_0000,
                -0x2000_0000 <= y <= 0x2000_0000;
    }
    x * y
}

/// Product of two factors no larger than `2^15` in magnitude, bounded by `2^30`.
pub fn mul_t(x: i64, y: i64) -> (r: i64)
    requires
        -0x8000 <= x <= 0x8000,
        -0x8000 <= y <= 0x8000,
    ensures
        r == x * y,
        -0x4000_0000 <= r <= 0x4000_0000,
{
    proof {
        assert(-0x4000_0000 <= x * y <= 0x4000_0000) by (nonlinear_arith)
            requires
                -0x8000 <= x <= 0x8000,
                -0x8000 <= y <= 0x8000;
    }
    x * y
}

/// Product of an accumulated value of magnitude at most `2^37` with a factor
/// of magnitude at most `2^15`, bounded by `2^52`.
pub fn mul_w(x: i64, y: i64) -> (r: i64)
    requires
        -0x20_0000_0000 <= x <= 0x20_0000_0000,
        -0x8000 <= y <= 0x8000,
    ensures
        r == x * y,
        -0x10_0000_0000_0000 <= r <= 0x10_0000_0000_0000,
{
    proof {
        assert(-0x10_0000_0000_0000 <= x * y <= 0x10_0000_0000_0000) by (nonlinear_arith)
            requires
                -0x20_0000_0000 <= x <= 0x20_0000_0000,
                -0x8000 <= y <= 0x8000;
    }
    x * y
}

/// Largest `r` with `r * r <= n`, by binary search.
pub fn isqrt(n: i64) -> (r: i64)
    requires
        0 <= n,
    ensures
        0 <= r,
        r * r <= n,
        n < (r + 1) * (r + 1),
{
    let mut lo: i64 = 0;
    let mut hi: i64 = if n < 0xb504_f333 {
        n
    } else {
        0xb504_f333
    };
    proof {
        assert(n < (0xb504_f333i64 + 1) * (0xb504_f333i64 + 1)) by (nonlinear_arith)
            requires n <= 0x7fff_ffff_ffff_ffff;
        if n < 0xb504_f333 {
            assert(n < (n + 1) * (n + 1)) by (nonlinear_arith)
                requires 0 <= n;
        }
    }
    while lo < hi
        invariant
            0 <= lo <= hi <= 0xb504_f333,
            lo * lo <= n,
            n < (hi + 1) * (hi + 1),
        decreases hi - lo,
    {
        let mid: i64 = lo + (hi - lo + 1) / 2;
        proof {
            assert(mid * mid <= 0xb504_f333i64 * 0xb504_f333i64) by (nonlinear_arith)
                requires 0 <= mid <= 0xb504_f333;
        }
        if mid * mid <= n {
            lo = mid;
        } else {
            hi = mid - 1;
        }
    }
    lo
}

} // verus!
