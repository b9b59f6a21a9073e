//! Fixed-point arithmetic: scalars are `i32` counts of thousandths, results
//! that leave that range stop at its ends.

use vstd::prelude::*;

verus! {

/// One whole unit, in thousandths.
pub const UNIT: i32 = 1000;

/// Nanoseconds in one second.
pub const NANOS_PER_SECOND: u64 = 1_000_000_000;

/// The scalar nearest to `v`.
pub open spec fn saturate(v: int) -> int {
    if v < i32::MIN {
        i32::MIN as int
    } else if v > i32::MAX {
        i32::MAX as int
    } else {
        v
    }
}

/// The quotient of `a` by a positive `b`, rounded toward zero.
pub open spec fn trunc_div(a: int, b: int) -> int {
    if a >= 0 {
        a / b
    } else {
        -((-a) / b)
    }
}

/// `a * b / c`, rounded toward zero.
pub open spec fn mul_div(a: int, b: int, c: int) -> int {
    trunc_div(a * b, c)
}

/// What a rate per second comes to over `nanos` nanoseconds.
pub open spec fn over_time(rate: int, nanos: int) -> int {
    mul_div(rate, nanos, NANOS_PER_SECOND as int)
}

/// `r` is the integer square root of `n`.
pub open spec fn is_sqrt(n: int, r: int) -> bool {
    0 <= r && r * r <= n < (r + 1) * (r + 1)
}

/// The integer square root of `n`: the largest `r` with `r * r <= n`.
pub open spec fn sqrt(n: int) -> int {
    choose|r: int| is_sqrt(n, r)
}

/// A number has at most one integer square root.
pub proof fn lemma_sqrt_unique(n: int, r1: int, r2: int)
    requires
        is_sqrt(n, r1),
        is_sqrt(n, r2),
    ensures
        r1 == r2,
{
    if r1 < r2 {
        assert((r1 + 1) * (r1 + 1) <= r2 * r2) by (nonlinear_arith)
            requires
                0 <= r1,
                r1 + 1 <= r2,
        ;
    } else if r2 < r1 {
        assert((r2 + 1) * (r2 + 1) <= r1 * r1) by (nonlinear_arith)
            requires
                0 <= r2,
                r2 + 1 <= r1,
        ;
    }
}

/// Every number from zero up has an integer square root.
pub proof fn lemma_sqrt_exists(n: int)
    requires
        0 <= n,
    ensures
        is_sqrt(n, sqrt(n)),
    decreases n,
{
    if n == 0 {
        assert(is_sqrt(0, 0));
    } else {
        lemma_sqrt_exists(n - 1);
        let r = sqrt(n - 1);
        if n < (r + 1) * (r + 1) {
            assert(is_sqrt(n, r));
        } else {
            assert((r + 2) * (r + 2) > (r + 1) * (r + 1)) by (nonlinear_arith)
                requires
                    0 <= r,
            ;
            assert(is_sqrt(n, r + 1));
        }
    }
}

/// Whoever holds a square root of `n` holds `sqrt(n)`.
pub proof fn lemma_sqrt_is(n: int, r: int)
    requires
        is_sqrt(n, r),
    ensures
        sqrt(n) == r,
{
    lemma_sqrt_unique(n, r, sqrt(n));
}

/// Computes [`saturate`].
pub fn saturate_i128(v: i128) -> (r: i32)
    ensures
        r == saturate(v as int),
{
    if v < -2147483648 {
        -2147483648
    } else if v > 2147483647 {
        2147483647
    } else {
        v as i32
    }
}

/// Computes `a * b / c` rounded toward zero, for factors whose product fits.
pub fn mul_div_i128(a: i32, b: i128, c: i128) -> (r: i128)
    requires
        -0x1_0000_0000_0000_0000 <= b <= 0x1_0000_0000_0000_0000,
        0 < c,
    ensures
        r == mul_div(a as int, b as int, c as int),
        -0x8000_0000_0000_0000_0000_0000 <= r <= 0x8000_0000_0000_0000_0000_0000,
{
    assert(-0x8000_0000_0000_0000_0000_0000 <= (a as int) * (b as int)
        <= 0x8000_0000_0000_0000_0000_0000) by (nonlinear_arith)
        requires
            -0x8000_0000 <= a as int <= 0x8000_0000,
            -0x1_0000_0000_0000_0000 <= b as int <= 0x1_0000_0000_0000_0000,
    ;
    let p: i128 = (a as i128) * b;
    let q: i128 = p / c;
    proof {
        let pi = p as int;
        let ci = c as int;
        if pi >= 0 {
            assert(0 <= pi / ci <= pi) by (nonlinear_arith)
                requires
                    pi >= 0,
                    ci > 0,
            ;
        } else {
            assert(0 <= (-pi) / ci <= -pi) by (nonlinear_arith)
                requires
                    -pi >= 0,
                    ci > 0,
            ;
        }
    }
    q
}

/// Computes the integer square root by bisection.
pub fn isqrt(n: u128) -> (r: u128)
    ensures
        r == sqrt(n as int),
        is_sqrt(n as int, r as int),
        r <= 0xFFFF_FFFF_FFFF_FFFF,
{
    let mut lo: u128 = 0;
    let mut hi: u128 = 0x1_0000_0000_0000_0000;
    while hi - lo > 1
        invariant
            lo < hi <= 0x1_0000_0000_0000_0000,
            lo * lo <= n,
            n < hi * hi,
        decreases hi - lo,
    {
        let mid: u128 = lo + (hi - lo) / 2;
        assert(mid * mid <= 0xFFFF_FFFF_FFFF_FFFF * 0xFFFF_FFFF_FFFF_FFFF) by (nonlinear_arith)
            requires
                0 <= mid <= 0xFFFF_FFFF_FFFF_FFFF,
        ;
        let sq: u128 = mid * mid;
        if sq <= n {
            lo = mid;
        } else {
            hi = mid;
        }
    }
    proof {
        lemma_sqrt_is(n as int, lo as int);
    }
    lo
}

/// The square root of a number that is at least `k * k` is at least `k`.
pub proof fn lemma_sqrt_at_least(n: int, k: int)
    requires
        0 <= k,
        k * k <= n,
    ensures
        sqrt(n) >= k,
{
    lemma_sqrt_exists(n);
    let r = sqrt(n);
    if r < k {
        assert((r + 1) * (r + 1) <= k * k) by (nonlinear_arith)
            requires
                0 <= r,
                r + 1 <= k,
        ;
    }
}

} // verus!
