//! Fixed-point scalars.
//!
//! Every length, speed, rate and duration is an `i64` counting [`SCALE`]-ths
//! of a world unit (or of a second) and stays within `-LIMIT ..= LIMIT`.
//! Contracts speak of these values as mathematical integers.

use vstd::prelude::*;

verus! {

/// Number of fixed-point steps in one world unit.
pub const SCALE: i64 = 1024;

/// Largest magnitude a scalar may have.
pub const LIMIT: i64 = 0x8000_0000;

/// A scalar is representable when its magnitude is at most [`LIMIT`].
pub open spec fn in_range(v: int) -> bool {
    -LIMIT <= v <= LIMIT
}

/// Absolute value.
pub open spec fn magnitude(v: int) -> int {
    if v < 0 {
        -v
    } else {
        v
    }
}

/// The representable scalar nearest to `v`.
pub open spec fn clamped(v: int) -> int {
    if v < -LIMIT {
        -(LIMIT as int)
    } else if v > LIMIT {
        LIMIT as int
    } else {
        v
    }
}

/// Quotient of `a` by a positive `b`, rounded toward zero.
pub open spec fn toward_zero(a: int, b: int) -> int {
    if a >= 0 {
        a / b
    } else {
        -((-a) / b)
    }
}

/// Quotient of a non-negative `a` by a positive `b`, rounded up.
pub open spec fn rounded_up(a: int, b: int) -> int {
    (a + b - 1) / b
}

/// Fixed-point product: `v * factor / SCALE`, rounded toward zero.
pub open spec fn scaled(v: int, factor: int) -> int {
    toward_zero(v * factor, SCALE as int)
}

/// `r` is the integer square root of `n`.
pub open spec fn is_root(n: nat, r: nat) -> bool {
    r * r <= n < (r + 1) * (r + 1)
}

/// The integer square root of `n`: the greatest `r` with `r * r <= n`.
pub open spec fn int_sqrt(n: nat) -> nat {
    choose|r: nat| is_root(n, r)
}

/// A number has at most one integer square root.
pub proof fn lemma_root_unique(n: nat, a: nat, b: nat)
    requires
        is_root(n, a),
        is_root(n, b),
    ensures
        a == b,
{
    if a < b {
        assert((a + 1) * (a + 1) <= b * b) by (nonlinear_arith)
            requires
                0 <= a + 1 <= b,
        ;
    } else if b < a {
        assert((b + 1) * (b + 1) <= a * a) by (nonlinear_arith)
            requires
                0 <= b + 1 <= a,
        ;
    }
}

/// Every number has an integer square root, and [`int_sqrt`] is it.
pub proof fn lemma_int_sqrt(n: nat)
    ensures
        is_root(n, int_sqrt(n)),
    decreases n,
{
    if n == 0 {
        assert(is_root(0, 0)) by (nonlinear_arith);
    } else {
        lemma_int_sqrt((n - 1) as nat);
        let r: nat = int_sqrt((n - 1) as nat);
        if (r + 1) * (r + 1) <= n {
            assert(is_root(n, r + 1)) by (nonlinear_arith)
                requires
                    (r + 1) * (r + 1) <= n,
                    n - 1 < (r + 1) * (r + 1),
            ;
        } else {
            assert(is_root(n, r)) by (nonlinear_arith)
                requires
                    r * r <= n - 1,
                    n < (r + 1) * (r + 1),
            ;
        }
    }
}

/// The square root grows with its argument.
pub proof fn lemma_int_sqrt_monotonic(a: nat, b: nat)
    requires
        a <= b,
    ensures
        int_sqrt(a) <= int_sqrt(b),
{
    lemma_int_sqrt(a);
    lemma_int_sqrt(b);
    let ra: nat = int_sqrt(a);
    let rb: nat = int_sqrt(b);
    if rb < ra {
        assert((rb + 1) * (rb + 1) <= ra * ra) by (nonlinear_arith)
            requires
                0 <= rb + 1 <= ra,
        ;
    }
}

/// The square root of a perfect square.
pub proof fn lemma_int_sqrt_square(r: nat)
    ensures
        int_sqrt(r * r) == r,
{
    assert(is_root(r * r, r)) by (nonlinear_arith);
    lemma_int_sqrt(r * r);
    lemma_root_unique(r * r, r, int_sqrt(r * r));
}

/// Absolute value of a representable scalar.
pub fn abs_value(v: i64) -> (m: i64)
    requires
        i64::MIN < v,
    ensures
        m == magnitude(v as int),
{
    if v < 0 {
        -v
    } else {
        v
    }
}

/// Integer square root by bisection.
pub fn isqrt(n: u64) -> (r: u64)
    ensures
        r == int_sqrt(n as nat),
        r <= 0xFFFF_FFFF,
{
    let mut lo: u64 = 0;
    let mut hi: u64 = 0x1_0000_0000;
    while hi - lo > 1
        invariant
            lo < hi <= 0x1_0000_0000,
            lo * lo <= n,
            n < hi * hi,
        decreases hi - lo,
    {
        let mid: u64 = lo + (hi - lo) / 2;
        assert(mid * mid <= 0xFFFF_FFFF * 0xFFFF_FFFF) by (nonlinear_arith)
            requires
                0 <= mid <= 0xFFFF_FFFF,
        ;
        if mid * mid <= n {
            lo = mid;
        } else {
            hi = mid;
        }
    }
    proof {
        assert(is_root(n as nat, lo as nat));
        lemma_int_sqrt(n as nat);
        lemma_root_unique(n as nat, lo as nat, int_sqrt(n as nat));
    }
    lo
}

/// Fixed-point product of two representable scalars.
pub fn scale(v: i64, factor: i64) -> (r: i64)
    requires
        in_range(v as int),
        in_range(factor as int),
    ensures
        r == scaled(v as int, factor as int),
{
    assert(-0x4000_0000_0000_0000 <= v * factor <= 0x4000_0000_0000_0000) by (nonlinear_arith)
        requires
            -0x8000_0000 <= v <= 0x8000_0000,
            -0x8000_0000 <= factor <= 0x8000_0000,
    ;
    let product: i64 = v * factor;
    if product >= 0 {
        product / SCALE
    } else {
        -((-product) / SCALE)
    }
}

/// The product of a scalar of magnitude at most `bound` with a factor is at
/// most `bound * |factor| / SCALE` in magnitude.
pub proof fn lemma_scaled_bound(v: int, factor: int, bound: int)
    requires
        magnitude(v) <= bound,
    ensures
        magnitude(scaled(v, factor)) <= (bound * magnitude(factor)) / (SCALE as int),
{
    let p: int = v * factor;
    assert(magnitude(p) <= bound * magnitude(factor)) by (nonlinear_arith)
        requires
            magnitude(v) <= bound,
            p == v * factor,
    ;
    if p >= 0 {
        assert(p / 1024 <= (bound * magnitude(factor)) / 1024);
    } else {
        assert((-p) / 1024 <= (bound * magnitude(factor)) / 1024);
    }
}

} // verus!
