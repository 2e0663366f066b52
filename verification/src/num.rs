//! Integer square root and truncating division helpers used by the vector
//! magnitude, the rotor renormalisation, and the signed-distance field.

use vstd::prelude::*;

verus! {

/// One step of the mathematical floor square root: walk `k` upward until
/// `(k + 1) * (k + 1)` exceeds `n`.
pub open spec fn sqrt_iter(n: int, k: int) -> int
    decreases n - k,
    when 0 <= k && k * k <= n via sqrt_iter_decreases
{
    if (k + 1) * (k + 1) > n {
        k
    } else {
        sqrt_iter(n, k + 1)
    }
}

#[via_fn]
proof fn sqrt_iter_decreases(n: int, k: int) {
    assert((k + 1) * (k + 1) <= n && k >= 0 ==> k + 1 <= n) by (nonlinear_arith);
}

/// The floor of the square root of `n`, as a mathematical function.
pub open spec fn sqrt_floor(n: int) -> int {
    sqrt_iter(n, 0)
}

proof fn lemma_sqrt_iter_unique(n: int, k: int, r: int)
    requires
        0 <= k <= r,
        k * k <= n,
        r * r <= n,
        n < (r + 1) * (r + 1),
    ensures
        sqrt_iter(n, k) == r,
    decreases r - k,
{
    if k == r {
        assert(sqrt_iter(n, k) == r);
    } else {
        assert((k + 1) * (k + 1) <= r * r) by (nonlinear_arith)
            requires 0 <= k && k + 1 <= r;
        lemma_sqrt_iter_unique(n, k + 1, r);
    }
}

/// The floor square root is the unique `r` with `r * r <= n < (r + 1) * (r + 1)`.
pub proof fn lemma_sqrt_floor_unique(n: int, r: int)
    requires
        0 <= r,
        r * r <= n,
        n < (r + 1) * (r + 1),
    ensures
        sqrt_floor(n) == r,
{
    lemma_sqrt_iter_unique(n, 0, r);
}

/// Floor square root of a non-negative `i64`, by binary search.
pub fn isqrt(n: i64) -> (r: i64)
    requires
        n >= 0,
    ensures
        0 <= r,
        r * r <= n < (r + 1) * (r + 1),
        r == sqrt_floor(n as int),
{
    let mut lo: i64 = 0;
    let mut hi: i64 = 3037000500;
    if n >= 9223372034707292500 {
        // 3037000499 is the floor square root of i64::MAX, and
        // 9223372034707292500 is 3037000500 * 3037000499.
        proof {
            assert(3037000499int * 3037000499int == 9223372030926249001);
            assert(3037000500int * 3037000500int == 9223372037000250000);
            lemma_sqrt_floor_unique(n as int, 3037000499);
        }
        return 3037000499;
    }
    assert(3037000500int * 3037000500int == 9223372037000250000);
    while hi - lo > 1
        invariant
            0 <= lo < hi <= 3037000500,
            lo * lo <= n,
            n < hi * hi,
        decreases hi - lo,
    {
        let mid = lo + (hi - lo) / 2;
        proof {
            assert(mid * mid <= 3037000499int * 3037000499int) by (nonlinear_arith)
                requires 0 <= mid <= 3037000499;
            assert(3037000499int * 3037000499int == 9223372030926249001);
        }
        if mid * mid <= n {
            lo = mid;
        } else {
            hi = mid;
        }
    }
    proof {
        lemma_sqrt_floor_unique(n as int, lo as int);
    }
    lo
}

/// The absolute value of a mathematical integer.
pub open spec fn abs_of(a: int) -> int {
    if a < 0 {
        -a
    } else {
        a
    }
}

/// Truncating division, the rounding of hardware signed division: the
/// quotient of the absolute values, negated when the signs differ.
pub open spec fn div_trunc(a: int, b: int) -> int {
    if (a < 0) != (b < 0) {
        -(abs_of(a) / abs_of(b))
    } else {
        abs_of(a) / abs_of(b)
    }
}

/// Divide, rounding toward zero.
pub fn div_to_zero(a: i64, b: i64) -> (q: i64)
    requires
        b != 0,
        a != i64::MIN,
        b != i64::MIN,
    ensures
        q == div_trunc(a as int, b as int),
{
    let an: i64 = if a < 0 { -a } else { a };
    let bn: i64 = if b < 0 { -b } else { b };
    let q = an / bn;
    if (a < 0) != (b < 0) {
        -q
    } else {
        q
    }
}

/// On an even dividend, truncating halving agrees with the mathematical
/// half.
pub proof fn lemma_div_trunc_even_half(a: int)
    requires
        a % 2 == 0,
    ensures
        div_trunc(a, 2) == a / 2,
{
    assert(a == 2 * (a / 2));
    if a < 0 {
        assert((-a) / 2 == -(a / 2));
    }
}

/// A quotient is no larger than `c` when the dividend is within `b * c`.
pub proof fn lemma_div_trunc_bound(a: int, b: int, c: int)
    requires
        b > 0,
        0 <= c,
        abs_of(a) <= b * c,
    ensures
        abs_of(div_trunc(a, b)) <= c,
{
    assert(abs_of(a) / b <= c) by (nonlinear_arith)
        requires b > 0, 0 <= c, 0 <= abs_of(a) <= b * c;
}

/// A product grows at most by the bound of one factor.
pub proof fn lemma_mul_abs_bound(x: int, y: int, b: int)
    requires
        abs_of(x) <= b,
        0 <= b,
    ensures
        abs_of(x * y) <= b * abs_of(y),
{
    assert(abs_of(x * y) <= b * abs_of(y)) by (nonlinear_arith)
        requires abs_of(x) <= b, 0 <= b;
}

/// A square of a value within `b` is non-negative and within `b * b`.
pub proof fn lemma_square_le(x: int, b: int)
    requires
        -b <= x <= b,
    ensures
        0 <= x * x <= b * b,
{
    assert(0 <= x * x <= b * b) by (nonlinear_arith)
        requires -b <= x <= b;
}

/// No summand of a sum of squares exceeds the square of the floor root of
/// the sum.
pub proof fn lemma_component_within_root(x: int, m: int, s: int)
    requires
        0 <= m,
        x * x <= s,
        s < (m + 1) * (m + 1),
    ensures
        abs_of(x) <= m,
{
    assert(!(abs_of(x) > m)) by (nonlinear_arith)
        requires 0 <= m, x * x <= s, s < (m + 1) * (m + 1);
}

/// Every product of values within `b1` and `b2` lies within `b1 * b2`.
pub proof fn lemma_mul_within(b1: int, b2: int)
    requires
        0 <= b1,
        0 <= b2,
    ensures
        forall|x: int, y: int|
            -b1 <= x <= b1 && -b2 <= y <= b2 ==> -(b1 * b2) <= #[trigger] (x * y) <= b1 * b2,
{
    assert forall|x: int, y: int|
        -b1 <= x <= b1 && -b2 <= y <= b2 implies -(b1 * b2) <= #[trigger] (x * y) <= b1 * b2 by {
        assert(-(b1 * b2) <= x * y <= b1 * b2) by (nonlinear_arith)
            requires -b1 <= x <= b1, -b2 <= y <= b2;
    }
}

/// Every square is non-negative.
pub proof fn lemma_squares_nonneg()
    ensures
        forall|x: int| 0 <= #[trigger] (x * x),
{
    assert forall|x: int| 0 <= #[trigger] (x * x) by {
        assert(0 <= x * x) by (nonlinear_arith);
    }
}

} // verus!
