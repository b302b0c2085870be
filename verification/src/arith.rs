//! Scalar arithmetic underlying the vector operations: range predicates,
//! truncating division, and the integer square root.

use vstd::arithmetic::div_mod::lemma_div_is_ordered;
use vstd::arithmetic::div_mod::lemma_div_is_ordered_by_denominator;
use vstd::arithmetic::div_mod::lemma_div_multiples_vanish;
use vstd::arithmetic::div_mod::lemma_div_nonincreasing;
use vstd::arithmetic::div_mod::lemma_div_of0;
use vstd::arithmetic::div_mod::lemma_div_pos_is_pos;
use vstd::arithmetic::div_mod::lemma_fundamental_div_mod;
use vstd::prelude::*;

verus! {

/// Holds when a mathematical integer is representable as an `i64`.
pub open spec fn in_i64(v: int) -> bool {
    i64::MIN <= v <= i64::MAX
}

/// The absolute value of a mathematical integer.
pub open spec fn abs_val(a: int) -> int {
    if a >= 0 {
        a
    } else {
        -a
    }
}

/// Division rounding toward zero, as the machine's signed division does.
/// Unspecified when `b == 0`.
pub open spec fn trunc_div(a: int, b: int) -> int {
    if (a >= 0) == (b >= 0) {
        abs_val(a) / abs_val(b)
    } else {
        -(abs_val(a) / abs_val(b))
    }
}

/// Truncating division on machine integers: rounds toward zero, as `/`
/// does in ordinary Rust.  The excluded pair is the one whose quotient
/// does not fit in an `i64`.
pub fn div_trunc_i64(a: i64, b: i64) -> (q: i64)
    requires
        b != 0,
        !(a == i64::MIN && b == -1),
    ensures
        q == trunc_div(a as int, b as int),
{
    proof {
        let p = abs_val(a as int);
        let m = abs_val(b as int);
        if p == 0 {
            lemma_div_of0(m);
        } else {
            lemma_div_pos_is_pos(p, m);
            lemma_div_nonincreasing(p, m);
            if m >= 2 {
                lemma_div_is_ordered_by_denominator(p, 2, m);
                lemma_div_is_ordered(p, 0x8000000000000000, 2);
            }
        }
    }
    let q_opt = a.checked_div(b);
    assert(q_opt is Some);
    q_opt.unwrap()
}

/// When `m` divides `a` evenly, truncating division is exact: the
/// quotient times `m` gives back `a`.
pub proof fn lemma_trunc_div_exact(a: int, m: int)
    requires
        m > 0,
        a % m == 0,
    ensures
        trunc_div(a, m) * m == a,
{
    lemma_fundamental_div_mod(a, m);
    assert(a == m * (a / m));
    if a >= 0 {
        assert(trunc_div(a, m) == a / m);
    } else {
        let k = a / m;
        assert(-a == m * (-k)) by (nonlinear_arith)
            requires
                a == m * k,
        ;
        lemma_div_multiples_vanish(-k, m);
        assert(trunc_div(a, m) == k);
    }
    assert(trunc_div(a, m) * m == a) by (nonlinear_arith)
        requires
            trunc_div(a, m) == a / m,
            a == m * (a / m),
    ;
}

/// Integer square root: the greatest integer whose square does not
/// exceed `s` (and 0 for a negative argument).
pub open spec fn isqrt(s: int) -> int
    decreases s,
{
    if s <= 0 {
        0
    } else if (isqrt(s - 1) + 1) * (isqrt(s - 1) + 1) <= s {
        isqrt(s - 1) + 1
    } else {
        isqrt(s - 1)
    }
}

/// `isqrt(s)` is the integer square root: its square is at most `s`,
/// and the next square is beyond `s`.
pub proof fn lemma_isqrt_bounds(s: int)
    requires
        s >= 0,
    ensures
        0 <= isqrt(s),
        isqrt(s) * isqrt(s) <= s,
        s < (isqrt(s) + 1) * (isqrt(s) + 1),
    decreases s,
{
    if s > 0 {
        lemma_isqrt_bounds(s - 1);
        let r = isqrt(s - 1);
        if (r + 1) * (r + 1) <= s {
            assert(s == (r + 1) * (r + 1));
            assert((r + 1) * (r + 1) < (r + 2) * (r + 2)) by (nonlinear_arith)
                requires
                    r >= 0,
            ;
        }
    }
}

/// Any integer whose square brackets `s` as `isqrt(s)`'s does is
/// `isqrt(s)` itself.
pub proof fn lemma_isqrt_unique(s: int, r: int)
    requires
        s >= 0,
        0 <= r,
        r * r <= s,
        s < (r + 1) * (r + 1),
    ensures
        r == isqrt(s),
{
    lemma_isqrt_bounds(s);
    let q = isqrt(s);
    if r < q {
        assert((r + 1) * (r + 1) <= q * q) by (nonlinear_arith)
            requires
                0 <= r + 1 <= q,
        ;
    }
    if q < r {
        assert((q + 1) * (q + 1) <= r * r) by (nonlinear_arith)
            requires
                0 <= q + 1 <= r,
        ;
    }
}

/// Integer square root of a machine integer, by bisection.
pub fn isqrt_u64(s: u64) -> (r: u64)
    requires
        s <= i64::MAX,
    ensures
        r == isqrt(s as int),
        r <= 3037000499,
{
    let mut lo: u64 = 0;
    let mut hi: u64 = 3037000500;
    while lo + 1 < hi
        invariant
            lo < hi <= 3037000500,
            s <= i64::MAX,
            lo * lo <= s,
            s < hi * hi,
        decreases hi - lo,
    {
        let mid = lo + (hi - lo) / 2;
        assert(mid * mid <= 3037000499 * 3037000499) by (nonlinear_arith)
            requires
                0 <= mid <= 3037000499,
        ;
        if mid * mid <= s {
            lo = mid;
        } else {
            hi = mid;
        }
    }
    proof {
        lemma_isqrt_unique(s as int, lo as int);
    }
    lo
}

} // verus!
