//! Fixed-point scalars: an `i64` holds a real number scaled by `ONE` (2^16).
//! All solver arithmetic is done on these, with truncation toward zero, so
//! that every tick of the controller is a pure integer computation.

use vstd::prelude::*;

verus! {

/// The fixed-point unit: 1.0 is represented as `ONE`.
pub const ONE: i64 = 65536;

/// Magnitude bound under which all fixed-point inputs are kept so that
/// products of two of them stay inside `i64`.
pub const LIM: i64 = 0x8000_0000;

/// Division truncated toward zero (the way `/` rounds on machine integers),
/// defined for positive divisors.
pub open spec fn tdiv(a: int, b: int) -> int {
    if a >= 0 {
        a / b
    } else {
        -((-a) / b)
    }
}

/// Fixed-point product: `(a * b) / ONE`, truncated toward zero.
pub open spec fn fmul(a: int, b: int) -> int {
    tdiv(a * b, ONE as int)
}

/// Fixed-point quotient: `(a * ONE) / b`, truncated toward zero.
pub open spec fn fdiv(a: int, b: int) -> int {
    tdiv(a * ONE, b)
}

pub open spec fn smin(a: int, b: int) -> int {
    if a <= b {
        a
    } else {
        b
    }
}

pub open spec fn smax(a: int, b: int) -> int {
    if a >= b {
        a
    } else {
        b
    }
}

pub open spec fn sabs(a: int) -> int {
    if a >= 0 {
        a
    } else {
        -a
    }
}

pub open spec fn sclamp(a: int, lo: int, hi: int) -> int {
    if a < lo {
        lo
    } else if a > hi {
        hi
    } else {
        a
    }
}

/// Sign of `a`: -1, 0 or 1.
pub open spec fn ssgn(a: int) -> int {
    if a > 0 {
        1
    } else if a < 0 {
        -1
    } else {
        0
    }
}

/// Truncated division of an `i64` by a positive `i64`.
pub fn div_t(a: i64, b: i64) -> (r: i64)
    requires
        b > 0,
        a > i64::MIN,
    ensures
        r == tdiv(a as int, b as int),
{
    a / b
}

/// Fixed-point multiply.
pub fn mul_fx(a: i64, b: i64) -> (r: i64)
    requires
        -0x4000_0000_0000_0000 <= a * b <= 0x4000_0000_0000_0000,
    ensures
        r == fmul(a as int, b as int),
{
    let p: i64 = a * b;
    div_t(p, ONE)
}

/// Fixed-point divide by a positive divisor.
pub fn div_fx(a: i64, b: i64) -> (r: i64)
    requires
        b > 0,
        -0x2000_0000_0000 <= a <= 0x2000_0000_0000,
    ensures
        r == fdiv(a as int, b as int),
{
    let p: i64 = a * ONE;
    div_t(p, b)
}

pub fn min_fx(a: i64, b: i64) -> (r: i64)
    ensures
        r == smin(a as int, b as int),
{
    if a <= b {
        a
    } else {
        b
    }
}

pub fn max_fx(a: i64, b: i64) -> (r: i64)
    ensures
        r == smax(a as int, b as int),
{
    if a >= b {
        a
    } else {
        b
    }
}

pub fn abs_fx(a: i64) -> (r: i64)
    requires
        a > i64::MIN,
    ensures
        r == sabs(a as int),
{
    if a >= 0 {
        a
    } else {
        -a
    }
}

pub fn clamp_fx(a: i64, lo: i64, hi: i64) -> (r: i64)
    requires
        lo <= hi,
    ensures
        r == sclamp(a as int, lo as int, hi as int),
{
    if a < lo {
        lo
    } else if a > hi {
        hi
    } else {
        a
    }
}

/// Sign of `a` as a plain integer in {-1, 0, 1} (not scaled by `ONE`).
pub fn sgn_fx(a: i64) -> (r: i64)
    ensures
        r == ssgn(a as int),
{
    if a > 0 {
        1
    } else if a < 0 {
        -1
    } else {
        0
    }
}

/// Euclidean remainder by a positive modulus: the representative in
/// `[0, m)`.
pub fn euclid_mod(a: i64, m: i64) -> (r: i64)
    requires
        m > 0,
        a > i64::MIN,
    ensures
        r == a as int % m as int,
        0 <= r < m,
{
    if a >= 0 {
        a % m
    } else {
        let n: i64 = -a;
        let s: i64 = n % m;
        let ghost k: int = n as int / m as int;
        proof {
            vstd::arithmetic::div_mod::lemma_fundamental_div_mod(n as int, m as int);
            if s == 0 {
                assert(-(n as int) == (-k) * m + 0) by (nonlinear_arith)
                    requires
                        n as int == k * m + 0,
                ;
                vstd::arithmetic::div_mod::lemma_fundamental_div_mod_converse(
                    -(n as int),
                    m as int,
                    -k,
                    0,
                );
            } else {
                assert(-(n as int) == (-k - 1) * m + (m - s)) by (nonlinear_arith)
                    requires
                        n as int == k * m + s,
                ;
                vstd::arithmetic::div_mod::lemma_fundamental_div_mod_converse(
                    -(n as int),
                    m as int,
                    -k - 1,
                    m - s,
                );
            }
        }
        if s == 0 {
            0
        } else {
            m - s
        }
    }
}

/// The magnitude of a truncated quotient is the (Euclidean) quotient of the
/// magnitudes, so bounds on the dividend carry over to the quotient.
pub proof fn lemma_tdiv_abs(a: int, b: int)
    requires
        b > 0,
    ensures
        sabs(tdiv(a, b)) == sabs(a) / b,
        sabs(tdiv(a, b)) <= sabs(a),
{
    if a >= 0 {
        assert(a / b <= a) by (nonlinear_arith)
            requires
                a >= 0,
                b > 0,
        ;
        assert(a / b >= 0) by (nonlinear_arith)
            requires
                a >= 0,
                b > 0,
        ;
    } else {
        assert((-a) / b <= -a) by (nonlinear_arith)
            requires
                a < 0,
                b > 0,
        ;
        assert((-a) / b >= 0) by (nonlinear_arith)
            requires
                a < 0,
                b > 0,
        ;
    }
}

/// Euclidean division of non-negative values by a positive divisor is
/// monotone in the dividend.
pub proof fn lemma_div_ordered(a: int, b: int, d: int)
    requires
        0 <= a <= b,
        d > 0,
    ensures
        a / d <= b / d,
{
    assert(a / d <= b / d) by (nonlinear_arith)
        requires
            0 <= a <= b,
            d > 0,
    ;
}

/// A product bound: componentwise magnitude bounds on the factors bound the
/// magnitude of a fixed-point product.
pub proof fn lemma_fmul_bound(a: int, b: int, bound_a: int, bound_b: int)
    requires
        sabs(a) <= bound_a,
        sabs(b) <= bound_b,
    ensures
        sabs(fmul(a, b)) <= (bound_a * bound_b) / (ONE as int),
{
    assert(sabs(a * b) <= bound_a * bound_b) by (nonlinear_arith)
        requires
            sabs(a) <= bound_a,
            sabs(b) <= bound_b,
    ;
    lemma_tdiv_abs(a * b, ONE as int);
    lemma_div_ordered(sabs(a * b), bound_a * bound_b, ONE as int);
}

/// Multiplying by `ONE` is exact: the fixed-point unit is the identity.
pub proof fn lemma_fmul_one(a: int)
    ensures
        fmul(a, ONE as int) == a,
{
    if a >= 0 {
        assert(a * ONE >= 0) by (nonlinear_arith)
            requires
                a >= 0,
                ONE > 0,
        ;
        assert((a * ONE) / (ONE as int) == a) by (nonlinear_arith);
    } else {
        assert(a * ONE < 0) by (nonlinear_arith)
            requires
                a < 0,
                ONE > 0,
        ;
        assert(-(a * ONE) == (-a) * ONE) by (nonlinear_arith);
        assert(((-a) * ONE) / (ONE as int) == -a) by (nonlinear_arith);
    }
}

/// Multiplying by a factor with magnitude at most `ONE` cannot grow a value.
pub proof fn lemma_fmul_shrink(a: int, b: int)
    requires
        sabs(b) <= ONE,
    ensures
        sabs(fmul(a, b)) <= sabs(a),
{
    lemma_fmul_bound(a, b, sabs(a), ONE as int);
    assert((sabs(a) * (ONE as int)) / (ONE as int) == sabs(a)) by (nonlinear_arith);
}

/// Dividing by a divisor of at least `ONE` cannot grow a value.
pub proof fn lemma_fdiv_shrink(a: int, b: int)
    requires
        b >= ONE,
    ensures
        sabs(fdiv(a, b)) <= sabs(a),
{
    lemma_tdiv_abs(a * ONE, b);
    assert(sabs(a * ONE) == sabs(a) * ONE) by (nonlinear_arith)
        requires
            ONE > 0,
    ;
    assert((sabs(a) * ONE) / b <= sabs(a)) by (nonlinear_arith)
        requires
            b >= ONE,
            ONE > 0,
            sabs(a) >= 0,
    ;
}

/// The floor square root of a non-negative integer, as a value: the unique
/// `r >= 0` with `r * r <= n < (r + 1) * (r + 1)`.
pub open spec fn sqrt_floor(n: int) -> int {
    choose|r: int| 0 <= r && #[trigger] (r * r) <= n && n < (r + 1) * (r + 1)
}

/// The floor square root is unique.
pub proof fn lemma_sqrt_floor_unique(n: int, a: int, b: int)
    requires
        0 <= a,
        a * a <= n < (a + 1) * (a + 1),
        0 <= b,
        b * b <= n < (b + 1) * (b + 1),
    ensures
        a == b,
{
    assert(a == b) by (nonlinear_arith)
        requires
            0 <= a,
            a * a <= n < (a + 1) * (a + 1),
            0 <= b,
            b * b <= n < (b + 1) * (b + 1),
    ;
}

/// Any witness to the square-root property equals `sqrt_floor`.
pub proof fn lemma_sqrt_floor_is(n: int, r: int)
    requires
        0 <= r,
        r * r <= n < (r + 1) * (r + 1),
    ensures
        sqrt_floor(n) == r,
{
    assert(exists|q: int| 0 <= q && #[trigger] (q * q) <= n && n < (q + 1) * (q + 1)) by {
        assert(0 <= r && r * r <= n && n < (r + 1) * (r + 1));
    }
    let q = choose|q: int| 0 <= q && #[trigger] (q * q) <= n && n < (q + 1) * (q + 1);
    lemma_sqrt_floor_unique(n, q, r);
}

/// Floor square root of a machine word, by bisection.
pub fn isqrt(n: u64) -> (r: u64)
    ensures
        r * r <= n,
        n < (r + 1) * (r + 1),
        r < 0x1_0000_0000,
        n == 0 ==> r == 0,
        r == sqrt_floor(n as int),
{
    proof {
        if n == 0 {
            lemma_sqrt_floor_is(0, 0);
        }
    }
    if n == 0 {
        return 0;
    }
    let mut lo: u64 = 0;
    let mut hi: u64 = 0x1_0000_0000;
    while lo + 1 < hi
        invariant
            lo < hi <= 0x1_0000_0000,
            lo * lo <= n,
            (hi * hi) as int > n,
        decreases hi - lo,
    {
        let mid: u64 = lo + (hi - lo) / 2;
        assert(mid * mid <= 0xffff_ffff * 0xffff_ffff) by (nonlinear_arith)
            requires
                mid <= 0xffff_ffff,
        ;
        if mid * mid <= n {
            lo = mid;
        } else {
            hi = mid;
        }
    }
    assert(((lo + 1) * (lo + 1)) as int >= (hi * hi) as int) by (nonlinear_arith)
        requires
            lo + 1 >= hi,
            hi >= 1,
    ;
    proof {
        lemma_sqrt_floor_is(n as int, lo as int);
    }
    lo
}

} // verus!
