//! Fixed-point sine and cosine on `[-pi, pi]`, via an integer rational
//! approximation. The solver uses them to turn the yaw angle into a world
//! basis; their exact values are pinned by spec functions and the results are
//! proved to stay inside `[-ONE, ONE]`.

use vstd::prelude::*;
use crate::fix::{ONE, sabs, tdiv};

verus! {

/// Pi in fixed-point units.
pub const PI_FX: i64 = 205887;

/// A full turn in fixed-point units.
pub const TAU_FX: i64 = 2 * PI_FX;

/// A quarter turn in fixed-point units.
pub const HALF_PI_FX: i64 = 102944;

/// The rational sine approximation on `[0, pi]`:
/// `16 x (pi - x) / (5 pi^2 - 4 x (pi - x))`, scaled by `ONE`.
pub open spec fn sin_half(x: int) -> int {
    tdiv(16 * x * (PI_FX - x) * ONE, 5 * PI_FX * PI_FX - 4 * x * (PI_FX - x))
}

/// Sine on `[-pi, pi]`, by odd extension of the half-range approximation.
pub open spec fn sin_s(x: int) -> int {
    if x >= 0 {
        sin_half(x)
    } else {
        -sin_half(-x)
    }
}

/// Cosine on `[-pi, pi]`, as the sine of the complementary angle.
pub open spec fn cos_s(x: int) -> int {
    sin_s(HALF_PI_FX - sabs(x))
}

/// Sine of `x` on `[0, pi]` with the numerator and denominator evaluated on
/// machine integers.
fn sin_fx_half(x: i64) -> (r: i64)
    requires
        0 <= x <= PI_FX,
    ensures
        r == sin_half(x as int),
        0 <= r <= ONE,
        x == 0 ==> r == 0,
{
    let span: i64 = PI_FX - x;
    proof {
        assert(0 <= x as int * span as int <= PI_FX * PI_FX) by (nonlinear_arith)
            requires
                0 <= x <= PI_FX,
                span == PI_FX - x,
        ;
    }
    let prod: i64 = x * span;
    let num: i64 = 16 * prod * ONE;
    let den: i64 = 5 * (PI_FX * PI_FX) - 4 * prod;
    proof {
        // 4 x (pi - x) <= pi^2, since (pi - 2x)^2 >= 0; so the numerator is
        // at most `den * ONE` and the quotient is at most `ONE`.
        assert(4 * (x as int * span as int) <= PI_FX * PI_FX) by (nonlinear_arith)
            requires
                span == PI_FX - x,
        ;
        assert(num <= den * ONE);
        crate::fix::lemma_tdiv_abs(num as int, den as int);
        crate::fix::lemma_div_ordered(num as int, den as int * ONE, den as int);
        assert((den as int * ONE) / (den as int) == ONE) by (nonlinear_arith)
            requires
                den > 0,
        ;
        assert(num as int == 16 * (x as int) * (PI_FX - x as int) * ONE) by (nonlinear_arith)
            requires
                num == 16 * (x as int * span as int) * ONE,
                span == PI_FX - x,
        ;
        assert(den as int == 5 * PI_FX * PI_FX - 4 * (x as int) * (PI_FX - x as int))
            by (nonlinear_arith)
            requires
                den == 5 * (PI_FX * PI_FX) - 4 * (x as int * span as int),
                span == PI_FX - x,
        ;
        if x == 0 {
            assert(num == 0);
            assert(tdiv(0, den as int) == 0) by (nonlinear_arith)
                requires
                    den > 0,
            ;
        }
    }
    let r: i64 = crate::fix::div_t(num, den);
    r
}

/// Fixed-point sine on `[-pi, pi]`.
pub fn sin_fx(x: i64) -> (r: i64)
    requires
        -PI_FX <= x <= PI_FX,
    ensures
        r == sin_s(x as int),
        -ONE <= r <= ONE,
        x >= 0 ==> r >= 0,
        x <= 0 ==> r <= 0,
{
    if x >= 0 {
        sin_fx_half(x)
    } else {
        let p: i64 = sin_fx_half(-x);
        -p
    }
}

/// Fixed-point cosine on `[-pi, pi]`.
pub fn cos_fx(x: i64) -> (r: i64)
    requires
        -PI_FX <= x <= PI_FX,
    ensures
        r == cos_s(x as int),
        -ONE <= r <= ONE,
{
    let a: i64 = if x >= 0 {
        x
    } else {
        -x
    };
    sin_fx(HALF_PI_FX - a)
}

} // verus!
