//! Three-component fixed-point vectors: the currency of the movement solver
//! (velocities, directions, surface normals, impulses).

use vstd::prelude::*;
use crate::fix::{ONE, LIM, fmul, sabs, mul_fx, isqrt, lemma_fmul_bound};

verus! {

#[derive(Clone, Copy, PartialEq, Eq, Structural, Debug)]
pub struct Vec3 {
    pub x: i64,
    pub y: i64,
    pub z: i64,
}

/// Fixed-point dot product of two vectors.
pub open spec fn vdot(a: Vec3, b: Vec3) -> int {
    fmul(a.x as int, b.x as int) + fmul(a.y as int, b.y as int) + fmul(a.z as int, b.z as int)
}

impl Vec3 {
    /// Every component has magnitude at most `m`.
    pub open spec fn bounded(self, m: int) -> bool {
        &&& sabs(self.x as int) <= m
        &&& sabs(self.y as int) <= m
        &&& sabs(self.z as int) <= m
    }

    pub open spec fn is_zero(self) -> bool {
        self.x == 0 && self.y == 0 && self.z == 0
    }

    pub fn new(x: i64, y: i64, z: i64) -> (r: Vec3)
        ensures
            r == (Vec3 { x, y, z }),
    {
        Vec3 { x, y, z }
    }

    pub fn zero() -> (r: Vec3)
        ensures
            r == (Vec3 { x: 0i64, y: 0i64, z: 0i64 }),
            r.is_zero(),
    {
        Vec3 { x: 0, y: 0, z: 0 }
    }

    pub fn add(self, other: Vec3) -> (r: Vec3)
        requires
            i64::MIN <= self.x + other.x <= i64::MAX,
            i64::MIN <= self.y + other.y <= i64::MAX,
            i64::MIN <= self.z + other.z <= i64::MAX,
        ensures
            r.x == self.x + other.x,
            r.y == self.y + other.y,
            r.z == self.z + other.z,
    {
        Vec3 { x: self.x + other.x, y: self.y + other.y, z: self.z + other.z }
    }

    pub fn sub(self, other: Vec3) -> (r: Vec3)
        requires
            i64::MIN <= self.x - other.x <= i64::MAX,
            i64::MIN <= self.y - other.y <= i64::MAX,
            i64::MIN <= self.z - other.z <= i64::MAX,
        ensures
            r.x == self.x - other.x,
            r.y == self.y - other.y,
            r.z == self.z - other.z,
    {
        Vec3 { x: self.x - other.x, y: self.y - other.y, z: self.z - other.z }
    }

    /// Componentwise fixed-point scaling by `s`.
    pub fn scale(self, s: i64) -> (r: Vec3)
        requires
            self.bounded(LIM as int),
            -LIM <= s <= LIM,
        ensures
            r.x == fmul(self.x as int, s as int),
            r.y == fmul(self.y as int, s as int),
            r.z == fmul(self.z as int, s as int),
            r.bounded((sabs(s as int) * self.max_abs()) / (ONE as int)),
    {
        proof {
            lemma_fmul_bound(self.x as int, s as int, LIM as int, LIM as int);
            lemma_fmul_bound(self.y as int, s as int, LIM as int, LIM as int);
            lemma_fmul_bound(self.z as int, s as int, LIM as int, LIM as int);
            assert(sabs(self.x as int * s as int) <= 0x4000_0000_0000_0000) by (nonlinear_arith)
                requires
                    sabs(self.x as int) <= LIM,
                    sabs(s as int) <= LIM,
                    LIM == 0x8000_0000,
            ;
            assert(sabs(self.y as int * s as int) <= 0x4000_0000_0000_0000) by (nonlinear_arith)
                requires
                    sabs(self.y as int) <= LIM,
                    sabs(s as int) <= LIM,
                    LIM == 0x8000_0000,
            ;
            assert(sabs(self.z as int * s as int) <= 0x4000_0000_0000_0000) by (nonlinear_arith)
                requires
                    sabs(self.z as int) <= LIM,
                    sabs(s as int) <= LIM,
                    LIM == 0x8000_0000,
            ;
            lemma_fmul_bound(self.x as int, s as int, self.max_abs(), sabs(s as int));
            lemma_fmul_bound(self.y as int, s as int, self.max_abs(), sabs(s as int));
            lemma_fmul_bound(self.z as int, s as int, self.max_abs(), sabs(s as int));
            assert(self.max_abs() * sabs(s as int) == sabs(s as int) * self.max_abs())
                by (nonlinear_arith);
        }
        Vec3 {
            x: mul_fx(self.x, s),
            y: mul_fx(self.y, s),
            z: mul_fx(self.z, s),
        }
    }

    /// The largest component magnitude.
    pub open spec fn max_abs(self) -> int {
        let ax = sabs(self.x as int);
        let ay = sabs(self.y as int);
        let az = sabs(self.z as int);
        if ax >= ay && ax >= az {
            ax
        } else if ay >= az {
            ay
        } else {
            az
        }
    }

    /// Fixed-point dot product.
    pub fn dot(self, other: Vec3) -> (r: i64)
        requires
            self.bounded(LIM as int),
            other.bounded(LIM as int),
        ensures
            r == vdot(self, other),
    {
        proof {
            lemma_fmul_bound(self.x as int, other.x as int, LIM as int, LIM as int);
            lemma_fmul_bound(self.y as int, other.y as int, LIM as int, LIM as int);
            lemma_fmul_bound(self.z as int, other.z as int, LIM as int, LIM as int);
            assert(sabs(self.x as int * other.x as int) <= 0x4000_0000_0000_0000)
                by (nonlinear_arith)
                requires
                    sabs(self.x as int) <= LIM,
                    sabs(other.x as int) <= LIM,
                    LIM == 0x8000_0000,
            ;
            assert(sabs(self.y as int * other.y as int) <= 0x4000_0000_0000_0000)
                by (nonlinear_arith)
                requires
                    sabs(self.y as int) <= LIM,
                    sabs(other.y as int) <= LIM,
                    LIM == 0x8000_0000,
            ;
            assert(sabs(self.z as int * other.z as int) <= 0x4000_0000_0000_0000)
                by (nonlinear_arith)
                requires
                    sabs(self.z as int) <= LIM,
                    sabs(other.z as int) <= LIM,
                    LIM == 0x8000_0000,
            ;
        }
        let px: i64 = mul_fx(self.x, other.x);
        let py: i64 = mul_fx(self.y, other.y);
        let pz: i64 = mul_fx(self.z, other.z);
        px + py + pz
    }

    /// Fixed-point length as a value: the floor square root of the sum of
    /// squared components (the scale factors cancel, so the result is again
    /// in fixed-point units).
    pub open spec fn len_s(self) -> int {
        crate::fix::sqrt_floor(
            self.x as int * self.x as int + self.y as int * self.y as int + self.z as int
                * self.z as int,
        )
    }

    /// Fixed-point length: the floor square root of the sum of squared
    /// components (the scale factors cancel, so the result is again in
    /// fixed-point units).
    pub fn len(self) -> (r: i64)
        requires
            self.bounded(LIM as int),
        ensures
            0 <= r < 0x1_0000_0000,
            r * r <= self.x * self.x + self.y * self.y + self.z * self.z,
            self.x * self.x + self.y * self.y + self.z * self.z < (r + 1) * (r + 1),
            self.is_zero() ==> r == 0,
            r == self.len_s(),
    {
        proof {
            assert(0 <= self.x as int * self.x as int <= 0x4000_0000_0000_0000)
                by (nonlinear_arith)
                requires
                    sabs(self.x as int) <= LIM,
                    LIM == 0x8000_0000,
            ;
            assert(0 <= self.y as int * self.y as int <= 0x4000_0000_0000_0000)
                by (nonlinear_arith)
                requires
                    sabs(self.y as int) <= LIM,
                    LIM == 0x8000_0000,
            ;
            assert(0 <= self.z as int * self.z as int <= 0x4000_0000_0000_0000)
                by (nonlinear_arith)
                requires
                    sabs(self.z as int) <= LIM,
                    LIM == 0x8000_0000,
            ;
        }
        let xx: u64 = (self.x * self.x) as u64;
        let yy: u64 = (self.y * self.y) as u64;
        let zz: u64 = (self.z * self.z) as u64;
        let sum: u64 = xx + yy + zz;
        proof {
            if self.is_zero() {
                assert(self.x as int * self.x as int == 0) by (nonlinear_arith)
                    requires
                        self.x == 0,
                ;
                assert(sum == 0);
            }
        }
        let r: u64 = isqrt(sum);
        r as i64
    }
}

} // verus!
