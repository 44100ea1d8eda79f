use fps::fix::{ONE, isqrt, mul_fx, div_fx, euclid_mod, min_fx, max_fx, abs_fx, clamp_fx, sgn_fx};
use fps::trig::{PI_FX, TAU_FX, HALF_PI_FX, sin_fx, cos_fx};
use fps::vec3::Vec3;

#[test]
fn isqrt_small_values() {
    assert_eq!(isqrt(0), 0);
    assert_eq!(isqrt(1), 1);
    assert_eq!(isqrt(2), 1);
    assert_eq!(isqrt(3), 1);
    assert_eq!(isqrt(4), 2);
    assert_eq!(isqrt(15), 3);
    assert_eq!(isqrt(16), 4);
    assert_eq!(isqrt(1 << 32), 65536);
}

#[test]
fn isqrt_large_values() {
    assert_eq!(isqrt(u64::MAX), 0xffff_ffff);
    assert_eq!(isqrt((1 << 62) - 1), 0x7fff_ffff);
    let r = isqrt(10_000_000_019);
    assert!(r * r <= 10_000_000_019 && 10_000_000_019 < (r + 1) * (r + 1));
}

#[test]
fn fixed_multiply_truncates_toward_zero() {
    assert_eq!(mul_fx(3 * ONE, 2 * ONE), 6 * ONE);
    assert_eq!(mul_fx(3 * ONE, -2 * ONE), -6 * ONE);
    // -3/65536 truncates toward zero, not toward minus infinity.
    assert_eq!(mul_fx(-3, 1), 0);
    assert_eq!(mul_fx(3, 1), 0);
    assert_eq!(mul_fx(ONE / 2, ONE / 2), ONE / 4);
}

#[test]
fn fixed_divide() {
    assert_eq!(div_fx(6 * ONE, 2 * ONE), 3 * ONE);
    assert_eq!(div_fx(-6 * ONE, 2 * ONE), -3 * ONE);
    assert_eq!(div_fx(ONE, 3 * ONE), 21845);
}

#[test]
fn euclid_mod_is_nonnegative() {
    assert_eq!(euclid_mod(7, 3), 1);
    assert_eq!(euclid_mod(-7, 3), 2);
    assert_eq!(euclid_mod(-6, 3), 0);
    assert_eq!(euclid_mod(0, 5), 0);
}

#[test]
fn scalar_helpers() {
    assert_eq!(min_fx(3, -5), -5);
    assert_eq!(max_fx(3, -5), 3);
    assert_eq!(abs_fx(-7), 7);
    assert_eq!(clamp_fx(10, 0, 5), 5);
    assert_eq!(clamp_fx(-10, 0, 5), 0);
    assert_eq!(clamp_fx(3, 0, 5), 3);
    assert_eq!(sgn_fx(42), 1);
    assert_eq!(sgn_fx(-42), -1);
    assert_eq!(sgn_fx(0), 0);
}

#[test]
fn sine_at_key_angles() {
    assert_eq!(sin_fx(0), 0);
    assert_eq!(sin_fx(PI_FX), 0);
    assert_eq!(sin_fx(-PI_FX), 0);
    // The rational approximation peaks one unit short of ONE.
    assert_eq!(sin_fx(HALF_PI_FX), 65535);
    assert_eq!(sin_fx(-HALF_PI_FX), -65535);
    assert_eq!(sin_fx(PI_FX / 4), 46260);
}

#[test]
fn cosine_at_key_angles() {
    assert_eq!(cos_fx(0), 65535);
    assert_eq!(cos_fx(PI_FX), -65535);
    assert_eq!(cos_fx(-PI_FX), -65535);
    assert_eq!(cos_fx(HALF_PI_FX), 0);
    assert_eq!(cos_fx(PI_FX / 4), 46261);
}

#[test]
fn trig_stays_inside_unit_range() {
    let mut x = -PI_FX;
    while x <= PI_FX {
        let s = sin_fx(x);
        let c = cos_fx(x);
        assert!(-ONE <= s && s <= ONE);
        assert!(-ONE <= c && c <= ONE);
        x += 4096;
    }
    assert_eq!(TAU_FX, 2 * PI_FX);
}

#[test]
fn vector_length_of_pythagorean_triple() {
    let v = Vec3::new(3 * ONE, 4 * ONE, 0);
    assert_eq!(v.len(), 5 * ONE);
    assert_eq!(Vec3::zero().len(), 0);
    let u = Vec3::new(ONE, 0, 0);
    assert_eq!(u.len(), ONE);
}

#[test]
fn vector_dot_and_scale() {
    let a = Vec3::new(2 * ONE, 0, -ONE);
    let b = Vec3::new(3 * ONE, 5 * ONE, ONE);
    assert_eq!(a.dot(b), 6 * ONE - ONE);
    let s = a.scale(ONE / 2);
    assert_eq!(s, Vec3::new(ONE, 0, -ONE / 2));
    let sum = a.add(b);
    assert_eq!(sum, Vec3::new(5 * ONE, 5 * ONE, 0));
    let diff = a.sub(b);
    assert_eq!(diff, Vec3::new(-ONE, -5 * ONE, -2 * ONE));
}
