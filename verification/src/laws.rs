//! The solver's general laws, proved once over the spec mirrors: the speed
//! cap, no over-acceleration, the bounds both degrees keep, the symmetry of
//! crouching, and the monotone collider height.

use vstd::prelude::*;
use crate::fix::{ONE, sabs};
use crate::vec3::{Vec3, vdot};
use crate::config::GoldenController;
use crate::input::GoldenControllerInput;
use crate::probe::GoldenControllerSpatialHits;
use crate::solver::{
    CALC_EPSILON, max_speed_s, capped_wish_speed_s, accel_add_s, cancel_normal_s, crouch_step_s,
    lean_next_s, half_height_s, up_s,
};

verus! {

/// The speed cap invariant: whatever the raw wish length, the capped wish
/// speed never exceeds the state-dependent maximum.
pub proof fn lemma_speed_cap(
    cfg: GoldenController,
    input: GoldenControllerInput,
    crouch: int,
    lean: int,
)
    ensures
        capped_wish_speed_s(cfg, input, crouch, lean) <= max_speed_s(cfg, crouch, lean),
{
}

/// No over-acceleration: when the velocity already projects onto the wish
/// direction at or beyond the wish speed, the acceleration step adds
/// exactly nothing.
pub proof fn lemma_no_over_acceleration(
    wish_dir: Vec3,
    wish_speed: int,
    accel: int,
    velocity: Vec3,
    dt: int,
)
    requires
        vdot(velocity, wish_dir) >= wish_speed,
    ensures
        accel_add_s(wish_dir, wish_speed, accel, velocity, dt).is_zero(),
{
}

/// The crouch degree stays in [0, ONE] after any step, whatever the target,
/// the ceiling, or the step size: the clamp is part of the step.
pub proof fn lemma_crouch_degree_bounds(c: int, target: int, blocked: bool, step: int)
    ensures
        0 <= crouch_step_s(c, target, blocked, step) <= ONE,
{
}

/// The lean degree stays inside the live wall corridor, and so inside
/// [-ONE, ONE], after any step: both clamps are part of the step.
pub proof fn lemma_lean_degree_bounds(
    lean: int,
    input: GoldenControllerInput,
    hits: GoldenControllerSpatialHits,
    step: int,
)
    requires
        hits.wf(),
    ensures
        -hits.left_wall_dist.dist <= lean_next_s(lean, input, hits, step)
            <= hits.right_wall_dist.dist,
        -ONE <= lean_next_s(lean, input, hits, step) <= ONE,
{
}

/// The collider half-height shrinks (never grows) as the crouch degree
/// rises.
pub proof fn lemma_half_height_monotone(height: int, c1: int, c2: int)
    requires
        height >= 0,
        0 <= c1 <= c2,
    ensures
        half_height_s(height, c2) <= half_height_s(height, c1),
{
    let num = height / 2;
    assert(num >= 0);
    assert(num * ONE >= 0) by (nonlinear_arith)
        requires
            num >= 0,
            ONE > 0,
    ;
    assert((num * ONE) / (4 * c2 + ONE) <= (num * ONE) / (4 * c1 + ONE)) by (nonlinear_arith)
        requires
            num * ONE >= 0,
            0 < 4 * c1 + ONE <= 4 * c2 + ONE,
    ;
}

/// An obstructed ceiling never lowers the crouch degree: standing height is
/// restored only when the ceiling probe reports no hit. Neither the step
/// nor the dead-zone snap is an exception.
pub proof fn lemma_ceiling_blocks_uncrouch(c: int, target: int, step: int)
    requires
        0 <= c <= ONE,
        step >= 0,
    ensures
        crouch_step_s(c, target, true, step) >= c,
{
}

/// On flat ground (the surface normal is exactly up) the landing-bounce
/// correction removes the vertical velocity exactly and leaves the
/// horizontal components untouched.
pub proof fn lemma_flat_landing_kills_fall(v: Vec3)
    ensures
        cancel_normal_s(v, up_s()).y == 0,
        cancel_normal_s(v, up_s()).x == v.x,
        cancel_normal_s(v, up_s()).z == v.z,
{
    let d = vdot(v, up_s());
    assert(v.x as int * 0 == 0 && v.z as int * 0 == 0) by (nonlinear_arith);
    assert(crate::fix::tdiv(0, ONE as int) == 0);
    assert(v.y as int * (ONE as int) == v.y as int * (ONE as int));
    assert(crate::fix::fmul(v.y as int, ONE as int) == v.y) by {
        crate::fix::lemma_fmul_one(v.y as int);
    }
    assert(d == v.y);
    assert(crate::fix::fmul(ONE as int, v.y as int) == v.y) by {
        assert(crate::fix::fmul(ONE as int, v.y as int) == crate::fix::fmul(
            v.y as int,
            ONE as int,
        )) by (nonlinear_arith);
        crate::fix::lemma_fmul_one(v.y as int);
    }
    assert(crate::fix::fmul(0, d) == 0) by (nonlinear_arith);
}

/// The crouch degree after `n` further ticks, with a fixed target and
/// ceiling report.
pub open spec fn crouch_iter_s(c: int, target: int, blocked: bool, step: int, n: nat) -> int
    decreases n,
{
    if n == 0 {
        c
    } else {
        crouch_iter_s(crouch_step_s(c, target, blocked, step), target, blocked, step, (n - 1) as nat)
    }
}

/// Whatever the inputs of each tick, after any non-empty run of crouch
/// steps the degree sits inside [0, ONE].
pub proof fn lemma_crouch_iter_bounds(c: int, target: int, blocked: bool, step: int, n: nat)
    requires
        n >= 1,
    ensures
        0 <= crouch_iter_s(c, target, blocked, step, n) <= ONE,
    decreases n,
{
    if n == 1 {
        assert(crouch_iter_s(c, target, blocked, step, n) == crouch_iter_s(
            crouch_step_s(c, target, blocked, step),
            target,
            blocked,
            step,
            0,
        ));
    } else {
        lemma_crouch_iter_bounds(
            crouch_step_s(c, target, blocked, step),
            target,
            blocked,
            step,
            (n - 1) as nat,
        );
    }
}

/// A degree resting at a resting target stays exactly there.
pub proof fn lemma_crouch_stays_at_zero(blocked: bool, step: int, n: nat)
    ensures
        crouch_iter_s(0, 0, blocked, step, n) == 0,
    decreases n,
{
    if n > 0 {
        assert(crouch_step_s(0, 0, blocked, step) == 0);
        lemma_crouch_stays_at_zero(blocked, step, (n - 1) as nat);
    }
}

/// Rising phase: holding crouch toward a target that stays more than the
/// dead-zone ahead of every intermediate degree raises the degree by
/// exactly one step per tick, from any starting degree.
pub proof fn lemma_crouch_rise(d0: int, target: int, step: int, n: nat)
    requires
        0 < step,
        0 <= d0,
        0 <= target <= ONE,
        forall|i: int| 0 <= i < n ==> target - (d0 + #[trigger] (i * step)) > CALC_EPSILON,
        d0 + n * step <= ONE,
    ensures
        crouch_iter_s(d0, target, false, step, n) == d0 + n * step,
    decreases n,
{
    if n == 0 {
        assert(0 * step == 0) by (nonlinear_arith);
    } else {
        assert(0 * step == 0) by (nonlinear_arith);
        assert(target - d0 > CALC_EPSILON);
        assert(1 * step <= n * step && 1 * step == step) by (nonlinear_arith)
            requires
                1 <= n,
                step > 0,
        ;
        assert(sabs(d0 - target) > CALC_EPSILON);
        assert(crouch_step_s(d0, target, false, step) == d0 + step);
        assert forall|i: int| 0 <= i < n - 1 implies target - (d0 + step + #[trigger] (i
            * step)) > CALC_EPSILON by {
            assert((i + 1) * step == i * step + step) by (nonlinear_arith);
            assert(target - (d0 + (i + 1) * step) > CALC_EPSILON);
        }
        assert(((n - 1) as nat) as int == n - 1);
        assert(((n - 1) as nat) * step == (n - 1) * step);
        assert((n - 1) * step + step == n * step) by (nonlinear_arith);
        lemma_crouch_rise(d0 + step, target, step, (n - 1) as nat);
    }
}

/// Falling phase from standing: from `k * step` with the crouch released,
/// `k` ticks bring the degree back to exactly zero (stepping down, or
/// snapping once inside the dead-zone and resting there).
pub proof fn lemma_crouch_fall(step: int, k: nat)
    requires
        0 < step,
        k * step <= ONE,
    ensures
        crouch_iter_s(k * step, 0, false, step, k) == 0,
    decreases k,
{
    if k > 0 {
        assert(k * step >= 1 * step && 1 * step > 0) by (nonlinear_arith)
            requires
                k >= 1,
                step > 0,
        ;
        if k * step > CALC_EPSILON {
            assert(sabs(k * step - 0) > CALC_EPSILON);
            assert(k * step - step == (k - 1) * step) by (nonlinear_arith);
            assert((k - 1) * step >= 0) by (nonlinear_arith)
                requires
                    k >= 1,
                    step > 0,
            ;
            assert((k - 1) * step <= ONE) by (nonlinear_arith)
                requires
                    k * step <= ONE,
                    step > 0,
            ;
            assert(crouch_step_s(k * step, 0, false, step) == (k - 1) * step);
            assert(((k - 1) as nat) as int == k - 1);
            assert(((k - 1) as nat) * step == (k - 1) * step);
            lemma_crouch_fall(step, (k - 1) as nat);
            assert(crouch_iter_s(k * step, 0, false, step, k) == crouch_iter_s(
                (k - 1) * step,
                0,
                false,
                step,
                (k - 1) as nat,
            ));
        } else {
            assert(sabs(k * step - 0) <= CALC_EPSILON);
            assert(crouch_step_s(k * step, 0, false, step) == 0);
            lemma_crouch_stays_at_zero(false, step, (k - 1) as nat);
            assert(crouch_iter_s(k * step, 0, false, step, k) == crouch_iter_s(
                0,
                0,
                false,
                step,
                (k - 1) as nat,
            ));
        }
    } else {
        assert(k * step == 0) by (nonlinear_arith)
            requires
                k == 0,
        ;
    }
}

/// Falling phase from any resting degree: from `d0 + k * step` with the
/// crouch released, `k` ticks bring the degree back to exactly `d0`, as
/// long as the descent cannot snap past `d0` (its lowest intermediate
/// degree, `d0 + step`, stays above the dead-zone; from standing the snap
/// itself lands on zero).
pub proof fn lemma_crouch_fall_from(d0: int, step: int, k: nat)
    requires
        0 < step,
        0 <= d0,
        d0 + k * step <= ONE,
        d0 == 0 || d0 + step > CALC_EPSILON,
    ensures
        crouch_iter_s(d0 + k * step, 0, false, step, k) == d0,
    decreases k,
{
    if d0 == 0 {
        lemma_crouch_fall(step, k);
    } else if k == 0 {
        assert(0 * step == 0) by (nonlinear_arith);
    } else {
        assert(k * step >= 1 * step && 1 * step == step) by (nonlinear_arith)
            requires
                k >= 1,
                step > 0,
        ;
        let c = d0 + k * step;
        assert(sabs(c - 0) > CALC_EPSILON);
        assert(c - step == d0 + (k - 1) * step) by (nonlinear_arith)
            requires
                c == d0 + k * step,
        ;
        assert((k - 1) * step >= 0) by (nonlinear_arith)
            requires
                k >= 1,
                step > 0,
        ;
        assert(crouch_step_s(c, 0, false, step) == d0 + (k - 1) * step);
        assert(((k - 1) as nat) as int == k - 1);
        assert(((k - 1) as nat) * step == (k - 1) * step);
        lemma_crouch_fall_from(d0, step, (k - 1) as nat);
        assert(crouch_iter_s(c, 0, false, step, k) == crouch_iter_s(
            d0 + (k - 1) * step,
            0,
            false,
            step,
            (k - 1) as nat,
        ));
    }
}

/// The crouch round trip: holding crouch for `n` ticks (with the target
/// always more than the dead-zone ahead of the rising degree) and then
/// releasing it for `n` ticks, under a free ceiling throughout, returns the
/// crouch degree exactly to where it began. The rates up and down are the
/// same `step`; the hypotheses exclude the runs on which the dead-zone snap
/// would land the trip elsewhere.
pub proof fn lemma_crouch_round_trip(d0: int, target: int, step: int, n: nat)
    requires
        0 < step,
        0 <= d0,
        0 <= target <= ONE,
        forall|i: int| 0 <= i < n ==> target - (d0 + #[trigger] (i * step)) > CALC_EPSILON,
        d0 + n * step <= ONE,
        d0 == 0 || d0 + step > CALC_EPSILON,
    ensures
        crouch_iter_s(crouch_iter_s(d0, target, false, step, n), 0, false, step, n) == d0,
{
    lemma_crouch_rise(d0, target, step, n);
    lemma_crouch_fall_from(d0, step, n);
}

} // verus!
