//! The movement solver: the per-tick state machine that turns the input
//! snapshot, the probe report and the persistent state into a velocity
//! effect, an impulse, a damping choice, a collider resize and a lean pose.
//!
//! Each stage has a spec mirror over mathematical integers; the executable
//! functions are proved to compute exactly those values, and the testable
//! invariants (speed cap, no over-acceleration, bounded degrees, the jump
//! latch) are stated on top of them.

use vstd::prelude::*;
use crate::fix::{
    ONE, fmul, fdiv, sabs, sclamp, smin, smax, ssgn, mul_fx, div_fx, min_fx, max_fx, clamp_fx,
    sgn_fx, lemma_fmul_bound, lemma_fmul_shrink, lemma_tdiv_abs, lemma_div_ordered,
};
use crate::vec3::{Vec3, vdot};
use crate::trig::{PI_FX, TAU_FX, sin_s, cos_s, sin_fx, cos_fx};
use crate::config::{GoldenController, SPEED_LIM, MASS_LIM, FREQ_LIM};
use crate::shape::{ColliderShape, GEO_LIM};
use crate::input::GoldenControllerInput;
use crate::probe::GoldenControllerSpatialHits;
use crate::state::GoldenControllerMutables;

verus! {

/// Dead-zone under which the lean and crouch degrees snap to their target
/// instead of stepping (0.01).
pub const CALC_EPSILON: i64 = 655;

/// Velocity components smaller than this are snapped to zero to stop
/// wobbling at rest (0.004).
pub const VEL_SNAP_EPS: i64 = 262;

/// Velocities handed to the solver are kept below this bound (256 in real
/// units).
pub const VEL_LIM: i64 = 16777216;

/// Magnitude bound on one acceleration step's velocity addition.
pub const ACCEL_LIM: i64 = 67108864;

/// Magnitude bound on the spring's velocity addition for one tick.
pub const SPRING_LIM: i64 = 0x6A00000000;

/// An angle folded into [-pi, pi] by one turn, the range of the fixed-point
/// trig functions; angles handed to the solver are within one turn.
pub open spec fn wrap_pi_s(y: int) -> int {
    if y > PI_FX {
        y - TAU_FX
    } else if y < -PI_FX {
        y + TAU_FX
    } else {
        y
    }
}

/// The raw wish vector: the two-axis movement command scaled by the side and
/// forward speeds and rotated by the yaw, with forward mapped to -Z.
pub open spec fn wish_raw_s(cfg: GoldenController, input: GoldenControllerInput) -> Vec3 {
    let a = fmul(input.movement.x as int, cfg.side_speed as int);
    let b = fmul(input.movement.z as int, cfg.forward_speed as int);
    let y = wrap_pi_s(input.yaw as int);
    let c = cos_s(y);
    let s = sin_s(y);
    Vec3 {
        x: (fmul(a, c) - fmul(b, s)) as i64,
        y: 0i64,
        z: (-fmul(a, s) - fmul(b, c)) as i64,
    }
}

/// The wish direction: the raw wish vector normalized when its length is
/// positive, and the zero vector otherwise (never a division by zero).
pub open spec fn wish_dir_s(cfg: GoldenController, input: GoldenControllerInput) -> Vec3 {
    let w = wish_raw_s(cfg, input);
    let l = w.len_s();
    if l > 0 {
        Vec3 {
            x: fdiv(w.x as int, l) as i64,
            y: fdiv(w.y as int, l) as i64,
            z: fdiv(w.z as int, l) as i64,
        }
    } else {
        w
    }
}

/// The state-dependent speed cap: walking speed shrunk while crouched or
/// leaned, but never below the configured floor.
pub open spec fn max_speed_s(cfg: GoldenController, crouch: int, lean: int) -> int {
    smax(
        fmul(fmul(cfg.walk_speed as int, ONE - crouch / 2), ONE - sabs(lean) / 2),
        cfg.speed_floor as int,
    )
}

/// The wish speed of the tick: the raw wish length capped by the
/// state-dependent maximum.
pub open spec fn capped_wish_speed_s(
    cfg: GoldenController,
    input: GoldenControllerInput,
    crouch: int,
    lean: int,
) -> int {
    smin(wish_raw_s(cfg, input).len_s(), max_speed_s(cfg, crouch, lean))
}

/// One acceleration step: project the velocity on the wish direction; if the
/// projection already reaches the wish speed add nothing, else add the wish
/// direction scaled by the smaller of `accel * wish_speed * dt` and the
/// remaining speed gap.
pub open spec fn accel_add_s(
    wish_dir: Vec3,
    wish_speed: int,
    accel: int,
    velocity: Vec3,
    dt: int,
) -> Vec3 {
    let proj = vdot(velocity, wish_dir);
    let add_speed = wish_speed - proj;
    if add_speed <= 0 {
        Vec3 { x: 0i64, y: 0i64, z: 0i64 }
    } else {
        let a = smin(fmul(fmul(accel, wish_speed), dt), add_speed);
        Vec3 {
            x: fmul(wish_dir.x as int, a) as i64,
            y: fmul(wish_dir.y as int, a) as i64,
            z: fmul(wish_dir.z as int, a) as i64,
        }
    }
}

/// Normalizes a vector, or returns it unchanged when its fixed-point length
/// is zero (in which case every component is zero).
pub fn normalize_or_zero(v: Vec3) -> (r: (Vec3, i64))
    requires
        v.bounded(0x40000000),
    ensures
        r.1 == v.len_s(),
        r.1 > 0 ==> r.0 == (Vec3 {
            x: fdiv(v.x as int, r.1 as int) as i64,
            y: fdiv(v.y as int, r.1 as int) as i64,
            z: fdiv(v.z as int, r.1 as int) as i64,
        }),
        r.1 == 0 ==> r.0 == v && v.is_zero(),
        r.0.bounded(ONE as int),
        0 <= r.1 < 0x1_0000_0000,
{
    let l: i64 = v.len();
    if l > 0 {
        proof {
            assert(sabs(v.x as int) <= l && sabs(v.y as int) <= l && sabs(v.z as int) <= l)
                by (nonlinear_arith)
                requires
                    v.x * v.x + v.y * v.y + v.z * v.z < (l + 1) * (l + 1),
                    l >= 0,
            ;
            assert forall|c: int| sabs(c) <= l implies sabs(fdiv(c, l as int)) <= ONE by {
                lemma_tdiv_abs(c * ONE, l as int);
                assert(sabs(c * ONE) <= l * ONE) by (nonlinear_arith)
                    requires
                        sabs(c) <= l,
                        ONE > 0,
                ;
                lemma_div_ordered(sabs(c * ONE), l * ONE, l as int);
                assert((l * ONE) / (l as int) == ONE) by (nonlinear_arith)
                    requires
                        l > 0,
                ;
            }
        }
        let d = Vec3 { x: div_fx(v.x, l), y: div_fx(v.y, l), z: div_fx(v.z, l) };
        (d, l)
    } else {
        proof {
            assert((l as int + 1) * (l as int + 1) == 1) by (nonlinear_arith)
                requires
                    l == 0,
            ;
            assert(v.x == 0 && v.y == 0 && v.z == 0) by (nonlinear_arith)
                requires
                    v.x * v.x + v.y * v.y + v.z * v.z < 1,
            ;
        }
        (v, 0)
    }
}

/// The raw wish vector of the tick.
pub fn wish_vector(cfg: &GoldenController, input: &GoldenControllerInput) -> (r: Vec3)
    requires
        cfg.wf(),
        input.wf(),
    ensures
        r == wish_raw_s(*cfg, *input),
        r.bounded(0x4000000),
{
    let yaw: i64 = if input.yaw > PI_FX {
        input.yaw - TAU_FX
    } else if input.yaw < -PI_FX {
        input.yaw + TAU_FX
    } else {
        input.yaw
    };
    proof {
        assert(sabs(input.movement.x as int * cfg.side_speed as int) <= 0x4000_0000_0000_0000)
            by (nonlinear_arith)
            requires
                sabs(input.movement.x as int) <= ONE,
                0 <= cfg.side_speed <= SPEED_LIM,
                ONE == 65536,
                SPEED_LIM == 16777216,
        ;
        assert(sabs(input.movement.z as int * cfg.forward_speed as int) <= 0x4000_0000_0000_0000)
            by (nonlinear_arith)
            requires
                sabs(input.movement.z as int) <= ONE,
                0 <= cfg.forward_speed <= SPEED_LIM,
                ONE == 65536,
                SPEED_LIM == 16777216,
        ;
        lemma_fmul_shrink(cfg.side_speed as int, input.movement.x as int);
        lemma_fmul_shrink(cfg.forward_speed as int, input.movement.z as int);
        assert(fmul(input.movement.x as int, cfg.side_speed as int) == fmul(
            cfg.side_speed as int,
            input.movement.x as int,
        )) by (nonlinear_arith);
        assert(fmul(input.movement.z as int, cfg.forward_speed as int) == fmul(
            cfg.forward_speed as int,
            input.movement.z as int,
        )) by (nonlinear_arith);
    }
    let a: i64 = mul_fx(input.movement.x, cfg.side_speed);
    let b: i64 = mul_fx(input.movement.z, cfg.forward_speed);
    let c: i64 = cos_fx(yaw);
    let s: i64 = sin_fx(yaw);
    proof {
        assert(sabs(a as int * c as int) <= 0x4000_0000_0000_0000 && sabs(
            a as int * s as int,
        ) <= 0x4000_0000_0000_0000 && sabs(b as int * c as int) <= 0x4000_0000_0000_0000 && sabs(
            b as int * s as int,
        ) <= 0x4000_0000_0000_0000) by (nonlinear_arith)
            requires
                sabs(a as int) <= SPEED_LIM,
                sabs(b as int) <= SPEED_LIM,
                -ONE <= c <= ONE,
                -ONE <= s <= ONE,
                ONE == 65536,
                SPEED_LIM == 16777216,
        ;
        lemma_fmul_shrink(a as int, c as int);
        lemma_fmul_shrink(a as int, s as int);
        lemma_fmul_shrink(b as int, c as int);
        lemma_fmul_shrink(b as int, s as int);
    }
    let x: i64 = mul_fx(a, c) - mul_fx(b, s);
    let z: i64 = -mul_fx(a, s) - mul_fx(b, c);
    Vec3 { x, y: 0, z }
}

/// The state-dependent speed cap of the tick.
pub fn max_wish_speed(cfg: &GoldenController, crouch_degree: i64, lean_degree: i64) -> (r: i64)
    requires
        cfg.wf(),
        0 <= crouch_degree <= ONE,
        -ONE <= lean_degree <= ONE,
    ensures
        r == max_speed_s(*cfg, crouch_degree as int, lean_degree as int),
        cfg.speed_floor <= r <= smax(cfg.walk_speed as int, cfg.speed_floor as int),
{
    let ch: i64 = ONE - crouch_degree / 2;
    let la: i64 = if lean_degree >= 0 {
        lean_degree
    } else {
        -lean_degree
    };
    let lh: i64 = ONE - la / 2;
    proof {
        assert(sabs(cfg.walk_speed as int * ch as int) <= 0x4000_0000_0000_0000)
            by (nonlinear_arith)
            requires
                0 <= cfg.walk_speed <= SPEED_LIM,
                0 <= ch <= ONE,
                ONE == 65536,
                SPEED_LIM == 16777216,
        ;
        lemma_fmul_shrink(cfg.walk_speed as int, ch as int);
        assert(fmul(cfg.walk_speed as int, ch as int) >= 0) by (nonlinear_arith)
            requires
                cfg.walk_speed >= 0,
                ch >= 0,
                ONE == 65536,
        ;
    }
    let wc: i64 = mul_fx(cfg.walk_speed, ch);
    proof {
        assert(sabs(wc as int * lh as int) <= 0x4000_0000_0000_0000) by (nonlinear_arith)
            requires
                0 <= wc <= SPEED_LIM,
                0 <= lh <= ONE,
                ONE == 65536,
                SPEED_LIM == 16777216,
        ;
        lemma_fmul_shrink(wc as int, lh as int);
    }
    let wl: i64 = mul_fx(wc, lh);
    max_fx(wl, cfg.speed_floor)
}

/// One acceleration step, as the spec mirror computes it. When the velocity
/// already projects onto the wish direction at or beyond the wish speed, the
/// addition is exactly zero.
pub fn acceleration(
    wish_direction: Vec3,
    wish_speed: i64,
    accel: i64,
    velocity: Vec3,
    dt: i64,
) -> (r: Vec3)
    requires
        wish_direction.bounded(ONE as int),
        velocity.bounded(VEL_LIM as int),
        0 <= wish_speed <= SPEED_LIM,
        0 <= accel <= SPEED_LIM,
        0 < dt <= ONE,
    ensures
        r == accel_add_s(wish_direction, wish_speed as int, accel as int, velocity, dt as int),
        vdot(velocity, wish_direction) >= wish_speed ==> r.is_zero(),
        r.bounded(ACCEL_LIM as int),
        wish_direction.y == 0 ==> r.y == 0,
{
    proof {
        lemma_fmul_bound(velocity.x as int, wish_direction.x as int, VEL_LIM as int, ONE as int);
        lemma_fmul_bound(velocity.y as int, wish_direction.y as int, VEL_LIM as int, ONE as int);
        lemma_fmul_bound(velocity.z as int, wish_direction.z as int, VEL_LIM as int, ONE as int);
    }
    let velocity_projection: i64 = velocity.dot(wish_direction);
    let add_speed: i64 = wish_speed - velocity_projection;
    if add_speed <= 0 {
        return Vec3 { x: 0, y: 0, z: 0 };
    }
    proof {
        assert(sabs(accel as int * wish_speed as int) <= 0x4000_0000_0000_0000)
            by (nonlinear_arith)
            requires
                0 <= accel <= SPEED_LIM,
                0 <= wish_speed <= SPEED_LIM,
                SPEED_LIM == 16777216,
        ;
        lemma_fmul_bound(accel as int, wish_speed as int, SPEED_LIM as int, SPEED_LIM as int);
    }
    let aw: i64 = mul_fx(accel, wish_speed);
    proof {
        assert(sabs(aw as int * dt as int) <= 0x4000_0000_0000_0000) by (nonlinear_arith)
            requires
                sabs(aw as int) <= 0x400000000000,
                0 < dt <= ONE,
                ONE == 65536,
        ;
        lemma_fmul_shrink(aw as int, dt as int);
    }
    let awd: i64 = mul_fx(aw, dt);
    let acceleration_speed: i64 = min_fx(awd, add_speed);
    proof {
        assert(sabs(wish_direction.x as int * acceleration_speed as int)
            <= 0x4000_0000_0000_0000 && sabs(wish_direction.y as int * acceleration_speed as int)
            <= 0x4000_0000_0000_0000 && sabs(wish_direction.z as int * acceleration_speed as int)
            <= 0x4000_0000_0000_0000) by (nonlinear_arith)
            requires
                wish_direction.bounded(ONE as int),
                sabs(acceleration_speed as int) <= ACCEL_LIM,
                ONE == 65536,
                ACCEL_LIM == 67108864,
        ;
        assert(fmul(wish_direction.x as int, acceleration_speed as int) == fmul(
            acceleration_speed as int,
            wish_direction.x as int,
        )) by (nonlinear_arith);
        assert(fmul(wish_direction.y as int, acceleration_speed as int) == fmul(
            acceleration_speed as int,
            wish_direction.y as int,
        )) by (nonlinear_arith);
        assert(fmul(wish_direction.z as int, acceleration_speed as int) == fmul(
            acceleration_speed as int,
            wish_direction.z as int,
        )) by (nonlinear_arith);
        lemma_fmul_shrink(acceleration_speed as int, wish_direction.x as int);
        lemma_fmul_shrink(acceleration_speed as int, wish_direction.y as int);
        lemma_fmul_shrink(acceleration_speed as int, wish_direction.z as int);
        if wish_direction.y == 0 {
            assert(fmul(wish_direction.y as int, acceleration_speed as int) == 0)
                by (nonlinear_arith)
                requires
                    wish_direction.y == 0,
            ;
        }
    }
    Vec3 {
        x: mul_fx(wish_direction.x, acceleration_speed),
        y: mul_fx(wish_direction.y, acceleration_speed),
        z: mul_fx(wish_direction.z, acceleration_speed),
    }
}

/// The upward unit vector.
pub open spec fn up_s() -> Vec3 {
    Vec3 { x: 0i64, y: ONE, z: 0i64 }
}

/// Whether the ground contact gives traction: a hit whose surface normal
/// aligns with up beyond the walkable-slope cutoff. A missing hit never
/// gives traction.
pub open spec fn traction_s(cfg: GoldenController, hits: GoldenControllerSpatialHits) -> bool {
    hits.bottom_down && vdot(hits.bottom_hit_normal, up_s()) > cfg.traction_normal_cutoff
}

/// Whether this tick fires the jump: grounded with traction, jump held, and
/// the grounded streak at or past the configured threshold.
pub open spec fn jumped_s(
    cfg: GoldenController,
    input: GoldenControllerInput,
    hits: GoldenControllerSpatialHits,
    ground_tick: int,
) -> bool {
    traction_s(cfg, hits) && input.jump && ground_tick >= cfg.jump_tick_min
}

/// Whether this tick applies the ground spring: grounded with traction, not
/// jumping, and the spring capability enabled.
pub open spec fn spring_applied_s(
    cfg: GoldenController,
    input: GoldenControllerInput,
    hits: GoldenControllerSpatialHits,
) -> bool {
    cfg.spring_enabled && traction_s(cfg, hits) && !input.jump
}

/// The damping coefficient of the tick: plain air damping while airborne; a
/// tenfold ground damping while grounded; a thirtyfold one while grounded
/// with traction, standing still and not jumping.
pub open spec fn damping_s(
    cfg: GoldenController,
    input: GoldenControllerInput,
    hits: GoldenControllerSpatialHits,
) -> int {
    if hits.bottom_down {
        if traction_s(cfg, hits) && !input.jump && vdot(input.movement, input.movement)
            < STILL_LSQ_DEADZONE {
            30 * cfg.air_damp as int
        } else {
            10 * cfg.air_damp as int
        }
    } else {
        cfg.air_damp as int
    }
}

/// Movement squared-length threshold under which the body counts as
/// standing still (0.1).
pub const STILL_LSQ_DEADZONE: i64 = 6554;

/// The grounded streak after the tick: reset by leaving the ground or by
/// firing a jump, else counted up without overflowing.
pub open spec fn ground_tick_next_s(
    cfg: GoldenController,
    input: GoldenControllerInput,
    hits: GoldenControllerSpatialHits,
    ground_tick: int,
) -> int {
    if !hits.bottom_down {
        0
    } else if jumped_s(cfg, input, hits, ground_tick) {
        0
    } else {
        smin(ground_tick + 1, 255)
    }
}

/// The critically-tuned ground spring's velocity contribution: a stiffness
/// of `mass * omega^2` against the height error, a damping of
/// `2 * mass * zeta * omega` against the vertical velocity, and gravity
/// compensation, integrated over the tick and divided by the mass.
pub open spec fn spring_dv_s(cfg: GoldenController, distance: int, vy: int, dt: int) -> int {
    let omega = fmul(TAU_FX as int, cfg.spring_freq as int);
    let k = fmul(cfg.mass as int, fmul(omega, omega));
    let c = 2 * fmul(cfg.mass as int, fmul(cfg.spring_damping_ratio as int, omega));
    let err = cfg.spring_target_height - distance;
    let f = fmul(k, err) - fmul(c, vy) + fmul(cfg.mass as int, cfg.gravity as int);
    fdiv(fmul(f, dt), cfg.mass as int)
}

/// The velocity with its component along the ground normal removed: the
/// landing-bounce correction.
pub open spec fn cancel_normal_s(v: Vec3, n: Vec3) -> Vec3 {
    let d = vdot(v, n);
    Vec3 {
        x: (v.x - fmul(n.x as int, d)) as i64,
        y: (v.y - fmul(n.y as int, d)) as i64,
        z: (v.z - fmul(n.z as int, d)) as i64,
    }
}

/// The velocity with wobble-small horizontal components snapped to zero.
pub open spec fn snap_small_s(v: Vec3) -> Vec3 {
    Vec3 {
        x: if sabs(v.x as int) < VEL_SNAP_EPS {
            0i64
        } else {
            v.x
        },
        y: v.y,
        z: if sabs(v.z as int) < VEL_SNAP_EPS {
            0i64
        } else {
            v.z
        },
    }
}

/// The velocity after the tick's direct mutations: the normal cancel when
/// grounded with traction, then the wobble snap.
pub open spec fn vel_after_s(
    cfg: GoldenController,
    hits: GoldenControllerSpatialHits,
    v: Vec3,
) -> Vec3 {
    if traction_s(cfg, hits) {
        snap_small_s(cancel_normal_s(v, hits.bottom_hit_normal))
    } else {
        snap_small_s(v)
    }
}

/// The acceleration stage's velocity addition for the tick: ground
/// acceleration at the capped wish speed when grounded without jump held;
/// air acceleration at the air-capped wish speed otherwise (so holding jump
/// while grounded keeps the smoother air path).
pub open spec fn move_add_s(
    cfg: GoldenController,
    input: GoldenControllerInput,
    hits: GoldenControllerSpatialHits,
    crouch: int,
    lean: int,
    velocity: Vec3,
    dt: int,
) -> Vec3 {
    let wd = wish_dir_s(cfg, input);
    let ws = capped_wish_speed_s(cfg, input, crouch, lean);
    if hits.bottom_down && !input.jump {
        accel_add_s(wd, ws, cfg.acceleration as int, velocity, dt)
    } else {
        accel_add_s(
            wd,
            smin(ws, cfg.air_speed_cap as int),
            cfg.air_acceleration as int,
            velocity,
            dt,
        )
    }
}

/// What the movement stage hands back to the host: the velocity effect of
/// the tick, the same effect scaled by the mass for an impulse-driven body,
/// and the damping coefficient to install.
#[derive(Clone, Copy, PartialEq, Eq, Structural, Debug)]
pub struct KinematicOutput {
    pub delta_v: Vec3,
    pub impulse: Vec3,
    pub damping: i64,
}

/// The ground spring's velocity contribution for one tick.
pub fn spring_delta(cfg: &GoldenController, distance: i64, vertical_velocity: i64, dt: i64) -> (r:
    i64)
    requires
        cfg.wf(),
        0 <= distance <= GEO_LIM,
        -4 * VEL_LIM <= vertical_velocity <= 4 * VEL_LIM,
        0 < dt <= ONE,
    ensures
        r == spring_dv_s(*cfg, distance as int, vertical_velocity as int, dt as int),
        -SPRING_LIM <= r <= SPRING_LIM,
{
    proof {
        assert(sabs(TAU_FX as int * cfg.spring_freq as int) <= 0x4000_0000_0000_0000)
            by (nonlinear_arith)
            requires
                0 <= cfg.spring_freq <= FREQ_LIM,
                TAU_FX == 411774,
                FREQ_LIM == 131072,
        ;
        lemma_fmul_bound(TAU_FX as int, cfg.spring_freq as int, 411774, 131072);
    }
    let omega: i64 = mul_fx(TAU_FX, cfg.spring_freq);
    proof {
        assert(sabs(omega as int) <= 823548);
        assert(sabs(omega as int * omega as int) <= 0x4000_0000_0000_0000) by (nonlinear_arith)
            requires
                sabs(omega as int) <= 823548,
        ;
        lemma_fmul_bound(omega as int, omega as int, 823548, 823548);
    }
    let omega_sq: i64 = mul_fx(omega, omega);
    proof {
        assert(sabs(omega_sq as int) <= 10348988);
        assert(sabs(cfg.mass as int * omega_sq as int) <= 0x4000_0000_0000_0000)
            by (nonlinear_arith)
            requires
                0 <= cfg.mass <= MASS_LIM,
                sabs(omega_sq as int) <= 10348988,
                MASS_LIM == 8388608,
        ;
        lemma_fmul_bound(cfg.mass as int, omega_sq as int, MASS_LIM as int, 10348988);
    }
    let k: i64 = mul_fx(cfg.mass, omega_sq);
    proof {
        assert(sabs(cfg.spring_damping_ratio as int * omega as int) <= 0x4000_0000_0000_0000)
            by (nonlinear_arith)
            requires
                0 <= cfg.spring_damping_ratio <= FREQ_LIM,
                sabs(omega as int) <= 823548,
                FREQ_LIM == 131072,
        ;
        lemma_fmul_bound(cfg.spring_damping_ratio as int, omega as int, FREQ_LIM as int, 823548);
    }
    let zeta_omega: i64 = mul_fx(cfg.spring_damping_ratio, omega);
    proof {
        assert(sabs(zeta_omega as int) <= 1647096);
        assert(sabs(cfg.mass as int * zeta_omega as int) <= 0x4000_0000_0000_0000)
            by (nonlinear_arith)
            requires
                0 <= cfg.mass <= MASS_LIM,
                sabs(zeta_omega as int) <= 1647096,
                MASS_LIM == 8388608,
        ;
        lemma_fmul_bound(cfg.mass as int, zeta_omega as int, MASS_LIM as int, 1647096);
    }
    let c: i64 = 2 * mul_fx(cfg.mass, zeta_omega);
    let height_error: i64 = cfg.spring_target_height - distance;
    proof {
        assert(sabs(k as int) <= 1324670464);
        assert(sabs(k as int * height_error as int) <= 0x4000_0000_0000_0000)
            by (nonlinear_arith)
            requires
                sabs(k as int) <= 1324670464,
                sabs(height_error as int) <= GEO_LIM,
                GEO_LIM == 1048576,
        ;
        lemma_fmul_bound(k as int, height_error as int, 1324670464, GEO_LIM as int);
        assert(sabs(c as int) <= 421656576);
        assert(sabs(c as int * vertical_velocity as int) <= 0x4000_0000_0000_0000)
            by (nonlinear_arith)
            requires
                sabs(c as int) <= 421656576,
                sabs(vertical_velocity as int) <= 67108864,
        ;
        lemma_fmul_bound(c as int, vertical_velocity as int, 421656576, 67108864);
        assert(sabs(cfg.mass as int * cfg.gravity as int) <= 0x4000_0000_0000_0000)
            by (nonlinear_arith)
            requires
                0 <= cfg.mass <= MASS_LIM,
                0 <= cfg.gravity <= SPEED_LIM,
                MASS_LIM == 8388608,
                SPEED_LIM == 16777216,
        ;
        lemma_fmul_bound(cfg.mass as int, cfg.gravity as int, MASS_LIM as int, SPEED_LIM as int);
    }
    let f_spring: i64 = mul_fx(k, height_error);
    let f_damp: i64 = mul_fx(c, vertical_velocity);
    let f_gravity: i64 = mul_fx(cfg.mass, cfg.gravity);
    let f_total: i64 = f_spring - f_damp + f_gravity;
    proof {
        assert(sabs(f_total as int) <= 455118544896);
        assert(sabs(f_total as int * dt as int) <= 0x4000_0000_0000_0000) by (nonlinear_arith)
            requires
                sabs(f_total as int) <= 455118544896,
                0 < dt <= ONE,
                ONE == 65536,
        ;
        lemma_fmul_shrink(f_total as int, dt as int);
    }
    let fd: i64 = mul_fx(f_total, dt);
    proof {
        crate::fix::lemma_fdiv_shrink(fd as int, cfg.mass as int);
    }
    div_fx(fd, cfg.mass)
}

/// The movement stage of one fixed tick. It rotates and caps the wish
/// command, accelerates along it (ground or air path), applies the ground
/// spring, cancels the landing bounce along the surface normal, fires the
/// jump exactly when the jump latch allows it, picks the damping, and
/// keeps the grounded streak. Every output equals its spec mirror; on top of
/// that: the jump latch fires at most one upward impulse and resets the
/// streak, and losing the ground resets the streak and selects plain air
/// damping.
#[verifier::rlimit(100)]
pub fn fps_controller_move(
    input: &GoldenControllerInput,
    controller: &GoldenController,
    spatial_hits: &GoldenControllerSpatialHits,
    controller_mutables: &mut GoldenControllerMutables,
    velocity: &mut Vec3,
    dt: i64,
) -> (out: KinematicOutput)
    requires
        controller.wf(),
        input.wf(),
        spatial_hits.wf(),
        old(controller_mutables).wf(),
        old(velocity).bounded(VEL_LIM as int),
        0 < dt <= ONE,
    ensures
        ({
            let add = move_add_s(
                *controller,
                *input,
                *spatial_hits,
                old(controller_mutables).crouch_degree as int,
                old(controller_mutables).lean_degree as int,
                *old(velocity),
                dt as int,
            );
            let spr: int = if spring_applied_s(*controller, *input, *spatial_hits) {
                spring_dv_s(
                    *controller,
                    spatial_hits.bottom_down_distance as int,
                    old(velocity).y as int,
                    dt as int,
                )
            } else {
                0
            };
            let jmp: int = if jumped_s(
                *controller,
                *input,
                *spatial_hits,
                old(controller_mutables).ground_tick as int,
            ) {
                controller.jump_force as int
            } else {
                0
            };
            &&& out.delta_v.x == add.x
            &&& out.delta_v.z == add.z
            &&& out.delta_v.y == add.y + spr + jmp
            &&& add.y == 0
        }),
        out.damping == damping_s(*controller, *input, *spatial_hits),
        out.impulse.x == fmul(out.delta_v.x as int, controller.mass as int),
        out.impulse.y == fmul(out.delta_v.y as int, controller.mass as int),
        out.impulse.z == fmul(out.delta_v.z as int, controller.mass as int),
        *final(velocity) == vel_after_s(*controller, *spatial_hits, *old(velocity)),
        final(velocity).bounded(4 * VEL_LIM as int),
        *final(controller_mutables) == (GoldenControllerMutables {
            ground_tick: ground_tick_next_s(
                *controller,
                *input,
                *spatial_hits,
                old(controller_mutables).ground_tick as int,
            ) as u8,
            ..*old(controller_mutables)
        }),
        final(controller_mutables).wf(),
        jumped_s(
            *controller,
            *input,
            *spatial_hits,
            old(controller_mutables).ground_tick as int,
        ) ==> out.delta_v.y == controller.jump_force && final(controller_mutables).ground_tick
            == 0,
        !jumped_s(
            *controller,
            *input,
            *spatial_hits,
            old(controller_mutables).ground_tick as int,
        ) && !spring_applied_s(*controller, *input, *spatial_hits) ==> out.delta_v.y == 0,
        !spatial_hits.bottom_down ==> final(controller_mutables).ground_tick == 0 && out.damping
            == controller.air_damp,
        out.delta_v.bounded(0x6A01000000),
        out.impulse.bounded(0x800000000000),
{
    let wish_raw: Vec3 = wish_vector(controller, input);
    let norm = normalize_or_zero(wish_raw);
    let wish_direction: Vec3 = norm.0;
    let raw_speed: i64 = norm.1;
    proof {
        assert(wish_direction == wish_dir_s(*controller, *input));
        if raw_speed > 0 {
            assert(fdiv(0, raw_speed as int) == 0) by (nonlinear_arith)
                requires
                    raw_speed > 0,
                    ONE == 65536,
            ;
        }
        assert(wish_direction.y == 0);
    }
    let max_speed: i64 = max_wish_speed(
        controller,
        controller_mutables.crouch_degree,
        controller_mutables.lean_degree,
    );
    let wish_speed: i64 = min_fx(raw_speed, max_speed);
    let ghost add_spec = move_add_s(
        *controller,
        *input,
        *spatial_hits,
        old(controller_mutables).crouch_degree as int,
        old(controller_mutables).lean_degree as int,
        *old(velocity),
        dt as int,
    );
    let mut delta_v: Vec3;
    let mut damping: i64;
    let mut jumped: bool = false;
    if spatial_hits.bottom_down {
        damping = controller.air_damp * 10;
        let add: Vec3 = if !input.jump {
            acceleration(wish_direction, wish_speed, controller.acceleration, *velocity, dt)
        } else {
            // When bunny-hopping with jump held, use the air path for
            // smoother movement.
            let capped: i64 = min_fx(wish_speed, controller.air_speed_cap);
            acceleration(wish_direction, capped, controller.air_acceleration, *velocity, dt)
        };
        delta_v = add;
        let up = Vec3 { x: 0, y: ONE, z: 0 };
        let normal_dot: i64 = spatial_hits.bottom_hit_normal.dot(up);
        let has_traction: bool = normal_dot > controller.traction_normal_cutoff;
        if has_traction {
            if !input.jump && controller.spring_enabled {
                let s: i64 = spring_delta(
                    controller,
                    spatial_hits.bottom_down_distance,
                    velocity.y,
                    dt,
                );
                delta_v.y = delta_v.y + s;
            }
            // This fixes the bug that pushes the player randomly upon
            // landing: remove the velocity component along the normal.
            proof {
                lemma_fmul_bound(
                    velocity.x as int,
                    spatial_hits.bottom_hit_normal.x as int,
                    VEL_LIM as int,
                    ONE as int,
                );
                lemma_fmul_bound(
                    velocity.y as int,
                    spatial_hits.bottom_hit_normal.y as int,
                    VEL_LIM as int,
                    ONE as int,
                );
                lemma_fmul_bound(
                    velocity.z as int,
                    spatial_hits.bottom_hit_normal.z as int,
                    VEL_LIM as int,
                    ONE as int,
                );
            }
            let nd: i64 = velocity.dot(spatial_hits.bottom_hit_normal);
            proof {
                assert(sabs(spatial_hits.bottom_hit_normal.x as int * nd as int)
                    <= 0x4000_0000_0000_0000 && sabs(
                    spatial_hits.bottom_hit_normal.y as int * nd as int,
                ) <= 0x4000_0000_0000_0000 && sabs(
                    spatial_hits.bottom_hit_normal.z as int * nd as int,
                ) <= 0x4000_0000_0000_0000) by (nonlinear_arith)
                    requires
                        spatial_hits.bottom_hit_normal.bounded(ONE as int),
                        sabs(nd as int) <= 3 * VEL_LIM,
                        ONE == 65536,
                        VEL_LIM == 16777216,
                ;
                lemma_fmul_shrink(nd as int, spatial_hits.bottom_hit_normal.x as int);
                lemma_fmul_shrink(nd as int, spatial_hits.bottom_hit_normal.y as int);
                lemma_fmul_shrink(nd as int, spatial_hits.bottom_hit_normal.z as int);
                assert(fmul(spatial_hits.bottom_hit_normal.x as int, nd as int) == fmul(
                    nd as int,
                    spatial_hits.bottom_hit_normal.x as int,
                )) by (nonlinear_arith);
                assert(fmul(spatial_hits.bottom_hit_normal.y as int, nd as int) == fmul(
                    nd as int,
                    spatial_hits.bottom_hit_normal.y as int,
                )) by (nonlinear_arith);
                assert(fmul(spatial_hits.bottom_hit_normal.z as int, nd as int) == fmul(
                    nd as int,
                    spatial_hits.bottom_hit_normal.z as int,
                )) by (nonlinear_arith);
            }
            let normal_force = Vec3 {
                x: mul_fx(spatial_hits.bottom_hit_normal.x, nd),
                y: mul_fx(spatial_hits.bottom_hit_normal.y, nd),
                z: mul_fx(spatial_hits.bottom_hit_normal.z, nd),
            };
            *velocity = velocity.sub(normal_force);
            let movement_lsq: i64 = input.movement.dot(input.movement);
            if !input.jump && movement_lsq < STILL_LSQ_DEADZONE {
                damping = controller.air_damp * 30;
            }
            if input.jump && controller_mutables.ground_tick >= controller.jump_tick_min {
                delta_v.y = delta_v.y + controller.jump_force;
                jumped = true;
            }
        }
        if jumped {
            controller_mutables.ground_tick = 0;
        } else {
            controller_mutables.ground_tick = if controller_mutables.ground_tick == 255 {
                255
            } else {
                controller_mutables.ground_tick + 1
            };
        }
    } else {
        controller_mutables.ground_tick = 0;
        damping = controller.air_damp;
        let capped: i64 = min_fx(wish_speed, controller.air_speed_cap);
        delta_v = acceleration(
            wish_direction,
            capped,
            controller.air_acceleration,
            *velocity,
            dt,
        );
    }
    // Fixes wobbly velocity at rest.
    let za: i64 = if velocity.z >= 0 {
        velocity.z
    } else {
        -velocity.z
    };
    if za < VEL_SNAP_EPS {
        velocity.z = 0;
    }
    let xa: i64 = if velocity.x >= 0 {
        velocity.x
    } else {
        -velocity.x
    };
    if xa < VEL_SNAP_EPS {
        velocity.x = 0;
    }
    proof {
        assert(sabs(delta_v.x as int * controller.mass as int) <= 0x4000_0000_0000_0000 && sabs(
            delta_v.y as int * controller.mass as int,
        ) <= 0x4000_0000_0000_0000 && sabs(delta_v.z as int * controller.mass as int)
            <= 0x4000_0000_0000_0000) by (nonlinear_arith)
            requires
                delta_v.bounded(0x6A01000000),
                0 <= controller.mass <= MASS_LIM,
                MASS_LIM == 8388608,
        ;
        lemma_fmul_bound(delta_v.x as int, controller.mass as int, 0x6A01000000, MASS_LIM as int);
        lemma_fmul_bound(delta_v.y as int, controller.mass as int, 0x6A01000000, MASS_LIM as int);
        lemma_fmul_bound(delta_v.z as int, controller.mass as int, 0x6A01000000, MASS_LIM as int);
    }
    let impulse = Vec3 {
        x: mul_fx(delta_v.x, controller.mass),
        y: mul_fx(delta_v.y, controller.mass),
        z: mul_fx(delta_v.z, controller.mass),
    };
    KinematicOutput { delta_v, impulse, damping }
}

/// The crouch target of the tick: the crouch modifier while crouch is held,
/// standing otherwise.
pub open spec fn crouch_target_s(input: GoldenControllerInput) -> int {
    if input.crouch {
        input.crouch_degree_mod as int
    } else {
        0
    }
}

/// One crouch step: move the degree toward the target by `step`, snapped to
/// the target inside the dead-zone, and clamped into [0, ONE]. Lowering the
/// degree is standing up, so neither the step nor the snap lowers it while
/// the ceiling probe reports an obstruction.
pub open spec fn crouch_step_s(c: int, target: int, ceiling_blocked: bool, step: int) -> int {
    let c1 = if sabs(c - target) > CALC_EPSILON {
        if c < target {
            c + step
        } else if c > target && !ceiling_blocked {
            c - step
        } else {
            c
        }
    } else if target >= c || !ceiling_blocked {
        target
    } else {
        c
    };
    sclamp(c1, 0, ONE as int)
}

/// The collider half-height for a crouch degree: half the standing height
/// shrunk by `4 * degree + 1`, a monotonically decreasing function of the
/// degree.
pub open spec fn half_height_s(height: int, c: int) -> int {
    fdiv(height / 2, 4 * c + ONE)
}

/// The crouch stage of one fixed tick: steps the crouch degree toward its
/// target, lowering it (standing up) only under a free ceiling, keeps it in
/// [0, ONE], and replaces the collider with a capsule of the matching
/// half-height.
pub fn fps_controller_crouch(
    input: &GoldenControllerInput,
    controller: &GoldenController,
    spatial_hits: &GoldenControllerSpatialHits,
    controller_mutables: &mut GoldenControllerMutables,
    collider: &mut ColliderShape,
    dt: i64,
)
    requires
        controller.wf(),
        input.wf(),
        spatial_hits.wf(),
        old(controller_mutables).wf(),
        0 < dt <= ONE,
    ensures
        *final(controller_mutables) == (GoldenControllerMutables {
            crouch_degree: crouch_step_s(
                old(controller_mutables).crouch_degree as int,
                crouch_target_s(*input),
                spatial_hits.top_up,
                fmul(controller.crouch_speed as int, dt as int),
            ) as i64,
            ..*old(controller_mutables)
        }),
        final(controller_mutables).wf(),
        0 <= final(controller_mutables).crouch_degree <= ONE,
        spatial_hits.top_up ==> final(controller_mutables).crouch_degree >= old(
            controller_mutables,
        ).crouch_degree,
        *final(collider) == (ColliderShape::Capsule {
            radius: controller.radius,
            half_height: half_height_s(
                controller.height as int,
                final(controller_mutables).crouch_degree as int,
            ) as i64,
        }),
        final(collider).wf(),
{
    proof {
        assert(sabs(controller.crouch_speed as int * dt as int) <= 0x4000_0000_0000_0000)
            by (nonlinear_arith)
            requires
                0 <= controller.crouch_speed <= SPEED_LIM,
                0 < dt <= ONE,
                SPEED_LIM == 16777216,
                ONE == 65536,
        ;
        lemma_fmul_shrink(controller.crouch_speed as int, dt as int);
        assert(fmul(controller.crouch_speed as int, dt as int) >= 0) by (nonlinear_arith)
            requires
                controller.crouch_speed >= 0,
                dt > 0,
                ONE == 65536,
        ;
    }
    let step: i64 = mul_fx(controller.crouch_speed, dt);
    let target_crouch: i64 = if input.crouch {
        input.crouch_degree_mod
    } else {
        0
    };
    let diff: i64 = controller_mutables.crouch_degree - target_crouch;
    let diff_abs: i64 = if diff >= 0 {
        diff
    } else {
        -diff
    };
    if diff_abs > CALC_EPSILON {
        if controller_mutables.crouch_degree < target_crouch {
            controller_mutables.crouch_degree = controller_mutables.crouch_degree + step;
        } else if controller_mutables.crouch_degree > target_crouch {
            // Only allow standing up if there is no ceiling.
            if !spatial_hits.top_up {
                controller_mutables.crouch_degree = controller_mutables.crouch_degree - step;
            }
        }
    } else {
        // Snap to the target when within the dead-zone to avoid jitter; a
        // snap that would lower the degree is a stand-up, so it too waits
        // for a free ceiling.
        if target_crouch >= controller_mutables.crouch_degree || !spatial_hits.top_up {
            controller_mutables.crouch_degree = target_crouch;
        }
    }
    controller_mutables.crouch_degree = clamp_fx(controller_mutables.crouch_degree, 0, ONE);
    let denom: i64 = 4 * controller_mutables.crouch_degree + ONE;
    let half: i64 = div_fx(controller.height / 2, denom);
    proof {
        crate::fix::lemma_fdiv_shrink(
            controller.height as int / 2,
            denom as int,
        );
    }
    *collider = ColliderShape::Capsule { radius: controller.radius, half_height: half };
}

/// The lean target of the tick: the lean command, stopped at the live wall
/// distance on the side it points to, scaled down by the lean modifier.
pub open spec fn lean_target_s(
    input: GoldenControllerInput,
    hits: GoldenControllerSpatialHits,
) -> int {
    let t0 = input.lean as int;
    let t1 = if hits.right_wall_dist.hit && t0 > 0 {
        hits.right_wall_dist.dist as int
    } else {
        t0
    };
    let t2 = if hits.left_wall_dist.hit && t1 < 0 {
        -hits.left_wall_dist.dist as int
    } else {
        t1
    };
    fmul(t2, ONE - input.lean_degree_mod as int)
}

/// One lean step: clamp the degree into the live wall corridor, step it
/// toward the target (snapping inside the dead-zone), and clamp again; the
/// corridor is recomputed from the live wall distances every tick.
pub open spec fn lean_next_s(
    lean: int,
    input: GoldenControllerInput,
    hits: GoldenControllerSpatialHits,
    step: int,
) -> int {
    let lo = -hits.left_wall_dist.dist as int;
    let hi = hits.right_wall_dist.dist as int;
    let c0 = sclamp(lean, lo, hi);
    let t = lean_target_s(input, hits);
    let c1 = if sabs(c0 - t) > CALC_EPSILON {
        c0 + step * ssgn(t - c0)
    } else {
        t
    };
    sclamp(c1, lo, hi)
}

/// What the lean stage hands back: a lateral shift of the body (peeking
/// moves the camera sideways) and the roll angle to present.
#[derive(Clone, Copy, PartialEq, Eq, Structural, Debug)]
pub struct LeanOutput {
    pub translation_delta: Vec3,
    pub roll: i64,
}

/// The lean stage of one fixed tick: moves the lean degree toward the
/// commanded lean inside the corridor the live wall distances allow, shifts
/// the body sideways by the degree change, and reports the roll to present.
/// The degree never exceeds the wall distance on either side.
pub fn fps_controller_lean(
    input: &GoldenControllerInput,
    controller: &GoldenController,
    spatial_hits: &GoldenControllerSpatialHits,
    controller_mutables: &mut GoldenControllerMutables,
    dt: i64,
) -> (out: LeanOutput)
    requires
        controller.wf(),
        input.wf(),
        spatial_hits.wf(),
        old(controller_mutables).wf(),
        0 < dt <= ONE,
    ensures
        *final(controller_mutables) == (GoldenControllerMutables {
            lean_degree: lean_next_s(
                old(controller_mutables).lean_degree as int,
                *input,
                *spatial_hits,
                fmul(controller.leaning_speed as int, dt as int),
            ) as i64,
            ..*old(controller_mutables)
        }),
        final(controller_mutables).wf(),
        -spatial_hits.left_wall_dist.dist <= final(controller_mutables).lean_degree
            <= spatial_hits.right_wall_dist.dist,
        -ONE <= final(controller_mutables).lean_degree <= ONE,
        out.roll == -fmul(
            final(controller_mutables).lean_degree as int,
            controller.lean_max as int,
        ),
        -ONE <= out.roll <= ONE,
        ({
            let m = fmul(
                fmul(
                    controller.lean_side_impulse as int,
                    final(controller_mutables).lean_degree - sclamp(
                        old(controller_mutables).lean_degree as int,
                        -spatial_hits.left_wall_dist.dist as int,
                        spatial_hits.right_wall_dist.dist as int,
                    ),
                ),
                dt as int,
            );
            let y = wrap_pi_s(input.yaw as int);
            &&& out.translation_delta.x == fmul(cos_s(y), m)
            &&& out.translation_delta.y == 0
            &&& out.translation_delta.z == fmul(-sin_s(y), m)
        }),
        out.translation_delta.bounded(0x4000000),
{
    let yaw: i64 = if input.yaw > PI_FX {
        input.yaw - TAU_FX
    } else if input.yaw < -PI_FX {
        input.yaw + TAU_FX
    } else {
        input.yaw
    };
    let c: i64 = cos_fx(yaw);
    let s: i64 = sin_fx(yaw);
    proof {
        assert(sabs(controller.leaning_speed as int * dt as int) <= 0x4000_0000_0000_0000)
            by (nonlinear_arith)
            requires
                0 <= controller.leaning_speed <= SPEED_LIM,
                0 < dt <= ONE,
                SPEED_LIM == 16777216,
                ONE == 65536,
        ;
        lemma_fmul_shrink(controller.leaning_speed as int, dt as int);
    }
    let lean_step: i64 = mul_fx(controller.leaning_speed, dt);
    // Desired lean from input.
    let mut target_lean: i64 = input.lean;
    // Block intentional lean into a wall.
    if spatial_hits.right_wall_dist.hit && target_lean > 0 {
        target_lean = spatial_hits.right_wall_dist.dist;
    }
    if spatial_hits.left_wall_dist.hit && target_lean < 0 {
        target_lean = -spatial_hits.left_wall_dist.dist;
    }
    controller_mutables.lean_degree = clamp_fx(
        controller_mutables.lean_degree,
        -spatial_hits.left_wall_dist.dist,
        spatial_hits.right_wall_dist.dist,
    );
    let old_degree: i64 = controller_mutables.lean_degree;
    // Apply the lean degree modifier.
    proof {
        assert(sabs(target_lean as int * (ONE - input.lean_degree_mod) as int)
            <= 0x4000_0000_0000_0000) by (nonlinear_arith)
            requires
                -ONE <= target_lean <= ONE,
                0 <= input.lean_degree_mod <= ONE,
                ONE == 65536,
        ;
        lemma_fmul_shrink(target_lean as int, (ONE - input.lean_degree_mod) as int);
    }
    let target_scaled: i64 = mul_fx(target_lean, ONE - input.lean_degree_mod);
    // Smooth toward the target with an epsilon dead-zone.
    let diff: i64 = controller_mutables.lean_degree - target_scaled;
    let diff_abs: i64 = if diff >= 0 {
        diff
    } else {
        -diff
    };
    if diff_abs > CALC_EPSILON {
        let dir: i64 = sgn_fx(target_scaled - controller_mutables.lean_degree);
        proof {
            assert(-SPEED_LIM <= lean_step as int * dir as int <= SPEED_LIM)
                by (nonlinear_arith)
                requires
                    0 <= lean_step <= SPEED_LIM,
                    -1 <= dir <= 1,
            ;
        }
        controller_mutables.lean_degree = controller_mutables.lean_degree + lean_step * dir;
    } else {
        controller_mutables.lean_degree = target_scaled;
    }
    controller_mutables.lean_degree = clamp_fx(
        controller_mutables.lean_degree,
        -spatial_hits.left_wall_dist.dist,
        spatial_hits.right_wall_dist.dist,
    );
    let degree_change: i64 = controller_mutables.lean_degree - old_degree;
    // Shift the collider sideways to simulate body lean (peeking).
    proof {
        assert(sabs(controller.lean_side_impulse as int * degree_change as int)
            <= 0x4000_0000_0000_0000) by (nonlinear_arith)
            requires
                0 <= controller.lean_side_impulse <= SPEED_LIM,
                -2 * ONE <= degree_change <= 2 * ONE,
                SPEED_LIM == 16777216,
                ONE == 65536,
        ;
        lemma_fmul_bound(
            controller.lean_side_impulse as int,
            degree_change as int,
            SPEED_LIM as int,
            2 * ONE as int,
        );
    }
    let side: i64 = mul_fx(controller.lean_side_impulse, degree_change);
    proof {
        assert(sabs(side as int * dt as int) <= 0x4000_0000_0000_0000) by (nonlinear_arith)
            requires
                sabs(side as int) <= 0x4000000,
                0 < dt <= ONE,
                ONE == 65536,
        ;
        lemma_fmul_shrink(side as int, dt as int);
    }
    let m: i64 = mul_fx(side, dt);
    proof {
        assert(sabs(c as int * m as int) <= 0x4000_0000_0000_0000 && sabs(
            (-s) as int * m as int,
        ) <= 0x4000_0000_0000_0000) by (nonlinear_arith)
            requires
                -ONE <= c <= ONE,
                -ONE <= s <= ONE,
                sabs(m as int) <= 0x4000000,
                ONE == 65536,
        ;
        lemma_fmul_shrink(m as int, c as int);
        lemma_fmul_shrink(m as int, (-s) as int);
        assert(fmul(c as int, m as int) == fmul(m as int, c as int)) by (nonlinear_arith);
        assert(fmul((-s) as int, m as int) == fmul(m as int, (-s) as int)) by (nonlinear_arith);
    }
    let translation_delta = Vec3 { x: mul_fx(c, m), y: 0, z: mul_fx(-s, m) };
    // Roll to show the visual lean.
    proof {
        assert(sabs(controller_mutables.lean_degree as int * controller.lean_max as int)
            <= 0x4000_0000_0000_0000) by (nonlinear_arith)
            requires
                -ONE <= controller_mutables.lean_degree <= ONE,
                0 <= controller.lean_max <= ONE,
                ONE == 65536,
        ;
        lemma_fmul_bound(
            controller_mutables.lean_degree as int,
            controller.lean_max as int,
            ONE as int,
            ONE as int,
        );
    }
    let roll: i64 = -mul_fx(controller_mutables.lean_degree, controller.lean_max);
    LeanOutput { translation_delta, roll }
}

/// Everything one fixed tick of the solver hands back to the host.
#[derive(Clone, Copy, PartialEq, Eq, Structural, Debug)]
pub struct TickOutput {
    pub kinematic: KinematicOutput,
    pub lean: LeanOutput,
}

/// One fixed tick of the whole solver: the movement stage, then the crouch
/// stage, then the lean stage, each exactly as its own contract states, with
/// the crouch and lean stages switched by the controller's capability flags.
/// However the stages run, both degrees stay inside their bounds and the
/// state stays well-formed.
pub fn tick(
    controller: &GoldenController,
    input: &GoldenControllerInput,
    spatial_hits: &GoldenControllerSpatialHits,
    controller_mutables: &mut GoldenControllerMutables,
    velocity: &mut Vec3,
    collider: &mut ColliderShape,
    dt: i64,
) -> (out: TickOutput)
    requires
        controller.wf(),
        input.wf(),
        spatial_hits.wf(),
        old(controller_mutables).wf(),
        old(velocity).bounded(VEL_LIM as int),
        old(collider).wf(),
        0 < dt <= ONE,
    ensures
        final(controller_mutables).wf(),
        0 <= final(controller_mutables).crouch_degree <= ONE,
        -ONE <= final(controller_mutables).lean_degree <= ONE,
        final(controller_mutables).pitch == old(controller_mutables).pitch,
        final(controller_mutables).yaw == old(controller_mutables).yaw,
        final(controller_mutables).sensitivity == old(controller_mutables).sensitivity,
        final(controller_mutables).ground_tick == ground_tick_next_s(
            *controller,
            *input,
            *spatial_hits,
            old(controller_mutables).ground_tick as int,
        ),
        ({
            let add = move_add_s(
                *controller,
                *input,
                *spatial_hits,
                old(controller_mutables).crouch_degree as int,
                old(controller_mutables).lean_degree as int,
                *old(velocity),
                dt as int,
            );
            let spr: int = if spring_applied_s(*controller, *input, *spatial_hits) {
                spring_dv_s(
                    *controller,
                    spatial_hits.bottom_down_distance as int,
                    old(velocity).y as int,
                    dt as int,
                )
            } else {
                0
            };
            let jmp: int = if jumped_s(
                *controller,
                *input,
                *spatial_hits,
                old(controller_mutables).ground_tick as int,
            ) {
                controller.jump_force as int
            } else {
                0
            };
            &&& out.kinematic.delta_v.x == add.x
            &&& out.kinematic.delta_v.z == add.z
            &&& out.kinematic.delta_v.y == spr + jmp
        }),
        out.kinematic.damping == damping_s(*controller, *input, *spatial_hits),
        out.kinematic.impulse.x == fmul(out.kinematic.delta_v.x as int, controller.mass as int),
        out.kinematic.impulse.y == fmul(out.kinematic.delta_v.y as int, controller.mass as int),
        out.kinematic.impulse.z == fmul(out.kinematic.delta_v.z as int, controller.mass as int),
        *final(velocity) == vel_after_s(*controller, *spatial_hits, *old(velocity)),
        jumped_s(
            *controller,
            *input,
            *spatial_hits,
            old(controller_mutables).ground_tick as int,
        ) ==> out.kinematic.delta_v.y == controller.jump_force
            && final(controller_mutables).ground_tick == 0,
        !spatial_hits.bottom_down ==> final(controller_mutables).ground_tick == 0
            && out.kinematic.damping == controller.air_damp,
        controller.supports_crouch ==> final(controller_mutables).crouch_degree == crouch_step_s(
            old(controller_mutables).crouch_degree as int,
            crouch_target_s(*input),
            spatial_hits.top_up,
            fmul(controller.crouch_speed as int, dt as int),
        ) && *final(collider) == (ColliderShape::Capsule {
            radius: controller.radius,
            half_height: half_height_s(
                controller.height as int,
                final(controller_mutables).crouch_degree as int,
            ) as i64,
        }),
        !controller.supports_crouch ==> final(controller_mutables).crouch_degree == old(
            controller_mutables,
        ).crouch_degree && *final(collider) == *old(collider),
        spatial_hits.top_up ==> final(controller_mutables).crouch_degree >= old(
            controller_mutables,
        ).crouch_degree,
        final(collider).wf(),
        controller.supports_lean ==> final(controller_mutables).lean_degree == lean_next_s(
            old(controller_mutables).lean_degree as int,
            *input,
            *spatial_hits,
            fmul(controller.leaning_speed as int, dt as int),
        ) && -spatial_hits.left_wall_dist.dist <= final(controller_mutables).lean_degree
            <= spatial_hits.right_wall_dist.dist && out.lean.roll == -fmul(
            final(controller_mutables).lean_degree as int,
            controller.lean_max as int,
        ),
        !controller.supports_lean ==> final(controller_mutables).lean_degree == old(
            controller_mutables,
        ).lean_degree && out.lean == (LeanOutput {
            translation_delta: Vec3 { x: 0i64, y: 0i64, z: 0i64 },
            roll: 0i64,
        }),
{
    let kinematic = fps_controller_move(
        input,
        controller,
        spatial_hits,
        controller_mutables,
        velocity,
        dt,
    );
    if controller.supports_crouch {
        fps_controller_crouch(input, controller, spatial_hits, controller_mutables, collider, dt);
    }
    let lean = if controller.supports_lean {
        fps_controller_lean(input, controller, spatial_hits, controller_mutables, dt)
    } else {
        LeanOutput { translation_delta: Vec3 { x: 0, y: 0, z: 0 }, roll: 0 }
    };
    TickOutput { kinematic, lean }
}

} // verus!
