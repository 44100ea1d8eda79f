use fps::config::GoldenController;
use fps::fix::ONE;
use fps::input::GoldenControllerInput;
use fps::probe::{GoldenControllerSpatialHits, WallHit};
use fps::shape::ColliderShape;
use fps::solver::{
    acceleration, fps_controller_crouch, fps_controller_lean, fps_controller_move,
    max_wish_speed, normalize_or_zero, tick, wish_vector,
};
use fps::trig::HALF_PI_FX;
use fps::state::GoldenControllerMutables;
use fps::vec3::Vec3;

const DT: i64 = 1024;  // 1/64 of a second in fixed point

fn grounded_hits() -> GoldenControllerSpatialHits {
    let mut hits = GoldenControllerSpatialHits::default();
    hits.bottom_down = true;
    hits.bottom_down_distance = 26214;
    hits.bottom_hit_normal = Vec3::new(0, ONE, 0);
    hits.right_wall_dist = WallHit { hit: false, dist: ONE };
    hits.left_wall_dist = WallHit { hit: false, dist: ONE };
    hits
}

fn airborne_hits() -> GoldenControllerSpatialHits {
    let mut hits = GoldenControllerSpatialHits::default();
    hits.right_wall_dist = WallHit { hit: false, dist: ONE };
    hits.left_wall_dist = WallHit { hit: false, dist: ONE };
    hits
}

fn forward_input() -> GoldenControllerInput {
    let mut input = GoldenControllerInput::default();
    input.yaw = 0;
    input.pitch = 0;
    input.movement = Vec3::new(0, 0, ONE);
    input
}

/// Full forward at yaw 0, grounded with traction, from rest, with
/// acceleration 10 and wish speed 7 over a 1/64 tick: the velocity effect is
/// min(10 * 7 * dt, 7) = 1.09375 along forward (forward is -Z).
#[test]
fn forward_tick_from_rest_accelerates_exactly() {
    let mut cfg = GoldenController::default();
    cfg.walk_speed = 7 * ONE;
    cfg.acceleration = 10 * ONE;
    cfg.spring_enabled = false;
    let input = forward_input();
    let hits = grounded_hits();
    let mut mutables = GoldenControllerMutables::default();
    let mut velocity = Vec3::zero();
    let out = fps_controller_move(&input, &cfg, &hits, &mut mutables, &mut velocity, DT);
    assert_eq!(out.delta_v, Vec3::new(0, 0, -71680));
    assert_eq!(velocity, Vec3::zero());
    let landed = velocity.add(out.delta_v);
    assert_eq!(landed.z, -71680);  // 1.09375 * 65536, forward being -Z
    // The impulse is the same effect scaled by the mass.
    assert_eq!(out.impulse.z, -71680 * 80);
    assert_eq!(mutables.ground_tick, 1);
}

/// The acceleration step alone, on the exact scenario numbers.
#[test]
fn acceleration_formula_exact() {
    let wish_dir = Vec3::new(0, 0, -ONE);
    let r = acceleration(wish_dir, 7 * ONE, 10 * ONE, Vec3::zero(), DT);
    assert_eq!(r, Vec3::new(0, 0, -71680));
}

/// No over-acceleration: a velocity already projecting at the wish speed
/// onto the wish direction gains nothing.
#[test]
fn acceleration_adds_nothing_when_fast_enough() {
    let wish_dir = Vec3::new(0, 0, -ONE);
    let velocity = Vec3::new(0, 0, -10 * ONE);
    let r = acceleration(wish_dir, 7 * ONE, 10 * ONE, velocity, DT);
    assert_eq!(r, Vec3::zero());
}

/// Airborne with a falling velocity: the grounded streak resets and the
/// plain air damping is selected, not a ground coefficient.
#[test]
fn airborne_resets_ground_tick_and_uses_air_damping() {
    let cfg = GoldenController::default();
    let input = forward_input();
    let hits = airborne_hits();
    let mut mutables = GoldenControllerMutables::default();
    mutables.ground_tick = 42;
    let mut velocity = Vec3::new(0, -5 * ONE, 0);
    let out = fps_controller_move(&input, &cfg, &hits, &mut mutables, &mut velocity, DT);
    assert_eq!(mutables.ground_tick, 0);
    assert_eq!(out.damping, cfg.air_damp);
    assert_eq!(out.delta_v.y, 0);
    assert_eq!(velocity.y, -5 * ONE);
}

/// Grounded without jump selects the tenfold ground damping; standing still
/// with traction selects the thirtyfold one.
#[test]
fn damping_selection_on_ground() {
    let cfg = GoldenController::default();
    let hits = grounded_hits();
    let mut mutables = GoldenControllerMutables::default();
    let mut velocity = Vec3::zero();
    let moving = forward_input();
    let out = fps_controller_move(&moving, &cfg, &hits, &mut mutables, &mut velocity, DT);
    assert_eq!(out.damping, cfg.air_damp * 10);
    let mut still = forward_input();
    still.movement = Vec3::zero();
    let out2 = fps_controller_move(&still, &cfg, &hits, &mut mutables, &mut velocity, DT);
    assert_eq!(out2.damping, cfg.air_damp * 30);
}

/// Landing with traction and requesting a jump with the streak past the
/// threshold fires exactly one upward impulse and resets the streak; the
/// next tick, with the streak at zero, fires none.
#[test]
fn jump_fires_once_and_resets_streak() {
    let mut cfg = GoldenController::default();
    cfg.spring_enabled = false;
    let mut input = forward_input();
    input.jump = true;
    let hits = grounded_hits();
    let mut mutables = GoldenControllerMutables::default();
    mutables.ground_tick = 5;
    let mut velocity = Vec3::zero();
    let out = fps_controller_move(&input, &cfg, &hits, &mut mutables, &mut velocity, DT);
    assert_eq!(out.delta_v.y, cfg.jump_force);
    assert_eq!(mutables.ground_tick, 0);
    // Streak at zero, threshold one: no second impulse while still grounded.
    let out2 = fps_controller_move(&input, &cfg, &hits, &mut mutables, &mut velocity, DT);
    assert_eq!(out2.delta_v.y, 0);
    assert_eq!(mutables.ground_tick, 1);
}

/// A steep surface (normal far from up) gives no traction: no jump even
/// with the streak past the threshold, and no normal cancellation.
#[test]
fn steep_slope_gives_no_traction() {
    let mut cfg = GoldenController::default();
    cfg.spring_enabled = false;
    let mut input = forward_input();
    input.jump = true;
    let mut hits = grounded_hits();
    // normal . up == 0.5, below the 0.6 cutoff
    hits.bottom_hit_normal = Vec3::new(56756, ONE / 2, 0);
    let mut mutables = GoldenControllerMutables::default();
    mutables.ground_tick = 5;
    let mut velocity = Vec3::new(0, -3 * ONE, 0);
    let out = fps_controller_move(&input, &cfg, &hits, &mut mutables, &mut velocity, DT);
    assert_eq!(out.delta_v.y, 0);
    assert_eq!(velocity.y, -3 * ONE);
}

/// The normal cancel removes the velocity component along the ground
/// normal: landing straight down on flat ground zeroes the fall.
#[test]
fn landing_cancels_normal_velocity() {
    let mut cfg = GoldenController::default();
    cfg.spring_enabled = false;
    let mut input = forward_input();
    input.movement = Vec3::zero();
    let hits = grounded_hits();
    let mut mutables = GoldenControllerMutables::default();
    let mut velocity = Vec3::new(0, -5 * ONE, 0);
    fps_controller_move(&input, &cfg, &hits, &mut mutables, &mut velocity, DT);
    assert_eq!(velocity, Vec3::zero());
}

/// Tiny horizontal velocities snap to zero to stop wobbling at rest.
#[test]
fn wobble_snap_zeroes_small_components() {
    let cfg = GoldenController::default();
    let mut input = forward_input();
    input.movement = Vec3::zero();
    let hits = airborne_hits();
    let mut mutables = GoldenControllerMutables::default();
    let mut velocity = Vec3::new(200, -5 * ONE, -261);
    fps_controller_move(&input, &cfg, &hits, &mut mutables, &mut velocity, DT);
    assert_eq!(velocity, Vec3::new(0, -5 * ONE, 0));
}

/// The speed cap: fully crouched and fully leaned the cap shrinks to a
/// quarter of the walking speed, but never below the floor.
#[test]
fn wish_speed_cap_with_floor() {
    let cfg = GoldenController::default();
    assert_eq!(max_wish_speed(&cfg, 0, 0), 6 * ONE);
    // 6 * 0.5 * 0.5 = 1.5 is under the floor of 3.
    assert_eq!(max_wish_speed(&cfg, ONE, ONE), 3 * ONE);
    assert_eq!(max_wish_speed(&cfg, ONE, 0), 3 * ONE);
}

/// The grounded streak saturates instead of overflowing.
#[test]
fn ground_tick_saturates() {
    let mut cfg = GoldenController::default();
    cfg.spring_enabled = false;
    let input = forward_input();
    let hits = grounded_hits();
    let mut mutables = GoldenControllerMutables::default();
    mutables.ground_tick = 255;
    let mut velocity = Vec3::zero();
    fps_controller_move(&input, &cfg, &hits, &mut mutables, &mut velocity, DT);
    assert_eq!(mutables.ground_tick, 255);
}

/// Leaning right into a wall reported at 0.2: the lean degree climbs by its
/// step each tick but never passes the wall distance.
#[test]
fn lean_clamped_by_wall_distance() {
    let cfg = GoldenController::default();
    let mut input = forward_input();
    input.lean = ONE;
    let mut hits = grounded_hits();
    hits.right_wall_dist = WallHit { hit: true, dist: 13107 };
    let mut mutables = GoldenControllerMutables::default();
    let expected = [2048i64, 4096, 6144, 8192, 10240, 12288, 13107, 13107];
    for want in expected {
        fps_controller_lean(&input, &cfg, &hits, &mut mutables, DT);
        assert_eq!(mutables.lean_degree, want);
        assert!(mutables.lean_degree <= 13107);
    }
}

/// The lean roll presented is the degree scaled by the configured maximum,
/// with the sign flipped.
#[test]
fn lean_roll_tracks_degree() {
    let cfg = GoldenController::default();
    let mut input = forward_input();
    input.lean = ONE;
    let hits = grounded_hits();
    let mut mutables = GoldenControllerMutables::default();
    let out = fps_controller_lean(&input, &cfg, &hits, &mut mutables, DT);
    assert_eq!(mutables.lean_degree, 2048);
    // -(2048 * 22938) / 65536
    assert_eq!(out.roll, -716);
    // 65 * 0.03125 * dt of sideways peek, along the yawed right direction
    assert_eq!(out.translation_delta, Vec3::new(2079, 0, 0));
}

/// Crouching for eight ticks and standing for eight ticks returns the
/// degree to exactly where it began (symmetric rates, free ceiling) -- both
/// from standing and from a partly crouched start.
#[test]
fn crouch_round_trip_returns_to_start() {
    let cfg = GoldenController::default();
    let hits = airborne_hits();
    let mut crouching = forward_input();
    crouching.crouch = true;
    let standing = forward_input();
    let mut mutables = GoldenControllerMutables::default();
    let mut collider = ColliderShape::Cylinder { radius: 26214, half_height: 32768 };
    for _ in 0..8 {
        fps_controller_crouch(&crouching, &cfg, &hits, &mut mutables, &mut collider, DT);
    }
    assert_eq!(mutables.crouch_degree, 8 * 4096);
    for _ in 0..8 {
        fps_controller_crouch(&standing, &cfg, &hits, &mut mutables, &mut collider, DT);
    }
    assert_eq!(mutables.crouch_degree, 0);
    // The same six-tick trip from a partly crouched start.
    mutables.crouch_degree = 8192;
    for _ in 0..6 {
        fps_controller_crouch(&crouching, &cfg, &hits, &mut mutables, &mut collider, DT);
    }
    assert_eq!(mutables.crouch_degree, 8192 + 6 * 4096);
    for _ in 0..6 {
        fps_controller_crouch(&standing, &cfg, &hits, &mut mutables, &mut collider, DT);
    }
    assert_eq!(mutables.crouch_degree, 8192);
}

/// A ceiling obstruction blocks standing up but never blocks crouching.
#[test]
fn ceiling_blocks_uncrouch() {
    let cfg = GoldenController::default();
    let mut blocked = airborne_hits();
    blocked.top_up = true;
    let mut crouching = forward_input();
    crouching.crouch = true;
    let standing = forward_input();
    let mut mutables = GoldenControllerMutables::default();
    let mut collider = ColliderShape::Cylinder { radius: 26214, half_height: 32768 };
    for _ in 0..4 {
        fps_controller_crouch(&crouching, &cfg, &blocked, &mut mutables, &mut collider, DT);
    }
    assert_eq!(mutables.crouch_degree, 4 * 4096);
    fps_controller_crouch(&standing, &cfg, &blocked, &mut mutables, &mut collider, DT);
    assert_eq!(mutables.crouch_degree, 4 * 4096);
}

/// The dead-zone snap is a stand-up too: a degree within the dead-zone of a
/// released crouch holds its height under an obstructed ceiling, and drops
/// to zero the moment the ceiling is free.
#[test]
fn ceiling_blocks_snap_to_standing() {
    let cfg = GoldenController::default();
    let mut blocked = airborne_hits();
    blocked.top_up = true;
    let standing = forward_input();
    let mut mutables = GoldenControllerMutables::default();
    mutables.crouch_degree = 600;  // within the 0.01 dead-zone of standing
    let mut collider = ColliderShape::Cylinder { radius: 26214, half_height: 32768 };
    fps_controller_crouch(&standing, &cfg, &blocked, &mut mutables, &mut collider, DT);
    assert_eq!(mutables.crouch_degree, 600);
    let free = airborne_hits();
    fps_controller_crouch(&standing, &cfg, &free, &mut mutables, &mut collider, DT);
    assert_eq!(mutables.crouch_degree, 0);
}

/// The snap toward a deeper crouch is never blocked by the ceiling.
#[test]
fn ceiling_never_blocks_crouching_snap() {
    let cfg = GoldenController::default();
    let mut blocked = airborne_hits();
    blocked.top_up = true;
    let mut crouching = forward_input();
    crouching.crouch = true;
    let mut mutables = GoldenControllerMutables::default();
    mutables.crouch_degree = ONE - 600;  // within the dead-zone of full crouch
    let mut collider = ColliderShape::Cylinder { radius: 26214, half_height: 32768 };
    fps_controller_crouch(&crouching, &cfg, &blocked, &mut mutables, &mut collider, DT);
    assert_eq!(mutables.crouch_degree, ONE);
}

/// The collider follows the crouch degree: half the height standing, a
/// fifth of that fully crouched, always a capsule of the configured radius.
#[test]
fn crouch_resizes_collider() {
    let cfg = GoldenController::default();
    let hits = airborne_hits();
    let standing = forward_input();
    let mut mutables = GoldenControllerMutables::default();
    let mut collider = ColliderShape::Cylinder { radius: 26214, half_height: 32768 };
    fps_controller_crouch(&standing, &cfg, &hits, &mut mutables, &mut collider, DT);
    assert_eq!(collider, ColliderShape::Capsule { radius: 26214, half_height: 32768 });
    mutables.crouch_degree = ONE;  // fully crouched
    let mut held = forward_input();
    held.crouch = true;
    fps_controller_crouch(&held, &cfg, &hits, &mut mutables, &mut collider, DT);
    assert_eq!(collider, ColliderShape::Capsule { radius: 26214, half_height: 6553 });
}

/// Both degrees stay inside their bounds over a long mixed input sequence.
#[test]
fn degrees_stay_bounded_over_time() {
    let cfg = GoldenController::default();
    let mut mutables = GoldenControllerMutables::default();
    let mut collider = ColliderShape::Cylinder { radius: 26214, half_height: 32768 };
    let mut velocity = Vec3::zero();
    for i in 0..200 {
        let mut input = forward_input();
        input.crouch = i % 3 == 0;
        input.jump = i % 7 == 0;
        input.lean = if i % 4 == 0 { ONE } else { -ONE };
        let mut hits = if i % 2 == 0 { grounded_hits() } else { airborne_hits() };
        if i % 5 == 0 {
            hits.right_wall_dist = WallHit { hit: true, dist: 3000 };
        }
        if i % 6 == 0 {
            hits.top_up = true;
        }
        tick(&cfg, &input, &hits, &mut mutables, &mut velocity, &mut collider, DT);
        assert!(0 <= mutables.crouch_degree && mutables.crouch_degree <= ONE);
        assert!(-ONE <= mutables.lean_degree && mutables.lean_degree <= ONE);
        // keep the solver's velocity precondition: the host integrator
        // would damp it; here it is reset each tick
        velocity = Vec3::zero();
    }
}

/// Capability flags: without crouch support the collider and degree stay;
/// without lean support the lean output is inert.
#[test]
fn capability_flags_disable_stages() {
    let mut cfg = GoldenController::default();
    cfg.supports_crouch = false;
    cfg.supports_lean = false;
    let mut input = forward_input();
    input.crouch = true;
    input.lean = ONE;
    let hits = grounded_hits();
    let mut mutables = GoldenControllerMutables::default();
    let mut velocity = Vec3::zero();
    let mut collider = ColliderShape::Cylinder { radius: 26214, half_height: 32768 };
    let out = tick(&cfg, &input, &hits, &mut mutables, &mut velocity, &mut collider, DT);
    assert_eq!(mutables.crouch_degree, 0);
    assert_eq!(mutables.lean_degree, 0);
    assert_eq!(collider, ColliderShape::Cylinder { radius: 26214, half_height: 32768 });
    assert_eq!(out.lean.roll, 0);
    assert_eq!(out.lean.translation_delta, Vec3::zero());
}

/// The ground spring pushes up toward the stand-off height when the body
/// sits below it, and is skipped while jump is held.
#[test]
fn spring_pushes_toward_target_height() {
    let cfg = GoldenController::default();
    let mut input = forward_input();
    input.movement = Vec3::zero();
    let hits = grounded_hits();  // distance 0.4, target 0.5: below stand-off
    let mut mutables = GoldenControllerMutables::default();
    let mut velocity = Vec3::zero();
    let out = fps_controller_move(&input, &cfg, &hits, &mut mutables, &mut velocity, DT);
    assert_eq!(out.delta_v.y, 12632);
    let mut jumping = input;
    jumping.jump = true;
    let mut mutables2 = GoldenControllerMutables::default();
    // streak 0 under threshold 1: no jump, and no spring either
    let out2 = fps_controller_move(&jumping, &cfg, &hits, &mut mutables2, &mut velocity, DT);
    assert_eq!(out2.delta_v.y, 0);
}

/// The wish command rotates with the yaw: at a quarter turn left, a forward
/// command points along -X instead of -Z.
#[test]
fn wish_vector_rotates_with_yaw() {
    let cfg = GoldenController::default();
    let mut input = forward_input();
    let straight = wish_vector(&cfg, &input);
    assert_eq!(straight, Vec3::new(0, 0, -1966050));
    input.yaw = HALF_PI_FX;
    let turned = wish_vector(&cfg, &input);
    assert_eq!(turned, Vec3::new(-1966050, 0, 0));
}

/// Normalization returns a unit direction and the length, and leaves a zero
/// vector untouched instead of dividing by zero.
#[test]
fn normalization_handles_zero_vector() {
    let (dir, len) = normalize_or_zero(Vec3::new(5 * ONE, 0, 0));
    assert_eq!(len, 5 * ONE);
    assert_eq!(dir, Vec3::new(ONE, 0, 0));
    let (zdir, zlen) = normalize_or_zero(Vec3::zero());
    assert_eq!(zlen, 0);
    assert_eq!(zdir, Vec3::zero());
}
