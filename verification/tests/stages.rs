use fps::config::GoldenController;
use fps::fix::ONE;
use fps::input::{
    GoldenControllerInput, KeyState, ScrollDelta, fps_controller_input, get_axis, get_pressed,
    scroll_events,
};
use fps::inventory::{PlayerInventory, PlayerStats};
use fps::probe::{GoldenControllerSpatialHits, apply_probe_results, probe_plan};
use fps::render::{CameraConfig, fps_controller_render};
use fps::shape::{ColliderShape, collider_y_offset, scaled_collider_laterally};
use fps::state::{GoldenControllerMutables, fps_controller_look};
use fps::trig::{PI_FX, HALF_PI_FX};
use fps::vec3::Vec3;

fn neutral_input() -> GoldenControllerInput {
    let mut input = GoldenControllerInput::default();
    input.pitch = 0;
    input.yaw = 0;
    input
}

#[test]
fn axes_from_pressed_keys() {
    assert_eq!(get_pressed(true), ONE);
    assert_eq!(get_pressed(false), 0);
    assert_eq!(get_axis(true, false), ONE);
    assert_eq!(get_axis(false, true), -ONE);
    assert_eq!(get_axis(true, true), 0);
    assert_eq!(get_axis(false, false), 0);
}

#[test]
fn input_mapper_sets_movement_and_buttons() {
    let mut keys = KeyState::default();
    keys.forward = true;
    keys.right = true;
    keys.jump = true;
    keys.crouch = true;
    keys.lean_left = true;
    let mutables = GoldenControllerMutables::default();
    let mut input = neutral_input();
    fps_controller_input(&keys, &mutables, &mut input, 0, 0);
    assert_eq!(input.movement, Vec3::new(ONE, 0, ONE));
    assert_eq!(input.lean, -ONE);
    assert!(input.jump);
    assert!(input.crouch);
}

#[test]
fn input_mapper_clamps_pitch_at_poles() {
    let keys = KeyState::default();
    let mut mutables = GoldenControllerMutables::default();
    mutables.sensitivity = ONE;
    let mut input = neutral_input();
    // A huge upward pointer delta pins the pitch just short of the pole.
    fps_controller_input(&keys, &mutables, &mut input, 0, 200000);
    assert_eq!(input.pitch, -(HALF_PI_FX - 128));
    fps_controller_input(&keys, &mutables, &mut input, 0, -400000);
    assert_eq!(input.pitch, HALF_PI_FX - 128);
}

#[test]
fn input_mapper_wraps_yaw_into_one_turn() {
    let keys = KeyState::default();
    let mut mutables = GoldenControllerMutables::default();
    mutables.sensitivity = ONE;
    let mut input = neutral_input();
    fps_controller_input(&keys, &mutables, &mut input, -300000, 0);
    // 300000 wrapped by a full turn of 411774
    assert_eq!(input.yaw, -111774);
    assert!(-PI_FX <= input.yaw && input.yaw <= PI_FX);
}

#[test]
fn input_mapper_small_turn_stays_unwrapped() {
    let keys = KeyState::default();
    let mut mutables = GoldenControllerMutables::default();
    mutables.sensitivity = ONE;
    let mut input = neutral_input();
    fps_controller_input(&keys, &mutables, &mut input, -1000, 0);
    assert_eq!(input.yaw, 1000);
}

#[test]
fn scroll_tunes_crouch_modifier_while_crouching() {
    let mut input = neutral_input();
    input.crouch = true;
    let events = vec![ScrollDelta { x: 0, y: 7000 }];
    scroll_events(&events, &mut input);
    // one notch of 0.1 off the full crouch modifier
    assert_eq!(input.crouch_degree_mod, ONE - 6554);
    assert_eq!(input.lean_degree_mod, 0);
}

#[test]
fn scroll_tunes_lean_modifier_while_leaning() {
    let mut input = neutral_input();
    input.lean = ONE;
    let events = vec![
        ScrollDelta { x: 0, y: 7000 },
        ScrollDelta { x: 0, y: 7000 },
        ScrollDelta { x: 8000, y: 0 },
    ];
    scroll_events(&events, &mut input);
    assert_eq!(input.lean_degree_mod, 3 * 6554);
    assert_eq!(input.crouch_degree_mod, ONE);
}

#[test]
fn scroll_inside_dead_zone_changes_nothing() {
    let mut input = neutral_input();
    input.crouch = true;
    let events = vec![ScrollDelta { x: 100, y: -100 }];
    scroll_events(&events, &mut input);
    assert_eq!(input.crouch_degree_mod, ONE);
    assert_eq!(input.lean_degree_mod, 0);
}

#[test]
fn scroll_modifiers_clamp_to_unit_range() {
    let mut input = neutral_input();
    input.crouch = true;
    // 20 downward notches would push the modifier past 1; it clamps.
    let events: Vec<ScrollDelta> = (0..20).map(|_| ScrollDelta { x: 0, y: -7000 }).collect();
    scroll_events(&events, &mut input);
    assert_eq!(input.crouch_degree_mod, ONE);
    let mut leaning = neutral_input();
    leaning.lean = ONE;
    let down: Vec<ScrollDelta> = (0..20).map(|_| ScrollDelta { x: 0, y: -7000 }).collect();
    scroll_events(&down, &mut leaning);
    assert_eq!(leaning.lean_degree_mod, 0);
}

#[test]
fn look_copies_angles_into_state() {
    let mut mutables = GoldenControllerMutables::default();
    let mut input = neutral_input();
    input.pitch = -1234;
    input.yaw = 4321;
    fps_controller_look(&mut mutables, &input);
    assert_eq!(mutables.pitch, -1234);
    assert_eq!(mutables.yaw, 4321);
}

#[test]
fn collider_offsets() {
    let cylinder = ColliderShape::Cylinder { radius: 26214, half_height: 32768 };
    assert_eq!(collider_y_offset(&cylinder), 32768);
    let capsule = ColliderShape::Capsule { radius: 26214, half_height: 32768 };
    assert_eq!(collider_y_offset(&capsule), 32768 + 26214);
}

#[test]
fn lateral_scaling_keeps_height() {
    let cylinder = ColliderShape::Cylinder { radius: 26214, half_height: 32768 };
    let shrunk = scaled_collider_laterally(&cylinder, 58982);
    assert_eq!(shrunk, ColliderShape::Cylinder { radius: 23592, half_height: 32768 });
    let capsule = ColliderShape::Capsule { radius: 26214, half_height: 32768 };
    let shrunk2 = scaled_collider_laterally(&capsule, 64881);
    assert_eq!(shrunk2, ColliderShape::Capsule { radius: 25952, half_height: 32768 });
}

#[test]
fn probe_plan_geometry() {
    let cfg = GoldenController::default();
    let collider = ColliderShape::Cylinder { radius: 26214, half_height: 32768 };
    let translation = Vec3::new(0, 2 * ONE, 0);
    let plan = probe_plan(&cfg, &collider, &translation, 0);
    // Ground: shrunk foot cylinder, cast down from the feet.
    assert_eq!(
        plan.ground.shape,
        ColliderShape::Cylinder { radius: 24903, half_height: 6554 }
    );
    assert_eq!(plan.ground.origin, Vec3::new(0, 2 * ONE - 32768 + 26214, 0));
    assert_eq!(plan.ground.dir, Vec3::new(0, -ONE, 0));
    assert_eq!(plan.ground.max_dist, 26214);
    // Ceiling: near-full body, cast up from one height above.
    assert_eq!(plan.ceiling.origin, Vec3::new(0, 3 * ONE, 0));
    assert_eq!(plan.ceiling.dir, Vec3::new(0, ONE, 0));
    // Walls: the yawed right direction and its negation, one unit out.
    assert_eq!(plan.right.dir, Vec3::new(65535, 0, 0));
    assert_eq!(plan.left.dir, Vec3::new(-65535, 0, 0));
    assert_eq!(plan.right.max_dist, ONE);
    assert_eq!(plan.right.origin, Vec3::new(0, 2 * ONE + 6554, 0));
}

#[test]
fn probe_results_fold_into_report() {
    let mut hits = GoldenControllerSpatialHits::default();
    apply_probe_results(
        &mut hits,
        Some((26214, Vec3::new(0, ONE, 0))),
        true,
        Some(13107),
        None,
    );
    assert!(hits.bottom_down);
    assert_eq!(hits.bottom_down_distance, 26214);
    assert_eq!(hits.bottom_hit_normal, Vec3::new(0, ONE, 0));
    assert!(hits.top_up);
    assert!(hits.right_wall_dist.hit);
    assert_eq!(hits.right_wall_dist.dist, 13107);
    assert!(!hits.left_wall_dist.hit);
    assert_eq!(hits.left_wall_dist.dist, ONE);
    // A miss marks the body airborne with a zero normal.
    apply_probe_results(&mut hits, None, false, None, None);
    assert!(!hits.bottom_down);
    assert_eq!(hits.bottom_hit_normal, Vec3::zero());
    assert_eq!(hits.bottom_down_distance, 26214);
}

#[test]
fn render_projects_camera_pose() {
    let collider = ColliderShape::Capsule { radius: 26214, half_height: 16384 };
    let mut mutables = GoldenControllerMutables::default();
    mutables.pitch = -34315;
    let camera = CameraConfig { height_offset: 32768 };
    let logical = Vec3::new(ONE, 5 * ONE, -2 * ONE);
    let pose = fps_controller_render(&logical, &collider, &mutables, &camera);
    assert_eq!(
        pose.translation,
        Vec3::new(ONE, 5 * ONE + 16384 + 26214 + 32768, -2 * ONE)
    );
    assert_eq!(pose.pitch, -34315);
}

#[test]
fn stock_tuning_defaults() {
    let cfg = GoldenController::default();
    assert_eq!(cfg.walk_speed, 6 * ONE);
    assert_eq!(cfg.mass, 80 * ONE);
    assert_eq!(cfg.jump_force, 6 * ONE);
    assert_eq!(cfg.air_speed_cap, 2 * ONE);
    assert_eq!(cfg.traction_normal_cutoff, 39322);
    assert!(cfg.enable_input);
    let state = GoldenControllerMutables::default();
    assert_eq!(state.crouch_degree, 0);
    assert_eq!(state.lean_degree, 0);
    assert_eq!(state.ground_tick, 0);
    assert_eq!(state.sensitivity, 66);
    let input = GoldenControllerInput::default();
    assert!(!input.jump);
    assert_eq!(input.crouch_degree_mod, ONE);
    assert_eq!(input.yaw, 257359);
    let stats = PlayerStats::default();
    assert_eq!(stats.health, 100);
    assert_eq!(stats.max_armor, 200);
    let inventory = PlayerInventory::default();
    assert_eq!(inventory.bandages, 0);
}
