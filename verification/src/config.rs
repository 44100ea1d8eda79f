//! Immutable tuning parameters of a controller, fixed at creation. The
//! well-formedness bounds are what every solver contract assumes; they keep
//! all per-tick arithmetic inside `i64`.

use vstd::prelude::*;
use crate::fix::ONE;
use crate::shape::GEO_LIM;

verus! {

/// Speeds, accelerations, damping factors and impulses are kept below this
/// bound (256 in real units).
pub const SPEED_LIM: i64 = 16777216;

/// Masses are kept between `ONE` and this bound (128 in real units), so the
/// solver can divide by the mass without the quotient growing.
pub const MASS_LIM: i64 = 8388608;

/// Spring frequency and damping ratio are kept below this bound (2 in real
/// units).
pub const FREQ_LIM: i64 = 131072;

#[derive(Clone, Copy, PartialEq, Eq, Structural, Debug)]
pub struct GoldenController {
    pub radius: i64,
    /// If the distance to the ground is less than this value, the player is
    /// considered grounded.
    pub grounded_distance: i64,
    pub walk_speed: i64,
    pub forward_speed: i64,
    pub side_speed: i64,
    pub air_speed_cap: i64,
    pub air_acceleration: i64,
    pub acceleration: i64,
    pub crouch_speed: i64,
    /// If the dot product (alignment) of the surface normal and the upward
    /// vector, a value in [-1, 1], is greater than this value, ground
    /// movement is applied.
    pub traction_normal_cutoff: i64,
    pub height: i64,
    pub air_damp: i64,
    pub friction: i64,
    pub mass: i64,
    pub enable_input: bool,
    pub jump_force: i64,
    pub lean_max: i64,
    pub air_friction: i64,
    pub lean_side_impulse: i64,
    pub leaning_speed: i64,
    /// The capped wish speed never drops below this floor, however crouched
    /// or leaned the body is.
    pub speed_floor: i64,
    /// Consecutive grounded ticks required before a jump request fires.
    pub jump_tick_min: u8,
    /// Stand-off distance the ground spring drives the body toward.
    pub spring_target_height: i64,
    /// Natural frequency of the ground spring.
    pub spring_freq: i64,
    /// Damping ratio of the ground spring.
    pub spring_damping_ratio: i64,
    /// Gravity compensation fed into the ground spring.
    pub gravity: i64,
    /// Capability switches: one parameterized solver serves the variants.
    pub supports_lean: bool,
    pub supports_crouch: bool,
    pub spring_enabled: bool,
}

impl GoldenController {
    /// The bounds every solver contract assumes of the tuning parameters.
    pub open spec fn wf(self) -> bool {
        &&& 0 <= self.radius <= GEO_LIM
        &&& 0 <= self.grounded_distance <= GEO_LIM
        &&& 0 <= self.height <= GEO_LIM
        &&& 0 <= self.spring_target_height <= GEO_LIM
        &&& 0 <= self.walk_speed <= SPEED_LIM
        &&& 0 <= self.forward_speed <= SPEED_LIM
        &&& 0 <= self.side_speed <= SPEED_LIM
        &&& 0 <= self.air_speed_cap <= SPEED_LIM
        &&& 0 <= self.air_acceleration <= SPEED_LIM
        &&& 0 <= self.acceleration <= SPEED_LIM
        &&& 0 <= self.crouch_speed <= SPEED_LIM
        &&& 0 <= self.air_damp <= SPEED_LIM
        &&& 0 <= self.friction <= SPEED_LIM
        &&& 0 <= self.air_friction <= SPEED_LIM
        &&& 0 <= self.jump_force <= SPEED_LIM
        &&& 0 <= self.lean_side_impulse <= SPEED_LIM
        &&& 0 <= self.leaning_speed <= SPEED_LIM
        &&& 0 <= self.speed_floor <= SPEED_LIM
        &&& 0 <= self.gravity <= SPEED_LIM
        &&& ONE <= self.mass <= MASS_LIM
        &&& 0 <= self.spring_freq <= FREQ_LIM
        &&& 0 <= self.spring_damping_ratio <= FREQ_LIM
        &&& -ONE <= self.traction_normal_cutoff <= ONE
        &&& 0 <= self.lean_max <= ONE
    }
}

impl Default for GoldenController {
    /// The stock tuning: a 0.4 x 1.0 body walking at 6, accelerating at 4 on
    /// the ground and 9 in the air, jumping with force 6.
    fn default() -> (r: Self)
        ensures
            r.wf(),
            r.grounded_distance == 26214,
            r.radius == 26214,
            r.height == ONE,
            r.walk_speed == 6 * ONE,
            r.mass == 80 * ONE,
            r.crouch_speed == 4 * ONE,
            r.air_friction == 0,
            r.air_damp == 19661,
            r.jump_force == 6 * ONE,
            r.forward_speed == 30 * ONE,
            r.side_speed == 30 * ONE,
            r.air_speed_cap == 2 * ONE,
            r.air_acceleration == 9 * ONE,
            r.lean_max == 22938,
            r.leaning_speed == 2 * ONE,
            r.acceleration == 4 * ONE,
            r.traction_normal_cutoff == 39322,
            r.friction == 0,
            r.lean_side_impulse == 65 * ONE,
            r.enable_input,
            r.speed_floor == 3 * ONE,
            r.jump_tick_min == 1,
            r.spring_target_height == 32768,
            r.spring_freq == 52429,
            r.spring_damping_ratio == 52429,
            r.gravity == 642908,
            r.supports_lean,
            r.supports_crouch,
            r.spring_enabled,
    {
        GoldenController {
            grounded_distance: 26214,
            radius: 26214,
            height: 65536,
            walk_speed: 393216,
            mass: 5242880,
            crouch_speed: 262144,
            air_friction: 0,
            air_damp: 19661,
            jump_force: 393216,
            forward_speed: 1966080,
            side_speed: 1966080,
            air_speed_cap: 131072,
            air_acceleration: 589824,
            lean_max: 22938,
            leaning_speed: 131072,
            acceleration: 262144,
            traction_normal_cutoff: 39322,
            friction: 0,
            lean_side_impulse: 4259840,
            enable_input: true,
            speed_floor: 196608,
            jump_tick_min: 1,
            spring_target_height: 32768,
            spring_freq: 52429,
            spring_damping_ratio: 52429,
            gravity: 642908,
            supports_lean: true,
            supports_crouch: true,
            spring_enabled: true,
        }
    }
}

} // verus!
