//! The per-controller continuous state that persists across ticks: crouch
//! and lean degrees, the grounded-tick streak, and the look angles.

use vstd::prelude::*;
use crate::fix::ONE;
use crate::trig::{HALF_PI_FX, TAU_FX};
use crate::input::GoldenControllerInput;

verus! {

#[derive(Clone, Copy, PartialEq, Eq, Structural, Debug)]
pub struct GoldenControllerMutables {
    /// How long the body has been on the ground; it throttles jump re-triggering.
    pub ground_tick: u8,
    pub pitch: i64,
    pub yaw: i64,
    /// Current lean, in [-ONE, ONE]: -ONE full left, ONE full right.
    pub lean_degree: i64,
    pub sensitivity: i64,
    /// Current crouch, in [0, ONE]: 0 standing, ONE fully crouched.
    pub crouch_degree: i64,
}

impl GoldenControllerMutables {
    /// The state invariant: both degrees inside their configured bounds and
    /// the angles inside one turn.
    pub open spec fn wf(self) -> bool {
        &&& 0 <= self.crouch_degree <= ONE
        &&& -ONE <= self.lean_degree <= ONE
        &&& -HALF_PI_FX <= self.pitch <= HALF_PI_FX
        &&& -TAU_FX <= self.yaw <= TAU_FX
        &&& 0 <= self.sensitivity <= ONE
    }
}

impl Default for GoldenControllerMutables {
    /// Standing upright, not leaning, airborne, looking straight ahead.
    fn default() -> (r: Self)
        ensures
            r.wf(),
            r.crouch_degree == 0,
            r.lean_degree == 0,
            r.ground_tick == 0,
            r.pitch == 0,
            r.yaw == 0,
            r.sensitivity == 66,
    {
        GoldenControllerMutables {
            crouch_degree: 0,
            lean_degree: 0,
            ground_tick: 0,
            pitch: 0,
            yaw: 0,
            sensitivity: 66,
        }
    }
}

/// Copies the freshly mapped look angles from the input snapshot into the
/// persistent state, so the render stage sees this tick's pitch and yaw.
pub fn fps_controller_look(mutables: &mut GoldenControllerMutables, input: &GoldenControllerInput)
    requires
        old(mutables).wf(),
        input.wf(),
    ensures
        *final(mutables) == (GoldenControllerMutables {
            pitch: input.pitch,
            yaw: input.yaw,
            ..*old(mutables)
        }),
        final(mutables).wf(),
{
    mutables.pitch = input.pitch;
    mutables.yaw = input.yaw;
}

} // verus!
