//! The render sync: a pure projection of the logical body's pose into the
//! presentation pose. It feeds nothing back into the solver.

use vstd::prelude::*;
use crate::vec3::Vec3;
use crate::shape::{ColliderShape, GEO_LIM, y_offset_s, collider_y_offset};
use crate::state::GoldenControllerMutables;
use crate::probe::POS_LIM;

verus! {

/// Camera placement relative to the logical body.
#[derive(Clone, Copy, PartialEq, Eq, Structural, Debug)]
pub struct CameraConfig {
    pub height_offset: i64,
}

impl CameraConfig {
    pub open spec fn wf(self) -> bool {
        -GEO_LIM <= self.height_offset <= GEO_LIM
    }
}

/// The presentation pose: where to place the camera body and how much to
/// pitch it. Yaw and lean are already baked into the logical rotation by the
/// solver; only the pitch is added at presentation time.
#[derive(Clone, Copy, PartialEq, Eq, Structural, Debug)]
pub struct RenderPose {
    pub translation: Vec3,
    pub pitch: i64,
}

/// Projects the logical transform into the presentation transform: the
/// camera sits above the collider bottom by the collider offset plus the
/// configured height offset, and pitches by the current look pitch.
pub fn fps_controller_render(
    logical_translation: &Vec3,
    collider: &ColliderShape,
    controller_mutables: &GoldenControllerMutables,
    camera_config: &CameraConfig,
) -> (r: RenderPose)
    requires
        logical_translation.bounded(POS_LIM as int),
        collider.wf(),
        controller_mutables.wf(),
        camera_config.wf(),
    ensures
        r.translation.x == logical_translation.x,
        r.translation.y == logical_translation.y + y_offset_s(*collider)
            + camera_config.height_offset,
        r.translation.z == logical_translation.z,
        r.pitch == controller_mutables.pitch,
{
    let collider_offset: i64 = collider_y_offset(collider);
    let translation = Vec3 {
        x: logical_translation.x,
        y: logical_translation.y + collider_offset + camera_config.height_offset,
        z: logical_translation.z,
    };
    RenderPose { translation, pitch: controller_mutables.pitch }
}

} // verus!
