//! The spatial probe stage: it plans four shape casts (ground, ceiling, the
//! two walls) from the controller's pose, and folds the hosts' cast answers
//! into a structured hit report. The casting itself is a query against the
//! physics world and happens outside; the geometry of every cast and the
//! interpretation of every answer is pinned here.

use vstd::prelude::*;
use crate::fix::{ONE, fmul, sabs, mul_fx};
use crate::vec3::Vec3;
use crate::shape::{ColliderShape, GEO_LIM, y_offset_s, scaled_laterally_s, collider_y_offset, scaled_collider_laterally};
use crate::config::GoldenController;
use crate::trig::{PI_FX, sin_s, cos_s, sin_fx, cos_fx};

verus! {

/// Lateral shrink applied to the shapes used for wall probes (0.9), so a
/// surface flush against the body does not read as a wall hit.
pub const SLIGHT_SCALE_DOWN: i64 = 58982;

/// Lateral shrink applied to the ceiling-probe shape (0.99).
pub const CEILING_SCALE: i64 = 64881;

/// Lateral shrink applied to the dedicated foot cylinder (0.95).
pub const FOOT_SCALE: i64 = 62259;

/// Half-height of the dedicated foot cylinder (0.1).
pub const FOOT_HALF_HEIGHT: i64 = 6554;

/// Vertical offset of the wall-probe origin above the body center (0.1).
pub const SIDE_PROBE_LIFT: i64 = 6554;

/// How far the wall probes reach (1.0).
pub const WALL_PROBE_DIST: i64 = 65536;

/// Body positions are kept below this bound so that probe origins can be
/// formed without overflow.
pub const POS_LIM: i64 = 0x10000000000;

/// One planned shape cast: sweep `shape` from `origin` along the unit
/// direction `dir` for at most `max_dist`, excluding the body itself.
#[derive(Clone, Copy, PartialEq, Eq, Structural, Debug)]
pub struct CastRequest {
    pub shape: ColliderShape,
    pub origin: Vec3,
    pub dir: Vec3,
    pub max_dist: i64,
}

/// The four casts of one tick.
#[derive(Clone, Copy, PartialEq, Eq, Structural, Debug)]
pub struct ProbePlan {
    pub ground: CastRequest,
    pub ceiling: CastRequest,
    pub right: CastRequest,
    pub left: CastRequest,
}

/// One wall probe's report: whether a wall was hit, and at what distance.
#[derive(Clone, Copy, PartialEq, Eq, Structural, Debug)]
pub struct WallHit {
    pub hit: bool,
    pub dist: i64,
}

/// The structured hit report the solver consumes.
#[derive(Clone, Copy, PartialEq, Eq, Structural, Debug)]
pub struct GoldenControllerSpatialHits {
    pub top_up: bool,
    pub bottom_down: bool,
    pub bottom_down_distance: i64,
    pub bottom_hit_normal: Vec3,
    pub right_wall_dist: WallHit,
    pub left_wall_dist: WallHit,
}

impl GoldenControllerSpatialHits {
    /// Distances inside the probe ranges, the normal a unit-or-zero vector,
    /// and a missing ground hit reporting a zero normal.
    pub open spec fn wf(self) -> bool {
        &&& 0 <= self.bottom_down_distance <= GEO_LIM
        &&& self.bottom_hit_normal.bounded(ONE as int)
        &&& !self.bottom_down ==> self.bottom_hit_normal.is_zero()
        &&& 0 <= self.right_wall_dist.dist <= ONE
        &&& 0 <= self.left_wall_dist.dist <= ONE
    }
}

impl Default for GoldenControllerSpatialHits {
    /// No contact reported in any direction.
    fn default() -> (r: Self)
        ensures
            r.wf(),
            !r.top_up,
            !r.bottom_down,
            r.bottom_down_distance == 0,
            r.bottom_hit_normal.is_zero(),
            r.right_wall_dist == (WallHit { hit: false, dist: 0i64 }),
            r.left_wall_dist == (WallHit { hit: false, dist: 0i64 }),
    {
        GoldenControllerSpatialHits {
            top_up: false,
            bottom_down: false,
            bottom_down_distance: 0,
            bottom_hit_normal: Vec3 { x: 0, y: 0, z: 0 },
            right_wall_dist: WallHit { hit: false, dist: 0 },
            left_wall_dist: WallHit { hit: false, dist: 0 },
        }
    }
}

/// The world-space right direction of a body yawed by `yaw`.
pub open spec fn right_dir_s(yaw: int) -> (int, int, int) {
    (cos_s(yaw), 0, -sin_s(yaw))
}

/// Plans the four casts of one tick from the controller's tuning, its
/// current collider, its position and its yaw: a shrunk foot cylinder swept
/// down from the feet, the near-full body swept up by the controller height,
/// and the shrunk body swept along the yawed right direction and its
/// negation.
pub fn probe_plan(
    controller: &GoldenController,
    collider: &ColliderShape,
    translation: &Vec3,
    yaw: i64,
) -> (r: ProbePlan)
    requires
        controller.wf(),
        collider.wf(),
        translation.bounded(POS_LIM as int),
        -PI_FX <= yaw <= PI_FX,
    ensures
        r.ground.shape == (ColliderShape::Cylinder {
            radius: fmul(controller.radius as int, FOOT_SCALE as int) as i64,
            half_height: FOOT_HALF_HEIGHT,
        }),
        r.ground.origin.x == translation.x,
        r.ground.origin.y == translation.y - y_offset_s(*collider)
            + controller.grounded_distance,
        r.ground.origin.z == translation.z,
        r.ground.dir == (Vec3 { x: 0i64, y: (-ONE) as i64, z: 0i64 }),
        r.ground.max_dist == controller.grounded_distance,
        r.ceiling.shape == scaled_laterally_s(*collider, CEILING_SCALE as int),
        r.ceiling.origin.x == translation.x,
        r.ceiling.origin.y == translation.y + controller.height,
        r.ceiling.origin.z == translation.z,
        r.ceiling.dir == (Vec3 { x: 0i64, y: ONE, z: 0i64 }),
        r.ceiling.max_dist == controller.grounded_distance,
        r.right.shape == scaled_laterally_s(*collider, SLIGHT_SCALE_DOWN as int),
        r.left.shape == r.right.shape,
        r.right.origin.x == translation.x,
        r.right.origin.y == translation.y + SIDE_PROBE_LIFT,
        r.right.origin.z == translation.z,
        r.left.origin == r.right.origin,
        r.right.dir.x == cos_s(yaw as int),
        r.right.dir.y == 0,
        r.right.dir.z == -sin_s(yaw as int),
        r.left.dir.x == -cos_s(yaw as int),
        r.left.dir.y == 0,
        r.left.dir.z == sin_s(yaw as int),
        r.right.max_dist == WALL_PROBE_DIST,
        r.left.max_dist == WALL_PROBE_DIST,
{
    proof {
        crate::fix::lemma_fmul_bound(controller.radius as int, FOOT_SCALE as int, GEO_LIM as int, ONE as int);
        assert(sabs(controller.radius as int * FOOT_SCALE as int) <= 0x4000_0000_0000_0000)
            by (nonlinear_arith)
            requires
                0 <= controller.radius <= GEO_LIM,
                GEO_LIM == 1048576,
                FOOT_SCALE == 62259,
        ;
    }
    let foot_shape = ColliderShape::Cylinder {
        radius: mul_fx(controller.radius, FOOT_SCALE),
        half_height: FOOT_HALF_HEIGHT,
    };
    let offset: i64 = collider_y_offset(collider);
    let feet_origin = Vec3 {
        x: translation.x,
        y: translation.y - offset + controller.grounded_distance,
        z: translation.z,
    };
    let ground = CastRequest {
        shape: foot_shape,
        origin: feet_origin,
        dir: Vec3 { x: 0, y: -ONE, z: 0 },
        max_dist: controller.grounded_distance,
    };
    let ceiling = CastRequest {
        shape: scaled_collider_laterally(collider, CEILING_SCALE),
        origin: Vec3 {
            x: translation.x,
            y: translation.y + controller.height,
            z: translation.z,
        },
        dir: Vec3 { x: 0, y: ONE, z: 0 },
        max_dist: controller.grounded_distance,
    };
    let c: i64 = cos_fx(yaw);
    let s: i64 = sin_fx(yaw);
    let side_shape = scaled_collider_laterally(collider, SLIGHT_SCALE_DOWN);
    let side_origin = Vec3 {
        x: translation.x,
        y: translation.y + SIDE_PROBE_LIFT,
        z: translation.z,
    };
    let right = CastRequest {
        shape: side_shape,
        origin: side_origin,
        dir: Vec3 { x: c, y: 0, z: -s },
        max_dist: WALL_PROBE_DIST,
    };
    let left = CastRequest {
        shape: side_shape,
        origin: side_origin,
        dir: Vec3 { x: -c, y: 0, z: s },
        max_dist: WALL_PROBE_DIST,
    };
    ProbePlan { ground, ceiling, right, left }
}

/// Folds the hosts' answers to the planned casts into the hit report: a
/// ground answer records its distance and surface normal, a miss records a
/// zero normal and marks the body airborne; a missing wall answer reports a
/// free lane of the full probe length.
pub fn apply_probe_results(
    hits: &mut GoldenControllerSpatialHits,
    ground: Option<(i64, Vec3)>,
    ceiling_hit: bool,
    right: Option<i64>,
    left: Option<i64>,
)
    requires
        old(hits).wf(),
        ground matches Some((d, n)) ==> 0 <= d <= GEO_LIM && n.bounded(ONE as int),
        right matches Some(d) ==> 0 <= d <= ONE,
        left matches Some(d) ==> 0 <= d <= ONE,
    ensures
        final(hits).wf(),
        final(hits).top_up == ceiling_hit,
        ground matches Some((d, n)) ==> final(hits).bottom_down
            && final(hits).bottom_down_distance == d && final(hits).bottom_hit_normal == n,
        ground is None ==> !final(hits).bottom_down && final(hits).bottom_hit_normal.is_zero()
            && final(hits).bottom_down_distance == old(hits).bottom_down_distance,
        right matches Some(d) ==> final(hits).right_wall_dist == (WallHit { hit: true, dist: d }),
        right is None ==> final(hits).right_wall_dist == (WallHit { hit: false, dist: ONE }),
        left matches Some(d) ==> final(hits).left_wall_dist == (WallHit { hit: true, dist: d }),
        left is None ==> final(hits).left_wall_dist == (WallHit { hit: false, dist: ONE }),
{
    match ground {
        Some((distance, normal)) => {
            hits.bottom_down = true;
            hits.bottom_hit_normal = normal;
            hits.bottom_down_distance = distance;
        },
        None => {
            hits.bottom_down = false;
            hits.bottom_hit_normal = Vec3 { x: 0, y: 0, z: 0 };
        },
    }
    hits.top_up = ceiling_hit;
    match right {
        Some(d) => {
            hits.right_wall_dist = WallHit { hit: true, dist: d };
        },
        None => {
            hits.right_wall_dist = WallHit { hit: false, dist: WALL_PROBE_DIST };
        },
    }
    match left {
        Some(d) => {
            hits.left_wall_dist = WallHit { hit: true, dist: d };
        },
        None => {
            hits.left_wall_dist = WallHit { hit: false, dist: WALL_PROBE_DIST };
        },
    }
}

} // verus!
