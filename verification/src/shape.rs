//! The collider shapes the controller accepts. The solver's probe geometry
//! assumes a vertical cylinder or capsule; anything else is rejected at
//! setup, so the shape type has exactly these two forms.

use vstd::prelude::*;
use crate::fix::{ONE, fmul, mul_fx, sabs, lemma_fmul_bound};

verus! {

/// Geometry magnitudes (radii, heights, probe distances) are kept below this
/// bound (16 in real units).
pub const GEO_LIM: i64 = 1048576;

#[derive(Clone, Copy, PartialEq, Eq, Structural, Debug)]
pub enum ColliderShape {
    Cylinder { radius: i64, half_height: i64 },
    Capsule { radius: i64, half_height: i64 },
}

/// The vertical offset from the center of a shape to its lowest point.
pub open spec fn y_offset_s(shape: ColliderShape) -> int {
    match shape {
        ColliderShape::Cylinder { radius, half_height } => half_height as int,
        ColliderShape::Capsule { radius, half_height } => half_height + radius,
    }
}

/// The same shape with its lateral extent scaled by `scale` and its vertical
/// extent kept.
pub open spec fn scaled_laterally_s(shape: ColliderShape, scale: int) -> ColliderShape {
    match shape {
        ColliderShape::Cylinder { radius, half_height } => ColliderShape::Cylinder {
            radius: fmul(radius as int, scale) as i64,
            half_height,
        },
        ColliderShape::Capsule { radius, half_height } => ColliderShape::Capsule {
            radius: fmul(radius as int, scale) as i64,
            half_height,
        },
    }
}

impl ColliderShape {
    /// Radius and half-height are non-negative and within the geometry bound.
    pub open spec fn wf(self) -> bool {
        match self {
            ColliderShape::Cylinder { radius, half_height } => {
                &&& 0 <= radius <= GEO_LIM
                &&& 0 <= half_height <= GEO_LIM
            },
            ColliderShape::Capsule { radius, half_height } => {
                &&& 0 <= radius <= GEO_LIM
                &&& 0 <= half_height <= GEO_LIM
            },
        }
    }

    pub open spec fn radius_s(self) -> int {
        match self {
            ColliderShape::Cylinder { radius, half_height } => radius as int,
            ColliderShape::Capsule { radius, half_height } => radius as int,
        }
    }
}

/// The offset that takes a point at the center of the body to the bottom of
/// the collider: where something should originate at the foot of the player.
pub fn collider_y_offset(shape: &ColliderShape) -> (r: i64)
    requires
        shape.wf(),
    ensures
        r == y_offset_s(*shape),
        0 <= r <= 2 * GEO_LIM,
{
    match shape {
        ColliderShape::Cylinder { radius, half_height } => *half_height,
        ColliderShape::Capsule { radius, half_height } => *half_height + *radius,
    }
}

/// A copy of the collider scaled laterally (in the horizontal plane) but not
/// vertically; the probe stage casts such slightly shrunk shapes so that a
/// wall grazing the full-width body does not register as ground.
pub fn scaled_collider_laterally(shape: &ColliderShape, scale: i64) -> (r: ColliderShape)
    requires
        shape.wf(),
        0 <= scale <= ONE,
    ensures
        r == scaled_laterally_s(*shape, scale as int),
        r.wf(),
        r.radius_s() <= shape.radius_s(),
{
    proof {
        lemma_fmul_bound(shape.radius_s(), scale as int, GEO_LIM as int, ONE as int);
        crate::fix::lemma_fmul_shrink(shape.radius_s(), scale as int);
        assert(sabs(shape.radius_s() * scale as int) <= 0x4000_0000_0000_0000)
            by (nonlinear_arith)
            requires
                0 <= shape.radius_s() <= GEO_LIM,
                0 <= scale <= ONE,
                GEO_LIM == 1048576,
                ONE == 65536,
        ;
    }
    match shape {
        ColliderShape::Cylinder { radius, half_height } => ColliderShape::Cylinder {
            radius: mul_fx(*radius, scale),
            half_height: *half_height,
        },
        ColliderShape::Capsule { radius, half_height } => ColliderShape::Capsule {
            radius: mul_fx(*radius, scale),
            half_height: *half_height,
        },
    }
}

} // verus!
