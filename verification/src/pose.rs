//! Spatial poses: a position, an orientation and a scale for every tracked
//! body.
//!
//! The orientation is carried as the rotated canonical frame itself — the
//! world-space forward, up and right axes, each a fixed-point vector of
//! roughly unit length. That is the rotation matrix by columns, so rotating
//! a body-local vector into world space is three scaled axis sums and stays
//! exact integer arithmetic.

use vstd::prelude::*;

verus! {

use crate::math::Vec3Fix;
use crate::math::SCALE;
use crate::math::lemma_mul_bound2;

/// Magnitude bound on the components of a well-formed basis axis. A unit
/// axis has components up to `SCALE`; the slack covers the rounding of the
/// look-at construction, which can push a component slightly past it.
pub const BASIS_MAX: i64 = 2000;

/// Magnitude bound on body-local vectors handed to `rotate` (whole units).
pub const LOCAL_MAX: i64 = 1_000_000;

/// Magnitude bound on world coordinates of a well-formed pose.
pub const COORD_MAX: i64 = 100_000_000;

/// Magnitude bound on scale components of a well-formed pose.
pub const SCALE_COMP_MAX: i64 = 1_000_000;

/// An orientation: the canonical axes rotated into world space.
#[derive(Clone, Copy, PartialEq, Eq, Structural, Debug)]
pub struct Basis {
    pub forward: Vec3Fix,
    pub up: Vec3Fix,
    pub right: Vec3Fix,
}

impl Basis {
    /// Every axis component is bounded, so rotations cannot overflow.
    pub open spec fn wf(self) -> bool {
        &&& self.forward.within(BASIS_MAX as int)
        &&& self.up.within(BASIS_MAX as int)
        &&& self.right.within(BASIS_MAX as int)
    }

    /// The identity rotation: canonical axes unchanged.
    pub open spec fn is_identity(self) -> bool {
        &&& self.forward == (Vec3Fix { x: SCALE, y: 0, z: 0 })
        &&& self.up == (Vec3Fix { x: 0, y: SCALE, z: 0 })
        &&& self.right == (Vec3Fix { x: 0, y: 0, z: SCALE })
    }
}

/// The identity orientation.
pub fn identity_basis() -> (b: Basis)
    ensures
        b.is_identity(),
        b.wf(),
{
    Basis {
        forward: Vec3Fix { x: SCALE, y: 0, z: 0 },
        up: Vec3Fix { x: 0, y: SCALE, z: 0 },
        right: Vec3Fix { x: 0, y: 0, z: SCALE },
    }
}

/// The world-space image of a body-local vector under a rotation,
/// componentwise: the local coordinates weight the rotated axes.
pub open spec fn rotated_x(b: Basis, local: Vec3Fix) -> int {
    local.x * b.forward.x + local.y * b.up.x + local.z * b.right.x
}

/// See `rotated_x`.
pub open spec fn rotated_y(b: Basis, local: Vec3Fix) -> int {
    local.x * b.forward.y + local.y * b.up.y + local.z * b.right.y
}

/// See `rotated_x`.
pub open spec fn rotated_z(b: Basis, local: Vec3Fix) -> int {
    local.x * b.forward.z + local.y * b.up.z + local.z * b.right.z
}

/// Rotates a body-local vector (whole units) into world space (subunits).
pub fn rotate(b: &Basis, local: Vec3Fix) -> (r: Vec3Fix)
    requires
        b.wf(),
        local.within(LOCAL_MAX as int),
    ensures
        r.x == rotated_x(*b, local),
        r.y == rotated_y(*b, local),
        r.z == rotated_z(*b, local),
        r.within(3 * (LOCAL_MAX as int) * (BASIS_MAX as int)),
{
    proof {
        lemma_mul_bound2(local.x as int, b.forward.x as int, LOCAL_MAX as int, BASIS_MAX as int);
        lemma_mul_bound2(local.y as int, b.up.x as int, LOCAL_MAX as int, BASIS_MAX as int);
        lemma_mul_bound2(local.z as int, b.right.x as int, LOCAL_MAX as int, BASIS_MAX as int);
        lemma_mul_bound2(local.x as int, b.forward.y as int, LOCAL_MAX as int, BASIS_MAX as int);
        lemma_mul_bound2(local.y as int, b.up.y as int, LOCAL_MAX as int, BASIS_MAX as int);
        lemma_mul_bound2(local.z as int, b.right.y as int, LOCAL_MAX as int, BASIS_MAX as int);
        lemma_mul_bound2(local.x as int, b.forward.z as int, LOCAL_MAX as int, BASIS_MAX as int);
        lemma_mul_bound2(local.y as int, b.up.z as int, LOCAL_MAX as int, BASIS_MAX as int);
        lemma_mul_bound2(local.z as int, b.right.z as int, LOCAL_MAX as int, BASIS_MAX as int);
    }
    Vec3Fix {
        x: local.x * b.forward.x + local.y * b.up.x + local.z * b.right.x,
        y: local.x * b.forward.y + local.y * b.up.y + local.z * b.right.y,
        z: local.x * b.forward.z + local.y * b.up.z + local.z * b.right.z,
    }
}

/// Position, orientation and scale of one tracked body.
#[derive(Clone, Copy, PartialEq, Eq, Structural, Debug)]
pub struct SpatialPose {
    pub position: Vec3Fix,
    pub orientation: Basis,
    pub scale: Vec3Fix,
}

impl SpatialPose {
    /// Coordinates bounded, orientation well-formed, scale positive.
    pub open spec fn wf(self) -> bool {
        &&& self.position.within(COORD_MAX as int)
        &&& self.orientation.wf()
        &&& 0 < self.scale.x <= SCALE_COMP_MAX
        &&& 0 < self.scale.y <= SCALE_COMP_MAX
        &&& 0 < self.scale.z <= SCALE_COMP_MAX
    }
}

/// A pose at the given position with identity orientation and unit scale.
pub fn pose_at(position: Vec3Fix) -> (p: SpatialPose)
    requires
        position.within(COORD_MAX as int),
    ensures
        p.position == position,
        p.orientation.is_identity(),
        p.scale == (Vec3Fix { x: SCALE, y: SCALE, z: SCALE }),
        p.wf(),
{
    SpatialPose {
        position,
        orientation: identity_basis(),
        scale: Vec3Fix { x: SCALE, y: SCALE, z: SCALE },
    }
}

} // verus!
