//! Camera tracking: resolving the desired chase-camera pose from the
//! vehicle's pose, and committing it to the camera's pose with a look-at
//! orientation.

use vstd::prelude::*;

verus! {

use crate::math::Vec3Fix;
use crate::math::SCALE;
use crate::math::div_trunc;
use crate::math::isqrt_spec;
use crate::math::norm_sq;
use crate::math::cross_x;
use crate::math::cross_y;
use crate::math::cross_z;
use crate::math::vec_sub;
use crate::math::vec_add;
use crate::math::vec_cross;
use crate::math::vec_descale;
use crate::math::normalize_units;
use crate::math::lemma_mul_bound2;
use crate::math::lemma_div_trunc_bound;
use crate::math::lemma_isqrt_unique;
use crate::pose::Basis;
use crate::pose::SpatialPose;
use crate::pose::rotate;
use crate::pose::pose_at;
use crate::pose::BASIS_MAX;

/// How far behind the vehicle (along its forward axis, whole units) the
/// camera sits.
pub const FOLLOW_DISTANCE: i64 = 20;

/// How far above the vehicle (along its up axis, whole units) the camera
/// sits.
pub const FOLLOW_HEIGHT: i64 = 5;

/// Magnitude bound on a camera target's position components: a well-formed
/// vehicle position plus the largest follow offset.
pub const TARGET_MAX: i64 = 100_050_000;

/// The desired camera pose for one frame: where the camera should stand,
/// what point it should aim at, and its reference up vector.
#[derive(Clone, Copy, PartialEq, Eq, Structural, Debug)]
pub struct CameraTarget {
    pub position: Vec3Fix,
    pub look_at: Vec3Fix,
    pub up: Vec3Fix,
}

impl CameraTarget {
    /// Bounds under which the look-at construction cannot overflow.
    pub open spec fn wf(self) -> bool {
        &&& self.position.within(TARGET_MAX as int)
        &&& self.look_at.within(TARGET_MAX as int)
        &&& self.up.within(BASIS_MAX as int)
    }
}

/// What the resolved target must hold: the camera aims at the vehicle,
/// banks with the vehicle's up axis, and stands a fixed body-frame offset
/// behind and above it — re-derived fresh every frame, with no smoothing.
pub open spec fn camera_target_spec(t: CameraTarget, pose: SpatialPose) -> bool {
    &&& t.look_at == pose.position
    &&& t.up == pose.orientation.up
    &&& t.position.x == pose.position.x - FOLLOW_DISTANCE * pose.orientation.forward.x
        + FOLLOW_HEIGHT * pose.orientation.up.x
    &&& t.position.y == pose.position.y - FOLLOW_DISTANCE * pose.orientation.forward.y
        + FOLLOW_HEIGHT * pose.orientation.up.y
    &&& t.position.z == pose.position.z - FOLLOW_DISTANCE * pose.orientation.forward.z
        + FOLLOW_HEIGHT * pose.orientation.up.z
}

/// Resolves the desired camera pose from the vehicle's pose.
#[verifier::rlimit(50)]
pub fn compute_target(vehicle_pose: &SpatialPose) -> (t: CameraTarget)
    requires
        vehicle_pose.wf(),
    ensures
        camera_target_spec(t, *vehicle_pose),
        t.wf(),
{
    let local = Vec3Fix { x: -FOLLOW_DISTANCE, y: FOLLOW_HEIGHT, z: 0 };
    let offset = rotate(&vehicle_pose.orientation, local);
    proof {
        let b = vehicle_pose.orientation;
        assert(offset.x == -(FOLLOW_DISTANCE * b.forward.x) + FOLLOW_HEIGHT * b.up.x);
        assert(offset.y == -(FOLLOW_DISTANCE * b.forward.y) + FOLLOW_HEIGHT * b.up.y);
        assert(offset.z == -(FOLLOW_DISTANCE * b.forward.z) + FOLLOW_HEIGHT * b.up.z);
        assert(offset.within(50_000));
    }
    let position = vec_add(vehicle_pose.position, offset);
    CameraTarget { position, look_at: vehicle_pose.position, up: vehicle_pose.orientation.up }
}

/// The resolved camera position lies at distance `FOLLOW_DISTANCE` along
/// the negative forward axis from the vehicle position raised by
/// `FOLLOW_HEIGHT` along the up axis: the remaining offset is exactly
/// `-FOLLOW_DISTANCE` times the forward axis, so its squared norm is
/// `FOLLOW_DISTANCE`&sup2; times the forward axis's squared norm.
pub proof fn lemma_target_stands_follow_distance_back(t: CameraTarget, pose: SpatialPose)
    requires
        camera_target_spec(t, pose),
    ensures
        ({
            let dx = t.position.x - pose.position.x - FOLLOW_HEIGHT * pose.orientation.up.x;
            let dy = t.position.y - pose.position.y - FOLLOW_HEIGHT * pose.orientation.up.y;
            let dz = t.position.z - pose.position.z - FOLLOW_HEIGHT * pose.orientation.up.z;
            &&& dx == -(FOLLOW_DISTANCE * pose.orientation.forward.x)
            &&& dy == -(FOLLOW_DISTANCE * pose.orientation.forward.y)
            &&& dz == -(FOLLOW_DISTANCE * pose.orientation.forward.z)
            &&& dx * dx + dy * dy + dz * dz == FOLLOW_DISTANCE * FOLLOW_DISTANCE * norm_sq(
                pose.orientation.forward,
            )
        }),
{
    let f = pose.orientation.forward;
    let dx = t.position.x - pose.position.x - FOLLOW_HEIGHT * pose.orientation.up.x;
    let dy = t.position.y - pose.position.y - FOLLOW_HEIGHT * pose.orientation.up.y;
    let dz = t.position.z - pose.position.z - FOLLOW_HEIGHT * pose.orientation.up.z;
    assert(dx * dx + dy * dy + dz * dz == FOLLOW_DISTANCE * FOLLOW_DISTANCE * (f.x * f.x + f.y
        * f.y + f.z * f.z)) by (nonlinear_arith)
        requires
            dx == -(FOLLOW_DISTANCE * f.x),
            dy == -(FOLLOW_DISTANCE * f.y),
            dz == -(FOLLOW_DISTANCE * f.z),
    ;
}

/// The unit-length direction of `v`, in subunits, with truncating division.
pub open spec fn unit_vec(v: Vec3Fix) -> Vec3Fix {
    let l = isqrt_spec(norm_sq(v) as nat) as int;
    Vec3Fix {
        x: div_trunc(v.x * SCALE, l) as i64,
        y: div_trunc(v.y * SCALE, l) as i64,
        z: div_trunc(v.z * SCALE, l) as i64,
    }
}

/// The cross product as a vector, at product scale.
pub open spec fn cross_vec_spec(a: Vec3Fix, b: Vec3Fix) -> Vec3Fix {
    Vec3Fix { x: cross_x(a, b) as i64, y: cross_y(a, b) as i64, z: cross_z(a, b) as i64 }
}

/// Componentwise truncating division by `SCALE`.
pub open spec fn descale_vec(v: Vec3Fix) -> Vec3Fix {
    Vec3Fix {
        x: div_trunc(v.x as int, SCALE as int) as i64,
        y: div_trunc(v.y as int, SCALE as int) as i64,
        z: div_trunc(v.z as int, SCALE as int) as i64,
    }
}

/// The aim vector of a target: from the camera's desired position to the
/// look-at point.
pub open spec fn aim_vec(t: CameraTarget) -> Vec3Fix {
    Vec3Fix {
        x: (t.look_at.x - t.position.x) as i64,
        y: (t.look_at.y - t.position.y) as i64,
        z: (t.look_at.z - t.position.z) as i64,
    }
}

/// The standard look-at construction over fixed-point vectors: forward is
/// the unit aim direction, right is the unit cross of forward with the
/// reference up, and up is rebuilt as right cross forward brought back to
/// subunit scale.
pub open spec fn look_basis(aim: Vec3Fix, up_ref: Vec3Fix) -> Basis {
    let f = unit_vec(aim);
    let r = unit_vec(cross_vec_spec(f, up_ref));
    Basis { forward: f, up: descale_vec(cross_vec_spec(r, f)), right: r }
}

/// What committing a target to the camera's pose must hold: the position is
/// always taken over; the orientation becomes the look-at basis, except
/// under degenerate geometry — a zero-length aim vector, or an aim parallel
/// to the reference up — where it is left unchanged rather than made
/// undefined. Scale is untouched.
pub open spec fn camera_applied_spec(new: SpatialPose, prev: SpatialPose, t: CameraTarget) -> bool {
    &&& new.position == t.position
    &&& new.scale == prev.scale
    &&& ({
        let aim = aim_vec(t);
        if aim.is_zero() {
            new.orientation == prev.orientation
        } else if cross_vec_spec(unit_vec(aim), t.up).is_zero() {
            new.orientation == prev.orientation
        } else {
            new.orientation == look_basis(aim, t.up)
        }
    })
}

/// Commits the desired target to the camera's pose: a pure mutation of the
/// pose, with the degenerate-geometry guard of `camera_applied_spec`.
pub fn apply_camera(camera: &mut SpatialPose, target: &CameraTarget)
    requires
        old(camera).wf(),
        target.wf(),
    ensures
        camera_applied_spec(*final(camera), *old(camera), *target),
        final(camera).orientation.wf(),
        final(camera).position == target.position,
{
    let aim = vec_sub(target.look_at, target.position);
    if !(aim.x == 0 && aim.y == 0 && aim.z == 0) {
        let f = normalize_units(aim);
        proof {
            lemma_mul_bound2(f.y as int, target.up.z as int, SCALE as int, BASIS_MAX as int);
            lemma_mul_bound2(f.z as int, target.up.y as int, SCALE as int, BASIS_MAX as int);
            lemma_mul_bound2(f.z as int, target.up.x as int, SCALE as int, BASIS_MAX as int);
            lemma_mul_bound2(f.x as int, target.up.z as int, SCALE as int, BASIS_MAX as int);
            lemma_mul_bound2(f.x as int, target.up.y as int, SCALE as int, BASIS_MAX as int);
            lemma_mul_bound2(f.y as int, target.up.x as int, SCALE as int, BASIS_MAX as int);
        }
        let c = vec_cross(f, target.up);
        if !(c.x == 0 && c.y == 0 && c.z == 0) {
            let r = normalize_units(c);
            proof {
                lemma_mul_bound2(r.y as int, f.z as int, SCALE as int, SCALE as int);
                lemma_mul_bound2(r.z as int, f.y as int, SCALE as int, SCALE as int);
                lemma_mul_bound2(r.z as int, f.x as int, SCALE as int, SCALE as int);
                lemma_mul_bound2(r.x as int, f.z as int, SCALE as int, SCALE as int);
                lemma_mul_bound2(r.x as int, f.y as int, SCALE as int, SCALE as int);
                lemma_mul_bound2(r.y as int, f.x as int, SCALE as int, SCALE as int);
            }
            let u_big = vec_cross(r, f);
            proof {
                lemma_div_trunc_bound(u_big.x as int, SCALE as int, BASIS_MAX as int);
                lemma_div_trunc_bound(u_big.y as int, SCALE as int, BASIS_MAX as int);
                lemma_div_trunc_bound(u_big.z as int, SCALE as int, BASIS_MAX as int);
            }
            let u = vec_descale(u_big);
            camera.orientation = Basis { forward: f, up: u, right: r };
        }
    }
    camera.position = target.position;
}

/// The target the camera boots with: standing at (-3, 3, 10), aimed at the
/// origin, with the world up axis as reference.
pub open spec fn initial_camera_target() -> CameraTarget {
    CameraTarget {
        position: Vec3Fix { x: (-3000) as i64, y: 3000, z: 10000 },
        look_at: Vec3Fix { x: 0, y: 0, z: 0 },
        up: Vec3Fix { x: 0, y: SCALE, z: 0 },
    }
}

/// Builds the camera's boot pose: the initial target committed onto a
/// fresh identity pose, so the camera starts aimed at the origin.
pub fn initial_camera_pose() -> (p: SpatialPose)
    ensures
        p.position == initial_camera_target().position,
        p.orientation == look_basis(aim_vec(initial_camera_target()), initial_camera_target().up),
        p.wf(),
{
    let start = Vec3Fix { x: -3000, y: 3000, z: 10000 };
    let mut pose = pose_at(start);
    let target = CameraTarget {
        position: start,
        look_at: Vec3Fix { x: 0, y: 0, z: 0 },
        up: Vec3Fix { x: 0, y: SCALE, z: 0 },
    };
    apply_camera(&mut pose, &target);
    proof {
        let t = initial_camera_target();
        let aim = aim_vec(t);
        assert(aim.x == 3000 && aim.y == -3000 && aim.z == -10000);
        assert(aim.x * aim.x + aim.y * aim.y + aim.z * aim.z == 118_000_000) by (nonlinear_arith)
            requires
                aim.x == 3000,
                aim.y == -3000,
                aim.z == -10000,
        ;
        assert(norm_sq(aim) == 118_000_000);
        assert(10862 * 10862 <= 118_000_000) by (nonlinear_arith);
        assert(118_000_000 < 10863 * 10863) by (nonlinear_arith);
        lemma_isqrt_unique(118_000_000nat, 10862nat);
        assert(isqrt_spec(norm_sq(aim) as nat) == 10862);
        let f = unit_vec(aim);
        assert(aim.x * (SCALE as int) == 3_000_000 && aim.y * (SCALE as int) == -3_000_000
            && aim.z * (SCALE as int) == -10_000_000) by (nonlinear_arith)
            requires
                aim.x == 3000,
                aim.y == -3000,
                aim.z == -10000,
                SCALE == 1000,
        ;
        assert(f.x == div_trunc(3_000_000, 10862) as i64);
        assert(f.y == div_trunc(-3_000_000, 10862) as i64);
        assert(f.z == div_trunc(-10_000_000, 10862) as i64);
        assert(f.x == 276 && f.y == -276 && f.z == -920);
        let c = cross_vec_spec(f, t.up);
        assert(f.y * t.up.z - f.z * t.up.y == 920_000) by (nonlinear_arith)
            requires
                f.y == -276,
                f.z == -920,
                t.up.z == 0,
                t.up.y == 1000,
        ;
        assert(c.x == 920_000);
        assert(!c.is_zero());
        assert(!aim.is_zero());
    }
    pose
}

/// Under a degenerate target whose look-at point equals its position, the
/// applier leaves the camera's orientation exactly as it was.
pub proof fn lemma_degenerate_look_at_freezes_orientation(
    new: SpatialPose,
    prev: SpatialPose,
    t: CameraTarget,
)
    requires
        camera_applied_spec(new, prev, t),
        t.look_at == t.position,
    ensures
        new.orientation == prev.orientation,
{
    assert(aim_vec(t).is_zero());
}

} // verus!
