//! One-time scene population: the static ground, the controlled vehicle
//! body, and a procedural grid of passive dynamic spheres.
//!
//! The populator only decides what bodies exist and with which properties;
//! creating them in the physics collaborator is the host's task, so the
//! result is a plain sequence of body descriptors.

use vstd::prelude::*;

verus! {

use crate::math::Vec3Fix;
use crate::math::SCALE;
use crate::control::ForceCommand;

/// Ground half-extents (subunits): a large flat box.
pub const GROUND_HALF_X: i64 = 100_000;

/// See `GROUND_HALF_X`.
pub const GROUND_HALF_Y: i64 = 100;

/// See `GROUND_HALF_X`.
pub const GROUND_HALF_Z: i64 = 100_000;

/// Height of the ground box below the origin (subunits).
pub const GROUND_HEIGHT: i64 = -2000;

/// Vehicle collider half-extents (subunits).
pub const VEHICLE_HALF_X: i64 = 1000;

/// See `VEHICLE_HALF_X`.
pub const VEHICLE_HALF_Y: i64 = 1000;

/// See `VEHICLE_HALF_X`.
pub const VEHICLE_HALF_Z: i64 = 4000;

/// Vehicle mass density (subunits): deliberately distinct from the spheres'.
pub const VEHICLE_DENSITY: i64 = 40;

/// Vehicle linear damping (subunits, strictly between 0 and `SCALE`): the
/// sole source of deceleration when no key is held.
pub const VEHICLE_LINEAR_DAMPING: i64 = 800;

/// Vehicle angular damping (subunits, strictly between 0 and `SCALE`).
pub const VEHICLE_ANGULAR_DAMPING: i64 = 400;

/// The vehicle's starting position (subunits).
pub const VEHICLE_START_X: i64 = 2000;

/// See `VEHICLE_START_X`.
pub const VEHICLE_START_Y: i64 = 0;

/// See `VEHICLE_START_X`.
pub const VEHICLE_START_Z: i64 = -5000;

/// Passive sphere radius (subunits).
pub const SPHERE_RADIUS: i64 = 500;

/// Passive sphere restitution (subunits).
pub const SPHERE_RESTITUTION: i64 = 700;

/// Passive sphere mass density (subunits).
pub const SPHERE_DENSITY: i64 = 20;

/// Height at which the sphere grid is dropped (subunits).
pub const SPHERE_HEIGHT: i64 = 4000;

/// Distance between neighbouring grid spheres (subunits).
pub const GRID_SPACING: i64 = 2000;

/// The grid size the demo ships with.
pub const DEFAULT_GRID_SIZE: u32 = 30;

/// Largest accepted grid size.
pub const GRID_SIZE_MAX: u32 = 1000;

/// A collider shape.
#[derive(Clone, Copy, PartialEq, Eq, Structural, Debug)]
pub enum BodyShape {
    Cuboid { half_x: i64, half_y: i64, half_z: i64 },
    Ball { radius: i64 },
}

/// Whether the physics collaborator integrates the body or holds it fixed.
#[derive(Clone, Copy, PartialEq, Eq, Structural, Debug)]
pub enum BodyMotion {
    Fixed,
    Dynamic,
}

/// Everything the physics collaborator needs to create one body. Created
/// once at startup; this core never mutates shape or mass afterwards, only
/// force commands.
#[derive(Clone, Copy, PartialEq, Eq, Structural, Debug)]
pub struct BodyDescriptor {
    pub shape: BodyShape,
    pub motion: BodyMotion,
    pub density: i64,
    pub friction: i64,
    pub restitution: i64,
    pub linear_damping: i64,
    pub angular_damping: i64,
    pub position: Vec3Fix,
    pub initial_command: ForceCommand,
}

/// The zero force command a body starts with.
pub open spec fn zero_command() -> ForceCommand {
    ForceCommand {
        force: Vec3Fix { x: 0, y: 0, z: 0 },
        torque: Vec3Fix { x: 0, y: 0, z: 0 },
    }
}

/// The static ground: a large flat box below the origin, with the
/// collaborator's stock surface properties.
pub open spec fn ground_descriptor() -> BodyDescriptor {
    BodyDescriptor {
        shape: BodyShape::Cuboid {
            half_x: GROUND_HALF_X,
            half_y: GROUND_HALF_Y,
            half_z: GROUND_HALF_Z,
        },
        motion: BodyMotion::Fixed,
        density: SCALE,
        friction: 500,
        restitution: 0,
        linear_damping: 0,
        angular_damping: 0,
        position: Vec3Fix { x: 0, y: GROUND_HEIGHT, z: 0 },
        initial_command: zero_command(),
    }
}

/// The controlled vehicle: box collider, non-default density, zero friction
/// (turning is governed by torque and damping, not ground grip), damping
/// strictly between 0 and 1, zero initial force.
pub open spec fn vehicle_descriptor() -> BodyDescriptor {
    BodyDescriptor {
        shape: BodyShape::Cuboid {
            half_x: VEHICLE_HALF_X,
            half_y: VEHICLE_HALF_Y,
            half_z: VEHICLE_HALF_Z,
        },
        motion: BodyMotion::Dynamic,
        density: VEHICLE_DENSITY,
        friction: 0,
        restitution: 0,
        linear_damping: VEHICLE_LINEAR_DAMPING,
        angular_damping: VEHICLE_ANGULAR_DAMPING,
        position: Vec3Fix { x: VEHICLE_START_X, y: VEHICLE_START_Y, z: VEHICLE_START_Z },
        initial_command: zero_command(),
    }
}

/// A grid coordinate: the `k`-th line of an `n`-grid, centered on the
/// origin by the computed offset `spacing * n / 2`.
pub open spec fn grid_coord(k: int, n: int) -> int {
    GRID_SPACING * k - SCALE * n
}

/// The passive sphere standing at grid cell `(i, j)` of an `n`-grid.
pub open spec fn sphere_descriptor(i: int, j: int, n: int) -> BodyDescriptor {
    BodyDescriptor {
        shape: BodyShape::Ball { radius: SPHERE_RADIUS },
        motion: BodyMotion::Dynamic,
        density: SPHERE_DENSITY,
        friction: 500,
        restitution: SPHERE_RESTITUTION,
        linear_damping: 0,
        angular_damping: 0,
        position: Vec3Fix {
            x: grid_coord(i, n) as i64,
            y: SPHERE_HEIGHT,
            z: grid_coord(j, n) as i64,
        },
        initial_command: zero_command(),
    }
}

/// Row `i` of the sphere grid: cells `(i, 1) .. (i, n - 1)`.
pub open spec fn sphere_row(i: int, n: int) -> Seq<BodyDescriptor> {
    Seq::new((n - 1) as nat, |j: int| sphere_descriptor(i, j + 1, n))
}

/// The first `m` rows of the sphere grid of an `n`-grid.
pub open spec fn sphere_rows(m: int, n: int) -> Seq<BodyDescriptor>
    decreases m,
{
    if m <= 0 {
        Seq::empty()
    } else {
        sphere_rows(m - 1, n) + sphere_row(m, n)
    }
}

/// The whole populated scene, in creation order: ground, vehicle, then the
/// `(n - 1) x (n - 1)` sphere grid (loop bounds exclusive of 0 and n).
pub open spec fn scene_bodies(n: int) -> Seq<BodyDescriptor> {
    seq![ground_descriptor(), vehicle_descriptor()] + sphere_rows(n - 1, n)
}

/// Rows are `n - 1` spheres each.
pub proof fn lemma_sphere_rows_len(m: int, n: int)
    requires
        0 <= m,
        1 <= n,
    ensures
        sphere_rows(m, n).len() == m * (n - 1),
    decreases m,
{
    if m == 0 {
        assert(m * (n - 1) == 0) by (nonlinear_arith)
            requires
                m == 0,
        ;
    } else {
        lemma_sphere_rows_len(m - 1, n);
        assert((m - 1) * (n - 1) + (n - 1) == m * (n - 1)) by (nonlinear_arith);
    }
}

/// The scene collaborator seam: bodies are created one at a time and
/// identified afterwards by their creation index.
pub struct SceneBuilder {
    pub bodies: Vec<BodyDescriptor>,
}

impl SceneBuilder {
    /// An empty scene.
    pub fn new() -> (s: SceneBuilder)
        ensures
            s.bodies@ == Seq::<BodyDescriptor>::empty(),
    {
        SceneBuilder { bodies: Vec::new() }
    }

    /// Records one body; the returned handle is its creation index.
    pub fn create_body(&mut self, descriptor: BodyDescriptor) -> (handle: usize)
        requires
            old(self).bodies@.len() < usize::MAX,
        ensures
            final(self).bodies@ == old(self).bodies@.push(descriptor),
            handle == old(self).bodies@.len(),
    {
        let handle = self.bodies.len();
        self.bodies.push(descriptor);
        handle
    }
}

/// Populates a fresh scene: one ground, one vehicle, and the sphere grid,
/// exactly as `scene_bodies` lays them out. Returns the vehicle's handle,
/// the designated controlled-vehicle reference. Intended to run exactly
/// once per session; a fresh builder is required, so re-invocation cannot
/// silently duplicate the scene.
pub fn populate(builder: &mut SceneBuilder, n: u32) -> (vehicle: usize)
    requires
        old(builder).bodies@.len() == 0,
        1 <= n <= GRID_SIZE_MAX,
    ensures
        final(builder).bodies@ == scene_bodies(n as int),
        final(builder).bodies@.len() == 2 + (n as int - 1) * (n as int - 1),
        vehicle == 1,
        final(builder).bodies@[0] == ground_descriptor(),
        final(builder).bodies@[vehicle as int] == vehicle_descriptor(),
{
    let _ground = builder.create_body(ground_body());
    let vehicle = builder.create_body(vehicle_body());
    proof {
        assert(builder.bodies@ =~= seq![ground_descriptor(), vehicle_descriptor()] + sphere_rows(
            0,
            n as int,
        ));
    }
    let mut i: u32 = 1;
    while i < n
        invariant
            1 <= i <= n,
            n <= GRID_SIZE_MAX,
            builder.bodies@ == seq![ground_descriptor(), vehicle_descriptor()] + sphere_rows(
                i as int - 1,
                n as int,
            ),
        decreases n - i,
    {
        let mut j: u32 = 1;
        while j < n
            invariant
                1 <= i < n,
                1 <= j <= n,
                n <= GRID_SIZE_MAX,
                builder.bodies@ == seq![ground_descriptor(), vehicle_descriptor()] + sphere_rows(
                    i as int - 1,
                    n as int,
                ) + Seq::new(
                    (j - 1) as nat,
                    |jj: int| sphere_descriptor(i as int, jj + 1, n as int),
                ),
            decreases n - j,
        {
            proof {
                lemma_sphere_rows_len(i as int - 1, n as int);
                assert((i as int - 1) * (n as int - 1) <= 999 * 999) by (nonlinear_arith)
                    requires
                        0 <= i as int - 1 <= 999,
                        0 <= n as int - 1 <= 999,
                ;
            }
            let _sphere = builder.create_body(sphere_body(i, j, n));
            proof {
                assert(builder.bodies@ =~= seq![ground_descriptor(), vehicle_descriptor()]
                    + sphere_rows(i as int - 1, n as int) + Seq::new(
                    j as nat,
                    |jj: int| sphere_descriptor(i as int, jj + 1, n as int),
                ));
            }
            j = j + 1;
        }
        proof {
            assert(Seq::new(
                (n - 1) as nat,
                |jj: int| sphere_descriptor(i as int, jj + 1, n as int),
            ) =~= sphere_row(i as int, n as int));
            assert(sphere_rows(i as int, n as int) == sphere_rows(i as int - 1, n as int)
                + sphere_row(i as int, n as int));
            assert(builder.bodies@ =~= seq![ground_descriptor(), vehicle_descriptor()]
                + sphere_rows(i as int, n as int));
        }
        i = i + 1;
    }
    proof {
        lemma_sphere_rows_len(n as int - 1, n as int);
    }
    vehicle
}

/// Builds the ground descriptor.
fn ground_body() -> (d: BodyDescriptor)
    ensures
        d == ground_descriptor(),
{
    BodyDescriptor {
        shape: BodyShape::Cuboid {
            half_x: GROUND_HALF_X,
            half_y: GROUND_HALF_Y,
            half_z: GROUND_HALF_Z,
        },
        motion: BodyMotion::Fixed,
        density: SCALE,
        friction: 500,
        restitution: 0,
        linear_damping: 0,
        angular_damping: 0,
        position: Vec3Fix { x: 0, y: GROUND_HEIGHT, z: 0 },
        initial_command: ForceCommand {
            force: Vec3Fix { x: 0, y: 0, z: 0 },
            torque: Vec3Fix { x: 0, y: 0, z: 0 },
        },
    }
}

/// Builds the vehicle descriptor.
fn vehicle_body() -> (d: BodyDescriptor)
    ensures
        d == vehicle_descriptor(),
{
    BodyDescriptor {
        shape: BodyShape::Cuboid {
            half_x: VEHICLE_HALF_X,
            half_y: VEHICLE_HALF_Y,
            half_z: VEHICLE_HALF_Z,
        },
        motion: BodyMotion::Dynamic,
        density: VEHICLE_DENSITY,
        friction: 0,
        restitution: 0,
        linear_damping: VEHICLE_LINEAR_DAMPING,
        angular_damping: VEHICLE_ANGULAR_DAMPING,
        position: Vec3Fix { x: VEHICLE_START_X, y: VEHICLE_START_Y, z: VEHICLE_START_Z },
        initial_command: ForceCommand {
            force: Vec3Fix { x: 0, y: 0, z: 0 },
            torque: Vec3Fix { x: 0, y: 0, z: 0 },
        },
    }
}

/// Builds the sphere descriptor for grid cell `(i, j)` of an `n`-grid.
fn sphere_body(i: u32, j: u32, n: u32) -> (d: BodyDescriptor)
    requires
        1 <= i < n,
        1 <= j < n,
        n <= GRID_SIZE_MAX,
    ensures
        d == sphere_descriptor(i as int, j as int, n as int),
{
    let x: i64 = (i as i64) * GRID_SPACING - SCALE * (n as i64);
    let z: i64 = (j as i64) * GRID_SPACING - SCALE * (n as i64);
    BodyDescriptor {
        shape: BodyShape::Ball { radius: SPHERE_RADIUS },
        motion: BodyMotion::Dynamic,
        density: SPHERE_DENSITY,
        friction: 500,
        restitution: SPHERE_RESTITUTION,
        linear_damping: 0,
        angular_damping: 0,
        position: Vec3Fix { x, y: SPHERE_HEIGHT, z },
        initial_command: ForceCommand {
            force: Vec3Fix { x: 0, y: 0, z: 0 },
            torque: Vec3Fix { x: 0, y: 0, z: 0 },
        },
    }
}

/// Sum of the sphere x coordinates over a descriptor sequence.
pub open spec fn sum_x(s: Seq<BodyDescriptor>) -> int
    decreases s.len(),
{
    if s.len() == 0 {
        0
    } else {
        sum_x(s.drop_last()) + s.last().position.x
    }
}

/// Sum of the sphere z coordinates over a descriptor sequence.
pub open spec fn sum_z(s: Seq<BodyDescriptor>) -> int
    decreases s.len(),
{
    if s.len() == 0 {
        0
    } else {
        sum_z(s.drop_last()) + s.last().position.z
    }
}

/// Coordinate sums split over concatenation.
proof fn lemma_sums_concat(a: Seq<BodyDescriptor>, b: Seq<BodyDescriptor>)
    ensures
        sum_x(a + b) == sum_x(a) + sum_x(b),
        sum_z(a + b) == sum_z(a) + sum_z(b),
    decreases b.len(),
{
    if b.len() == 0 {
        assert(a + b =~= a);
    } else {
        lemma_sums_concat(a, b.drop_last());
        assert((a + b).drop_last() =~= a + b.drop_last());
        assert((a + b).last() == b.last());
    }
}

/// The series of grid coordinates `1 .. m` of an `n`-grid.
pub open spec fn grid_series(m: int, n: int) -> int
    decreases m,
{
    if m <= 0 {
        0
    } else {
        grid_series(m - 1, n) + grid_coord(m, n)
    }
}

/// Closed form of the grid series.
proof fn lemma_grid_series_closed(m: int, n: int)
    requires
        0 <= m,
    ensures
        grid_series(m, n) == SCALE * m * (m + 1) - SCALE * n * m,
    decreases m,
{
    if m == 0 {
        assert(SCALE * 0 * (0 + 1) - SCALE * n * 0 == 0) by (nonlinear_arith);
    } else {
        lemma_grid_series_closed(m - 1, n);
        assert(SCALE * (m - 1) * m - SCALE * n * (m - 1) + (GRID_SPACING * m - SCALE * n) == SCALE
            * m * (m + 1) - SCALE * n * m) by (nonlinear_arith)
            requires
                GRID_SPACING == 2 * SCALE,
        ;
    }
}

/// Over the full range `1 .. n - 1`, the centered grid coordinates cancel
/// exactly.
proof fn lemma_grid_series_centered(n: int)
    requires
        1 <= n,
    ensures
        grid_series(n - 1, n) == 0,
{
    lemma_grid_series_closed(n - 1, n);
    assert(SCALE * (n - 1) * n - SCALE * n * (n - 1) == 0) by (nonlinear_arith);
}

/// Coordinate sums of one grid row: every x in row `i` is `grid_coord(i)`,
/// and the z values run through the whole series.
proof fn lemma_row_sums(i: int, n: int, m: int)
    requires
        1 <= i < n,
        n <= GRID_SIZE_MAX,
        0 <= m <= n - 1,
    ensures
        sum_x(sphere_row(i, n).take(m)) == m * grid_coord(i, n),
        sum_z(sphere_row(i, n).take(m)) == grid_series(m, n),
    decreases m,
{
    let row = sphere_row(i, n);
    if m == 0 {
        assert(row.take(0).len() == 0);
        assert(0 * grid_coord(i, n) == 0) by (nonlinear_arith);
    } else {
        lemma_row_sums(i, n, m - 1);
        assert(row.take(m).drop_last() =~= row.take(m - 1));
        assert(row.take(m).last() == sphere_descriptor(i, m, n));
        assert(grid_coord(i, n) as i64 == grid_coord(i, n));
        assert(grid_coord(m, n) as i64 == grid_coord(m, n));
        assert((m - 1) * grid_coord(i, n) + grid_coord(i, n) == m * grid_coord(i, n))
            by (nonlinear_arith);
    }
}

/// Coordinate sums of the first `m` rows.
proof fn lemma_rows_sums(m: int, n: int)
    requires
        1 <= n,
        n <= GRID_SIZE_MAX,
        0 <= m <= n - 1,
    ensures
        sum_x(sphere_rows(m, n)) == (n - 1) * grid_series(m, n),
        sum_z(sphere_rows(m, n)) == m * grid_series(n - 1, n),
    decreases m,
{
    if m == 0 {
        assert((n - 1) * grid_series(0, n) == 0) by (nonlinear_arith);
        assert(0 * grid_series(n - 1, n) == 0) by (nonlinear_arith);
    } else {
        lemma_rows_sums(m - 1, n);
        lemma_sums_concat(sphere_rows(m - 1, n), sphere_row(m, n));
        lemma_row_sums(m, n, n - 1);
        assert(sphere_row(m, n).take(n - 1) =~= sphere_row(m, n));
        assert((n - 1) * grid_series(m - 1, n) + (n - 1) * grid_coord(m, n) == (n - 1)
            * grid_series(m, n)) by (nonlinear_arith)
            requires
                grid_series(m, n) == grid_series(m - 1, n) + grid_coord(m, n),
        ;
        assert((m - 1) * grid_series(n - 1, n) + grid_series(n - 1, n) == m * grid_series(n - 1, n))
            by (nonlinear_arith);
    }
}

/// The populated sphere grid is centered on the origin: over the whole
/// scene, the sphere x coordinates and the sphere z coordinates each sum to
/// zero exactly (so their averages are zero).
pub proof fn lemma_scene_grid_centered(n: int)
    requires
        1 <= n <= GRID_SIZE_MAX,
    ensures
        sum_x(scene_bodies(n).skip(2)) == 0,
        sum_z(scene_bodies(n).skip(2)) == 0,
{
    assert(scene_bodies(n).skip(2) =~= sphere_rows(n - 1, n));
    lemma_rows_sums(n - 1, n);
    lemma_grid_series_centered(n);
    assert((n - 1) * 0 == 0) by (nonlinear_arith);
}

} // verus!
