use vehicle_core::math::Vec3Fix;
use vehicle_core::scene::{populate, BodyMotion, BodyShape, SceneBuilder, DEFAULT_GRID_SIZE};

#[test]
fn populate_counts_ground_vehicle_and_grid() {
    let mut builder = SceneBuilder::new();
    let vehicle = populate(&mut builder, 4);
    // One ground, one vehicle, (4 - 1) x (4 - 1) spheres.
    assert_eq!(builder.bodies.len(), 2 + 9);
    assert_eq!(vehicle, 1);
}

#[test]
fn populate_default_grid_size_matches_the_demo() {
    let mut builder = SceneBuilder::new();
    let _ = populate(&mut builder, DEFAULT_GRID_SIZE);
    assert_eq!(builder.bodies.len(), 2 + 29 * 29);
}

#[test]
fn ground_is_a_fixed_flat_box_below_the_origin() {
    let mut builder = SceneBuilder::new();
    let _ = populate(&mut builder, 2);
    let ground = &builder.bodies[0];
    assert_eq!(ground.motion, BodyMotion::Fixed);
    assert_eq!(
        ground.shape,
        BodyShape::Cuboid { half_x: 100_000, half_y: 100, half_z: 100_000 }
    );
    assert_eq!(ground.position, Vec3Fix { x: 0, y: -2000, z: 0 });
}

#[test]
fn vehicle_body_has_the_control_material() {
    let mut builder = SceneBuilder::new();
    let vehicle = populate(&mut builder, 2);
    let v = &builder.bodies[vehicle];
    assert_eq!(v.motion, BodyMotion::Dynamic);
    assert_eq!(v.shape, BodyShape::Cuboid { half_x: 1000, half_y: 1000, half_z: 4000 });
    assert_eq!(v.density, 40);
    // Zero friction: turning is governed by torque and damping.
    assert_eq!(v.friction, 0);
    // Damping strictly between 0 and 1 in subunits: the vehicle coasts to
    // rest without input.
    assert!(0 < v.linear_damping && v.linear_damping < 1000);
    assert!(0 < v.angular_damping && v.angular_damping < 1000);
    assert_eq!(v.linear_damping, 800);
    assert_eq!(v.angular_damping, 400);
    assert_eq!(v.position, Vec3Fix { x: 2000, y: 0, z: -5000 });
    // Zero initial force command.
    assert_eq!(v.initial_command.force, Vec3Fix { x: 0, y: 0, z: 0 });
    assert_eq!(v.initial_command.torque, Vec3Fix { x: 0, y: 0, z: 0 });
}

#[test]
fn spheres_differ_from_the_vehicle_and_bounce() {
    let mut builder = SceneBuilder::new();
    let vehicle = populate(&mut builder, 3);
    for sphere in &builder.bodies[2..] {
        assert_eq!(sphere.motion, BodyMotion::Dynamic);
        assert_eq!(sphere.shape, BodyShape::Ball { radius: 500 });
        assert_eq!(sphere.restitution, 700);
        assert_eq!(sphere.density, 20);
        assert_ne!(sphere.density, builder.bodies[vehicle].density);
        assert_eq!(sphere.position.y, 4000);
    }
}

#[test]
fn sphere_grid_positions_and_order() {
    let mut builder = SceneBuilder::new();
    let _ = populate(&mut builder, 4);
    // Spacing 2.0, offset = 2.0 * 4 / 2 = 4.0: lines at -2.0, 0.0, 2.0.
    assert_eq!(builder.bodies[2].position, Vec3Fix { x: -2000, y: 4000, z: -2000 });
    assert_eq!(builder.bodies[3].position, Vec3Fix { x: -2000, y: 4000, z: 0 });
    assert_eq!(builder.bodies[4].position, Vec3Fix { x: -2000, y: 4000, z: 2000 });
    assert_eq!(builder.bodies[5].position, Vec3Fix { x: 0, y: 4000, z: -2000 });
    assert_eq!(builder.bodies[10].position, Vec3Fix { x: 2000, y: 4000, z: 2000 });
}

#[test]
fn sphere_grid_is_centered_on_the_origin() {
    for n in [1u32, 2, 3, 4, 14, 29, 30] {
        let mut builder = SceneBuilder::new();
        let _ = populate(&mut builder, n);
        let mut sum_x: i64 = 0;
        let mut sum_z: i64 = 0;
        for sphere in &builder.bodies[2..] {
            sum_x += sphere.position.x;
            sum_z += sphere.position.z;
        }
        assert_eq!(sum_x, 0);
        assert_eq!(sum_z, 0);
    }
}

#[test]
fn smallest_grid_has_no_spheres() {
    let mut builder = SceneBuilder::new();
    let vehicle = populate(&mut builder, 1);
    assert_eq!(builder.bodies.len(), 2);
    assert_eq!(vehicle, 1);
}
