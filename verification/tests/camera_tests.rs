use vehicle_core::camera::{apply_camera, compute_target, initial_camera_pose, CameraTarget};
use vehicle_core::math::Vec3Fix;
use vehicle_core::pose::{pose_at, Basis, SpatialPose};
use vehicle_core::session::Session;

fn world_up() -> Vec3Fix {
    Vec3Fix { x: 0, y: 1000, z: 0 }
}

#[test]
fn target_look_at_equals_vehicle_position() {
    let positions = [
        Vec3Fix { x: 0, y: 0, z: 0 },
        Vec3Fix { x: 2000, y: 0, z: -5000 },
        Vec3Fix { x: -77_000, y: 4000, z: 123_000 },
    ];
    for p in positions {
        let pose = pose_at(p);
        let t = compute_target(&pose);
        assert_eq!(t.look_at, p);
    }
}

#[test]
fn target_stands_behind_and_above_the_vehicle() {
    // Identity orientation: 20 units back along forward (world x), 5 up.
    let pose = pose_at(Vec3Fix { x: 2000, y: 0, z: -5000 });
    let t = compute_target(&pose);
    assert_eq!(t.position, Vec3Fix { x: 2000 - 20_000, y: 5000, z: -5000 });
    assert_eq!(t.up, world_up());

    // Yawed orientation: forward along -z, so the offset turns with it.
    let pose = SpatialPose {
        position: Vec3Fix { x: 0, y: 0, z: 0 },
        orientation: Basis {
            forward: Vec3Fix { x: 0, y: 0, z: -1000 },
            up: world_up(),
            right: Vec3Fix { x: 1000, y: 0, z: 0 },
        },
        scale: Vec3Fix { x: 1000, y: 1000, z: 1000 },
    };
    let t = compute_target(&pose);
    assert_eq!(t.position, Vec3Fix { x: 0, y: 5000, z: 20_000 });

    // Via the vector norm: after removing the height offset, what is left
    // is follow_distance (20 units) straight back along the forward axis.
    let d = Vec3Fix {
        x: t.position.x - pose.position.x - 5 * pose.orientation.up.x,
        y: t.position.y - pose.position.y - 5 * pose.orientation.up.y,
        z: t.position.z - pose.position.z - 5 * pose.orientation.up.z,
    };
    let f = pose.orientation.forward;
    assert_eq!(d.x * d.x + d.y * d.y + d.z * d.z, 400 * (f.x * f.x + f.y * f.y + f.z * f.z));
    assert_eq!(d.x * d.x + d.y * d.y + d.z * d.z, 20_000 * 20_000);
}

#[test]
fn apply_builds_the_look_at_basis() {
    let mut camera = pose_at(Vec3Fix { x: 0, y: 0, z: 0 });
    let target = CameraTarget {
        position: Vec3Fix { x: 0, y: 0, z: 0 },
        look_at: Vec3Fix { x: 10_000, y: 0, z: 0 },
        up: world_up(),
    };
    apply_camera(&mut camera, &target);
    assert_eq!(camera.position, target.position);
    assert_eq!(camera.orientation.forward, Vec3Fix { x: 1000, y: 0, z: 0 });
    assert_eq!(camera.orientation.right, Vec3Fix { x: 0, y: 0, z: 1000 });
    assert_eq!(camera.orientation.up, Vec3Fix { x: 0, y: 1000, z: 0 });
}

#[test]
fn apply_aims_the_camera_down_a_diagonal() {
    let mut camera = pose_at(Vec3Fix { x: 0, y: 0, z: 0 });
    let target = CameraTarget {
        position: Vec3Fix { x: 3000, y: 4000, z: 0 },
        look_at: Vec3Fix { x: 6000, y: 8000, z: 0 },
        up: world_up(),
    };
    apply_camera(&mut camera, &target);
    // Aim (3000, 4000, 0) has length 5000: the unit forward is exact.
    assert_eq!(camera.orientation.forward, Vec3Fix { x: 600, y: 800, z: 0 });
    assert_eq!(camera.position, Vec3Fix { x: 3000, y: 4000, z: 0 });
}

#[test]
fn degenerate_look_at_keeps_orientation() {
    let mut camera = pose_at(Vec3Fix { x: 1000, y: 2000, z: 3000 });
    let before = camera.orientation;
    let spot = Vec3Fix { x: -4000, y: 500, z: 0 };
    let target = CameraTarget { position: spot, look_at: spot, up: world_up() };
    apply_camera(&mut camera, &target);
    assert_eq!(camera.orientation, before);
    assert_eq!(camera.position, spot);
}

#[test]
fn aim_parallel_to_up_keeps_orientation() {
    let mut camera = pose_at(Vec3Fix { x: 0, y: 0, z: 0 });
    let before = camera.orientation;
    let target = CameraTarget {
        position: Vec3Fix { x: 0, y: 0, z: 0 },
        look_at: Vec3Fix { x: 0, y: 9000, z: 0 },
        up: world_up(),
    };
    apply_camera(&mut camera, &target);
    assert_eq!(camera.orientation, before);
}

#[test]
fn boot_pose_stands_at_the_start_and_aims_at_the_origin() {
    let p = initial_camera_pose();
    assert_eq!(p.position, Vec3Fix { x: -3000, y: 3000, z: 10_000 });
    // Aim (3, -3, -10) has norm sqrt(118) ~ 10.8628: the truncated unit
    // direction is exactly this.
    assert_eq!(p.orientation.forward, Vec3Fix { x: 276, y: -276, z: -920 });
    assert_eq!(p.orientation.right, Vec3Fix { x: 957, y: 0, z: 287 });
    assert_eq!(p.orientation.up, Vec3Fix { x: 79, y: 959, z: -264 });
}

#[test]
fn session_freezes_target_while_vehicle_is_missing() {
    let mut session = Session::new();
    assert!(session.camera_target.is_none());

    // No vehicle yet: still no target.
    session.observe_vehicle_pose(&None);
    assert!(session.camera_target.is_none());

    // Vehicle appears: target resolved from its pose.
    let pose = pose_at(Vec3Fix { x: 2000, y: 0, z: -5000 });
    session.observe_vehicle_pose(&Some(pose));
    let held = session.camera_target.unwrap();
    assert_eq!(held.look_at, pose.position);
    assert_eq!(held.position, Vec3Fix { x: -18_000, y: 5000, z: -5000 });

    // Vehicle gone again: the last target is retained unchanged.
    session.observe_vehicle_pose(&None);
    assert_eq!(session.camera_target.unwrap(), held);
}

#[test]
fn session_handles_are_set_once() {
    let mut session = Session::new();
    session.set_player_vehicle(1);
    session.set_camera(7);
    assert_eq!(session.player_vehicle, Some(1));
    assert_eq!(session.camera, Some(7));
}
