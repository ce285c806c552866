use vehicle_core::control::{compute_force, vehicle_command, ForceCommand};
use vehicle_core::control::{FORWARD_SPEED, REVERSE_SPEED, TURN_TORQUE};
use vehicle_core::input::{released_input, InputSnapshot};
use vehicle_core::math::Vec3Fix;
use vehicle_core::pose::{pose_at, Basis, SpatialPose};

fn origin_pose() -> SpatialPose {
    pose_at(Vec3Fix { x: 0, y: 0, z: 0 })
}

/// A pose yawed a quarter turn: forward now points along world -Z.
fn yawed_pose() -> SpatialPose {
    SpatialPose {
        position: Vec3Fix { x: 0, y: 0, z: 0 },
        orientation: Basis {
            forward: Vec3Fix { x: 0, y: 0, z: -1000 },
            up: Vec3Fix { x: 0, y: 1000, z: 0 },
            right: Vec3Fix { x: 1000, y: 0, z: 0 },
        },
        scale: Vec3Fix { x: 1000, y: 1000, z: 1000 },
    }
}

/// A tilted pose: rolled a quarter turn, so up points along world +X.
fn tilted_pose() -> SpatialPose {
    SpatialPose {
        position: Vec3Fix { x: 5000, y: 0, z: 0 },
        orientation: Basis {
            forward: Vec3Fix { x: 0, y: 0, z: 1000 },
            up: Vec3Fix { x: 1000, y: 0, z: 0 },
            right: Vec3Fix { x: 0, y: 1000, z: 0 },
        },
        scale: Vec3Fix { x: 1000, y: 1000, z: 1000 },
    }
}

#[test]
fn no_keys_give_zero_command() {
    let cmd = compute_force(&released_input(), &origin_pose());
    assert_eq!(cmd.force, Vec3Fix { x: 0, y: 0, z: 0 });
    assert_eq!(cmd.torque, Vec3Fix { x: 0, y: 0, z: 0 });
    let cmd = compute_force(&released_input(), &tilted_pose());
    assert_eq!(cmd.force, Vec3Fix { x: 0, y: 0, z: 0 });
    assert_eq!(cmd.torque, Vec3Fix { x: 0, y: 0, z: 0 });
}

#[test]
fn accelerate_at_identity_gives_forward_force() {
    // Vehicle at the origin, identity orientation, accelerate pressed:
    // force is forward_speed (100.0) along the canonical forward axis,
    // torque zero.
    let input = InputSnapshot { accelerate: true, brake: false, turn_left: false, turn_right: false };
    let cmd = compute_force(&input, &origin_pose());
    assert_eq!(cmd.force, Vec3Fix { x: 100 * 1000, y: 0, z: 0 });
    assert_eq!(cmd.force.x, FORWARD_SPEED * 1000);
    assert_eq!(cmd.torque, Vec3Fix { x: 0, y: 0, z: 0 });
}

#[test]
fn turn_left_at_identity_gives_up_torque() {
    // Turn-left at identity orientation: torque is (0, 32.0, 0) exactly.
    let input = InputSnapshot { accelerate: false, brake: false, turn_left: true, turn_right: false };
    let cmd = compute_force(&input, &origin_pose());
    assert_eq!(cmd.torque, Vec3Fix { x: 0, y: 32 * 1000, z: 0 });
    assert_eq!(cmd.torque.y, TURN_TORQUE * 1000);
    assert_eq!(cmd.force, Vec3Fix { x: 0, y: 0, z: 0 });
}

#[test]
fn brake_gives_reverse_force_along_forward() {
    let input = InputSnapshot { accelerate: false, brake: true, turn_left: false, turn_right: false };
    let cmd = compute_force(&input, &origin_pose());
    assert_eq!(cmd.force, Vec3Fix { x: REVERSE_SPEED * 1000, y: 0, z: 0 });
    assert_eq!(cmd.force.x, -40_000);
}

#[test]
fn brake_wins_over_accelerate_within_a_tick() {
    let input = InputSnapshot { accelerate: true, brake: true, turn_left: false, turn_right: false };
    let cmd = compute_force(&input, &origin_pose());
    assert_eq!(cmd.force, Vec3Fix { x: -40_000, y: 0, z: 0 });
}

#[test]
fn turn_right_wins_over_turn_left_within_a_tick() {
    let input = InputSnapshot { accelerate: false, brake: false, turn_left: true, turn_right: true };
    let cmd = compute_force(&input, &origin_pose());
    assert_eq!(cmd.torque, Vec3Fix { x: 0, y: -32_000, z: 0 });
}

#[test]
fn turn_torques_negate_each_other() {
    let left = InputSnapshot { accelerate: false, brake: false, turn_left: true, turn_right: false };
    let right = InputSnapshot { accelerate: false, brake: false, turn_left: false, turn_right: true };
    for pose in [origin_pose(), yawed_pose(), tilted_pose()] {
        let lc = compute_force(&left, &pose);
        let rc = compute_force(&right, &pose);
        assert_eq!(lc.torque.x, -rc.torque.x);
        assert_eq!(lc.torque.y, -rc.torque.y);
        assert_eq!(lc.torque.z, -rc.torque.z);
    }
    // On the tilted pose the torque leaves the world-up axis and follows
    // the vehicle's own up axis.
    let lc = compute_force(&left, &tilted_pose());
    assert_eq!(lc.torque, Vec3Fix { x: 32_000, y: 0, z: 0 });
}

#[test]
fn thrust_forces_are_collinear_with_opposite_sign() {
    let accel = InputSnapshot { accelerate: true, brake: false, turn_left: false, turn_right: false };
    let brake = InputSnapshot { accelerate: false, brake: true, turn_left: false, turn_right: false };
    for pose in [origin_pose(), yawed_pose(), tilted_pose()] {
        let ac = compute_force(&accel, &pose);
        let bc = compute_force(&brake, &pose);
        let f = pose.orientation.forward;
        assert_eq!(ac.force, Vec3Fix { x: 100 * f.x, y: 100 * f.y, z: 100 * f.z });
        assert_eq!(bc.force, Vec3Fix { x: -40 * f.x, y: -40 * f.y, z: -40 * f.z });
        assert_eq!(2 * ac.force.x + 5 * bc.force.x, 0);
        assert_eq!(2 * ac.force.y + 5 * bc.force.y, 0);
        assert_eq!(2 * ac.force.z + 5 * bc.force.z, 0);
    }
}

#[test]
fn channels_are_independent() {
    let input = InputSnapshot { accelerate: true, brake: false, turn_left: true, turn_right: false };
    let cmd = compute_force(&input, &yawed_pose());
    assert_eq!(cmd.force, Vec3Fix { x: 0, y: 0, z: -100_000 });
    assert_eq!(cmd.torque, Vec3Fix { x: 0, y: 32_000, z: 0 });
}

#[test]
fn missing_vehicle_is_a_no_op() {
    let input = InputSnapshot { accelerate: true, brake: false, turn_left: false, turn_right: false };
    assert_eq!(vehicle_command(&input, &None), None::<ForceCommand>);
    let r = vehicle_command(&input, &Some(origin_pose()));
    assert!(r.is_some());
    assert_eq!(r.unwrap().force, Vec3Fix { x: 100_000, y: 0, z: 0 });
}
