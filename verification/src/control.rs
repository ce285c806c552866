//! The vehicle controller: one frame's key snapshot and the vehicle's pose
//! become a force command for the physics collaborator.
//!
//! The linear channel is governed only by accelerate and brake, the angular
//! channel only by the two turn keys; an idle channel stays zero, leaving
//! deceleration to the collaborator's damping. Thrust acts along the
//! vehicle's world forward axis; turn torque is the body-local up axis
//! rotated into world space, so turning stays consistent when the vehicle
//! is tilted.

use vstd::prelude::*;

verus! {

use crate::math::Vec3Fix;
use crate::input::InputSnapshot;
use crate::pose::Basis;
use crate::pose::SpatialPose;
use crate::pose::rotate;

/// Thrust magnitude (whole units) while accelerate is held.
pub const FORWARD_SPEED: i64 = 100;

/// Thrust magnitude (whole units, opposite sign) while brake is held.
pub const REVERSE_SPEED: i64 = -40;

/// Turn torque magnitude (whole units) about the vehicle's up axis.
pub const TURN_TORQUE: i64 = 32;

/// One frame's (force, torque) pair for one dynamic body, in subunits.
#[derive(Clone, Copy, PartialEq, Eq, Structural, Debug)]
pub struct ForceCommand {
    pub force: Vec3Fix,
    pub torque: Vec3Fix,
}

impl ForceCommand {
    /// Neither force nor torque.
    pub open spec fn is_zero(self) -> bool {
        self.force.is_zero() && self.torque.is_zero()
    }
}

/// What the linear channel must hold: brake wins over accelerate within a
/// tick (it is applied last), and with neither key the force stays zero.
pub open spec fn linear_channel_spec(cmd: ForceCommand, input: InputSnapshot, b: Basis) -> bool {
    if input.brake {
        &&& cmd.force.x == REVERSE_SPEED * b.forward.x
        &&& cmd.force.y == REVERSE_SPEED * b.forward.y
        &&& cmd.force.z == REVERSE_SPEED * b.forward.z
    } else if input.accelerate {
        &&& cmd.force.x == FORWARD_SPEED * b.forward.x
        &&& cmd.force.y == FORWARD_SPEED * b.forward.y
        &&& cmd.force.z == FORWARD_SPEED * b.forward.z
    } else {
        cmd.force.is_zero()
    }
}

/// What the angular channel must hold: turn-right wins over turn-left
/// within a tick (it is applied last), and with neither key the torque
/// stays zero. The torque is the body-local up axis scaled by the torque
/// constant.
pub open spec fn angular_channel_spec(cmd: ForceCommand, input: InputSnapshot, b: Basis) -> bool {
    if input.turn_right {
        &&& cmd.torque.x == -TURN_TORQUE * b.up.x
        &&& cmd.torque.y == -TURN_TORQUE * b.up.y
        &&& cmd.torque.z == -TURN_TORQUE * b.up.z
    } else if input.turn_left {
        &&& cmd.torque.x == TURN_TORQUE * b.up.x
        &&& cmd.torque.y == TURN_TORQUE * b.up.y
        &&& cmd.torque.z == TURN_TORQUE * b.up.z
    } else {
        cmd.torque.is_zero()
    }
}

/// The whole controller contract: both channels, independently.
pub open spec fn force_command_spec(cmd: ForceCommand, input: InputSnapshot, pose: SpatialPose) -> bool {
    &&& linear_channel_spec(cmd, input, pose.orientation)
    &&& angular_channel_spec(cmd, input, pose.orientation)
}

/// Derives one frame's force command from the key snapshot and the
/// vehicle's pose. Pure: applying the command to the body is the physics
/// collaborator's task.
pub fn compute_force(input: &InputSnapshot, vehicle_pose: &SpatialPose) -> (cmd: ForceCommand)
    requires
        vehicle_pose.wf(),
    ensures
        force_command_spec(cmd, *input, *vehicle_pose),
        !input.any_pressed() ==> cmd.is_zero(),
{
    let b = &vehicle_pose.orientation;
    let mut force = Vec3Fix { x: 0, y: 0, z: 0 };
    let mut torque = Vec3Fix { x: 0, y: 0, z: 0 };

    if input.accelerate {
        force = rotate(b, Vec3Fix { x: FORWARD_SPEED, y: 0, z: 0 });
    }
    if input.brake {
        force = rotate(b, Vec3Fix { x: REVERSE_SPEED, y: 0, z: 0 });
    }
    if input.turn_left {
        torque = rotate(b, Vec3Fix { x: 0, y: TURN_TORQUE, z: 0 });
    }
    if input.turn_right {
        torque = rotate(b, Vec3Fix { x: 0, y: -TURN_TORQUE, z: 0 });
    }

    ForceCommand { force, torque }
}

/// Per-frame entry that carries the missing-reference policy: with no
/// controlled vehicle (or no pose for it this frame) the controller is a
/// no-op, never an error.
pub fn vehicle_command(input: &InputSnapshot, vehicle_pose: &Option<SpatialPose>) -> (r: Option<
    ForceCommand,
>)
    requires
        vehicle_pose.is_some() ==> vehicle_pose.unwrap().wf(),
    ensures
        r.is_some() <==> vehicle_pose.is_some(),
        vehicle_pose.is_some() ==> force_command_spec(r.unwrap(), *input, vehicle_pose.unwrap()),
{
    match vehicle_pose {
        Some(pose) => Some(compute_force(input, pose)),
        None => None,
    }
}

/// With no key pressed, the controller must answer the zero command: net
/// deceleration is left entirely to the collaborator's damping.
pub proof fn lemma_idle_input_zero_command(cmd: ForceCommand, input: InputSnapshot, pose: SpatialPose)
    requires
        force_command_spec(cmd, input, pose),
        !input.any_pressed(),
    ensures
        cmd.is_zero(),
{
}

/// Turn-left and turn-right torques are exact negations of each other for
/// the same vehicle orientation.
pub proof fn lemma_turn_torques_negate(
    left_cmd: ForceCommand,
    right_cmd: ForceCommand,
    left_in: InputSnapshot,
    right_in: InputSnapshot,
    pose: SpatialPose,
)
    requires
        force_command_spec(left_cmd, left_in, pose),
        force_command_spec(right_cmd, right_in, pose),
        left_in.turn_left,
        !left_in.turn_right,
        right_in.turn_right,
    ensures
        left_cmd.torque.x == -right_cmd.torque.x,
        left_cmd.torque.y == -right_cmd.torque.y,
        left_cmd.torque.z == -right_cmd.torque.z,
{
}

/// Accelerate and brake forces act along the same world direction — the
/// vehicle's forward axis — with opposite-sign magnitudes of 100 and 40:
/// scaled by 2 and 5 they cancel exactly, componentwise.
pub proof fn lemma_thrust_forces_collinear(
    accel_cmd: ForceCommand,
    brake_cmd: ForceCommand,
    accel_in: InputSnapshot,
    brake_in: InputSnapshot,
    pose: SpatialPose,
)
    requires
        force_command_spec(accel_cmd, accel_in, pose),
        force_command_spec(brake_cmd, brake_in, pose),
        accel_in.accelerate,
        !accel_in.brake,
        brake_in.brake,
    ensures
        accel_cmd.force.x == FORWARD_SPEED * pose.orientation.forward.x,
        accel_cmd.force.y == FORWARD_SPEED * pose.orientation.forward.y,
        accel_cmd.force.z == FORWARD_SPEED * pose.orientation.forward.z,
        brake_cmd.force.x == REVERSE_SPEED * pose.orientation.forward.x,
        brake_cmd.force.y == REVERSE_SPEED * pose.orientation.forward.y,
        brake_cmd.force.z == REVERSE_SPEED * pose.orientation.forward.z,
        2 * accel_cmd.force.x + 5 * brake_cmd.force.x == 0,
        2 * accel_cmd.force.y + 5 * brake_cmd.force.y == 0,
        2 * accel_cmd.force.z + 5 * brake_cmd.force.z == 0,
{
}

} // verus!
