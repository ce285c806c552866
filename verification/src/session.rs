//! Process-wide session state: the controlled-vehicle and camera handles,
//! written once at setup and read every frame, plus the most recently
//! resolved camera target.
//!
//! Every per-frame read of a missing reference is a no-op for that frame,
//! never an error: the first frames may legitimately run before setup has
//! completed.

use vstd::prelude::*;

verus! {

use crate::camera::CameraTarget;
use crate::camera::camera_target_spec;
use crate::camera::compute_target;
use crate::pose::SpatialPose;

/// The session: at most one controlled vehicle, at most one camera, and the
/// last camera target resolved for it.
pub struct Session {
    pub player_vehicle: Option<usize>,
    pub camera: Option<usize>,
    pub camera_target: Option<CameraTarget>,
}

impl Session {
    /// Any held camera target keeps the bounds the applier needs.
    pub open spec fn wf(self) -> bool {
        self.camera_target.is_some() ==> self.camera_target.unwrap().wf()
    }

    /// A fresh session: nothing set yet.
    pub fn new() -> (s: Session)
        ensures
            s.player_vehicle.is_none(),
            s.camera.is_none(),
            s.camera_target.is_none(),
            s.wf(),
    {
        Session { player_vehicle: None, camera: None, camera_target: None }
    }

    /// Designates the controlled vehicle, once, during scene population.
    pub fn set_player_vehicle(&mut self, handle: usize)
        requires
            old(self).player_vehicle.is_none(),
        ensures
            final(self).player_vehicle == Some(handle),
            final(self).camera == old(self).camera,
            final(self).camera_target == old(self).camera_target,
    {
        self.player_vehicle = Some(handle);
    }

    /// Records the camera entity's handle, once, during setup.
    pub fn set_camera(&mut self, handle: usize)
        requires
            old(self).camera.is_none(),
        ensures
            final(self).camera == Some(handle),
            final(self).player_vehicle == old(self).player_vehicle,
            final(self).camera_target == old(self).camera_target,
    {
        self.camera = Some(handle);
    }

    /// Per-frame camera-target resolution with the missing-reference
    /// policy: with the vehicle's pose at hand the target is re-derived
    /// fresh; with the vehicle absent this frame the previous target is
    /// retained unchanged, freezing the camera rather than snapping to a
    /// default.
    pub fn observe_vehicle_pose(&mut self, vehicle_pose: &Option<SpatialPose>)
        requires
            old(self).wf(),
            vehicle_pose.is_some() ==> vehicle_pose.unwrap().wf(),
        ensures
            vehicle_pose.is_some() ==> final(self).camera_target.is_some()
                && camera_target_spec(final(self).camera_target.unwrap(), vehicle_pose.unwrap()),
            vehicle_pose.is_none() ==> final(self).camera_target == old(self).camera_target,
            final(self).player_vehicle == old(self).player_vehicle,
            final(self).camera == old(self).camera,
            final(self).wf(),
    {
        match vehicle_pose {
            Some(pose) => {
                let target = compute_target(pose);
                self.camera_target = Some(target);
            },
            None => {},
        }
    }
}

} // verus!
