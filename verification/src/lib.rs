//! Core logic of a vehicle-driving demo: mapping key input to forces and
//! torques on one controlled body, deriving a chase-camera pose from the
//! vehicle's pose each frame, and populating the initial physics scene.
//!
//! All geometry is carried in fixed-point integers (`SCALE` subunits per
//! world unit), so every rule here is exact and machine-checked. Rendering,
//! windowing and the physics solver are outside collaborators: a host binary
//! samples input, looks bodies up, and feeds plain values in and out.
//!
//! Each frame, the host runs the systems in a fixed order: sample input,
//! derive the force command (`control`), hand it to the physics
//! collaborator, read the integrated vehicle pose back, resolve the camera
//! target from it (`session`), and commit the target to the camera's pose
//! (`camera`). The scene itself is laid out once at startup (`scene`).

pub mod camera;
pub mod control;
pub mod input;
pub mod math;
pub mod pose;
pub mod scene;
pub mod session;
