//! Scene model of a small 3D prototype: a spinning player cube, a ground
//! plane, a sun and a camera moved with the WASD keys.
//!
//! Time is counted in nanoseconds, lengths in nanometres and angles in
//! nanoradians, so the rates of the prototype (one radian per second for the
//! spin, five units per second for the camera) are exact integers.

pub mod controls;
pub mod scene;
pub mod laws;

pub use controls::{movement_axes, MoveAxes, MoveKeys, CAMERA_SPEED, SPIN_RATE};
pub use scene::{Entity, Point, Scene, Tags, UNIT};
