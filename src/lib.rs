//! Orbit-pan-zoom camera control for a 3D viewport, with per-frame
//! arbitration of pointer input between an overlaid UI and the scene.
//!
//! All state is kept in fixed-point integers: angles in microradians, the
//! camera's distance in millimetres, its focus in picometres, and pointer
//! motion in whole screen units.

pub mod camera;
pub mod guarantees;
pub mod input;
pub mod pipeline;
pub mod routing;
