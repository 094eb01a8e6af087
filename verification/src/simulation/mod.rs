//! Simulated cameras: a camera model that behaves like a QHYCCD camera
//! without hardware.

pub mod config;
pub mod state;
pub mod camera;
pub mod image;
pub mod laws;
