//! Verified core of the QHYCCD camera library: the controls and errors of the
//! SDK, the decoding of what the SDK reports, and a simulated camera.

pub mod control;
pub mod error;
pub mod types;
pub mod status;
pub mod firmware;
pub mod simulation;
pub mod sdk;
pub mod filter_wheel;
