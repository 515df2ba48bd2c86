//! Fixed-point core of a small rocket-and-planets arcade game.
//!
//! The game world is modelled in integer units so that every rule can be
//! stated and proved exactly: lengths in thousandths of a world unit,
//! angles in milliradians or millidegrees, time in milliseconds and camera
//! zoom in millionths. The rendering shell converts these values to the
//! floating-point coordinates its drawing calls expect.

pub mod camera;
pub mod geom;
pub mod particle;
mod rng;
pub mod rocket;
pub mod scatter;
