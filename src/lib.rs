//! Simulation core of a top-down arcade shooter.
//!
//! Every quantity is a fixed-point integer held in thousandths: positions and
//! distances in thousandths of a screen unit, time in milliseconds, life points
//! in thousandths of a hit point, angles in milliradians.

pub mod helpers;
pub mod actors;
pub mod animation;
pub mod assets;
pub mod behaviour;
pub mod state;
