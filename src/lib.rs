//! One tick of rigid-body integration: accumulated forces become next-frame
//! velocities (semi-implicit Euler), and those velocities advance each body's
//! pose into its next-frame pose.

pub mod config;
pub mod scalar;
pub mod planar;
pub mod spatial;
pub mod components;
pub mod integration;
pub mod system;
pub mod laws;
