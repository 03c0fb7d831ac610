//! A particle simulation core: a generational entity store, per-tick
//! kinematics and quadratic Bezier motion, in fixed-point arithmetic.
pub mod components;
pub mod fixed;
pub mod laws;
pub mod particle_system;
pub mod particles;
pub mod spline;
