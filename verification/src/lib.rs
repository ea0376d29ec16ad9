//! A 2-dimensional rigid-body dynamics core over fixed-point arithmetic.
//!
//! The crate owns the physical state of simulated bodies (pose, velocities,
//! mass distribution, sleep state) and resolves residual penetration between a
//! dynamic body and a static or kinematic one through position-level
//! Gauss-Seidel corrections.  All quantities are `Fx` fixed-point scalars, so
//! every operation has an exact integer semantics that the contracts state.

pub mod fixed;
pub mod trig;
pub mod iso;
pub mod mass_properties;
pub mod rigid_body;
pub mod solver;
pub mod vec2;
