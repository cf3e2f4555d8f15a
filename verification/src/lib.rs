//! Force model of a four-actuator rigid platform.
//!
//! Four thrusters sit on a circle around the body origin, 90 degrees apart.
//! Each one turns a scalar command into a thrust vector: nominally vertical,
//! tilted by a small cant angle about the thruster's own radial position
//! vector, with the tilt direction alternating between neighbours. The four
//! point forces are reduced to a single wrench (net force and net torque
//! about the body origin) for a rigid-body integrator to apply.
//!
//! All scalars are fixed-point integers at a caller-chosen scale; angles
//! enter as their cosine/sine pairs. The driver that talks to a physics
//! engine converts at the edge and keeps the model exact and reproducible.

pub mod laws;
pub mod qstate;
pub mod vecmath;
