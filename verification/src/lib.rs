//! Orbital mechanics for a point-mass satellite around Earth.
//!
//! Every physical quantity in this crate is a real number modelled in
//! fixed-point: an `i64` holding the value scaled by [`fixed::SCALE`]
//! (nano-units).  All arithmetic is total — it saturates at the `i64`
//! range instead of overflowing, and division by zero yields zero — so
//! degenerate inputs produce degenerate, non-crashing outputs.
//!
//! The crate provides vector algebra, the equations of motion of a
//! satellite under two-body gravity, J2 oblateness and thrust, a
//! fixed-step fourth-order Runge-Kutta integrator, and the transforms
//! between Keplerian orbital elements and Cartesian state vectors.

pub mod fixed;
pub mod gnc;
pub mod laws;
pub mod orbital;
pub mod trig;
pub mod utils;
