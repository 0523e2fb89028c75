//! Fixed-step explicit integration of scalar first-order ordinary
//! differential equations `y' = f(x, y)` in 128-bit decimal arithmetic.
//!
//! The Runge-Kutta and Adams-Bashforth integrators and the sampler of a
//! closed-form solution produce trajectories on one grid; `deviation`
//! compares two of them point by point.

pub mod adams;
pub mod arith;
pub mod deviation;
pub mod error;
pub mod exact;
pub mod laws;
pub mod problem;
pub mod rk4;
pub mod trajectory;

pub use adams::{ab4_step, integrate_adams4};
pub use deviation::{deviation, Deviation};
pub use error::OdeError;
pub use exact::sample_exact;
pub use problem::{exp, yexact, yprime};
pub use rk4::{integrate_rk4, rk4_step};
pub use trajectory::{Point, Trajectory};
