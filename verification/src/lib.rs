//! Deterministic fixed-point arithmetic and spatial classification for a
//! real-time simulation.
//!
//! The kernel is built from value types only: a 16.16 fixed-point scalar, a
//! binary angle where the full circle is 2^32 units, a two-dimensional vector
//! of fixed-point scalars, a splitting-line descriptor for space partitioning,
//! and a ray ("trace") with a parametric intersection solver. Every operation
//! is a pure function with exact integer semantics: multiplication truncates,
//! division saturates instead of trapping, and angles wrap modulo 2^32.
//! Simulation outcomes stay bit-reproducible across runs and machines, which
//! deterministic replay and networked consistency depend on.

pub mod angle;
pub mod arith;
pub mod fixed;
pub mod intercept;
pub mod node;
pub mod tables;
pub mod vec_f2;

pub use angle::{Angle, ANG1, ANG45, ANG5, ANG90, ANG180, ANG270, FINEANGLES, FINEMASK};
pub use fixed::{fixed_t, fixedt, FRACBITS, FRACUNIT};
pub use intercept::Trace;
pub use node::Node;
pub use vec_f2::VecF2;
