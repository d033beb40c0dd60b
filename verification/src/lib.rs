//! A turn-based simulation of a powered descent onto a body with constant
//! surface gravity, in exact fixed-point arithmetic.
//!
//! Every physical quantity is an integer count of a small unit (see
//! [`units`]), so each turn is reproducible bit for bit and every contract
//! is a statement about integers.

pub mod units;
pub mod state;
pub mod estimate;
pub mod integrator;
pub mod verdict;
pub mod status;
pub mod session;
