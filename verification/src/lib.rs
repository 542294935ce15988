//! Verified decision logic of the SUNDIALS ODE/DAE solver bindings.
//!
//! - [`error`]: the error type and the flag rule;
//! - [`calls`]: the SUNDIALS calls, what they are given and how each fails;
//! - [`sequence`]: running a sequence of calls up to its first failure;
//! - [`cvode`], [`cvodes`], [`ida`], [`idas`]: what creating each solver
//!   decides on, and the calls that create it;
//! - [`laws`]: what every plan and failure rule must do, with the codes and
//!   names written out;
//! - [`operations`]: the calls behind stepping, reinitialising, correcting
//!   initial conditions, statistics and sensitivities.

pub mod calls;
pub mod cvode;
pub mod cvodes;
pub mod error;
pub mod ida;
pub mod laws;
pub mod idas;
pub mod operations;
pub mod sequence;

pub use error::SundialsError;
