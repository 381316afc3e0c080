//! Lifecycle discipline for a native just-in-time compilation backend.
//!
//! The native backend is reached only by the embedding program; this library
//! holds the decisions around it: the one-time global initializer, the
//! ownership records of engines and compiled units, the fixed entry-point
//! convention, and the typed errors that replace silent native failures.
use vstd::prelude::*;

pub mod engine;
pub mod error;
pub mod gate;
pub mod session;

verus! {

} // verus!
