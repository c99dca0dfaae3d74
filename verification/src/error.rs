//! Error kinds reported by the core.
//!
//! Shape mismatches and broken construction invariants are programmer errors
//! in the numerical layer; the core reports them as values instead of
//! aborting, and states in each contract exactly when they arise.

use vstd::prelude::*;

verus! {

/// The ways a core operation can be rejected.
#[derive(Clone, Copy, Debug, PartialEq, Eq, Structural)]
pub enum CoreError {
    /// An operator's sample does not match the axis length or tensor shape
    /// it is applied to.
    ShapeMismatch,
    /// A construction invariant is broken, e.g. a per-state operator whose
    /// conditioning axis does not lie outside its target axis.
    InvariantViolation,
    /// Mean energy in imaginary time was requested from an operation stack
    /// that does not start with a leak control carrying a loss checker.
    MissingLossChecker,
}

} // verus!
