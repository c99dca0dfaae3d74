//! Structural core of a split-operator wave-function propagation engine.
//!
//! The engine evolves a complex-valued field on a tensor-product grid by
//! alternating diagonal multiplicative operators with basis transformations.
//! This crate verifies the bookkeeping that keeps such a propagation sound:
//! grid descriptors and their exchange under basis transformations, the
//! norm-cache invalidation protocol, shape compatibility of operators with
//! the wave function, and the symmetric split-step order in which a stack of
//! operations is executed.  The numerical payload (node positions, quadrature
//! weights, complex amplitudes, FFT plans) lives in an unverified layer that
//! drives this core and obeys its decisions.

use vstd::prelude::*;

pub mod change_observer;
pub mod control;
pub mod error;
pub mod grid;
pub mod laws;
pub mod propagation;
pub mod propagator;
pub mod time_grid;
pub mod transformation;
pub mod wave_function;

verus! {

/// Adds two numbers.
pub fn add(left: usize, right: usize) -> (sum: usize)
    requires
        left + right <= usize::MAX,
    ensures
        sum == left + right,
{
    left + right
}

} // verus!
