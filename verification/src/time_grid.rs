//! Discrete time axis of a propagation.
//!
//! The size of one time step is a real number owned by the numerical layer;
//! the core records how many steps are taken and whether the propagation
//! runs in imaginary time (exponential decay onto the ground state) or in
//! real time.

use vstd::prelude::*;

verus! {

/// Time grid for the propagation of the wave function.
///
/// - `step_no` is the number of split-operator steps to perform.
/// - `im_time` selects imaginary-time evolution.
#[derive(Clone, Copy, Debug, PartialEq, Eq, Structural)]
pub struct TimeGrid {
    pub step_no: usize,
    pub im_time: bool,
}

impl TimeGrid {
    /// Creates a time grid with `step_no` steps, in real or imaginary time.
    pub fn new(step_no: usize, im_time: bool) -> (time_grid: TimeGrid)
        ensures
            time_grid.step_no == step_no,
            time_grid.im_time == im_time,
    {
        TimeGrid { step_no, im_time }
    }
}

/// The portion of the time step an exponentiated operator receives: the
/// middle element of a symmetric split-operator stack acts for a full step,
/// every bracketing element for half a step on each side.
#[derive(Clone, Copy, Debug, PartialEq, Eq, Structural)]
pub enum TimeStep {
    Full,
    Half,
}

} // verus!
