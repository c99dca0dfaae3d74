//! Controls: norm preservation and absorbing boundaries.
//!
//! A control acts on the wave function on one or both halves of a split
//! step.  [`LeakControl`] records the norm on the first half and restores
//! it on the second, offsetting non-unitary numerical drift.
//! [`BorderDumping`] multiplies by an absorbing mask near the boundary of
//! one axis; the mask samples (one near the interior, a sine-shaped ramp in
//! the transition band, zero at the very edge) are owned by the numerical
//! layer.  Both may carry a loss checker that measures the norm lost.

use vstd::prelude::*;

use crate::error::CoreError;
use crate::grid::Grid;
use crate::propagator::OneDimPropagator;
use crate::wave_function::WaveFunction;
use crate::wave_function::observed;

verus! {

/// On which halves of a symmetric split step a saver or control acts.
#[derive(Clone, Copy, Debug, PartialEq, Eq, Structural)]
pub enum Apply {
    FirstHalf,
    SecondHalf,
    Both,
}

impl Apply {
    /// Whether the first (forward) half is included.
    pub open spec fn spec_includes_first_half(self) -> bool {
        self is FirstHalf || self is Both
    }

    /// Whether the second (reverse) half is included.
    pub open spec fn spec_includes_second_half(self) -> bool {
        self is SecondHalf || self is Both
    }

    /// Whether the first (forward) half is included.
    pub fn includes_first_half(&self) -> (included: bool)
        ensures
            included == self.spec_includes_first_half(),
    {
        matches!(self, Apply::FirstHalf | Apply::Both)
    }

    /// Whether the second (reverse) half is included.
    pub fn includes_second_half(&self) -> (included: bool)
        ensures
            included == self.spec_includes_second_half(),
    {
        matches!(self, Apply::SecondHalf | Apply::Both)
    }
}

/// Mathematical content of a control.
pub enum CtrlView {
    Leak { loss_checked: bool },
    Border { dimension_no: usize, size: usize, loss_checked: bool },
}

/// Whether a loss checker observes `c`.
pub open spec fn ctrl_loss_checked(c: CtrlView) -> bool {
    match c {
        CtrlView::Leak { loss_checked } => loss_checked,
        CtrlView::Border { loss_checked, .. } => loss_checked,
    }
}

/// Whether `c` fits a wave function of the given tensor shape; the leak
/// control touches no axis and always fits.
pub open spec fn ctrl_compat(c: CtrlView, shape: Seq<usize>) -> bool {
    match c {
        CtrlView::Leak { .. } => true,
        CtrlView::Border { dimension_no, size, .. } => {
            &&& (dimension_no as int) < shape.len()
            &&& shape[dimension_no as int] == size
        },
    }
}

/// Bookkeeping effect of one half-step action of `c`.  The leak control
/// computes the norm on either half (recording it, then restoring it), so
/// the cache ends up current.  Border damping multiplies by its mask; with
/// a loss checker the norm is recomputed right after.
pub open spec fn ctrl_effect(c: CtrlView, v: crate::wave_function::WfView)
    -> crate::wave_function::WfView {
    match c {
        CtrlView::Leak { .. } => observed(v),
        CtrlView::Border { loss_checked, .. } => if loss_checked {
            observed(v)
        } else {
            crate::wave_function::dirty(v)
        },
    }
}

/// Controls the norm of the wave function during propagation: the norm
/// seen on the first half of a step is restored on the second half.  The
/// recorded norm value is a real number owned by the numerical layer.
#[derive(Clone)]
pub struct LeakControl {
    pub loss_checked: bool,
}

impl View for LeakControl {
    type V = CtrlView;

    open spec fn view(&self) -> CtrlView {
        CtrlView::Leak { loss_checked: self.loss_checked }
    }
}

impl LeakControl {
    /// Creates a leak control without a loss checker.
    pub fn new() -> (control: LeakControl)
        ensures
            control.loss_checked == false,
    {
        LeakControl { loss_checked: false }
    }

    /// Attaches a loss checker, which will measure the norm restored on
    /// every second half.
    pub fn add_loss_checker(&mut self)
        ensures
            final(self).loss_checked == true,
    {
        self.loss_checked = true;
    }

    /// First half: computes and records the current norm.
    pub fn first_half(&self, wave_function: &mut WaveFunction)
        requires
            old(wave_function).inv(),
        ensures
            final(wave_function).inv(),
            final(wave_function).shape@ == old(wave_function).shape@,
            final(wave_function).grids@ == old(wave_function).grids@,
            final(wave_function)@ == observed(old(wave_function)@),
    {
        let _ = wave_function.prepare_norm();
    }

    /// Second half: restores the recorded norm by rescaling, which leaves
    /// the norm known and the cache current.
    pub fn second_half(&self, wave_function: &mut WaveFunction)
        requires
            old(wave_function).inv(),
        ensures
            final(wave_function).inv(),
            final(wave_function).shape@ == old(wave_function).shape@,
            final(wave_function).grids@ == old(wave_function).grids@,
            final(wave_function)@ == observed(old(wave_function)@),
    {
        let _ = wave_function.prepare_norm();
    }
}

/// Absorbs outgoing amplitude near the upper border of one axis by
/// multiplying with a precomputed mask: a one-dimensional propagator that
/// is non-unitary by construction.
#[derive(Clone)]
pub struct BorderDumping {
    pub operator: OneDimPropagator,
    pub loss_checked: bool,
}

impl View for BorderDumping {
    type V = CtrlView;

    open spec fn view(&self) -> CtrlView {
        CtrlView::Border {
            dimension_no: self.operator.dimension_no,
            size: self.operator.size,
            loss_checked: self.loss_checked,
        }
    }
}

impl BorderDumping {
    /// Structural well-formedness: norm loss is accounted to the control as
    /// a whole, never to its inner mask propagator.
    pub open spec fn inv(self) -> bool {
        self.operator.loss_checked == false
    }

    /// Creates a border damping whose mask has `mask_len` samples along
    /// `grid`'s axis; the samples are owned by the numerical layer.
    pub fn new(mask_len: usize, grid: &Grid) -> (control: BorderDumping)
        ensures
            control.inv(),
            control.operator.size == mask_len,
            control.operator.dimension_no == grid@.dimension_no,
            control.operator.loss_checked == false,
            control.loss_checked == false,
    {
        BorderDumping { operator: OneDimPropagator::new(mask_len, grid.dimension_no), loss_checked: false }
    }

    /// Attaches a loss checker, which will measure the absorbed norm on
    /// every application.
    pub fn add_loss_checker(&mut self)
        ensures
            final(self).operator == old(self).operator,
            final(self).inv() == old(self).inv(),
            final(self).loss_checked == true,
    {
        self.loss_checked = true;
    }

    /// Whether the mask fits the wave function's shape.
    pub fn compatible(&self, wave_function: &WaveFunction) -> (compatible: bool)
        ensures
            compatible == ctrl_compat(self@, wave_function@.shape),
    {
        self.operator.compatible(wave_function)
    }

    /// First half: applies the mask (bracketed by norm computations when a
    /// loss checker is attached).  Rejects a wave function whose axis does
    /// not match.
    pub fn first_half(&self, wave_function: &mut WaveFunction) -> (result: Result<(), CoreError>)
        requires
            self.inv(),
            old(wave_function).inv(),
        ensures
            final(wave_function).inv(),
            final(wave_function).shape@ == old(wave_function).shape@,
            final(wave_function).grids@ == old(wave_function).grids@,
            result is Ok <==> ctrl_compat(self@, old(wave_function)@.shape),
            result is Ok ==> final(wave_function)@ == ctrl_effect(self@, old(wave_function)@),
            result is Err ==> result == Result::<(), CoreError>::Err(CoreError::ShapeMismatch)
                && *final(wave_function) == *old(wave_function),
    {
        self.apply_mask(wave_function)
    }

    /// Second half: the same mask application as the first half.
    pub fn second_half(&self, wave_function: &mut WaveFunction) -> (result: Result<(), CoreError>)
        requires
            self.inv(),
            old(wave_function).inv(),
        ensures
            final(wave_function).inv(),
            final(wave_function).shape@ == old(wave_function).shape@,
            final(wave_function).grids@ == old(wave_function).grids@,
            result is Ok <==> ctrl_compat(self@, old(wave_function)@.shape),
            result is Ok ==> final(wave_function)@ == ctrl_effect(self@, old(wave_function)@),
            result is Err ==> result == Result::<(), CoreError>::Err(CoreError::ShapeMismatch)
                && *final(wave_function) == *old(wave_function),
    {
        self.apply_mask(wave_function)
    }

    /// Shared mask application of both halves.
    fn apply_mask(&self, wave_function: &mut WaveFunction) -> (result: Result<(), CoreError>)
        requires
            self.inv(),
            old(wave_function).inv(),
        ensures
            final(wave_function).inv(),
            final(wave_function).shape@ == old(wave_function).shape@,
            final(wave_function).grids@ == old(wave_function).grids@,
            result is Ok <==> ctrl_compat(self@, old(wave_function)@.shape),
            result is Ok ==> final(wave_function)@ == ctrl_effect(self@, old(wave_function)@),
            result is Err ==> result == Result::<(), CoreError>::Err(CoreError::ShapeMismatch)
                && *final(wave_function) == *old(wave_function),
    {
        if !self.compatible(wave_function) {
            return Err(CoreError::ShapeMismatch);
        }
        if self.loss_checked {
            let _ = wave_function.prepare_norm();
        }
        let applied = self.operator.apply(wave_function);
        assert(applied is Ok);
        if self.loss_checked {
            let _ = wave_function.prepare_norm();
            assert(wave_function@ =~= observed(old(wave_function)@));
        }
        Ok(())
    }
}

} // verus!
