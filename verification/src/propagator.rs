//! Diagonal propagators.
//!
//! A diagonal propagator multiplies the wave-function tensor elementwise by
//! a precomputed complex operator: a vector along one axis, a full tensor,
//! or one dense matrix per index of an outer conditioning axis.  The complex
//! samples are owned by the numerical layer; the core records the operator
//! shapes, checks them against the wave function, and performs the
//! norm-cache bookkeeping of an application: amplitudes may change, and a
//! propagator with an attached loss checker leaves behind a freshly
//! computed norm.

use vstd::prelude::*;

use crate::error::CoreError;
use crate::wave_function::WaveFunction;
use crate::wave_function::WfView;
use crate::wave_function::dirty;
use crate::wave_function::observed;

verus! {

/// Mathematical content of a diagonal propagator: its shape data and
/// whether a loss checker observes its applications.
pub enum PropView {
    OneDim { dimension_no: usize, size: usize, loss_checked: bool },
    NDim { operator_shape: Seq<usize>, loss_checked: bool },
    NonDiag {
        dimension_no: usize,
        dimension_no_dependent: usize,
        operators_no: usize,
        operator_size: usize,
        loss_checked: bool,
    },
}

/// Whether a loss checker observes applications of `p`.
pub open spec fn prop_loss_checked(p: PropView) -> bool {
    match p {
        PropView::OneDim { loss_checked, .. } => loss_checked,
        PropView::NDim { loss_checked, .. } => loss_checked,
        PropView::NonDiag { loss_checked, .. } => loss_checked,
    }
}

/// Whether `p`'s operator fits a wave function of the given tensor shape.
pub open spec fn prop_compat(p: PropView, shape: Seq<usize>) -> bool {
    match p {
        PropView::OneDim { dimension_no, size, .. } => {
            &&& (dimension_no as int) < shape.len()
            &&& shape[dimension_no as int] == size
        },
        PropView::NDim { operator_shape, .. } => operator_shape == shape,
        PropView::NonDiag { dimension_no, dimension_no_dependent, operators_no, operator_size, .. } => {
            &&& (dimension_no as int) < shape.len()
            &&& (dimension_no_dependent as int) < shape.len()
            &&& dimension_no < dimension_no_dependent
            &&& shape[dimension_no as int] == operator_size
            &&& shape[dimension_no_dependent as int] == operators_no
        },
    }
}

/// Bookkeeping effect of applying `p`: amplitudes may have changed; with a
/// loss checker attached the norm is recomputed right after, so the cache
/// ends up current.
pub open spec fn prop_effect(p: PropView, v: WfView) -> WfView {
    if prop_loss_checked(p) {
        observed(v)
    } else {
        dirty(v)
    }
}

/// Elementwise multiplication by a complex vector along one axis, applied
/// to every lane of that axis.
#[derive(Clone)]
pub struct OneDimPropagator {
    pub dimension_no: usize,
    pub size: usize,
    pub loss_checked: bool,
}

impl View for OneDimPropagator {
    type V = PropView;

    open spec fn view(&self) -> PropView {
        PropView::OneDim {
            dimension_no: self.dimension_no,
            size: self.size,
            loss_checked: self.loss_checked,
        }
    }
}

impl OneDimPropagator {
    /// Creates a propagator for an operator vector of length `shape` acting
    /// along axis `dimension_no`; no loss checker is attached.
    pub fn new(shape: usize, dimension_no: usize) -> (propagator: OneDimPropagator)
        ensures
            propagator.size == shape,
            propagator.dimension_no == dimension_no,
            propagator.loss_checked == false,
    {
        OneDimPropagator { dimension_no, size: shape, loss_checked: false }
    }

    /// Accepts a new operator sample exactly when its length matches the
    /// propagator's axis length.
    pub fn set_operator(&self, operator_len: usize) -> (result: Result<(), CoreError>)
        ensures
            result is Ok <==> operator_len == self.size,
            result is Err ==> result == Result::<(), CoreError>::Err(CoreError::ShapeMismatch),
    {
        if operator_len == self.size {
            Ok(())
        } else {
            Err(CoreError::ShapeMismatch)
        }
    }

    /// Accepts a further operator sample to be fused multiplicatively, under
    /// the same length check as [`OneDimPropagator::set_operator`].
    pub fn add_operator(&self, operator_len: usize) -> (result: Result<(), CoreError>)
        ensures
            result is Ok <==> operator_len == self.size,
            result is Err ==> result == Result::<(), CoreError>::Err(CoreError::ShapeMismatch),
    {
        self.set_operator(operator_len)
    }

    /// Attaches a loss checker: every application will be bracketed by norm
    /// computations.
    pub fn set_loss_checked(&mut self)
        ensures
            *final(self) == (OneDimPropagator { loss_checked: true, ..*old(self) }),
    {
        self.loss_checked = true;
    }

    /// Whether the operator fits the wave function's shape.
    pub fn compatible(&self, wave_function: &WaveFunction) -> (compatible: bool)
        ensures
            compatible == prop_compat(self@, wave_function@.shape),
    {
        self.dimension_no < wave_function.shape.len() && wave_function.shape[self.dimension_no]
            == self.size
    }

    /// Performs the bookkeeping of one application: rejects a shape
    /// mismatch, otherwise marks a possible norm change (and, with a loss
    /// checker, recomputes the norm before and after).
    pub fn apply(&self, wave_function: &mut WaveFunction) -> (result: Result<(), CoreError>)
        requires
            old(wave_function).inv(),
        ensures
            final(wave_function).inv(),
            final(wave_function).shape@ == old(wave_function).shape@,
            final(wave_function).grids@ == old(wave_function).grids@,
            result is Ok <==> prop_compat(self@, old(wave_function)@.shape),
            result is Ok ==> final(wave_function)@ == prop_effect(self@, old(wave_function)@),
            result is Err ==> result == Result::<(), CoreError>::Err(CoreError::ShapeMismatch)
                && *final(wave_function) == *old(wave_function),
    {
        if !self.compatible(wave_function) {
            return Err(CoreError::ShapeMismatch);
        }
        apply_bookkeeping(self.loss_checked, wave_function);
        Ok(())
    }
}

/// Elementwise multiplication by a full complex tensor of the wave
/// function's shape.
#[derive(Clone)]
pub struct NDimPropagator {
    pub operator_shape: Vec<usize>,
    pub loss_checked: bool,
}

impl View for NDimPropagator {
    type V = PropView;

    open spec fn view(&self) -> PropView {
        PropView::NDim { operator_shape: self.operator_shape@, loss_checked: self.loss_checked }
    }
}

impl NDimPropagator {
    /// Creates a propagator holding a placeholder operator of shape `[1]`;
    /// a real operator is supplied through [`NDimPropagator::set_operator`].
    pub fn new() -> (propagator: NDimPropagator)
        ensures
            propagator.operator_shape@ == seq![1usize],
            propagator.loss_checked == false,
    {
        let operator_shape = vec![1usize];
        assert(operator_shape@ =~= seq![1usize]);
        NDimPropagator { operator_shape, loss_checked: false }
    }

    /// Replaces the operator; the new sample's shape is recorded as is.
    pub fn set_operator(&mut self, operator_shape: Vec<usize>)
        ensures
            final(self).operator_shape@ == operator_shape@,
            final(self).loss_checked == old(self).loss_checked,
    {
        self.operator_shape = operator_shape;
    }

    /// Accepts a further operator sample to be fused multiplicatively
    /// exactly when its shape matches the current operator's shape.
    pub fn add_operator(&self, operator_shape: &Vec<usize>) -> (result: Result<(), CoreError>)
        ensures
            result is Ok <==> operator_shape@ == self.operator_shape@,
            result is Err ==> result == Result::<(), CoreError>::Err(CoreError::ShapeMismatch),
    {
        if shape_eq(operator_shape, &self.operator_shape) {
            Ok(())
        } else {
            Err(CoreError::ShapeMismatch)
        }
    }

    /// Attaches a loss checker.
    pub fn set_loss_checked(&mut self)
        ensures
            final(self).operator_shape@ == old(self).operator_shape@,
            final(self).loss_checked == true,
    {
        self.loss_checked = true;
    }

    /// Whether the operator fits the wave function's shape.
    pub fn compatible(&self, wave_function: &WaveFunction) -> (compatible: bool)
        ensures
            compatible == prop_compat(self@, wave_function@.shape),
    {
        shape_eq(&self.operator_shape, &wave_function.shape)
    }

    /// Performs the bookkeeping of one application, as for
    /// [`OneDimPropagator::apply`].
    pub fn apply(&self, wave_function: &mut WaveFunction) -> (result: Result<(), CoreError>)
        requires
            old(wave_function).inv(),
        ensures
            final(wave_function).inv(),
            final(wave_function).shape@ == old(wave_function).shape@,
            final(wave_function).grids@ == old(wave_function).grids@,
            result is Ok <==> prop_compat(self@, old(wave_function)@.shape),
            result is Ok ==> final(wave_function)@ == prop_effect(self@, old(wave_function)@),
            result is Err ==> result == Result::<(), CoreError>::Err(CoreError::ShapeMismatch)
                && *final(wave_function) == *old(wave_function),
    {
        if !self.compatible(wave_function) {
            return Err(CoreError::ShapeMismatch);
        }
        apply_bookkeeping(self.loss_checked, wave_function);
        Ok(())
    }
}

/// Block-diagonal multiplication: one dense matrix per index on an outer
/// conditioning axis, each applied to every lane of the inner target axis
/// within that slice.
#[derive(Clone)]
pub struct NonDiagPropagator {
    pub dimension_no: usize,
    pub dimension_no_dependent: usize,
    pub operators_no: usize,
    pub operator_size: usize,
    pub loss_checked: bool,
}

impl View for NonDiagPropagator {
    type V = PropView;

    open spec fn view(&self) -> PropView {
        PropView::NonDiag {
            dimension_no: self.dimension_no,
            dimension_no_dependent: self.dimension_no_dependent,
            operators_no: self.operators_no,
            operator_size: self.operator_size,
            loss_checked: self.loss_checked,
        }
    }
}

impl NonDiagPropagator {
    /// Creates a block-diagonal propagator acting along `dimension_no`,
    /// conditioned by the outer axis `dimension_no_dependent`; the
    /// conditioning axis must lie outside the target axis.  No matrices are
    /// recorded yet.
    pub fn new(dimension_no: usize, dimension_no_dependent: usize) -> (result: Result<
        NonDiagPropagator,
        CoreError,
    >)
        ensures
            result is Ok <==> dimension_no < dimension_no_dependent,
            result is Err ==> result == Result::<NonDiagPropagator, CoreError>::Err(
                CoreError::InvariantViolation,
            ),
            result matches Ok(propagator) ==> {
                &&& propagator.dimension_no == dimension_no
                &&& propagator.dimension_no_dependent == dimension_no_dependent
                &&& propagator.operators_no == 0
                &&& propagator.operator_size == 0
                &&& propagator.loss_checked == false
            },
    {
        if dimension_no >= dimension_no_dependent {
            return Err(CoreError::InvariantViolation);
        }
        Ok(
            NonDiagPropagator {
                dimension_no,
                dimension_no_dependent,
                operators_no: 0,
                operator_size: 0,
                loss_checked: false,
            },
        )
    }

    /// Records a new stack of square matrices: `operators_no` matrices of
    /// size `operator_size`.
    pub fn set_operators(&mut self, operators_no: usize, operator_size: usize)
        ensures
            *final(self) == (NonDiagPropagator {
                operators_no,
                operator_size,
                ..*old(self)
            }),
    {
        self.operators_no = operators_no;
        self.operator_size = operator_size;
    }

    /// Attaches a loss checker.
    pub fn set_loss_checked(&mut self)
        ensures
            *final(self) == (NonDiagPropagator { loss_checked: true, ..*old(self) }),
    {
        self.loss_checked = true;
    }

    /// Whether the matrix stack fits the wave function's shape: one matrix
    /// per index on the conditioning axis, each matching the target axis
    /// length.
    pub fn compatible(&self, wave_function: &WaveFunction) -> (compatible: bool)
        ensures
            compatible == prop_compat(self@, wave_function@.shape),
    {
        self.dimension_no < wave_function.shape.len() && self.dimension_no_dependent
            < wave_function.shape.len() && self.dimension_no < self.dimension_no_dependent
            && wave_function.shape[self.dimension_no] == self.operator_size
            && wave_function.shape[self.dimension_no_dependent] == self.operators_no
    }

    /// Performs the bookkeeping of one application, as for
    /// [`OneDimPropagator::apply`].
    pub fn apply(&self, wave_function: &mut WaveFunction) -> (result: Result<(), CoreError>)
        requires
            old(wave_function).inv(),
        ensures
            final(wave_function).inv(),
            final(wave_function).shape@ == old(wave_function).shape@,
            final(wave_function).grids@ == old(wave_function).grids@,
            result is Ok <==> prop_compat(self@, old(wave_function)@.shape),
            result is Ok ==> final(wave_function)@ == prop_effect(self@, old(wave_function)@),
            result is Err ==> result == Result::<(), CoreError>::Err(CoreError::ShapeMismatch)
                && *final(wave_function) == *old(wave_function),
    {
        if !self.compatible(wave_function) {
            return Err(CoreError::ShapeMismatch);
        }
        apply_bookkeeping(self.loss_checked, wave_function);
        Ok(())
    }
}

/// Shared bookkeeping of a propagator application: the multiplication may
/// change amplitudes; a loss checker computes the norm before and after,
/// leaving the cache current.
fn apply_bookkeeping(loss_checked: bool, wave_function: &mut WaveFunction)
    requires
        old(wave_function).inv(),
    ensures
        final(wave_function).inv(),
        final(wave_function).shape@ == old(wave_function).shape@,
        final(wave_function).grids@ == old(wave_function).grids@,
        final(wave_function)@ == if loss_checked {
            observed(old(wave_function)@)
        } else {
            dirty(old(wave_function)@)
        },
{
    if loss_checked {
        let _ = wave_function.prepare_norm();
        wave_function.note_possible_norm_change();
        let _ = wave_function.prepare_norm();
        assert(wave_function@ =~= observed(old(wave_function)@));
    } else {
        wave_function.note_possible_norm_change();
    }
}

/// Compares two shapes extent by extent.
fn shape_eq(a: &Vec<usize>, b: &Vec<usize>) -> (equal: bool)
    ensures
        equal == (a@ == b@),
{
    if a.len() != b.len() {
        return false;
    }
    let mut i: usize = 0;
    while i < a.len()
        invariant
            i <= a@.len(),
            a@.len() == b@.len(),
            forall|k: int| 0 <= k < i ==> a@[k] == b@[k],
        decreases a@.len() - i,
    {
        if a[i] != b[i] {
            return false;
        }
        i += 1;
    }
    assert(a@ =~= b@);
    true
}

} // verus!
