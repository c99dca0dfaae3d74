//! Structural state of the wave function.
//!
//! The wave function proper is a rank-N complex tensor owned by the
//! numerical layer.  The core keeps everything that layer must consult
//! before touching the tensor: the tensor shape, one [`Grid`] descriptor per
//! axis, and the [`ChangeObserver`] that guards the cached norm and the
//! weight-amplitude tensor.  The invariant ties the three together: axis `k`
//! is described by a grid standing at dimension `k` whose node count equals
//! the tensor extent, and while no amplitude change is pending the name
//! snapshot agrees with the axis names.

use vstd::prelude::*;

use crate::change_observer::ChangeObserver;
use crate::change_observer::grid_names;
use crate::error::CoreError;
use crate::grid::Grid;

verus! {

/// Mathematical content of a [`WaveFunction`]: the tensor shape, the axis
/// names, the snapshot watched by the norm cache, and the pending-change
/// flag.
pub struct WfView {
    pub shape: Seq<usize>,
    pub names: Seq<Seq<char>>,
    pub snapshot: Seq<Seq<char>>,
    pub possible_norm_change: bool,
}

impl WfView {
    /// Well-formedness at the view level.
    pub open spec fn inv(self) -> bool {
        &&& self.names.len() == self.shape.len()
        &&& self.snapshot.len() == self.shape.len()
        &&& (!self.possible_norm_change ==> self.snapshot == self.names)
    }
}

/// The state after an operator that may have altered amplitudes: a norm
/// recomputation is pending.
pub open spec fn dirty(v: WfView) -> WfView {
    WfView { possible_norm_change: true, ..v }
}

/// The state right after a norm computation: the snapshot agrees with the
/// axis names and the cached norm is current.
pub open spec fn observed(v: WfView) -> WfView {
    WfView { snapshot: v.names, possible_norm_change: false, ..v }
}

/// The state after the grid on axis `d` was exchanged for a dual grid named
/// `dual_name`: the axis is renamed and a norm recomputation is pending.
pub open spec fn transformed(v: WfView, d: int, dual_name: Seq<char>) -> WfView {
    WfView { names: v.names.update(d, dual_name), possible_norm_change: true, ..v }
}

/// Whether `grids` is a valid axis list for a tensor of shape `shape`:
/// one grid per axis, standing at its own dimension, with as many nodes as
/// the tensor extent along that axis.
pub open spec fn grids_match_shape(shape: Seq<usize>, grids: Seq<Grid>) -> bool {
    &&& grids.len() == shape.len()
    &&& forall|k: int|
        0 <= k < grids.len() ==> (#[trigger] grids[k]).dimension_no as int == k && grids[k].nodes_no
            == shape[k]
}

/// What a norm query must do: return the cached value, or recompute the
/// sum, first rebuilding the weight-amplitude tensor if a grid changed.
#[derive(Clone, Copy, Debug, PartialEq, Eq, Structural)]
pub enum NormTask {
    UseCached,
    Recompute { rebuild_weights: bool },
}

/// Structural state of a rank-N wave function: tensor shape, one grid per
/// axis, and the norm-cache observer.
#[derive(Clone)]
pub struct WaveFunction {
    pub shape: Vec<usize>,
    pub grids: Vec<Grid>,
    pub change_observer: ChangeObserver,
}

impl View for WaveFunction {
    type V = WfView;

    open spec fn view(&self) -> WfView {
        WfView {
            shape: self.shape@,
            names: grid_names(self.grids@),
            snapshot: self.change_observer.snapshot(),
            possible_norm_change: self.change_observer.possible_norm_change,
        }
    }
}

impl WaveFunction {
    /// Well-formedness: grids match the shape and the view invariant holds.
    pub open spec fn inv(self) -> bool {
        &&& grids_match_shape(self.shape@, self.grids@)
        &&& self@.inv()
    }

    /// Creates the structural state of a wave function of the given tensor
    /// shape over the given grids.  Rejects axis lists that do not match
    /// the shape; on success, a first norm computation is pending.
    pub fn new(shape: Vec<usize>, grids: Vec<Grid>) -> (result: Result<WaveFunction, CoreError>)
        ensures
            result is Ok <==> grids_match_shape(shape@, grids@),
            result is Err ==> result == Result::<WaveFunction, CoreError>::Err(
                CoreError::ShapeMismatch,
            ),
            result matches Ok(wf) ==> {
                &&& wf.inv()
                &&& wf.shape@ == shape@
                &&& wf.grids@ == grids@
                &&& wf@.names == grid_names(grids@)
                &&& wf@.snapshot == grid_names(grids@)
                &&& wf@.possible_norm_change == true
            },
    {
        if grids.len() != shape.len() {
            return Err(CoreError::ShapeMismatch);
        }
        let mut k: usize = 0;
        while k < grids.len()
            invariant
                k <= grids@.len(),
                grids@.len() == shape@.len(),
                forall|j: int|
                    0 <= j < k ==> (#[trigger] grids@[j]).dimension_no as int == j
                        && grids@[j].nodes_no == shape@[j],
            decreases grids@.len() - k,
        {
            if grids[k].dimension_no != k || grids[k].nodes_no != shape[k] {
                return Err(CoreError::ShapeMismatch);
            }
            k += 1;
        }
        let change_observer = ChangeObserver::new(&grids);
        Ok(WaveFunction { shape, grids, change_observer })
    }

    /// Decides how the next norm query proceeds and completes its
    /// bookkeeping: with no pending change the cached value is current and
    /// nothing moves; otherwise the caller must recompute, rebuilding the
    /// weight-amplitude tensor first exactly when a grid was replaced, and
    /// the recomputed norm becomes the cached one.
    pub fn prepare_norm(&mut self) -> (task: NormTask)
        requires
            old(self).inv(),
        ensures
            final(self).inv(),
            final(self).shape@ == old(self).shape@,
            final(self).grids@ == old(self).grids@,
            final(self)@ == observed(old(self)@),
            task == if old(self)@.possible_norm_change {
                NormTask::Recompute {
                    rebuild_weights: old(self)@.snapshot != old(self)@.names,
                }
            } else {
                NormTask::UseCached
            },
    {
        if !self.change_observer.possible_norm_change {
            assert(self@ =~= observed(self@));
            return NormTask::UseCached;
        }
        let rebuild_weights = self.change_observer.has_grid_changed(&self.grids);
        proof {
            lemma_grid_changed_iff(self.change_observer, self.grids@);
        }
        if rebuild_weights {
            self.change_observer.observe_grid(&self.grids);
        }
        self.change_observer.observe_norm();
        assert(self@ =~= observed(old(self)@));
        NormTask::Recompute { rebuild_weights }
    }

    /// Completes the bookkeeping of a density query along one axis: the
    /// weight-amplitude tensor must be rebuilt exactly when a grid was
    /// replaced since the last rebuild; the norm flag is untouched.
    pub fn prepare_state_density(&mut self) -> (rebuild_weights: bool)
        requires
            old(self).inv(),
        ensures
            final(self).inv(),
            final(self).shape@ == old(self).shape@,
            final(self).grids@ == old(self).grids@,
            rebuild_weights == (old(self)@.snapshot != old(self)@.names),
            final(self)@ == (WfView { snapshot: old(self)@.names, ..old(self)@ }),
    {
        let rebuild_weights = self.change_observer.has_grid_changed(&self.grids);
        proof {
            lemma_grid_changed_iff(self.change_observer, self.grids@);
        }
        if rebuild_weights {
            self.change_observer.observe_grid(&self.grids);
        }
        assert(self@ =~= (WfView { snapshot: old(self)@.names, ..old(self)@ }));
        rebuild_weights
    }

    /// Records that an operator may have altered amplitudes: the next norm
    /// query recomputes.
    pub fn note_possible_norm_change(&mut self)
        requires
            old(self).inv(),
        ensures
            final(self).inv(),
            final(self).shape@ == old(self).shape@,
            final(self).grids@ == old(self).grids@,
            final(self)@ == dirty(old(self)@),
    {
        self.change_observer.possible_norm_change = true;
        assert(self@ =~= dirty(old(self)@));
    }

    /// Exchanges the grid on axis `dimension_no` with the dual grid a
    /// transformation holds, and raises the norm flag.  The dual grid must
    /// describe the same axis with the same node count, so the shape is
    /// unchanged and a later exchange restores both sides.
    pub fn swap_grid(&mut self, dimension_no: usize, dual: &mut Grid)
        requires
            old(self).inv(),
            dimension_no < old(self).grids@.len(),
            old(dual)@.dimension_no == dimension_no,
            old(dual)@.nodes_no == old(self).shape@[dimension_no as int],
        ensures
            final(self).inv(),
            final(self).shape@ == old(self).shape@,
            final(self).grids@ == old(self).grids@.update(dimension_no as int, *old(dual)),
            final(self)@ == transformed(old(self)@, dimension_no as int, old(dual)@.name),
            final(dual)@ == old(self).grids@[dimension_no as int]@,
    {
        let axis_grid = &mut self.grids[dimension_no];
        axis_grid.swap(dual);
        self.change_observer.possible_norm_change = true;
        assert(grid_names(self.grids@) =~= old(self)@.names.update(
            dimension_no as int,
            old(dual)@.name,
        ));
        assert(self@ =~= transformed(old(self)@, dimension_no as int, old(dual)@.name));
    }
}

/// Under equal snapshot and name lengths, the observer's positional
/// comparison agrees with plain inequality of the two name sequences.
proof fn lemma_grid_changed_iff(observer: ChangeObserver, grids: Seq<Grid>)
    requires
        observer.snapshot().len() == grids.len(),
    ensures
        observer.spec_grid_changed(grid_names(grids)) == (observer.snapshot() != grid_names(
            grids,
        )),
{
    if observer.spec_grid_changed(grid_names(grids)) {
        let i = choose|i: int|
            0 <= i < observer.snapshot().len() && i < grid_names(grids).len()
                && observer.snapshot()[i] != grid_names(grids)[i];
        assert(observer.snapshot()[i] != grid_names(grids)[i]);
    } else {
        assert(observer.snapshot() =~= grid_names(grids));
    }
}

} // verus!
