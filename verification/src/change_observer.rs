//! Norm-cache bookkeeping for the wave function.
//!
//! The norm of the wave function is expensive to recompute, so it is cached
//! together with the weight-amplitude tensor it is computed from.  The cache
//! is invalidated through two sentinels kept here: `possible_norm_change` is
//! raised by every operator that may alter amplitudes, and a snapshot of the
//! axis names notices when a basis transformation replaced a grid, which
//! forces the weight-amplitude tensor to be rebuilt before the next norm
//! query.  The cached norm value itself is a real number owned by the
//! numerical layer.

use vstd::prelude::*;

use crate::grid::Grid;

verus! {

/// The names of a sequence of grids, in axis order.
pub open spec fn grid_names(grids: Seq<Grid>) -> Seq<Seq<char>> {
    grids.map_values(|g: Grid| g.name@)
}

/// Observes changes in the wave function: a possible change of its norm and
/// a replacement of any of its axis grids.
#[derive(Clone)]
pub struct ChangeObserver {
    /// Axis names seen when the weight-amplitude tensor was last rebuilt.
    pub last_grid_names: Vec<String>,
    /// Raised by every operator that may alter amplitudes; while it is
    /// false, the cached norm is current.
    pub possible_norm_change: bool,
}

impl ChangeObserver {
    /// The name snapshot as a sequence of character sequences.
    pub open spec fn snapshot(self) -> Seq<Seq<char>> {
        self.last_grid_names.deep_view()
    }

    /// Whether any grid name differs from the snapshot, position by
    /// position up to the shorter of the two lists.
    pub open spec fn spec_grid_changed(self, names: Seq<Seq<char>>) -> bool {
        exists|i: int|
            0 <= i < self.snapshot().len() && i < names.len() && self.snapshot()[i] != names[i]
    }

    /// Creates a new observer over the given grids: the snapshot holds
    /// their names and a norm computation is pending.
    pub fn new(grids: &Vec<Grid>) -> (observer: ChangeObserver)
        ensures
            observer.snapshot() == grid_names(grids@),
            observer.possible_norm_change == true,
    {
        let names = clone_names(grids);
        ChangeObserver { last_grid_names: names, possible_norm_change: true }
    }

    /// Records the names of the given grids as the new snapshot; the norm
    /// flag is untouched.
    pub fn observe_grid(&mut self, new_grids: &Vec<Grid>)
        ensures
            final(self).snapshot() == grid_names(new_grids@),
            final(self).possible_norm_change == old(self).possible_norm_change,
    {
        self.last_grid_names = clone_names(new_grids);
    }

    /// Records that the norm has just been recomputed: until the next
    /// amplitude change, the cached value is current.
    pub fn observe_norm(&mut self)
        ensures
            final(self).snapshot() == old(self).snapshot(),
            final(self).possible_norm_change == false,
    {
        self.possible_norm_change = false;
    }

    /// Returns true if any grid name differs from the last snapshot taken
    /// by [`ChangeObserver::observe_grid`] or [`ChangeObserver::new`].
    pub fn has_grid_changed(&self, grids: &Vec<Grid>) -> (changed: bool)
        ensures
            changed == self.spec_grid_changed(grid_names(grids@)),
    {
        let mut i: usize = 0;
        let bound: usize = if self.last_grid_names.len() < grids.len() {
            self.last_grid_names.len()
        } else {
            grids.len()
        };
        while i < bound
            invariant
                i <= bound,
                bound <= self.last_grid_names@.len(),
                bound <= grids@.len(),
                bound == if self.last_grid_names@.len() < grids@.len() {
                    self.last_grid_names@.len()
                } else {
                    grids@.len()
                },
                forall|k: int| 0 <= k < i ==> self.snapshot()[k] == grid_names(grids@)[k],
            decreases bound - i,
        {
            if !string_eq(&self.last_grid_names[i], &grids[i].name) {
                assert(self.snapshot()[i as int] != grid_names(grids@)[i as int]);
                return true;
            }
            i += 1;
        }
        false
    }
}

/// Compares two strings character for character.
fn string_eq(a: &String, b: &String) -> (equal: bool)
    ensures
        equal == (a@ == b@),
{
    a.eq(b)
}

/// Clones the name of every grid, in axis order.
fn clone_names(grids: &Vec<Grid>) -> (names: Vec<String>)
    ensures
        names.deep_view() == grid_names(grids@),
{
    let mut names: Vec<String> = Vec::new();
    let mut i: usize = 0;
    while i < grids.len()
        invariant
            i <= grids@.len(),
            names@.len() == i,
            forall|k: int| 0 <= k < i ==> names@[k]@ == grids@[k].name@,
        decreases grids@.len() - i,
    {
        names.push(grids[i].name.clone());
        i += 1;
    }
    assert(names.deep_view() =~= grid_names(grids@));
    names
}

} // verus!
