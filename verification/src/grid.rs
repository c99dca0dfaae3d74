//! One-dimensional axis descriptors.
//!
//! A [`Grid`] names one axis of the tensor-product grid and records which
//! tensor dimension it describes and how many nodes it carries.  The node
//! positions and quadrature weights themselves are real numbers owned by the
//! numerical layer; every decision the core makes about a grid (cache
//! invalidation by name, shape checks, the exchange of an axis for its dual
//! under a basis transformation) depends only on the data kept here.

use vstd::prelude::*;

verus! {

/// Mathematical content of a [`Grid`]: its name as a character sequence and
/// its two structural numbers.
pub struct GridView {
    pub name: Seq<char>,
    pub dimension_no: usize,
    pub nodes_no: usize,
}

/// Descriptor of one 1-D axis of the tensor-product grid.
///
/// - `name` identifies the representation carried by the axis (e.g. a
///   position grid versus its momentum dual); transformations exchange
///   grids, and the norm cache watches names to notice the exchange.
/// - `dimension_no` is the index of the tensor axis this grid describes.
/// - `nodes_no` is the number of nodes on the axis, equal to the tensor
///   extent along `dimension_no`.
#[derive(Clone)]
pub struct Grid {
    pub name: String,
    pub dimension_no: usize,
    pub nodes_no: usize,
}

impl View for Grid {
    type V = GridView;

    open spec fn view(&self) -> GridView {
        GridView {
            name: self.name@,
            dimension_no: self.dimension_no,
            nodes_no: self.nodes_no,
        }
    }
}

impl Grid {
    /// Creates the descriptor of an axis with `nodes_no` nodes standing at
    /// tensor dimension `dimension_no`.
    pub fn new(name: String, dimension_no: usize, nodes_no: usize) -> (grid: Grid)
        ensures
            grid@.name == name@,
            grid@.dimension_no == dimension_no,
            grid@.nodes_no == nodes_no,
    {
        Grid { name, dimension_no, nodes_no }
    }

    /// Swaps two grids in place: each ends up with the content the other had.
    pub fn swap(&mut self, other: &mut Grid)
        ensures
            *final(self) == *old(other),
            *final(other) == *old(self),
    {
        core::mem::swap(self, other);
    }
}

} // verus!
