//! Basis transformations along one axis.
//!
//! A transformation carries the dual grid of its target axis (e.g. the
//! momentum grid of a position axis).  On every forward and inverse call it
//! exchanges that grid with the one the wave function holds on the axis and
//! raises the norm flag, then the numerical layer transforms every lane
//! along the axis (by FFT, by a dense matrix, or by one matrix per index of
//! an outer conditioning axis).  Because forward and inverse both exchange
//! the same pair of grids, forward followed by inverse restores the axis
//! descriptors exactly.

use vstd::prelude::*;

use crate::error::CoreError;
use crate::grid::Grid;
use crate::wave_function::WaveFunction;
use crate::wave_function::transformed;

verus! {

/// Whether the forward or the inverse direction of a transformation comes
/// first in the forward sweep of a split step; the reverse sweep uses the
/// opposite direction.
#[derive(Clone, Copy, Debug, PartialEq, Eq, Structural)]
pub enum Order {
    Normal,
    InverseFirst,
}

/// Mathematical content of a transformation: its target axis, the axis
/// length it expects, the name of the dual grid it currently holds, and,
/// for the per-state form, the conditioning axis and matrix count.
pub enum TransView {
    Plain { dimension_no: usize, dimension_size: usize, held_name: Seq<char> },
    PerState {
        dimension_no: usize,
        dimension_no_dependent: usize,
        dimension_size: usize,
        matrices_no: usize,
        held_name: Seq<char>,
    },
}

impl TransView {
    /// The target axis.
    pub open spec fn dimension_no(self) -> usize {
        match self {
            TransView::Plain { dimension_no, .. } => dimension_no,
            TransView::PerState { dimension_no, .. } => dimension_no,
        }
    }

    /// The name of the dual grid currently held.
    pub open spec fn held_name(self) -> Seq<char> {
        match self {
            TransView::Plain { held_name, .. } => held_name,
            TransView::PerState { held_name, .. } => held_name,
        }
    }

    /// The same transformation holding a different dual-grid name.
    pub open spec fn with_held_name(self, name: Seq<char>) -> TransView {
        match self {
            TransView::Plain { dimension_no, dimension_size, .. } => TransView::Plain {
                dimension_no,
                dimension_size,
                held_name: name,
            },
            TransView::PerState {
                dimension_no,
                dimension_no_dependent,
                dimension_size,
                matrices_no,
                ..
            } => TransView::PerState {
                dimension_no,
                dimension_no_dependent,
                dimension_size,
                matrices_no,
                held_name: name,
            },
        }
    }
}

/// Whether `t` fits a wave function of the given tensor shape.
pub open spec fn trans_compat(t: TransView, shape: Seq<usize>) -> bool {
    match t {
        TransView::Plain { dimension_no, dimension_size, .. } => {
            &&& (dimension_no as int) < shape.len()
            &&& shape[dimension_no as int] == dimension_size
        },
        TransView::PerState {
            dimension_no,
            dimension_no_dependent,
            dimension_size,
            matrices_no,
            ..
        } => {
            &&& (dimension_no as int) < shape.len()
            &&& (dimension_no_dependent as int) < shape.len()
            &&& dimension_no < dimension_no_dependent
            &&& shape[dimension_no as int] == dimension_size
            &&& shape[dimension_no_dependent as int] == matrices_no
        },
    }
}

/// The signed multiple of the momentum step at position `j` of the Fourier
/// dual grid of an axis with `nodes_no` nodes: positions below the Nyquist
/// point carry the frequency `j`, the remaining positions wrap around to
/// the negative frequencies `j - nodes_no`.
pub open spec fn spec_momentum_multiple(j: int, nodes_no: int) -> int {
    if 2 * j < nodes_no {
        j
    } else {
        j - nodes_no
    }
}

/// The signed momentum multiple at one position of the Fourier dual grid;
/// the numerical layer scales it by the momentum step to place the node.
pub fn momentum_multiple(j: usize, nodes_no: usize) -> (multiple: i64)
    requires
        j < nodes_no,
        nodes_no <= i64::MAX,
        nodes_no < usize::MAX,
    ensures
        multiple == spec_momentum_multiple(j as int, nodes_no as int),
{
    if j < (nodes_no + 1) / 2 {
        j as i64
    } else {
        j as i64 - nodes_no as i64
    }
}

/// Basis change by Fourier transformation along one axis, turning a
/// position grid into the momentum grid of the same length (and back).
#[derive(Clone)]
pub struct FFTTransformation {
    pub dimension_no: usize,
    pub dimension_size: usize,
    pub grid_transformation: Grid,
}

impl View for FFTTransformation {
    type V = TransView;

    open spec fn view(&self) -> TransView {
        TransView::Plain {
            dimension_no: self.dimension_no,
            dimension_size: self.dimension_size,
            held_name: self.grid_transformation@.name,
        }
    }
}

impl FFTTransformation {
    /// Structural well-formedness: the held dual grid describes the target
    /// axis with the expected node count.
    pub open spec fn inv(self) -> bool {
        &&& self.grid_transformation@.dimension_no == self.dimension_no
        &&& self.grid_transformation@.nodes_no == self.dimension_size
    }

    /// Creates a Fourier transformation along `grid`'s axis whose dual grid
    /// carries the name `transformed_grid_name`; the dual has the same axis
    /// index and node count, and its momentum nodes and weights are built
    /// by the numerical layer.
    pub fn new(grid: &Grid, transformed_grid_name: String) -> (transformation: FFTTransformation)
        ensures
            transformation.inv(),
            transformation.dimension_no == grid@.dimension_no,
            transformation.dimension_size == grid@.nodes_no,
            transformation@.held_name() == transformed_grid_name@,
    {
        let grid_transformation = Grid::new(
            transformed_grid_name,
            grid.dimension_no,
            grid.nodes_no,
        );
        FFTTransformation {
            dimension_no: grid.dimension_no,
            dimension_size: grid.nodes_no,
            grid_transformation,
        }
    }

    /// Whether the transformation fits the wave function's shape.
    pub fn compatible(&self, wave_function: &WaveFunction) -> (compatible: bool)
        ensures
            compatible == trans_compat(self@, wave_function@.shape),
    {
        self.dimension_no < wave_function.shape.len() && wave_function.shape[self.dimension_no]
            == self.dimension_size
    }

    /// Transforms the wave function to the dual basis: the axis grid and
    /// the held grid are exchanged and a norm recomputation becomes
    /// pending.  Rejects a wave function whose axis does not match.
    pub fn transform(&mut self, wave_function: &mut WaveFunction) -> (result: Result<
        (),
        CoreError,
    >)
        requires
            old(self).inv(),
            old(wave_function).inv(),
        ensures
            transform_post(*old(self), *old(wave_function), *final(self), *final(wave_function), result),
            final(self).inv(),
    {
        swap_step(
            self.dimension_no,
            &mut self.grid_transformation,
            self.dimension_size,
            wave_function,
        )
    }

    /// Returns the wave function to the original basis; structurally the
    /// same exchange as [`FFTTransformation::transform`].
    pub fn inverse_transform(&mut self, wave_function: &mut WaveFunction) -> (result: Result<
        (),
        CoreError,
    >)
        requires
            old(self).inv(),
            old(wave_function).inv(),
        ensures
            transform_post(*old(self), *old(wave_function), *final(self), *final(wave_function), result),
            final(self).inv(),
    {
        swap_step(
            self.dimension_no,
            &mut self.grid_transformation,
            self.dimension_size,
            wave_function,
        )
    }
}

/// Shared contract of the forward and inverse call of every transformation
/// `T` with a view and an `inv`: on success the axis grid and the held dual
/// grid are exchanged and the norm flag is raised; a shape mismatch leaves
/// both sides untouched.
pub open spec fn transform_post<T: View<V = TransView>>(
    old_t: T,
    old_wf: WaveFunction,
    new_t: T,
    new_wf: WaveFunction,
    result: Result<(), CoreError>,
) -> bool {
    &&& new_wf.inv()
    &&& new_wf.shape@ == old_wf.shape@
    &&& (result is Ok <==> trans_compat(old_t@, old_wf@.shape))
    &&& (result is Ok ==> {
        &&& new_wf@ == transformed(old_wf@, old_t@.dimension_no() as int, old_t@.held_name())
        &&& new_t@ == old_t@.with_held_name(old_wf@.names[old_t@.dimension_no() as int])
    })
    &&& (result is Err ==> result == Result::<(), CoreError>::Err(CoreError::ShapeMismatch)
        && new_wf == old_wf && new_t@ == old_t@)
}

/// Basis change by a dense matrix along one axis, with an explicit forward
/// and inverse matrix supplied by the numerical layer.
#[derive(Clone)]
pub struct MatrixTransformation {
    pub dimension_no: usize,
    pub dimension_size: usize,
    pub grid_transformation: Grid,
}

impl View for MatrixTransformation {
    type V = TransView;

    open spec fn view(&self) -> TransView {
        TransView::Plain {
            dimension_no: self.dimension_no,
            dimension_size: self.dimension_size,
            held_name: self.grid_transformation@.name,
        }
    }
}

impl MatrixTransformation {
    /// Structural well-formedness, as for [`FFTTransformation::inv`].
    pub open spec fn inv(self) -> bool {
        &&& self.grid_transformation@.dimension_no == self.dimension_no
        &&& self.grid_transformation@.nodes_no == self.dimension_size
    }

    /// Creates a matrix transformation along `grid`'s axis holding
    /// `grid_transformation` as the dual grid.  The dual must describe the
    /// same axis with the same node count.
    pub fn new(grid: &Grid, grid_transformation: Grid) -> (result: Result<
        MatrixTransformation,
        CoreError,
    >)
        ensures
            result is Ok <==> (grid_transformation@.dimension_no == grid@.dimension_no
                && grid_transformation@.nodes_no == grid@.nodes_no),
            result is Err ==> result == Result::<MatrixTransformation, CoreError>::Err(
                CoreError::ShapeMismatch,
            ),
            result matches Ok(transformation) ==> {
                &&& transformation.inv()
                &&& transformation.dimension_no == grid@.dimension_no
                &&& transformation.dimension_size == grid@.nodes_no
                &&& transformation@.held_name() == grid_transformation@.name
            },
    {
        if grid_transformation.dimension_no != grid.dimension_no || grid_transformation.nodes_no
            != grid.nodes_no {
            return Err(CoreError::ShapeMismatch);
        }
        Ok(
            MatrixTransformation {
                dimension_no: grid.dimension_no,
                dimension_size: grid.nodes_no,
                grid_transformation,
            },
        )
    }

    /// Accepts a forward and an inverse matrix exactly when both are square
    /// of the axis length.
    pub fn set_diagonalization_matrix(
        &self,
        rows: usize,
        columns: usize,
        inverse_rows: usize,
        inverse_columns: usize,
    ) -> (result: Result<(), CoreError>)
        ensures
            result is Ok <==> (rows == self.dimension_size && columns == self.dimension_size
                && inverse_rows == self.dimension_size && inverse_columns == self.dimension_size),
            result is Err ==> result == Result::<(), CoreError>::Err(CoreError::ShapeMismatch),
    {
        if rows == self.dimension_size && columns == self.dimension_size && inverse_rows
            == self.dimension_size && inverse_columns == self.dimension_size {
            Ok(())
        } else {
            Err(CoreError::ShapeMismatch)
        }
    }

    /// Whether the transformation fits the wave function's shape.
    pub fn compatible(&self, wave_function: &WaveFunction) -> (compatible: bool)
        ensures
            compatible == trans_compat(self@, wave_function@.shape),
    {
        self.dimension_no < wave_function.shape.len() && wave_function.shape[self.dimension_no]
            == self.dimension_size
    }

    /// Applies the forward matrix to every lane: structurally the exchange
    /// of the axis grid for the held dual grid.
    pub fn transform(&mut self, wave_function: &mut WaveFunction) -> (result: Result<
        (),
        CoreError,
    >)
        requires
            old(self).inv(),
            old(wave_function).inv(),
        ensures
            transform_post(*old(self), *old(wave_function), *final(self), *final(wave_function), result),
            final(self).inv(),
    {
        swap_step(
            self.dimension_no,
            &mut self.grid_transformation,
            self.dimension_size,
            wave_function,
        )
    }

    /// Applies the inverse matrix to every lane; structurally the same
    /// exchange as [`MatrixTransformation::transform`].
    pub fn inverse_transform(&mut self, wave_function: &mut WaveFunction) -> (result: Result<
        (),
        CoreError,
    >)
        requires
            old(self).inv(),
            old(wave_function).inv(),
        ensures
            transform_post(*old(self), *old(wave_function), *final(self), *final(wave_function), result),
            final(self).inv(),
    {
        swap_step(
            self.dimension_no,
            &mut self.grid_transformation,
            self.dimension_size,
            wave_function,
        )
    }
}

/// Basis change by one dense matrix per index of an outer conditioning
/// axis: each slice along that axis is transformed by its own matrix.
#[derive(Clone)]
pub struct StateMatrixTransformation {
    pub dimension_no: usize,
    pub dimension_no_dependent: usize,
    pub dimension_size: usize,
    pub matrices_no: usize,
    pub grid_transformation: Grid,
}

impl View for StateMatrixTransformation {
    type V = TransView;

    open spec fn view(&self) -> TransView {
        TransView::PerState {
            dimension_no: self.dimension_no,
            dimension_no_dependent: self.dimension_no_dependent,
            dimension_size: self.dimension_size,
            matrices_no: self.matrices_no,
            held_name: self.grid_transformation@.name,
        }
    }
}

impl StateMatrixTransformation {
    /// Structural well-formedness: the held dual grid matches the target
    /// axis and the conditioning axis lies outside it.
    pub open spec fn inv(self) -> bool {
        &&& self.grid_transformation@.dimension_no == self.dimension_no
        &&& self.grid_transformation@.nodes_no == self.dimension_size
        &&& self.dimension_no < self.dimension_no_dependent
    }

    /// Creates a per-state matrix transformation along `grid`'s axis,
    /// conditioned by the outer axis `dimension_no_dependent`, holding
    /// `grid_transformation` as the dual grid.  The conditioning axis must
    /// lie outside the target axis and the dual must describe the target
    /// axis with the same node count.  No matrices are recorded yet.
    pub fn new(dimension_no_dependent: usize, grid: &Grid, grid_transformation: Grid) -> (result:
        Result<StateMatrixTransformation, CoreError>)
        ensures
            result is Ok <==> (grid@.dimension_no < dimension_no_dependent
                && grid_transformation@.dimension_no == grid@.dimension_no
                && grid_transformation@.nodes_no == grid@.nodes_no),
            result is Err ==> (result == Result::<StateMatrixTransformation, CoreError>::Err(
                CoreError::InvariantViolation,
            ) <==> !(grid@.dimension_no < dimension_no_dependent)) && (result == Result::<
                StateMatrixTransformation,
                CoreError,
            >::Err(CoreError::ShapeMismatch) <==> (grid@.dimension_no < dimension_no_dependent)),
            result matches Ok(transformation) ==> {
                &&& transformation.inv()
                &&& transformation.dimension_no == grid@.dimension_no
                &&& transformation.dimension_no_dependent == dimension_no_dependent
                &&& transformation.dimension_size == grid@.nodes_no
                &&& transformation.matrices_no == 0
                &&& transformation@.held_name() == grid_transformation@.name
            },
    {
        if grid.dimension_no >= dimension_no_dependent {
            return Err(CoreError::InvariantViolation);
        }
        if grid_transformation.dimension_no != grid.dimension_no || grid_transformation.nodes_no
            != grid.nodes_no {
            return Err(CoreError::ShapeMismatch);
        }
        Ok(
            StateMatrixTransformation {
                dimension_no: grid.dimension_no,
                dimension_no_dependent,
                dimension_size: grid.nodes_no,
                matrices_no: 0,
                grid_transformation,
            },
        )
    }

    /// Records a new stack of per-state matrices: `matrices_no` forward
    /// matrices and as many inverses, each square of the axis length.
    pub fn set_diagonalization_matrices(
        &mut self,
        matrices_no: usize,
        matrix_size: usize,
    ) -> (result: Result<(), CoreError>)
        ensures
            result is Ok <==> matrix_size == old(self).dimension_size,
            result is Ok ==> *final(self) == (StateMatrixTransformation {
                matrices_no,
                ..*old(self)
            }),
            result is Err ==> result == Result::<(), CoreError>::Err(CoreError::ShapeMismatch)
                && *final(self) == *old(self),
    {
        if matrix_size != self.dimension_size {
            return Err(CoreError::ShapeMismatch);
        }
        self.matrices_no = matrices_no;
        Ok(())
    }

    /// Whether the transformation fits the wave function's shape: the
    /// target axis matches and there is one matrix per index of the
    /// conditioning axis.
    pub fn compatible(&self, wave_function: &WaveFunction) -> (compatible: bool)
        ensures
            compatible == trans_compat(self@, wave_function@.shape),
    {
        self.dimension_no < wave_function.shape.len() && self.dimension_no_dependent
            < wave_function.shape.len() && self.dimension_no < self.dimension_no_dependent
            && wave_function.shape[self.dimension_no] == self.dimension_size
            && wave_function.shape[self.dimension_no_dependent] == self.matrices_no
    }

    /// Transforms each slice with its own forward matrix: structurally the
    /// exchange of the axis grid for the held dual grid.
    pub fn transform(&mut self, wave_function: &mut WaveFunction) -> (result: Result<
        (),
        CoreError,
    >)
        requires
            old(self).inv(),
            old(wave_function).inv(),
        ensures
            transform_post(*old(self), *old(wave_function), *final(self), *final(wave_function), result),
            final(self).inv(),
    {
        if !self.compatible(wave_function) {
            return Err(CoreError::ShapeMismatch);
        }
        wave_function.swap_grid(self.dimension_no, &mut self.grid_transformation);
        Ok(())
    }

    /// Transforms each slice with its own inverse matrix; structurally the
    /// same exchange as [`StateMatrixTransformation::transform`].
    pub fn inverse_transform(&mut self, wave_function: &mut WaveFunction) -> (result: Result<
        (),
        CoreError,
    >)
        requires
            old(self).inv(),
            old(wave_function).inv(),
        ensures
            transform_post(*old(self), *old(wave_function), *final(self), *final(wave_function), result),
            final(self).inv(),
    {
        if !self.compatible(wave_function) {
            return Err(CoreError::ShapeMismatch);
        }
        wave_function.swap_grid(self.dimension_no, &mut self.grid_transformation);
        Ok(())
    }
}

/// Shared exchange step of the plain transformations: checks the axis,
/// swaps the held dual grid with the axis grid, raises the norm flag.
fn swap_step(
    dimension_no: usize,
    held: &mut Grid,
    dimension_size: usize,
    wave_function: &mut WaveFunction,
) -> (result: Result<(), CoreError>)
    requires
        old(held)@.dimension_no == dimension_no,
        old(held)@.nodes_no == dimension_size,
        old(wave_function).inv(),
    ensures
        final(wave_function).inv(),
        final(wave_function).shape@ == old(wave_function).shape@,
        final(held)@.dimension_no == dimension_no,
        final(held)@.nodes_no == dimension_size,
        result is Ok <==> ((dimension_no as int) < old(wave_function)@.shape.len() && old(
            wave_function,
        )@.shape[dimension_no as int] == dimension_size),
        result is Ok ==> {
            &&& final(wave_function)@ == transformed(
                old(wave_function)@,
                dimension_no as int,
                old(held)@.name,
            )
            &&& final(held)@.name == old(wave_function)@.names[dimension_no as int]
        },
        result is Err ==> result == Result::<(), CoreError>::Err(CoreError::ShapeMismatch)
            && *final(wave_function) == *old(wave_function) && *final(held) == *old(held),
{
    if !(dimension_no < wave_function.shape.len() && wave_function.shape[dimension_no]
        == dimension_size) {
        return Err(CoreError::ShapeMismatch);
    }
    wave_function.swap_grid(dimension_no, held);
    Ok(())
}

} // verus!
