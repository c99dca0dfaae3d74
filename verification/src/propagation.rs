//! The operation stack and the symmetric split-operator stepper.
//!
//! A step is a double sweep over the stack: every operation acts once in
//! order (the forward, first-half sweep), then every operation but the last
//! acts again in reverse order (the second-half sweep).  The last operation
//! is the middle of the symmetric step and acts once at full step.
//! Transformations use their forward direction on the sweep selected by
//! their [`Order`] and the inverse direction on the other; savers and
//! controls act only on the halves selected by their [`Apply`] mask.
//!
//! [`Propagation::step`] executes the bookkeeping of one step on the
//! structural state and its contract pins the result to a fold of the
//! per-operation effects; [`Propagation::step_schedule`] hands the same
//! sweep to the numerical layer as an explicit list of actions to perform
//! on the amplitude data.

use vstd::prelude::*;

use crate::control::Apply;
use crate::control::BorderDumping;
use crate::control::CtrlView;
use crate::control::LeakControl;
use crate::control::ctrl_compat;
use crate::control::ctrl_effect;
use crate::error::CoreError;
use crate::propagator::NDimPropagator;
use crate::propagator::NonDiagPropagator;
use crate::propagator::OneDimPropagator;
use crate::propagator::PropView;
use crate::propagator::prop_compat;
use crate::propagator::prop_effect;
use crate::time_grid::TimeGrid;
use crate::transformation::FFTTransformation;
use crate::transformation::MatrixTransformation;
use crate::transformation::Order;
use crate::transformation::StateMatrixTransformation;
use crate::transformation::TransView;
use crate::transformation::trans_compat;
use crate::wave_function::WaveFunction;
use crate::wave_function::WfView;
use crate::wave_function::transformed;

verus! {

/// One of the three diagonal propagator shapes.
#[derive(Clone)]
pub enum PropagatorKind {
    OneDim(OneDimPropagator),
    NDim(NDimPropagator),
    NonDiag(NonDiagPropagator),
}

impl View for PropagatorKind {
    type V = PropView;

    open spec fn view(&self) -> PropView {
        match self {
            PropagatorKind::OneDim(p) => p@,
            PropagatorKind::NDim(p) => p@,
            PropagatorKind::NonDiag(p) => p@,
        }
    }
}

/// One of the three basis-transformation shapes.
#[derive(Clone)]
pub enum TransformationKind {
    Fft(FFTTransformation),
    Matrix(MatrixTransformation),
    PerState(StateMatrixTransformation),
}

impl View for TransformationKind {
    type V = TransView;

    open spec fn view(&self) -> TransView {
        match self {
            TransformationKind::Fft(t) => t@,
            TransformationKind::Matrix(t) => t@,
            TransformationKind::PerState(t) => t@,
        }
    }
}

impl TransformationKind {
    /// Structural well-formedness of the held dual grid.
    pub open spec fn inv(self) -> bool {
        match self {
            TransformationKind::Fft(t) => t.inv(),
            TransformationKind::Matrix(t) => t.inv(),
            TransformationKind::PerState(t) => t.inv(),
        }
    }
}

/// One of the two control shapes.
#[derive(Clone)]
pub enum ControlKind {
    Leak(LeakControl),
    Border(BorderDumping),
}

impl View for ControlKind {
    type V = CtrlView;

    open spec fn view(&self) -> CtrlView {
        match self {
            ControlKind::Leak(c) => c@,
            ControlKind::Border(c) => c@,
        }
    }
}

impl ControlKind {
    /// Structural well-formedness.
    pub open spec fn inv(self) -> bool {
        match self {
            ControlKind::Leak(_) => true,
            ControlKind::Border(c) => c.inv(),
        }
    }
}

/// One tagged entry of the operation stack.
#[derive(Clone)]
pub enum Operation {
    Propagator(PropagatorKind),
    Transformation(TransformationKind, Order),
    Saver(Apply),
    Control(ControlKind, Apply),
}

/// Mathematical content of one stack entry.
pub enum OpView {
    Propagator(PropView),
    Transformation(TransView, Order),
    Saver(Apply),
    Control(CtrlView, Apply),
}

impl View for Operation {
    type V = OpView;

    open spec fn view(&self) -> OpView {
        match self {
            Operation::Propagator(p) => OpView::Propagator(p@),
            Operation::Transformation(t, order) => OpView::Transformation(t@, *order),
            Operation::Saver(apply) => OpView::Saver(*apply),
            Operation::Control(c, apply) => OpView::Control(c@, *apply),
        }
    }
}

impl Operation {
    /// Structural well-formedness of one stack entry.
    pub open spec fn inv(self) -> bool {
        match self {
            Operation::Propagator(_) => true,
            Operation::Transformation(t, _) => t.inv(),
            Operation::Saver(apply) => apply != Apply::Both,
            Operation::Control(c, _) => c.inv(),
        }
    }
}

/// Whether one operation fits a wave function of the given tensor shape.
pub open spec fn op_compat(op: OpView, shape: Seq<usize>) -> bool {
    match op {
        OpView::Propagator(p) => prop_compat(p, shape),
        OpView::Transformation(t, _) => trans_compat(t, shape),
        OpView::Saver(_) => true,
        OpView::Control(c, _) => ctrl_compat(c, shape),
    }
}

/// Whether every operation of a stack fits the given tensor shape.
pub open spec fn stack_compat(ops: Seq<OpView>, shape: Seq<usize>) -> bool {
    forall|k: int| 0 <= k < ops.len() ==> op_compat(#[trigger] ops[k], shape)
}

/// Bookkeeping effect of one operation acting on one half of a step: the
/// resulting operation (a transformation now holds the grid it displaced)
/// and the resulting wave-function state.  A saver observes without
/// altering the structural state; a control acts only if its mask selects
/// this half.
pub open spec fn op_half_effect(op: OpView, v: WfView, first: bool) -> (OpView, WfView) {
    match op {
        OpView::Propagator(p) => (op, prop_effect(p, v)),
        OpView::Transformation(t, order) => (
            OpView::Transformation(t.with_held_name(v.names[t.dimension_no() as int]), order),
            transformed(v, t.dimension_no() as int, t.held_name()),
        ),
        OpView::Saver(_) => (op, v),
        OpView::Control(c, apply) => {
            let acts = if first {
                apply.spec_includes_first_half()
            } else {
                apply.spec_includes_second_half()
            };
            if acts {
                (op, ctrl_effect(c, v))
            } else {
                (op, v)
            }
        },
    }
}

/// The state a step folds over: the stack contents and the wave-function
/// bookkeeping state.
pub struct StepState {
    pub ops: Seq<OpView>,
    pub wf: WfView,
}

/// One half-step action of the operation at position `i`.
pub open spec fn apply_half_at(s: StepState, i: int, first: bool) -> StepState {
    let (op2, wf2) = op_half_effect(s.ops[i], s.wf, first);
    StepState { ops: s.ops.update(i, op2), wf: wf2 }
}

/// The forward sweep from position `i` on: every operation acts once, in
/// order, on the first half.
pub open spec fn forward_from(s: StepState, i: int) -> StepState
    decreases s.ops.len() - i,
{
    if i < 0 || i >= s.ops.len() {
        s
    } else {
        forward_from(apply_half_at(s, i, true), i + 1)
    }
}

/// The reverse sweep from position `i` down: every operation acts once, in
/// reverse order, on the second half.
pub open spec fn reverse_from(s: StepState, i: int) -> StepState
    decreases i + 1,
{
    if i < 0 || i >= s.ops.len() {
        s
    } else {
        reverse_from(apply_half_at(s, i, false), i - 1)
    }
}

/// One full symmetric step: the forward sweep over the whole stack, then
/// the reverse sweep over everything but the last operation.
pub open spec fn spec_step(s: StepState) -> StepState {
    if s.ops.len() == 0 {
        s
    } else {
        reverse_from(forward_from(s, 0), s.ops.len() - 2)
    }
}

/// `step_no` repetitions of [`spec_step`].
pub open spec fn spec_propagate(s: StepState, step_no: nat) -> StepState
    decreases step_no,
{
    if step_no == 0 {
        s
    } else {
        spec_propagate(spec_step(s), (step_no - 1) as nat)
    }
}

/// What one entry of the step schedule asks the numerical layer to do to
/// the amplitude data.
#[derive(Clone, Copy, Debug, PartialEq, Eq, Structural)]
pub enum StepAction {
    ApplyPropagator,
    TransformForward,
    TransformInverse,
    SaverMonitor,
    ControlFirstHalf,
    ControlSecondHalf,
    Idle,
}

/// The action of one operation on the forward (first-half) sweep.
pub open spec fn first_action(op: OpView) -> StepAction {
    match op {
        OpView::Propagator(_) => StepAction::ApplyPropagator,
        OpView::Transformation(_, order) => if order is Normal {
            StepAction::TransformForward
        } else {
            StepAction::TransformInverse
        },
        OpView::Saver(apply) => if apply.spec_includes_first_half() {
            StepAction::SaverMonitor
        } else {
            StepAction::Idle
        },
        OpView::Control(_, apply) => if apply.spec_includes_first_half() {
            StepAction::ControlFirstHalf
        } else {
            StepAction::Idle
        },
    }
}

/// The action of one operation on the reverse (second-half) sweep: the
/// transformation direction is the opposite of the forward one.
pub open spec fn second_action(op: OpView) -> StepAction {
    match op {
        OpView::Propagator(_) => StepAction::ApplyPropagator,
        OpView::Transformation(_, order) => if order is Normal {
            StepAction::TransformInverse
        } else {
            StepAction::TransformForward
        },
        OpView::Saver(apply) => if apply.spec_includes_second_half() {
            StepAction::SaverMonitor
        } else {
            StepAction::Idle
        },
        OpView::Control(_, apply) => if apply.spec_includes_second_half() {
            StepAction::ControlSecondHalf
        } else {
            StepAction::Idle
        },
    }
}

/// The full action sequence of one symmetric step, as pairs of stack
/// position and action: positions `0, 1, ..., n-1` acting on the first
/// half, then positions `n-2, ..., 1, 0` acting on the second half.
pub open spec fn step_trace(ops: Seq<OpView>) -> Seq<(usize, StepAction)> {
    if ops.len() == 0 {
        Seq::empty()
    } else {
        Seq::new(ops.len(), |i: int| (i as usize, first_action(ops[i]))) + Seq::new(
            (ops.len() - 1) as nat,
            |j: int| ((ops.len() - 2 - j) as usize, second_action(ops[ops.len() - 2 - j])),
        )
    }
}

/// Operation stack defining one split-operator propagation step.  The last
/// appended operation is the central one, acting once at full step.
pub struct OperationStack {
    pub stack: Vec<Operation>,
}

impl View for OperationStack {
    type V = Seq<OpView>;

    open spec fn view(&self) -> Seq<OpView> {
        Seq::new(self.stack@.len(), |i: int| self.stack@[i]@)
    }
}

impl OperationStack {
    /// Structural well-formedness of every entry.
    pub open spec fn inv(self) -> bool {
        forall|k: int| 0 <= k < self.stack@.len() ==> (#[trigger] self.stack@[k]).inv()
    }

    /// Creates an empty stack.
    pub fn new() -> (stack: OperationStack)
        ensures
            stack.inv(),
            stack@ == Seq::<OpView>::empty(),
    {
        let stack = OperationStack { stack: Vec::new() };
        assert(stack@ =~= Seq::<OpView>::empty());
        stack
    }

    /// The number of operations performed during the forward sweep of one
    /// step.
    pub fn operations_len(&self) -> (len: usize)
        ensures
            len == self@.len(),
    {
        self.stack.len()
    }

    /// Appends a propagator.
    pub fn add_propagator(&mut self, propagator: PropagatorKind)
        requires
            old(self).inv(),
        ensures
            final(self).inv(),
            final(self)@ == old(self)@.push(OpView::Propagator(propagator@)),
    {
        let ghost expected = old(self)@.push(OpView::Propagator(propagator@));
        self.stack.push(Operation::Propagator(propagator));
        assert(self@ =~= expected);
    }

    /// Appends a transformation; `order` selects which of its directions
    /// the forward sweep uses.
    pub fn add_transformation(&mut self, transformation: TransformationKind, order: Order)
        requires
            old(self).inv(),
            transformation.inv(),
        ensures
            final(self).inv(),
            final(self)@ == old(self)@.push(OpView::Transformation(transformation@, order)),
    {
        let ghost expected = old(self)@.push(OpView::Transformation(transformation@, order));
        self.stack.push(Operation::Transformation(transformation, order));
        assert(self@ =~= expected);
    }

    /// Appends a saver acting on the halves selected by `apply`; a saver
    /// monitors once per selected half, so both halves at once are not
    /// accepted.
    pub fn add_saver(&mut self, apply: Apply)
        requires
            old(self).inv(),
            apply != Apply::Both,
        ensures
            final(self).inv(),
            final(self)@ == old(self)@.push(OpView::Saver(apply)),
    {
        let ghost expected = old(self)@.push(OpView::Saver(apply));
        self.stack.push(Operation::Saver(apply));
        assert(self@ =~= expected);
    }

    /// Appends a control acting on the halves selected by `apply`.
    pub fn add_control(&mut self, control: ControlKind, apply: Apply)
        requires
            old(self).inv(),
            control.inv(),
        ensures
            final(self).inv(),
            final(self)@ == old(self)@.push(OpView::Control(control@, apply)),
    {
        let ghost expected = old(self)@.push(OpView::Control(control@, apply));
        self.stack.push(Operation::Control(control, apply));
        assert(self@ =~= expected);
    }

    /// The action sequence of one step, for the numerical layer to replay
    /// on the amplitude data: every operation once in order acting on the
    /// first half, then every operation but the last in reverse order
    /// acting on the second half.
    pub fn step_schedule(&self) -> (schedule: Vec<(usize, StepAction)>)
        ensures
            schedule@ == step_trace(self@),
    {
        let mut schedule: Vec<(usize, StepAction)> = Vec::new();
        let n = self.stack.len();
        if n == 0 {
            assert(schedule@ =~= step_trace(self@));
            return schedule;
        }
        let mut i: usize = 0;
        while i < n
            invariant
                n == self@.len(),
                i <= n,
                schedule@.len() == i,
                forall|k: int|
                    0 <= k < i ==> schedule@[k] == (k as usize, first_action(
                        #[trigger] self@[k],
                    )),
            decreases n - i,
        {
            let action = first_action_exec(&self.stack[i]);
            schedule.push((i, action));
            i += 1;
        }
        let mut k: usize = 0;
        while k < n - 1
            invariant
                n == self@.len(),
                1 <= n,
                k <= n - 1,
                schedule@.len() == n + k,
                forall|j: int|
                    0 <= j < n ==> schedule@[j] == (j as usize, first_action(
                        #[trigger] self@[j],
                    )),
                forall|j: int|
                    0 <= j < k ==> schedule@[n + j] == ((n - 2 - j) as usize, second_action(
                        #[trigger] self@[n - 2 - j],
                    )),
            decreases n - 1 - k,
        {
            let position = n - 2 - k;
            let action = second_action_exec(&self.stack[position]);
            schedule.push((position, action));
            k += 1;
        }
        assert(schedule@ =~= step_trace(self@));
        schedule
    }

    /// Whether a mean-energy query is answerable over this stack: in
    /// imaginary time the first entry must be a leak control carrying a
    /// loss checker, and the missing checker is reported otherwise.
    pub fn mean_energy_ready(&self, im_time: bool) -> (result: Result<(), CoreError>)
        ensures
            result is Ok <==> spec_mean_energy_ready(self@, im_time),
            result is Err ==> result == Result::<(), CoreError>::Err(CoreError::MissingLossChecker),
    {
        if !im_time {
            return Ok(());
        }
        if self.stack.len() == 0 {
            return Err(CoreError::MissingLossChecker);
        }
        let ready = match &self.stack[0] {
            Operation::Control(ControlKind::Leak(control), _) => control.loss_checked,
            _ => false,
        };
        if ready {
            Ok(())
        } else {
            Err(CoreError::MissingLossChecker)
        }
    }

    /// Whether every operation fits the wave function's shape.
    pub fn compatible(&self, wave_function: &WaveFunction) -> (compatible: bool)
        ensures
            compatible == stack_compat(self@, wave_function@.shape),
    {
        let mut k: usize = 0;
        while k < self.stack.len()
            invariant
                k <= self.stack@.len(),
                forall|j: int| 0 <= j < k ==> op_compat(#[trigger] self@[j], wave_function@.shape),
            decreases self.stack@.len() - k,
        {
            if !self.stack[k].compatible(wave_function) {
                assert(!op_compat(self@[k as int], wave_function@.shape));
                return false;
            }
            k += 1;
        }
        true
    }
}

impl Operation {
    /// Whether this operation fits the wave function's shape.
    pub fn compatible(&self, wave_function: &WaveFunction) -> (compatible: bool)
        ensures
            compatible == op_compat(self@, wave_function@.shape),
    {
        match self {
            Operation::Propagator(PropagatorKind::OneDim(p)) => p.compatible(wave_function),
            Operation::Propagator(PropagatorKind::NDim(p)) => p.compatible(wave_function),
            Operation::Propagator(PropagatorKind::NonDiag(p)) => p.compatible(wave_function),
            Operation::Transformation(TransformationKind::Fft(t), _) => t.compatible(
                wave_function,
            ),
            Operation::Transformation(TransformationKind::Matrix(t), _) => t.compatible(
                wave_function,
            ),
            Operation::Transformation(TransformationKind::PerState(t), _) => t.compatible(
                wave_function,
            ),
            Operation::Saver(_) => true,
            Operation::Control(ControlKind::Leak(_), _) => true,
            Operation::Control(ControlKind::Border(c), _) => c.compatible(wave_function),
        }
    }

    /// Performs the bookkeeping of this operation's action on one half of
    /// a step (`first` selects the sweep).  Requires a compatible shape;
    /// the effect is exactly [`op_half_effect`].
    pub fn apply_half(&mut self, wave_function: &mut WaveFunction, first: bool) -> (result: Result<
        (),
        CoreError,
    >)
        requires
            old(self).inv(),
            old(wave_function).inv(),
            op_compat(old(self)@, old(wave_function)@.shape),
        ensures
            final(self).inv(),
            final(wave_function).inv(),
            final(wave_function).shape@ == old(wave_function).shape@,
            result is Ok,
            ({
                let (op2, wf2) = op_half_effect(old(self)@, old(wave_function)@, first);
                final(self)@ == op2 && final(wave_function)@ == wf2
            }),
    {
        match self {
            Operation::Propagator(PropagatorKind::OneDim(p)) => p.apply(wave_function),
            Operation::Propagator(PropagatorKind::NDim(p)) => p.apply(wave_function),
            Operation::Propagator(PropagatorKind::NonDiag(p)) => p.apply(wave_function),
            Operation::Transformation(TransformationKind::Fft(t), order) => {
                let forward = if first {
                    *order == Order::Normal
                } else {
                    *order == Order::InverseFirst
                };
                if forward {
                    t.transform(wave_function)
                } else {
                    t.inverse_transform(wave_function)
                }
            },
            Operation::Transformation(TransformationKind::Matrix(t), order) => {
                let forward = if first {
                    *order == Order::Normal
                } else {
                    *order == Order::InverseFirst
                };
                if forward {
                    t.transform(wave_function)
                } else {
                    t.inverse_transform(wave_function)
                }
            },
            Operation::Transformation(TransformationKind::PerState(t), order) => {
                let forward = if first {
                    *order == Order::Normal
                } else {
                    *order == Order::InverseFirst
                };
                if forward {
                    t.transform(wave_function)
                } else {
                    t.inverse_transform(wave_function)
                }
            },
            Operation::Saver(_) => Ok(()),
            Operation::Control(ControlKind::Leak(c), apply) => {
                let acts = if first {
                    apply.includes_first_half()
                } else {
                    apply.includes_second_half()
                };
                if acts {
                    if first {
                        c.first_half(wave_function);
                    } else {
                        c.second_half(wave_function);
                    }
                }
                Ok(())
            },
            Operation::Control(ControlKind::Border(c), apply) => {
                let acts = if first {
                    apply.includes_first_half()
                } else {
                    apply.includes_second_half()
                };
                if acts {
                    if first {
                        c.first_half(wave_function)
                    } else {
                        c.second_half(wave_function)
                    }
                } else {
                    Ok(())
                }
            },
        }
    }
}

/// A half-step action changes neither the shape the state is checked
/// against nor any operation's compatibility with it.
proof fn lemma_half_effect_preserves(op: OpView, v: WfView, first: bool, shape: Seq<usize>)
    ensures
        op_half_effect(op, v, first).1.shape == v.shape,
        op_compat(op_half_effect(op, v, first).0, shape) == op_compat(op, shape),
{
}

/// A half-step action at position `i` keeps the stack length, the shape,
/// and compatibility of the whole stack.
proof fn lemma_apply_half_at_preserves(s: StepState, i: int, first: bool)
    requires
        0 <= i < s.ops.len(),
        stack_compat(s.ops, s.wf.shape),
    ensures
        apply_half_at(s, i, first).ops.len() == s.ops.len(),
        apply_half_at(s, i, first).wf.shape == s.wf.shape,
        stack_compat(apply_half_at(s, i, first).ops, apply_half_at(s, i, first).wf.shape),
{
    let s2 = apply_half_at(s, i, first);
    lemma_half_effect_preserves(s.ops[i], s.wf, first, s.wf.shape);
    assert forall|k: int| 0 <= k < s2.ops.len() implies op_compat(#[trigger] s2.ops[k], s2.wf.shape) by {
        if k == i {
            lemma_half_effect_preserves(s.ops[i], s.wf, first, s.wf.shape);
        } else {
            assert(s2.ops[k] == s.ops[k]);
        }
    }
}

/// The forward sweep keeps the stack length, the shape, and compatibility.
proof fn lemma_forward_preserves(s: StepState, i: int)
    requires
        stack_compat(s.ops, s.wf.shape),
    ensures
        forward_from(s, i).ops.len() == s.ops.len(),
        forward_from(s, i).wf.shape == s.wf.shape,
        stack_compat(forward_from(s, i).ops, forward_from(s, i).wf.shape),
    decreases s.ops.len() - i,
{
    if i < 0 || i >= s.ops.len() {
    } else {
        lemma_apply_half_at_preserves(s, i, true);
        lemma_forward_preserves(apply_half_at(s, i, true), i + 1);
    }
}

/// The reverse sweep keeps the stack length, the shape, and compatibility.
proof fn lemma_reverse_preserves(s: StepState, i: int)
    requires
        stack_compat(s.ops, s.wf.shape),
    ensures
        reverse_from(s, i).ops.len() == s.ops.len(),
        reverse_from(s, i).wf.shape == s.wf.shape,
        stack_compat(reverse_from(s, i).ops, reverse_from(s, i).wf.shape),
    decreases i + 1,
{
    if i < 0 || i >= s.ops.len() {
    } else {
        lemma_apply_half_at_preserves(s, i, false);
        lemma_reverse_preserves(apply_half_at(s, i, false), i - 1);
    }
}

/// One full step keeps the stack length, the shape, and compatibility.
pub proof fn lemma_step_preserves(s: StepState)
    requires
        stack_compat(s.ops, s.wf.shape),
    ensures
        spec_step(s).ops.len() == s.ops.len(),
        spec_step(s).wf.shape == s.wf.shape,
        stack_compat(spec_step(s).ops, spec_step(s).wf.shape),
{
    if s.ops.len() == 0 {
    } else {
        lemma_forward_preserves(s, 0);
        lemma_reverse_preserves(forward_from(s, 0), s.ops.len() - 2);
    }
}

/// Whether a mean-energy query is answerable: in imaginary time the first
/// stack entry must be a leak control carrying a loss checker, whose
/// accumulated loss over one step yields the decay rate.
pub open spec fn spec_mean_energy_ready(ops: Seq<OpView>, im_time: bool) -> bool {
    im_time ==> (ops.len() > 0 && (ops[0] matches OpView::Control(
        CtrlView::Leak { loss_checked: true },
        _,
    )))
}

/// Performs the propagation of the wave function over the time grid by
/// repeating the symmetric split-operator step.
pub struct Propagation {
    pub wave_function: WaveFunction,
    pub time_grid: TimeGrid,
    pub operation_stack: OperationStack,
}

impl Propagation {
    /// Structural well-formedness of the wave function and of every
    /// stacked operation.
    pub open spec fn inv(self) -> bool {
        &&& self.wave_function.inv()
        &&& self.operation_stack.inv()
    }

    /// The step-fold state of this propagation.
    pub open spec fn state(self) -> StepState {
        StepState { ops: self.operation_stack@, wf: self.wave_function@ }
    }

    /// Creates a propagation from its three parts.
    pub fn new(
        wave_function: WaveFunction,
        time_grid: TimeGrid,
        operation_stack: OperationStack,
    ) -> (propagation: Propagation)
        requires
            wave_function.inv(),
            operation_stack.inv(),
        ensures
            propagation.inv(),
            propagation.wave_function == wave_function,
            propagation.time_grid == time_grid,
            propagation.operation_stack == operation_stack,
    {
        Propagation { wave_function, time_grid, operation_stack }
    }

    /// Replaces the wave function.
    pub fn set_wave_function(&mut self, wave_function: WaveFunction)
        requires
            old(self).inv(),
            wave_function.inv(),
        ensures
            final(self).inv(),
            final(self).wave_function == wave_function,
            final(self).time_grid == old(self).time_grid,
            final(self).operation_stack == old(self).operation_stack,
    {
        self.wave_function = wave_function;
    }

    /// Replaces the time grid.  Operations built for the previous step
    /// size keep their samples; the numerical layer must rebuild them.
    pub fn set_time_grid(&mut self, time_grid: TimeGrid)
        requires
            old(self).inv(),
        ensures
            final(self).inv(),
            final(self).time_grid == time_grid,
            final(self).wave_function == old(self).wave_function,
            final(self).operation_stack == old(self).operation_stack,
    {
        self.time_grid = time_grid;
    }

    /// Replaces the operation stack.
    pub fn set_operation_stack(&mut self, operation_stack: OperationStack)
        requires
            old(self).inv(),
            operation_stack.inv(),
        ensures
            final(self).inv(),
            final(self).operation_stack == operation_stack,
            final(self).wave_function == old(self).wave_function,
            final(self).time_grid == old(self).time_grid,
    {
        self.operation_stack = operation_stack;
    }

    /// The time grid used in the propagation.
    pub fn time_grid(&self) -> (time_grid: &TimeGrid)
        ensures
            *time_grid == self.time_grid,
    {
        &self.time_grid
    }

    /// The wave function used in the propagation.
    pub fn wave_function(&self) -> (wave_function: &WaveFunction)
        ensures
            *wave_function == self.wave_function,
    {
        &self.wave_function
    }

    /// The action sequence of one step, for the numerical layer to replay
    /// on the amplitude data.
    pub fn step_schedule(&self) -> (schedule: Vec<(usize, StepAction)>)
        ensures
            schedule@ == step_trace(self.operation_stack@),
    {
        self.operation_stack.step_schedule()
    }

    /// Performs the bookkeeping of one step in the propagation.  Rejects a
    /// stack with any operation that does not fit the wave function's
    /// shape, leaving the state untouched; otherwise the new state is
    /// exactly the fold of the half-step effects, forward then reverse
    /// minus the last operation.
    pub fn step(&mut self) -> (result: Result<(), CoreError>)
        requires
            old(self).inv(),
        ensures
            final(self).inv(),
            final(self).time_grid == old(self).time_grid,
            result is Ok <==> stack_compat(old(self).operation_stack@, old(self).wave_function@.shape),
            result is Ok ==> final(self).state() == spec_step(old(self).state()),
            result is Err ==> result == Result::<(), CoreError>::Err(CoreError::ShapeMismatch)
                && *final(self) == *old(self),
    {
        if !self.operation_stack.compatible(&self.wave_function) {
            return Err(CoreError::ShapeMismatch);
        }
        run_step(&mut self.operation_stack, &mut self.wave_function);
        Ok(())
    }

    /// Repeats [`Propagation::step`] for the number of steps on the time
    /// grid.  With at least one step to take, the stack must fit the wave
    /// function's shape; one step keeps shapes and fits, so all later
    /// steps fit too.
    pub fn propagate(&mut self) -> (result: Result<(), CoreError>)
        requires
            old(self).inv(),
        ensures
            final(self).inv(),
            final(self).time_grid == old(self).time_grid,
            result is Ok <==> (old(self).time_grid.step_no == 0 || stack_compat(
                old(self).operation_stack@,
                old(self).wave_function@.shape,
            )),
            result is Ok ==> final(self).state() == spec_propagate(
                old(self).state(),
                old(self).time_grid.step_no as nat,
            ),
            result is Err ==> result == Result::<(), CoreError>::Err(CoreError::ShapeMismatch)
                && *final(self) == *old(self),
    {
        let step_no = self.time_grid.step_no;
        if step_no == 0 {
            return Ok(());
        }
        if !self.operation_stack.compatible(&self.wave_function) {
            return Err(CoreError::ShapeMismatch);
        }
        let mut performed: usize = 0;
        while performed < step_no
            invariant
                performed <= step_no,
                self.inv(),
                self.time_grid == old(self).time_grid,
                step_no == old(self).time_grid.step_no,
                stack_compat(self.operation_stack@, self.wave_function@.shape),
                self.state() == spec_propagate(old(self).state(), performed as nat),
            decreases step_no - performed,
        {
            proof {
                lemma_step_preserves(self.state());
            }
            let stepped = self.step();
            assert(stepped is Ok);
            proof {
                lemma_propagate_unfold(old(self).state(), performed as nat);
            }
            performed += 1;
        }
        Ok(())
    }

    /// Whether a mean-energy query is answerable on this propagation; in
    /// imaginary time the first stack entry must be a leak control with a
    /// loss checker, and the missing checker is reported otherwise.
    pub fn mean_energy_requirement(&self) -> (result: Result<(), CoreError>)
        ensures
            result is Ok <==> spec_mean_energy_ready(self.operation_stack@, self.time_grid.im_time),
            result is Err ==> result == Result::<(), CoreError>::Err(CoreError::MissingLossChecker),
    {
        self.operation_stack.mean_energy_ready(self.time_grid.im_time)
    }
}

/// Appending one more step to a propagation fold.
proof fn lemma_propagate_unfold(s: StepState, performed: nat)
    ensures
        spec_step(spec_propagate(s, performed)) == spec_propagate(s, performed + 1),
    decreases performed,
{
    assert(spec_propagate(s, performed + 1) == spec_propagate(spec_step(s), performed));
    if performed == 0 {
        assert(spec_propagate(spec_step(s), 0) == spec_step(s));
        assert(spec_propagate(s, 0) == s);
    } else {
        lemma_propagate_unfold(spec_step(s), (performed - 1) as nat);
        assert(spec_propagate(s, performed) == spec_propagate(spec_step(s), (performed - 1) as nat));
    }
}

/// The forward then reverse sweep over the stack, with every operation
/// already checked against the wave function's shape.
fn run_step(operation_stack: &mut OperationStack, wave_function: &mut WaveFunction)
    requires
        old(operation_stack).inv(),
        old(wave_function).inv(),
        stack_compat(old(operation_stack)@, old(wave_function)@.shape),
    ensures
        final(operation_stack).inv(),
        final(wave_function).inv(),
        final(wave_function).shape@ == old(wave_function).shape@,
        ({
            let s2 = spec_step(StepState { ops: old(operation_stack)@, wf: old(wave_function)@ });
            final(operation_stack)@ == s2.ops && final(wave_function)@ == s2.wf
        }),
{
    let ghost s0 = StepState { ops: operation_stack@, wf: wave_function@ };
    let n = operation_stack.stack.len();
    if n == 0 {
        return ;
    }
    let mut i: usize = 0;
    while i < n
        invariant
            n == operation_stack@.len(),
            operation_stack.inv(),
            wave_function.inv(),
            i <= n,
            wave_function@.shape == s0.wf.shape,
            stack_compat(operation_stack@, wave_function@.shape),
            forward_from(s0, 0) == forward_from(
                StepState { ops: operation_stack@, wf: wave_function@ },
                i as int,
            ),
        decreases n - i,
    {
        let ghost s_before = StepState { ops: operation_stack@, wf: wave_function@ };
        let operation = &mut operation_stack.stack[i];
        let _ = operation.apply_half(wave_function, true);
        proof {
            let s_after = StepState { ops: operation_stack@, wf: wave_function@ };
            assert(s_after.ops =~= apply_half_at(s_before, i as int, true).ops);
            assert(s_after == apply_half_at(s_before, i as int, true));
            lemma_apply_half_at_preserves(s_before, i as int, true);
        }
        i += 1;
    }
    let ghost s_mid = StepState { ops: operation_stack@, wf: wave_function@ };
    proof {
        assert(forward_from(s_mid, n as int) == s_mid);
        assert(s_mid == forward_from(s0, 0));
    }
    let mut k: usize = 0;
    while k < n - 1
        invariant
            n == operation_stack@.len(),
            1 <= n,
            operation_stack.inv(),
            wave_function.inv(),
            k <= n - 1,
            wave_function@.shape == s0.wf.shape,
            stack_compat(operation_stack@, wave_function@.shape),
            reverse_from(s_mid, n - 2) == reverse_from(
                StepState { ops: operation_stack@, wf: wave_function@ },
                n - 2 - k,
            ),
        decreases n - 1 - k,
    {
        let position = n - 2 - k;
        let ghost s_before = StepState { ops: operation_stack@, wf: wave_function@ };
        let operation = &mut operation_stack.stack[position];
        let _ = operation.apply_half(wave_function, false);
        proof {
            let s_after = StepState { ops: operation_stack@, wf: wave_function@ };
            assert(s_after.ops =~= apply_half_at(s_before, position as int, false).ops);
            assert(s_after == apply_half_at(s_before, position as int, false));
            lemma_apply_half_at_preserves(s_before, position as int, false);
        }
        k += 1;
    }
    proof {
        let s_end = StepState { ops: operation_stack@, wf: wave_function@ };
        assert(reverse_from(s_end, -1) == s_end);
    }
}

/// The forward-sweep action of one operation.
fn first_action_exec(operation: &Operation) -> (action: StepAction)
    ensures
        action == first_action(operation@),
{
    match operation {
        Operation::Propagator(_) => StepAction::ApplyPropagator,
        Operation::Transformation(_, order) => if *order == Order::Normal {
            StepAction::TransformForward
        } else {
            StepAction::TransformInverse
        },
        Operation::Saver(apply) => if apply.includes_first_half() {
            StepAction::SaverMonitor
        } else {
            StepAction::Idle
        },
        Operation::Control(_, apply) => if apply.includes_first_half() {
            StepAction::ControlFirstHalf
        } else {
            StepAction::Idle
        },
    }
}

/// The reverse-sweep action of one operation.
fn second_action_exec(operation: &Operation) -> (action: StepAction)
    ensures
        action == second_action(operation@),
{
    match operation {
        Operation::Propagator(_) => StepAction::ApplyPropagator,
        Operation::Transformation(_, order) => if *order == Order::Normal {
            StepAction::TransformInverse
        } else {
            StepAction::TransformForward
        },
        Operation::Saver(apply) => if apply.includes_second_half() {
            StepAction::SaverMonitor
        } else {
            StepAction::Idle
        },
        Operation::Control(_, apply) => if apply.includes_second_half() {
            StepAction::ControlSecondHalf
        } else {
            StepAction::Idle
        },
    }
}

} // verus!
