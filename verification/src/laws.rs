//! Stated laws of the core, proved once and for all inputs.

use vstd::prelude::*;

use crate::control::Apply;
use crate::propagation::OpView;
use crate::propagation::StepState;
use crate::propagation::apply_half_at;
use crate::propagation::forward_from;
use crate::propagation::reverse_from;
use crate::propagation::spec_step;
use crate::propagation::StepAction;
use crate::propagation::first_action;
use crate::propagation::op_half_effect;
use crate::propagation::second_action;
use crate::propagation::step_trace;
use crate::propagator::PropView;
use crate::propagator::prop_effect;
use crate::propagator::prop_loss_checked;
use crate::transformation::Order;
use crate::transformation::TransView;
use crate::wave_function::WfView;

verus! {

/// Symmetric split-step structure: for any non-empty stack, one step
/// performs exactly `2n - 1` actions — each operation once in order, acting
/// in its first-half sense, then each operation except the last once in
/// reverse order, acting in its second-half sense.  The last operation is
/// the middle of the step and acts exactly once.
pub proof fn lemma_symmetric_step_trace(ops: Seq<OpView>)
    requires
        ops.len() >= 1,
    ensures
        step_trace(ops).len() == 2 * ops.len() - 1,
        forall|i: int|
            0 <= i < ops.len() ==> step_trace(ops)[i] == (i as usize, first_action(
                #[trigger] ops[i],
            )),
        forall|j: int|
            0 <= j < ops.len() - 1 ==> #[trigger] step_trace(ops)[ops.len() + j] == ((ops.len() - 2
                - j) as usize, second_action(ops[ops.len() - 2 - j])),
{
}

/// The split-step structure on a three-operation stack `[A, B, C]` with a
/// transformation in the middle: the step runs `A`, `B` in its forward
/// sense, `C` once at full step, then `B` in its reverse sense and `A`
/// again.
pub proof fn lemma_three_operation_step_trace(a: PropView, b: TransView, order: Order, c: PropView)
    ensures
        step_trace(
            seq![
                OpView::Propagator(a),
                OpView::Transformation(b, order),
                OpView::Propagator(c),
            ],
        ) =~= seq![
            (0usize, StepAction::ApplyPropagator),
            (
                1usize,
                if order is Normal {
                    StepAction::TransformForward
                } else {
                    StepAction::TransformInverse
                },
            ),
            (2usize, StepAction::ApplyPropagator),
            (
                1usize,
                if order is Normal {
                    StepAction::TransformInverse
                } else {
                    StepAction::TransformForward
                },
            ),
            (0usize, StepAction::ApplyPropagator),
        ],
{
    let ops = seq![
        OpView::Propagator(a),
        OpView::Transformation(b, order),
        OpView::Propagator(c),
    ];
    lemma_symmetric_step_trace(ops);
}

/// Transformation round trip: applying a transformation and then applying
/// it again (as the reverse sweep of the same step does, or as an explicit
/// inverse call does) restores the axis names exactly, returns the held
/// dual grid to the transformation, and leaves a norm recomputation
/// pending.  This is the structural half of the forward-inverse identity;
/// the amplitude half is carried by the unitary pair of the numerical
/// layer.
pub proof fn lemma_transformation_round_trip(t: TransView, order: Order, v: WfView)
    requires
        (t.dimension_no() as int) < v.names.len(),
    ensures
        ({
            let (op1, v1) = op_half_effect(OpView::Transformation(t, order), v, true);
            let (op2, v2) = op_half_effect(op1, v1, false);
            &&& v2.names == v.names
            &&& v2.shape == v.shape
            &&& v2.snapshot == v.snapshot
            &&& v2.possible_norm_change == true
            &&& op2 == OpView::Transformation(t, order)
        }),
{
    let d = t.dimension_no() as int;
    let (op1, v1) = op_half_effect(OpView::Transformation(t, order), v, true);
    let (op2, v2) = op_half_effect(op1, v1, false);
    assert(v2.names =~= v.names);
    assert(t.with_held_name(v.names[d]).with_held_name(t.held_name()) == t);
}

/// Cache invalidation, first part: a propagator with no loss checker
/// attached leaves a pending norm change behind, and a transformation
/// always does.
pub proof fn lemma_operators_invalidate_norm(p: PropView, t: TransView, order: Order, v: WfView)
    requires
        !prop_loss_checked(p),
        (t.dimension_no() as int) < v.names.len(),
    ensures
        prop_effect(p, v).possible_norm_change == true,
        op_half_effect(OpView::Transformation(t, order), v, true).1.possible_norm_change == true,
{
}

/// Cache invalidation, second part: starting from a state whose norm
/// bookkeeping is settled (the snapshot agrees with the axis names), a
/// transformation whose held dual grid is named differently from the axis
/// it replaces leaves the snapshot out of date, so the next norm query
/// rebuilds the weight-amplitude tensor.  A dual grid that reuses the
/// axis name defeats the name sentinel and is not covered.
pub proof fn lemma_transformation_forces_weight_rebuild(
    t: TransView,
    order: Order,
    v: WfView,
)
    requires
        v.inv(),
        (t.dimension_no() as int) < v.names.len(),
        v.snapshot == v.names,
        t.held_name() != v.names[t.dimension_no() as int],
    ensures
        ({
            let v1 = op_half_effect(OpView::Transformation(t, order), v, true).1;
            &&& v1.possible_norm_change == true
            &&& v1.snapshot != v1.names
        }),
{
    let d = t.dimension_no() as int;
    let v1 = op_half_effect(OpView::Transformation(t, order), v, true).1;
    assert(v1.names[d] == t.held_name());
    assert(v1.snapshot[d] == v.names[d]);
}

/// A symmetric transformation bracket: stepping the stack `[A, T, C]`,
/// where `A` and `C` are propagators without loss checkers and `T` a
/// transformation, leaves every axis name as it was (the forward and the
/// reverse sweep each swap the same pair of grids), returns the held dual
/// grid to the transformation, and leaves a norm recomputation pending.
pub proof fn lemma_transformation_bracket_step(
    a: PropView,
    t: TransView,
    order: Order,
    c: PropView,
    v: WfView,
)
    requires
        !prop_loss_checked(a),
        !prop_loss_checked(c),
        (t.dimension_no() as int) < v.names.len(),
    ensures
        ({
            let s0 = StepState {
                ops: seq![
                    OpView::Propagator(a),
                    OpView::Transformation(t, order),
                    OpView::Propagator(c),
                ],
                wf: v,
            };
            let s2 = spec_step(s0);
            &&& s2.wf.names == v.names
            &&& s2.wf.shape == v.shape
            &&& s2.wf.snapshot == v.snapshot
            &&& s2.wf.possible_norm_change == true
            &&& s2.ops == s0.ops
        }),
{
    let s0 = StepState {
        ops: seq![
            OpView::Propagator(a),
            OpView::Transformation(t, order),
            OpView::Propagator(c),
        ],
        wf: v,
    };
    let s1 = apply_half_at(s0, 0, true);
    let s2 = apply_half_at(s1, 1, true);
    let s3 = apply_half_at(s2, 2, true);
    assert(forward_from(s0, 0) == forward_from(s1, 1));
    assert(forward_from(s1, 1) == forward_from(s2, 2));
    assert(forward_from(s2, 2) == forward_from(s3, 3));
    assert(forward_from(s3, 3) == s3);
    let s4 = apply_half_at(s3, 1, false);
    let s5 = apply_half_at(s4, 0, false);
    assert(reverse_from(s3, 1) == reverse_from(s4, 0));
    assert(reverse_from(s4, 0) == reverse_from(s5, -1));
    assert(reverse_from(s5, -1) == s5);
    assert(s5.wf.names =~= v.names);
    assert(s5.ops =~= s0.ops);
}

/// A saver observes the wave function without altering its structural
/// state, on whichever halves its mask selects.
pub proof fn lemma_saver_is_passive(apply: Apply, v: WfView, first: bool)
    ensures
        op_half_effect(OpView::Saver(apply), v, first).1 == v,
        op_half_effect(OpView::Saver(apply), v, first).0 == OpView::Saver(apply),
{
}

} // verus!
