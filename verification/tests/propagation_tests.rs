use split_operator::control::Apply;
use split_operator::control::BorderDumping;
use split_operator::control::LeakControl;
use split_operator::error::CoreError;
use split_operator::grid::Grid;
use split_operator::propagation::ControlKind;
use split_operator::propagation::OperationStack;
use split_operator::propagation::Propagation;
use split_operator::propagation::PropagatorKind;
use split_operator::propagation::StepAction;
use split_operator::propagation::TransformationKind;
use split_operator::propagator::NDimPropagator;
use split_operator::propagator::NonDiagPropagator;
use split_operator::propagator::OneDimPropagator;
use split_operator::time_grid::TimeGrid;
use split_operator::transformation::FFTTransformation;
use split_operator::transformation::MatrixTransformation;
use split_operator::transformation::Order;
use split_operator::transformation::StateMatrixTransformation;
use split_operator::wave_function::WaveFunction;

fn square_wave_function() -> WaveFunction {
    let grid_a = Grid::new(String::from("a"), 0, 4);
    let grid_b = Grid::new(String::from("b"), 1, 4);
    WaveFunction::new(vec![4, 4], vec![grid_a, grid_b]).unwrap()
}

fn kinetic_bracket_stack() -> OperationStack {
    let grid_a = Grid::new(String::from("a"), 0, 4);
    let mut stack = OperationStack::new();
    stack.add_propagator(PropagatorKind::OneDim(OneDimPropagator::new(4, 0)));
    stack.add_transformation(
        TransformationKind::Fft(FFTTransformation::new(&grid_a, String::from("a_fft"))),
        Order::Normal,
    );
    stack.add_propagator(PropagatorKind::OneDim(OneDimPropagator::new(4, 0)));
    stack
}

#[test]
fn schedule_is_symmetric_for_three_operations() {
    let propagation = Propagation::new(
        square_wave_function(),
        TimeGrid::new(1, false),
        kinetic_bracket_stack(),
    );
    let schedule = propagation.step_schedule();
    assert_eq!(
        schedule,
        vec![
            (0, StepAction::ApplyPropagator),
            (1, StepAction::TransformForward),
            (2, StepAction::ApplyPropagator),
            (1, StepAction::TransformInverse),
            (0, StepAction::ApplyPropagator),
        ]
    );
}

#[test]
fn schedule_flips_direction_for_inverse_first() {
    let grid_a = Grid::new(String::from("a"), 0, 4);
    let mut stack = OperationStack::new();
    stack.add_transformation(
        TransformationKind::Fft(FFTTransformation::new(&grid_a, String::from("a_fft"))),
        Order::InverseFirst,
    );
    stack.add_propagator(PropagatorKind::OneDim(OneDimPropagator::new(4, 0)));
    let propagation =
        Propagation::new(square_wave_function(), TimeGrid::new(1, false), stack);
    let schedule = propagation.step_schedule();
    assert_eq!(
        schedule,
        vec![
            (0, StepAction::TransformInverse),
            (1, StepAction::ApplyPropagator),
            (0, StepAction::TransformForward),
        ]
    );
}

#[test]
fn schedule_gates_savers_and_controls_by_half() {
    let mut stack = OperationStack::new();
    stack.add_saver(Apply::FirstHalf);
    stack.add_control(ControlKind::Leak(LeakControl::new()), Apply::SecondHalf);
    stack.add_propagator(PropagatorKind::OneDim(OneDimPropagator::new(4, 0)));
    let propagation =
        Propagation::new(square_wave_function(), TimeGrid::new(1, false), stack);
    let schedule = propagation.step_schedule();
    assert_eq!(
        schedule,
        vec![
            (0, StepAction::SaverMonitor),
            (1, StepAction::Idle),
            (2, StepAction::ApplyPropagator),
            (1, StepAction::ControlSecondHalf),
            (0, StepAction::Idle),
        ]
    );
}

#[test]
fn step_restores_grids_through_transformation_bracket() {
    let mut propagation = Propagation::new(
        square_wave_function(),
        TimeGrid::new(1, false),
        kinetic_bracket_stack(),
    );
    propagation.step().unwrap();
    // Forward and inverse bracket the middle propagator, so the axis ends
    // the step under its original name, with a norm recomputation pending.
    assert_eq!(propagation.wave_function().grids[0].name, "a");
    assert_eq!(propagation.wave_function().grids[1].name, "b");
    assert!(propagation.wave_function().change_observer.possible_norm_change);
}

#[test]
fn transformation_leaves_momentum_grid_at_midstep() {
    let grid_a = Grid::new(String::from("a"), 0, 4);
    let mut wf = square_wave_function();
    let mut fft = FFTTransformation::new(&grid_a, String::from("a_fft"));
    fft.transform(&mut wf).unwrap();
    assert_eq!(wf.grids[0].name, "a_fft");
    assert_eq!(fft.grid_transformation.name, "a");
    fft.inverse_transform(&mut wf).unwrap();
    assert_eq!(wf.grids[0].name, "a");
    assert_eq!(fft.grid_transformation.name, "a_fft");
}

#[test]
fn transformation_rejects_wrong_axis_length() {
    let short_grid = Grid::new(String::from("a"), 0, 3);
    let mut wf = square_wave_function();
    let mut fft = FFTTransformation::new(&short_grid, String::from("a_fft"));
    assert_eq!(fft.transform(&mut wf).unwrap_err(), CoreError::ShapeMismatch);
    assert_eq!(wf.grids[0].name, "a");
}

#[test]
fn leak_control_settles_norm_bookkeeping() {
    let mut stack = OperationStack::new();
    stack.add_control(ControlKind::Leak(LeakControl::new()), Apply::Both);
    stack.add_propagator(PropagatorKind::OneDim(OneDimPropagator::new(4, 0)));
    let mut propagation =
        Propagation::new(square_wave_function(), TimeGrid::new(1, false), stack);
    propagation.step().unwrap();
    // The reverse sweep ends with the leak control's second half, whose
    // normalization leaves the norm known: no recomputation is pending.
    assert!(!propagation.wave_function().change_observer.possible_norm_change);
}

#[test]
fn step_rejects_incompatible_operator() {
    let mut stack = OperationStack::new();
    stack.add_propagator(PropagatorKind::OneDim(OneDimPropagator::new(5, 0)));
    let mut propagation =
        Propagation::new(square_wave_function(), TimeGrid::new(1, false), stack);
    assert_eq!(propagation.step().unwrap_err(), CoreError::ShapeMismatch);
    assert_eq!(propagation.wave_function().grids[0].name, "a");
}

#[test]
fn propagate_runs_all_steps() {
    let mut propagation = Propagation::new(
        square_wave_function(),
        TimeGrid::new(3, false),
        kinetic_bracket_stack(),
    );
    propagation.propagate().unwrap();
    assert_eq!(propagation.wave_function().grids[0].name, "a");
}

#[test]
fn mean_energy_needs_leak_control_in_imaginary_time() {
    let mut stack = OperationStack::new();
    let mut leak = LeakControl::new();
    leak.add_loss_checker();
    stack.add_control(ControlKind::Leak(leak), Apply::Both);
    stack.add_propagator(PropagatorKind::OneDim(OneDimPropagator::new(4, 0)));
    let propagation =
        Propagation::new(square_wave_function(), TimeGrid::new(1, true), stack);
    assert!(propagation.mean_energy_requirement().is_ok());

    let mut bare_stack = OperationStack::new();
    bare_stack.add_control(ControlKind::Leak(LeakControl::new()), Apply::Both);
    let bare = Propagation::new(
        square_wave_function(),
        TimeGrid::new(1, true),
        bare_stack,
    );
    assert_eq!(
        bare.mean_energy_requirement().unwrap_err(),
        CoreError::MissingLossChecker
    );

    let empty = Propagation::new(
        square_wave_function(),
        TimeGrid::new(1, true),
        OperationStack::new(),
    );
    assert_eq!(
        empty.mean_energy_requirement().unwrap_err(),
        CoreError::MissingLossChecker
    );
}

#[test]
fn mean_energy_is_unconditional_in_real_time() {
    let propagation = Propagation::new(
        square_wave_function(),
        TimeGrid::new(1, false),
        OperationStack::new(),
    );
    assert!(propagation.mean_energy_requirement().is_ok());
}

#[test]
fn block_propagator_needs_outer_conditioning_axis() {
    assert_eq!(
        NonDiagPropagator::new(2, 1).err().unwrap(),
        CoreError::InvariantViolation
    );
    let propagator = NonDiagPropagator::new(0, 1).unwrap();
    assert_eq!(propagator.dimension_no, 0);
    assert_eq!(propagator.dimension_no_dependent, 1);
}

#[test]
fn one_dim_propagator_checks_operator_length() {
    let propagator = OneDimPropagator::new(4, 0);
    assert!(propagator.set_operator(4).is_ok());
    assert_eq!(propagator.set_operator(3).unwrap_err(), CoreError::ShapeMismatch);
    assert_eq!(propagator.add_operator(5).unwrap_err(), CoreError::ShapeMismatch);
}

#[test]
fn n_dim_propagator_checks_fused_operator_shape() {
    let mut propagator = NDimPropagator::new();
    propagator.set_operator(vec![4, 4]);
    assert!(propagator.add_operator(&vec![4, 4]).is_ok());
    assert_eq!(
        propagator.add_operator(&vec![4, 3]).unwrap_err(),
        CoreError::ShapeMismatch
    );
}

#[test]
fn matrix_transformation_checks_matrix_sizes() {
    let grid_a = Grid::new(String::from("a"), 0, 4);
    let dual = Grid::new(String::from("a_diag"), 0, 4);
    let transformation = MatrixTransformation::new(&grid_a, dual).unwrap();
    assert!(transformation.set_diagonalization_matrix(4, 4, 4, 4).is_ok());
    assert_eq!(
        transformation
            .set_diagonalization_matrix(4, 3, 4, 4)
            .unwrap_err(),
        CoreError::ShapeMismatch
    );

    let mismatched_dual = Grid::new(String::from("a_diag"), 0, 5);
    assert_eq!(
        MatrixTransformation::new(&grid_a, mismatched_dual).err().unwrap(),
        CoreError::ShapeMismatch
    );
}

#[test]
fn state_matrix_transformation_checks_axes_and_counts() {
    let grid_a = Grid::new(String::from("a"), 0, 4);
    let dual = Grid::new(String::from("a_leg"), 0, 4);
    assert_eq!(
        StateMatrixTransformation::new(0, &grid_a, dual.clone()).err().unwrap(),
        CoreError::InvariantViolation
    );
    let mut transformation = StateMatrixTransformation::new(1, &grid_a, dual).unwrap();
    transformation.set_diagonalization_matrices(4, 4).unwrap();
    let mut wf = square_wave_function();
    transformation.transform(&mut wf).unwrap();
    assert_eq!(wf.grids[0].name, "a_leg");
    transformation.inverse_transform(&mut wf).unwrap();
    assert_eq!(wf.grids[0].name, "a");
    // A matrix count that does not match the conditioning axis is rejected.
    transformation.set_diagonalization_matrices(3, 4).unwrap();
    assert_eq!(
        transformation.transform(&mut wf).unwrap_err(),
        CoreError::ShapeMismatch
    );
}

#[test]
fn border_dumping_applies_mask_on_both_halves() {
    let grid_a = Grid::new(String::from("a"), 0, 4);
    let mut damping = BorderDumping::new(4, &grid_a);
    damping.add_loss_checker();
    let mut stack = OperationStack::new();
    stack.add_control(ControlKind::Border(damping), Apply::Both);
    stack.add_propagator(PropagatorKind::OneDim(OneDimPropagator::new(4, 0)));
    let propagation =
        Propagation::new(square_wave_function(), TimeGrid::new(1, false), stack);
    let schedule = propagation.step_schedule();
    assert_eq!(
        schedule,
        vec![
            (0, StepAction::ControlFirstHalf),
            (1, StepAction::ApplyPropagator),
            (0, StepAction::ControlSecondHalf),
        ]
    );
}

#[test]
fn momentum_multiples_wrap_at_the_nyquist_point() {
    let layout: Vec<i64> = (0..4)
        .map(|j| split_operator::transformation::momentum_multiple(j, 4))
        .collect();
    assert_eq!(layout, vec![0, 1, -2, -1]);
    let odd_layout: Vec<i64> = (0..5)
        .map(|j| split_operator::transformation::momentum_multiple(j, 5))
        .collect();
    assert_eq!(odd_layout, vec![0, 1, 2, -2, -1]);
}

#[test]
fn border_dumping_rejects_wrong_mask_length() {
    let grid_a = Grid::new(String::from("a"), 0, 4);
    let damping = BorderDumping::new(3, &grid_a);
    let mut wf = square_wave_function();
    assert_eq!(damping.first_half(&mut wf).unwrap_err(), CoreError::ShapeMismatch);
}
