use split_operator::error::CoreError;
use split_operator::grid::Grid;
use split_operator::wave_function::NormTask;
use split_operator::wave_function::WaveFunction;

fn two_axis_wave_function() -> WaveFunction {
    let grid_a = Grid::new(String::from("a"), 0, 4);
    let grid_b = Grid::new(String::from("b"), 1, 3);
    WaveFunction::new(vec![4, 3], vec![grid_a, grid_b]).unwrap()
}

#[test]
fn grid_new_records_fields() {
    let grid = Grid::new(String::from("radial"), 2, 128);
    assert_eq!(grid.name, "radial");
    assert_eq!(grid.dimension_no, 2);
    assert_eq!(grid.nodes_no, 128);
}

#[test]
fn grid_swap_exchanges_contents() {
    let mut position = Grid::new(String::from("x"), 0, 16);
    let mut momentum = Grid::new(String::from("p"), 0, 16);
    position.swap(&mut momentum);
    assert_eq!(position.name, "p");
    assert_eq!(momentum.name, "x");
    assert_eq!(position.nodes_no, 16);
    assert_eq!(momentum.nodes_no, 16);
}

#[test]
fn wave_function_rejects_wrong_node_count() {
    let grid = Grid::new(String::from("a"), 0, 5);
    let result = WaveFunction::new(vec![4], vec![grid]);
    assert_eq!(result.err().unwrap(), CoreError::ShapeMismatch);
}

#[test]
fn wave_function_rejects_wrong_dimension_order() {
    let grid_a = Grid::new(String::from("a"), 1, 4);
    let grid_b = Grid::new(String::from("b"), 0, 3);
    let result = WaveFunction::new(vec![4, 3], vec![grid_a, grid_b]);
    assert_eq!(result.err().unwrap(), CoreError::ShapeMismatch);
}

#[test]
fn wave_function_rejects_missing_grid() {
    let grid_a = Grid::new(String::from("a"), 0, 4);
    let result = WaveFunction::new(vec![4, 3], vec![grid_a]);
    assert_eq!(result.err().unwrap(), CoreError::ShapeMismatch);
}

#[test]
fn fresh_wave_function_needs_one_norm_computation() {
    let mut wf = two_axis_wave_function();
    assert!(wf.change_observer.possible_norm_change);
    // The grids were just observed, so no weight rebuild is needed.
    let task = wf.prepare_norm();
    assert_eq!(task, NormTask::Recompute { rebuild_weights: false });
    // The freshly computed norm stays cached until something changes.
    let task = wf.prepare_norm();
    assert_eq!(task, NormTask::UseCached);
    assert!(!wf.change_observer.possible_norm_change);
}

#[test]
fn amplitude_change_forces_recomputation_without_rebuild() {
    let mut wf = two_axis_wave_function();
    let _ = wf.prepare_norm();
    wf.note_possible_norm_change();
    let task = wf.prepare_norm();
    assert_eq!(task, NormTask::Recompute { rebuild_weights: false });
}

#[test]
fn grid_swap_forces_weight_rebuild() {
    let mut wf = two_axis_wave_function();
    let _ = wf.prepare_norm();
    let mut dual = Grid::new(String::from("a_dual"), 0, 4);
    wf.swap_grid(0, &mut dual);
    assert_eq!(wf.grids[0].name, "a_dual");
    assert_eq!(dual.name, "a");
    assert!(wf.change_observer.possible_norm_change);
    let task = wf.prepare_norm();
    assert_eq!(task, NormTask::Recompute { rebuild_weights: true });
}

#[test]
fn state_density_rebuilds_only_after_grid_change() {
    let mut wf = two_axis_wave_function();
    let _ = wf.prepare_norm();
    assert!(!wf.prepare_state_density());
    let mut dual = Grid::new(String::from("b_dual"), 1, 3);
    wf.swap_grid(1, &mut dual);
    assert!(wf.prepare_state_density());
    // The rebuild was recorded; a second query needs none.
    assert!(!wf.prepare_state_density());
}

#[test]
fn observer_reports_changed_names_only() {
    let grid_a = Grid::new(String::from("a"), 0, 4);
    let grid_b = Grid::new(String::from("b"), 1, 3);
    let grids = vec![grid_a, grid_b];
    let observer = split_operator::change_observer::ChangeObserver::new(&grids);
    assert!(!observer.has_grid_changed(&grids));
    let renamed = vec![
        Grid::new(String::from("a"), 0, 4),
        Grid::new(String::from("b_dual"), 1, 3),
    ];
    assert!(observer.has_grid_changed(&renamed));
}
