use uncertain_numerics::{
    active_design_decision, covariance_greedy_decision, covariance_greedy_selection_decision,
    ActiveTermination, CandidatePool, CovarianceGreedyTermination, CovarianceTraceAcquisition, LinearSolveProgress,
    LinearSolveTermination, LinearSolverError,
};

#[test]
fn sequential_run_adds_selected_candidates_and_removes_them() {
    let mut pool = CandidatePool::new(vec![-0.5, 0.0, 0.5, 2.0], 2);
    let mut nodes = vec![-1.0, 1.0];

    assert_eq!(active_design_decision(&pool, false), None);
    nodes.push(pool.take(1));
    assert_eq!(active_design_decision(&pool, false), None);
    nodes.push(pool.take(2));

    assert_eq!(nodes, vec![-1.0, 1.0, 0.0, 2.0]);
    assert_eq!(pool.remaining(), &[-0.5, 0.5]);
    assert_eq!(pool.selections(), 2);
    assert_eq!(
        active_design_decision(&pool, false),
        Some(ActiveTermination::EvaluationBudgetReached)
    );
    assert_eq!(pool.into_remaining(), vec![-0.5, 0.5]);
}

#[test]
fn stops_immediately_when_variance_tolerance_is_already_met() {
    let pool = CandidatePool::new(vec![-0.5, 0.5], 5);
    assert_eq!(
        active_design_decision(&pool, true),
        Some(ActiveTermination::VarianceToleranceReached)
    );
    assert_eq!(pool.selections(), 0);
}

#[test]
fn reports_evaluation_budget_termination() {
    let mut pool = CandidatePool::new(vec![-0.5, 0.0, 0.5], 1);
    assert_eq!(active_design_decision(&pool, false), None);
    let _ = pool.take(0);
    assert_eq!(
        active_design_decision(&pool, false),
        Some(ActiveTermination::EvaluationBudgetReached)
    );
    assert_eq!(pool.selections(), 1);
}

#[test]
fn reports_candidate_exhaustion() {
    let mut pool = CandidatePool::new(vec![0.0], 3);
    assert_eq!(active_design_decision(&pool, false), None);
    let _ = pool.take(0);
    assert_eq!(
        active_design_decision(&pool, false),
        Some(ActiveTermination::CandidatesExhausted)
    );
    assert!(pool.remaining().is_empty());
}

#[test]
fn exhaustion_takes_precedence_over_a_spent_budget() {
    let pool: CandidatePool<f64> = CandidatePool::new(Vec::new(), 0);
    assert_eq!(
        active_design_decision(&pool, false),
        Some(ActiveTermination::CandidatesExhausted)
    );
    let pool = CandidatePool::new(vec![1.0], 0);
    assert_eq!(
        active_design_decision(&pool, false),
        Some(ActiveTermination::EvaluationBudgetReached)
    );
}

#[test]
fn reports_projection_budget_termination() {
    let candidates = vec![vec![1.0, 0.0], vec![0.0, 1.0], vec![1.0, 1.0]];
    let mut pool = CandidatePool::new(candidates, 1);
    assert_eq!(covariance_greedy_decision(&pool, false), None);
    // Under an identity prior every direction reduces the covariance trace by
    // exactly one, so the three reductions tie and the first candidate is chosen.
    let tied = [7_u64, 7, 7];
    let index = CovarianceTraceAcquisition::select_best_index(&tied).expect("candidates exist");
    assert_eq!(index, 0);
    assert_eq!(covariance_greedy_selection_decision(true), None);
    let mut directions = Vec::new();
    pool.take_into(index, &mut directions);
    assert_eq!(directions, vec![vec![1.0, 0.0]]);
    assert_eq!(
        covariance_greedy_decision(&pool, false),
        Some(CovarianceGreedyTermination::ProjectionBudgetReached)
    );
    assert_eq!(pool.selections(), 1);
    assert_eq!(pool.remaining(), &[vec![0.0, 1.0], vec![1.0, 1.0]]);
}

#[test]
fn take_into_appends_the_selection_and_keeps_the_remaining_order() {
    let mut pool = CandidatePool::new(vec![10_u64, 20, 30, 40, 50], 3);
    let mut nodes = vec![1_u64, 2];
    pool.take_into(3, &mut nodes);
    pool.take_into(0, &mut nodes);
    pool.take_into(1, &mut nodes);
    assert_eq!(nodes, vec![1, 2, 40, 10, 30]);
    assert_eq!(pool.remaining(), &[20, 50]);
    assert_eq!(pool.selections(), 3);
    assert_eq!(
        active_design_decision(&pool, false),
        Some(ActiveTermination::EvaluationBudgetReached)
    );
    assert_eq!(pool.into_remaining(), vec![20, 50]);
}

#[test]
fn remaining_candidates_keep_their_relative_order_with_repeats() {
    let mut pool = CandidatePool::new(vec![3_u64, 1, 3, 2, 1], 5);
    assert_eq!(pool.take(1), 1);
    assert_eq!(pool.remaining(), &[3, 3, 2, 1]);
    assert_eq!(pool.take(0), 3);
    assert_eq!(pool.remaining(), &[3, 2, 1]);
    assert_eq!(pool.take(2), 1);
    assert_eq!(pool.remaining(), &[3, 2]);
}

#[test]
fn covariance_greedy_stops_on_trace_exhaustion_and_uninformative_directions() {
    let mut pool = CandidatePool::new(vec![vec![1.0]], 4);
    assert_eq!(
        covariance_greedy_decision(&pool, true),
        Some(CovarianceGreedyTermination::CovarianceTraceToleranceReached)
    );
    assert_eq!(
        covariance_greedy_selection_decision(false),
        Some(CovarianceGreedyTermination::NoInformativeDirection)
    );
    let _ = pool.take(0);
    assert_eq!(
        covariance_greedy_decision(&pool, false),
        Some(CovarianceGreedyTermination::CandidatesExhausted)
    );
}

#[test]
fn linear_solve_progress_requires_matching_dimensions() {
    assert!(matches!(
        LinearSolveProgress::start(2, 3, 5),
        Err(LinearSolverError::VectorDimensionMismatch)
    ));
    let progress = LinearSolveProgress::start(2, 2, 5).expect("dimensions agree");
    assert_eq!(progress.iterations(), 0);
    assert_eq!(progress.max_iterations(), 5);
}

#[test]
fn residual_tolerance_is_checked_before_trace_tolerance() {
    let progress = LinearSolveProgress::start(2, 2, 0).expect("dimensions agree");
    assert_eq!(
        progress.decide(true, true),
        Some(LinearSolveTermination::ResidualToleranceReached)
    );
    assert_eq!(
        progress.decide(false, true),
        Some(LinearSolveTermination::CovarianceTraceToleranceReached)
    );
    assert_eq!(
        progress.decide(false, false),
        Some(LinearSolveTermination::IterationBudgetReached)
    );
}

#[test]
fn linear_solve_runs_at_most_its_iteration_budget() {
    let mut progress = LinearSolveProgress::start(3, 3, 2).expect("dimensions agree");
    let mut steps = 0;
    while progress.decide(false, false).is_none() {
        progress.record_step();
        steps += 1;
    }
    assert_eq!(steps, 2);
    assert_eq!(progress.iterations(), 2);
    assert_eq!(
        progress.decide(false, false),
        Some(LinearSolveTermination::IterationBudgetReached)
    );
}

#[test]
fn only_degenerate_observations_end_a_solve_without_error() {
    assert_eq!(
        LinearSolveProgress::on_conditioning_failure(LinearSolverError::DegenerateObservation),
        Ok(LinearSolveTermination::NoInformativeDirection)
    );
    assert_eq!(
        LinearSolveProgress::on_conditioning_failure(LinearSolverError::NonFiniteVectorEntry),
        Err(LinearSolverError::NonFiniteVectorEntry)
    );
}
