use uncertain_numerics::{
    check_acquisition_inputs, check_active_design_inputs, check_affine_mean, check_function_value,
    check_belief_inputs, check_conditioner_inputs, check_constant_mean,
    check_covariance_greedy_inputs, check_kernel_parameters, check_measure_parameters,
    check_observations, check_posterior_parameters, check_projection_inputs,
    check_right_hand_side, check_selection_candidates, check_solver_tolerances,
    check_system_inputs, check_trace_tolerance, entries_finite, ActiveDesignError,
    ActiveSelectionError, BayesianQuadratureError, ConditioningError, KernelError,
    LinearSolverError, MeasureError, PosteriorError, PriorMeanError, ScalarClass,
};

fn class_of(value: f64) -> ScalarClass {
    if !value.is_finite() {
        ScalarClass::NonFinite
    } else if value < 0.0 {
        ScalarClass::Negative
    } else if value == 0.0 {
        ScalarClass::Zero
    } else {
        ScalarClass::Positive
    }
}

fn classes_of(values: &[f64]) -> Vec<ScalarClass> {
    values.iter().copied().map(class_of).collect()
}

fn kernel(signal_variance: f64, length_scale: f64) -> Result<(), KernelError> {
    check_kernel_parameters(class_of(signal_variance), class_of(length_scale))
}

fn measure(mean: f64, variance: f64) -> Result<(), MeasureError> {
    check_measure_parameters(class_of(mean), class_of(variance))
}

fn posterior(mean: f64, variance: f64) -> Result<(), PosteriorError> {
    check_posterior_parameters(class_of(mean), class_of(variance))
}

fn conditioner(matrix: &[f64], dimension: usize, jitter: f64) -> Result<(), ConditioningError> {
    check_conditioner_inputs(&classes_of(matrix), dimension, class_of(jitter))
}

fn observations(nodes: &[f64], values: &[f64]) -> Result<(), BayesianQuadratureError<f64>> {
    check_observations::<f64>(&classes_of(nodes), &classes_of(values))
}

fn solver(residual: f64, trace: f64) -> Result<(), LinearSolverError> {
    check_solver_tolerances(class_of(residual), class_of(trace))
}

#[test]
fn rejects_invalid_signal_variance() {
    assert_eq!(kernel(f64::NAN, 1.0), Err(KernelError::NonFiniteSignalVariance));
    assert_eq!(kernel(f64::INFINITY, 1.0), Err(KernelError::NonFiniteSignalVariance));
    assert_eq!(kernel(0.0, 1.0), Err(KernelError::NonPositiveSignalVariance));
    assert_eq!(kernel(-1.0, 1.0), Err(KernelError::NonPositiveSignalVariance));
}

#[test]
fn rejects_invalid_length_scale() {
    assert_eq!(kernel(1.0, f64::NAN), Err(KernelError::NonFiniteLengthScale));
    assert_eq!(kernel(1.0, f64::INFINITY), Err(KernelError::NonFiniteLengthScale));
    assert_eq!(kernel(1.0, 0.0), Err(KernelError::NonPositiveLengthScale));
    assert_eq!(kernel(1.0, -2.0), Err(KernelError::NonPositiveLengthScale));
}

#[test]
fn kernel_checks_signal_variance_before_length_scale() {
    assert_eq!(kernel(f64::NAN, f64::NAN), Err(KernelError::NonFiniteSignalVariance));
    assert_eq!(kernel(0.0, f64::NAN), Err(KernelError::NonPositiveSignalVariance));
    assert_eq!(kernel(1.5, 0.25), Ok(()));
}

#[test]
fn rejects_non_finite_mean() {
    assert_eq!(measure(f64::NAN, 1.0), Err(MeasureError::NonFiniteMean));
    assert_eq!(measure(f64::INFINITY, 1.0), Err(MeasureError::NonFiniteMean));
}

#[test]
fn rejects_invalid_variance() {
    assert_eq!(measure(0.0, f64::NAN), Err(MeasureError::NonFiniteVariance));
    assert_eq!(measure(0.0, f64::INFINITY), Err(MeasureError::NonFiniteVariance));
    assert_eq!(measure(0.0, 0.0), Err(MeasureError::NonPositiveVariance));
    assert_eq!(measure(0.0, -1.0), Err(MeasureError::NonPositiveVariance));
    assert_eq!(measure(1.5, 4.0), Ok(()));
}

#[test]
fn accepts_zero_variance() {
    assert_eq!(posterior(2.0, 0.0), Ok(()));
    assert_eq!(posterior(2.0, -0.0), Ok(()));
    assert_eq!(posterior(1.25, 0.09), Ok(()));
}

#[test]
fn rejects_negative_variance() {
    assert_eq!(posterior(0.0, -1.0), Err(PosteriorError::NegativeVariance));
}

#[test]
fn posterior_rejects_non_finite_parameters() {
    assert_eq!(posterior(f64::NAN, 1.0), Err(PosteriorError::NonFiniteMean));
    assert_eq!(posterior(0.0, f64::INFINITY), Err(PosteriorError::NonFiniteVariance));
}

#[test]
fn prior_mean_rejects_non_finite_parameters() {
    assert_eq!(check_constant_mean(class_of(f64::NAN)), Err(PriorMeanError::NonFiniteConstant));
    assert_eq!(
        check_affine_mean(class_of(f64::INFINITY), class_of(1.0)),
        Err(PriorMeanError::NonFiniteIntercept)
    );
    assert_eq!(
        check_affine_mean(class_of(1.0), class_of(f64::NEG_INFINITY)),
        Err(PriorMeanError::NonFiniteSlope)
    );
    assert_eq!(check_constant_mean(class_of(-1.75)), Ok(()));
    assert_eq!(check_affine_mean(class_of(0.8), class_of(-2.3)), Ok(()));
}

#[test]
fn rejects_invalid_matrix_contracts() {
    assert_eq!(conditioner(&[], 0, 0.0), Err(ConditioningError::ZeroDimension));
    assert_eq!(
        conditioner(&[1.0, 0.0, 0.0], 2, 0.0),
        Err(ConditioningError::MatrixDimensionMismatch)
    );
    assert_eq!(
        conditioner(&[1.0, f64::NAN, 0.0, 1.0], 2, 0.0),
        Err(ConditioningError::NonFiniteMatrixEntry)
    );
}

#[test]
fn rejects_invalid_jitter() {
    assert_eq!(conditioner(&[1.0], 1, f64::NAN), Err(ConditioningError::NonFiniteJitter));
    assert_eq!(conditioner(&[1.0], 1, -1.0e-6), Err(ConditioningError::NegativeJitter));
    assert_eq!(conditioner(&[1.0, 1.0, 1.0, 1.0], 2, 1.0e-6), Ok(()));
    assert_eq!(conditioner(&[4.0, 1.0, 1.0, 3.0], 2, 0.0), Ok(()));
}

#[test]
fn conditioner_dimension_whose_square_overflows_is_a_length_mismatch() {
    assert_eq!(
        conditioner(&[1.0], usize::MAX, 0.0),
        Err(ConditioningError::MatrixDimensionMismatch)
    );
}

#[test]
fn rejects_invalid_right_hand_side() {
    assert_eq!(
        check_right_hand_side(&classes_of(&[1.0]), 2),
        Err(ConditioningError::RightHandSideDimensionMismatch)
    );
    assert_eq!(
        check_right_hand_side(&classes_of(&[1.0, f64::INFINITY]), 2),
        Err(ConditioningError::NonFiniteRightHandSideEntry)
    );
    assert_eq!(check_right_hand_side(&classes_of(&[1.0, 2.0]), 2), Ok(()));
}

#[test]
fn rejects_invalid_observations() {
    assert_eq!(observations(&[], &[]), Err(BayesianQuadratureError::EmptyObservations));
    assert_eq!(
        observations(&[0.0], &[1.0, 2.0]),
        Err(BayesianQuadratureError::ObservationLengthMismatch)
    );
    assert_eq!(
        observations(&[f64::NAN], &[1.0]),
        Err(BayesianQuadratureError::NonFiniteObservationNode)
    );
    assert_eq!(
        observations(&[0.0], &[f64::INFINITY]),
        Err(BayesianQuadratureError::NonFiniteObservationValue)
    );
    assert_eq!(observations(&[-1.0, 0.0, 1.0], &[1.0, 0.0, 1.0]), Ok(()));
}

#[test]
fn rejects_invalid_node_contracts() {
    let acquisition =
        |nodes: &[f64], candidate: f64| check_acquisition_inputs::<f64>(&classes_of(nodes), class_of(candidate));
    assert!(acquisition(&[], 0.0).is_err());
    assert!(acquisition(&[f64::NAN], 0.0).is_err());
    assert!(acquisition(&[0.0], f64::INFINITY).is_err());
    assert_eq!(acquisition(&[], 0.0), Err(BayesianQuadratureError::EmptyObservations));
    assert_eq!(
        acquisition(&[0.0], f64::INFINITY),
        Err(BayesianQuadratureError::NonFiniteObservationNode)
    );
    assert_eq!(acquisition(&[-1.0, 0.0, 1.0], 0.35), Ok(()));
}

#[test]
fn selection_rejects_empty_and_non_finite_candidates() {
    assert_eq!(
        check_selection_candidates::<f64>(&[]),
        Err(ActiveSelectionError::EmptyCandidates)
    );
    assert_eq!(
        check_selection_candidates::<f64>(&classes_of(&[0.0, f64::NAN])),
        Err(ActiveSelectionError::NonFiniteCandidate)
    );
    assert_eq!(check_selection_candidates::<f64>(&classes_of(&[-0.5, 0.5])), Ok(()));
}

#[test]
fn rejects_invalid_tolerance_and_function_values() {
    // A negative stopping tolerance is refused before any evaluation.
    assert_eq!(
        check_active_design_inputs::<f64>(class_of(-1.0), &classes_of(&[0.0])),
        Err(ActiveDesignError::NegativeVarianceTolerance)
    );
    // Valid inputs; the function then returns NaN at the selected point.
    assert_eq!(check_active_design_inputs::<f64>(class_of(0.0), &classes_of(&[0.0])), Ok(()));
    assert_eq!(
        check_function_value::<f64>(class_of(f64::NAN)),
        Err(ActiveDesignError::NonFiniteFunctionValue)
    );
    assert_eq!(
        check_function_value::<f64>(class_of(f64::INFINITY)),
        Err(ActiveDesignError::NonFiniteFunctionValue)
    );
    assert_eq!(check_function_value::<f64>(class_of(-2.5)), Ok(()));
    assert_eq!(check_function_value::<f64>(class_of(0.0)), Ok(()));
}

#[test]
fn rejects_invalid_tolerance_and_candidates() {
    let active = |tolerance: f64, candidates: &[f64]| {
        check_active_design_inputs::<f64>(class_of(tolerance), &classes_of(candidates))
    };
    assert_eq!(active(-1.0, &[0.0]), Err(ActiveDesignError::NegativeVarianceTolerance));
    assert_eq!(active(f64::NAN, &[0.0]), Err(ActiveDesignError::NonFiniteVarianceTolerance));
    assert_eq!(active(0.0, &[0.0, f64::INFINITY]), Err(ActiveDesignError::NonFiniteCandidate));
    assert_eq!(active(0.0, &[-0.5, 0.0, 0.5]), Ok(()));
}

#[test]
fn validates_tolerances() {
    assert_eq!(solver(f64::NAN, 0.0), Err(LinearSolverError::NonFiniteTolerance));
    assert_eq!(solver(0.0, -1.0), Err(LinearSolverError::NegativeTolerance));
    assert_eq!(solver(-1.0, f64::NAN), Err(LinearSolverError::NonFiniteTolerance));
    assert_eq!(solver(1.0e-12, 0.0), Ok(()));
}

#[test]
fn validates_covariance_trace_tolerance() {
    assert_eq!(
        check_trace_tolerance(class_of(f64::INFINITY)),
        Err(LinearSolverError::NonFiniteTolerance)
    );
    assert_eq!(check_trace_tolerance(class_of(-0.5)), Err(LinearSolverError::NegativeTolerance));
    assert_eq!(check_trace_tolerance(class_of(0.0)), Ok(()));
}

#[test]
fn rejects_empty_candidates() {
    assert_eq!(
        check_covariance_greedy_inputs(1, 1, &[]),
        Err(LinearSolverError::EmptyCandidateDirections)
    );
    assert_eq!(
        check_covariance_greedy_inputs(2, 3, &[]),
        Err(LinearSolverError::VectorDimensionMismatch)
    );
    assert_eq!(
        check_covariance_greedy_inputs(2, 2, &[classes_of(&[1.0, 0.0]), classes_of(&[0.0, 1.0])]),
        Ok(())
    );
}

#[test]
fn rejects_invalid_candidate_directions_before_any_step() {
    let greedy = |candidates: &[&[f64]]| {
        let classes: Vec<Vec<ScalarClass>> =
            candidates.iter().map(|candidate| classes_of(candidate)).collect();
        check_covariance_greedy_inputs(2, 2, &classes)
    };
    assert_eq!(
        greedy(&[&[1.0, 0.0], &[1.0]]),
        Err(LinearSolverError::VectorDimensionMismatch)
    );
    assert_eq!(
        greedy(&[&[1.0, 0.0], &[f64::NAN, 1.0]]),
        Err(LinearSolverError::NonFiniteVectorEntry)
    );
    // The first invalid candidate decides the error.
    assert_eq!(
        greedy(&[&[f64::INFINITY, 0.0], &[1.0, 0.0, 0.0]]),
        Err(LinearSolverError::NonFiniteVectorEntry)
    );
    assert_eq!(
        greedy(&[&[1.0, 0.0, 0.0], &[f64::INFINITY, 0.0]]),
        Err(LinearSolverError::VectorDimensionMismatch)
    );
    // A zero direction is finite and of the right length: it is accepted here.
    assert_eq!(greedy(&[&[0.0, 0.0], &[0.0, -1.0]]), Ok(()));
}

#[test]
fn system_inputs_are_checked_in_order() {
    let system = |matrix: &[f64], rhs: &[f64], dimension: usize| {
        check_system_inputs(&classes_of(matrix), &classes_of(rhs), dimension)
    };
    assert_eq!(system(&[], &[], 0), Err(LinearSolverError::ZeroDimension));
    assert_eq!(system(&[1.0, 2.0], &[1.0], 2), Err(LinearSolverError::MatrixDimensionMismatch));
    assert_eq!(
        system(&[4.0, 1.0, 1.0, 3.0], &[1.0], 2),
        Err(LinearSolverError::VectorDimensionMismatch)
    );
    assert_eq!(
        system(&[4.0, f64::NAN, 1.0, 3.0], &[f64::NAN, 2.0], 2),
        Err(LinearSolverError::NonFiniteMatrixEntry)
    );
    assert_eq!(
        system(&[4.0, 1.0, 1.0, 3.0], &[f64::NAN, 2.0], 2),
        Err(LinearSolverError::NonFiniteVectorEntry)
    );
    assert_eq!(system(&[4.0, 1.0, 1.0, 3.0], &[1.0, 2.0], 2), Ok(()));
}

#[test]
fn belief_inputs_are_checked_in_order() {
    let belief = |mean: &[f64], covariance: &[f64], dimension: usize| {
        check_belief_inputs(&classes_of(mean), &classes_of(covariance), dimension)
    };
    assert_eq!(belief(&[], &[], 0), Err(LinearSolverError::ZeroDimension));
    assert_eq!(belief(&[0.0], &[1.0], 2), Err(LinearSolverError::VectorDimensionMismatch));
    assert_eq!(belief(&[0.0, 0.0], &[1.0], 2), Err(LinearSolverError::MatrixDimensionMismatch));
    assert_eq!(
        belief(&[f64::NAN, 0.0], &[1.0, 0.0, 0.0, 1.0], 2),
        Err(LinearSolverError::NonFiniteVectorEntry)
    );
    assert_eq!(
        belief(&[0.0, 0.0], &[1.0, 0.0, 0.0, f64::INFINITY], 2),
        Err(LinearSolverError::NonFiniteMatrixEntry)
    );
    assert_eq!(belief(&[0.0, 0.0], &[1.0, 0.0, 0.0, 1.0], 2), Ok(()));
}

#[test]
fn projection_inputs_are_checked() {
    assert_eq!(
        check_projection_inputs(2, 3, &classes_of(&[1.0, 0.0, 0.0])),
        Err(LinearSolverError::VectorDimensionMismatch)
    );
    assert_eq!(
        check_projection_inputs(2, 2, &classes_of(&[1.0])),
        Err(LinearSolverError::VectorDimensionMismatch)
    );
    assert_eq!(
        check_projection_inputs(2, 2, &classes_of(&[1.0, f64::NAN])),
        Err(LinearSolverError::NonFiniteVectorEntry)
    );
    assert_eq!(check_projection_inputs(2, 2, &classes_of(&[1.0, 0.0])), Ok(()));
}

#[test]
fn entries_finite_detects_any_non_finite_entry() {
    assert!(entries_finite(&[]));
    assert!(entries_finite(&classes_of(&[0.0, -1.0, 2.0])));
    assert!(!entries_finite(&classes_of(&[0.0, f64::NEG_INFINITY, 2.0])));
    assert!(ScalarClass::Zero.is_finite());
    assert!(!ScalarClass::NonFinite.is_finite());
}
