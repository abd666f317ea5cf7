//! Decision logic of probabilistic numerical methods, verified with Verus.
//!
//! The library holds the parts of Bayesian quadrature and of the probabilistic
//! linear solvers that decide rather than compute: the validation rules of every
//! constructor (which error is reported for which input), the layout checks of
//! flattened matrices, the typed errors and their messages, deterministic
//! candidate selection, and the sequential stopping rules of the active and
//! projection-based solvers, together with the bookkeeping of candidate sets.
//!
//! Real numbers never enter the library. A real input is described to it by
//! its [`ScalarClass`] (non-finite, negative, zero or positive), a comparison
//! against a tolerance by a `bool`, and an acquisition value by an order key
//! (`u64`) whose order is the order of the values it stands for.

mod active;
mod active_design;
mod active_design_error;
mod active_error;
mod bayesian_quadrature;
mod bayesian_quadrature_error;
mod candidate_pool;
mod conditioning;
mod conditioning_error;
mod covariance_greedy_solver;
mod error;
mod kernel;
mod kernel_error;
mod layout;
mod linear_belief;
mod linear_solver_error;
mod linear_system;
mod measure;
mod measure_error;
mod posterior;
mod prior_mean;
mod prior_mean_error;
mod probabilistic_linear_solver;
mod scalar;
mod selection;
mod text;

pub use active::{
    lemma_acquisition_input_rule, lemma_selection_candidate_rule,
    acquisition_input_error, check_acquisition_inputs, check_selection_candidates,
    selection_candidate_error,
};
pub use active_design::{
    lemma_active_design_input_rule, lemma_active_run_above_tolerance, lemma_function_value_rule,
    lemma_variance_tolerance_stops_active_run,
    active_design_decision, active_design_input_error, active_stop_reason,
    check_active_design_inputs, check_function_value, function_value_error, ActiveTermination,
};
pub use active_design_error::ActiveDesignError;
pub use active_error::ActiveSelectionError;
pub use bayesian_quadrature::{
    check_observations, lemma_observation_rule, lemma_observation_rule_ignores_signs,
    observation_error,
};
pub use bayesian_quadrature_error::BayesianQuadratureError;
pub use candidate_pool::{
    lemma_pool_accounting, lemma_remaining_keep_original_order,
    lemma_selected_candidates_leave_the_pool, lemma_take_into_records_selections, CandidatePool,
};
pub use conditioning::{
    lemma_conditioner_input_rule, lemma_right_hand_side_rule,
    check_conditioner_inputs, check_right_hand_side, conditioner_input_error,
    right_hand_side_error,
};
pub use conditioning_error::ConditioningError;
pub use covariance_greedy_solver::{
    direction_fits, lemma_covariance_greedy_input_rule, lemma_first_candidate_error_rule,
    lemma_greedy_solve_above_tolerance, lemma_trace_tolerance_rule,
    lemma_trace_tolerance_stops_greedy_solve, prefix_fits,
    candidate_classes, check_covariance_greedy_inputs, check_trace_tolerance,
    covariance_greedy_decision, covariance_greedy_input_error, covariance_greedy_selection_decision,
    covariance_greedy_stop_reason, first_candidate_error, trace_tolerance_error,
    CovarianceGreedyTermination, CovarianceTraceAcquisition,
};
pub use error::PosteriorError;
pub use kernel::{check_kernel_parameters, kernel_parameter_error, lemma_kernel_parameter_rule};
pub use kernel_error::KernelError;
pub use layout::{diagonal_positions, is_upper_pair, row_major_before, upper_triangle_pairs};
pub use linear_belief::{
    lemma_belief_input_rule, lemma_projection_input_rule,
    belief_input_error, check_belief_inputs, check_projection_inputs, projection_input_error,
};
pub use linear_solver_error::LinearSolverError;
pub use linear_system::{
    check_system_inputs, lemma_system_input_rule, lemma_system_input_rule_ignores_signs,
    system_input_error,
};
pub use measure::{check_measure_parameters, lemma_measure_parameter_rule, measure_parameter_error};
pub use measure_error::MeasureError;
pub use posterior::{
    check_posterior_parameters, lemma_posterior_parameter_rule, posterior_parameter_error,
};
pub use prior_mean::{
    lemma_affine_mean_rule, lemma_constant_mean_rule,
    affine_mean_error, check_affine_mean, check_constant_mean, constant_mean_error, ZeroMean,
};
pub use prior_mean_error::PriorMeanError;
pub use probabilistic_linear_solver::{
    lemma_conditioning_failure_rule, lemma_iteration_budget_stops_solve,
    lemma_residual_tolerance_stops_solve, lemma_solve_goes_on, lemma_solver_tolerance_rule,
    lemma_trace_tolerance_stops_solve,
    check_solver_tolerances, conditioning_failure_outcome, linear_stop_reason,
    solver_tolerance_error, LinearSolveProgress, LinearSolveTermination,
};
pub use scalar::{all_finite, entries_finite, verdict, ScalarClass};
pub use selection::{first_maximum, is_first_maximum, lemma_first_maximum_unique};
