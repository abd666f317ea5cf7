use vstd::prelude::*;

use crate::linear_solver_error::LinearSolverError;
use crate::scalar::{verdict, ScalarClass};

verus! {

/// Reason a residual-projection or A-conjugate probabilistic linear solve terminated.
#[derive(Debug, Clone, Copy, PartialEq, Eq, Structural)]
pub enum LinearSolveTermination {
    /// The residual norm reached the requested tolerance.
    ResidualToleranceReached,
    /// The total posterior variance reached the requested tolerance.
    CovarianceTraceToleranceReached,
    /// The configured iteration budget was exhausted.
    IterationBudgetReached,
    /// The current search direction contains no remaining posterior uncertainty.
    NoInformativeDirection,
}

/// The error that the residual-projection and A-conjugate solver constructors
/// report for a residual tolerance and a covariance-trace tolerance of the
/// given classes, or `None`.
///
/// Finiteness of both tolerances is checked before their signs.
pub open spec fn solver_tolerance_error(
    residual_tolerance: ScalarClass,
    covariance_trace_tolerance: ScalarClass,
) -> Option<LinearSolverError> {
    if !residual_tolerance.finite() || !covariance_trace_tolerance.finite() {
        Some(LinearSolverError::NonFiniteTolerance)
    } else if !residual_tolerance.non_negative() || !covariance_trace_tolerance.non_negative() {
        Some(LinearSolverError::NegativeTolerance)
    } else {
        None
    }
}

/// Validate the stopping tolerances of a residual-projection or A-conjugate solver.
pub fn check_solver_tolerances(
    residual_tolerance: ScalarClass,
    covariance_trace_tolerance: ScalarClass,
) -> (result: Result<(), LinearSolverError>)
    ensures
        result == verdict(solver_tolerance_error(residual_tolerance, covariance_trace_tolerance)),
{
    if !residual_tolerance.is_finite() || !covariance_trace_tolerance.is_finite() {
        return Err(LinearSolverError::NonFiniteTolerance);
    }
    if matches!(residual_tolerance, ScalarClass::Negative) || matches!(
        covariance_trace_tolerance,
        ScalarClass::Negative,
    ) {
        return Err(LinearSolverError::NegativeTolerance);
    }
    Ok(())
}

/// The stopping rule of the residual-projection and A-conjugate solvers,
/// applied before the first step and after every conditioning step.
///
/// The solve stops when the residual norm is within its tolerance; otherwise
/// when the covariance trace is within its tolerance; otherwise when
/// `max_iterations` steps have been made. `None` means: take the next step.
pub open spec fn linear_stop_reason(
    residual_within_tolerance: bool,
    trace_within_tolerance: bool,
    iterations: nat,
    max_iterations: nat,
) -> Option<LinearSolveTermination> {
    if residual_within_tolerance {
        Some(LinearSolveTermination::ResidualToleranceReached)
    } else if trace_within_tolerance {
        Some(LinearSolveTermination::CovarianceTraceToleranceReached)
    } else if iterations >= max_iterations {
        Some(LinearSolveTermination::IterationBudgetReached)
    } else {
        None
    }
}

/// The outcome of a failed conditioning step: a degenerate observation ends
/// the solve without error, any other failure is reported.
pub open spec fn conditioning_failure_outcome(error: LinearSolverError) -> Result<
    LinearSolveTermination,
    LinearSolverError,
> {
    if error == LinearSolverError::DegenerateObservation {
        Ok(LinearSolveTermination::NoInformativeDirection)
    } else {
        Err(error)
    }
}

/// Iteration accounting of a residual-projection or A-conjugate solve.
pub struct LinearSolveProgress {
    iterations: usize,
    max_iterations: usize,
}

impl LinearSolveProgress {
    #[verifier::type_invariant]
    closed spec fn within_budget(self) -> bool {
        self.iterations <= self.max_iterations
    }

    /// The number of conditioning steps taken so far.
    pub closed spec fn iterations_done(self) -> nat {
        self.iterations as nat
    }

    /// The maximal number of conditioning steps.
    pub closed spec fn iteration_budget(self) -> nat {
        self.max_iterations as nat
    }

    /// Start a solve of a system of dimension `system_dimension` from a belief
    /// of dimension `belief_dimension`, with at most `max_iterations` steps.
    ///
    /// The dimensions must agree.
    pub fn start(system_dimension: usize, belief_dimension: usize, max_iterations: usize) -> (progress: Result<Self, LinearSolverError>)
        ensures
            progress is Err <==> system_dimension != belief_dimension,
            progress matches Err(error) ==> error == LinearSolverError::VectorDimensionMismatch,
            progress matches Ok(progress) ==> progress.iterations_done() == 0
                && progress.iteration_budget() == max_iterations,
    {
        if system_dimension != belief_dimension {
            return Err(LinearSolverError::VectorDimensionMismatch);
        }
        Ok(LinearSolveProgress { iterations: 0, max_iterations })
    }

    /// Return the number of conditioning steps taken so far.
    pub fn iterations(&self) -> (iterations: usize)
        ensures
            iterations == self.iterations_done(),
            iterations <= self.iteration_budget(),
    {
        proof {
            use_type_invariant(self);
        }
        self.iterations
    }

    /// Return the maximal number of conditioning steps.
    pub fn max_iterations(&self) -> (max_iterations: usize)
        ensures
            max_iterations == self.iteration_budget(),
    {
        self.max_iterations
    }

    /// Decide whether the solve stops, given whether the residual norm and the
    /// covariance trace of the current belief are within their tolerances.
    pub fn decide(&self, residual_within_tolerance: bool, trace_within_tolerance: bool) -> (decision: Option<LinearSolveTermination>)
        ensures
            decision == linear_stop_reason(
                residual_within_tolerance,
                trace_within_tolerance,
                self.iterations_done(),
                self.iteration_budget(),
            ),
            decision is None ==> self.iterations_done() < self.iteration_budget(),
            decision == Some(LinearSolveTermination::IterationBudgetReached)
                ==> self.iterations_done() == self.iteration_budget(),
            residual_within_tolerance ==> decision == Some(
                LinearSolveTermination::ResidualToleranceReached,
            ),
            !residual_within_tolerance && trace_within_tolerance ==> decision == Some(
                LinearSolveTermination::CovarianceTraceToleranceReached,
            ),
            !residual_within_tolerance && !trace_within_tolerance && self.iterations_done()
                >= self.iteration_budget() ==> decision == Some(
                LinearSolveTermination::IterationBudgetReached,
            ),
            decision is None <==> !residual_within_tolerance && !trace_within_tolerance
                && self.iterations_done() < self.iteration_budget(),
    {
        proof {
            use_type_invariant(self);
        }
        if residual_within_tolerance {
            Some(LinearSolveTermination::ResidualToleranceReached)
        } else if trace_within_tolerance {
            Some(LinearSolveTermination::CovarianceTraceToleranceReached)
        } else if self.iterations >= self.max_iterations {
            Some(LinearSolveTermination::IterationBudgetReached)
        } else {
            None
        }
    }

    /// Account for one completed conditioning step.
    pub fn record_step(&mut self)
        requires
            old(self).iterations_done() < old(self).iteration_budget(),
        ensures
            final(self).iterations_done() == old(self).iterations_done() + 1,
            final(self).iteration_budget() == old(self).iteration_budget(),
            final(self).iterations_done() <= final(self).iteration_budget(),
    {
        self.iterations = self.iterations + 1;
    }

    /// Decide, once a search direction has been orthogonalized against the
    /// previous ones, whether the solve stops because nothing informative is
    /// left of it (its norm is at most the orthogonalization tolerance).
    pub fn on_search_direction(informative: bool) -> (decision: Option<LinearSolveTermination>)
        ensures
            decision is None <==> informative,
            decision is Some ==> decision == Some(LinearSolveTermination::NoInformativeDirection),
    {
        if informative {
            None
        } else {
            Some(LinearSolveTermination::NoInformativeDirection)
        }
    }

    /// Turn a failed conditioning step into the solve's outcome.
    pub fn on_conditioning_failure(error: LinearSolverError) -> (outcome: Result<
        LinearSolveTermination,
        LinearSolverError,
    >)
        ensures
            outcome == conditioning_failure_outcome(error),
    {
        match error {
            LinearSolverError::DegenerateObservation => Ok(
                LinearSolveTermination::NoInformativeDirection,
            ),
            other => Err(other),
        }
    }
}

/// A residual norm within its tolerance ends a residual-projection or
/// A-conjugate solve with `ResidualToleranceReached`, whatever the covariance
/// trace and the number of iterations.
pub proof fn lemma_residual_tolerance_stops_solve(trace_within_tolerance: bool, iterations: nat, max_iterations: nat)
    ensures
        linear_stop_reason(true, trace_within_tolerance, iterations, max_iterations) == Some(
            LinearSolveTermination::ResidualToleranceReached,
        ),
{
}

/// With the residual norm above its tolerance, a covariance trace within its
/// tolerance ends the solve with `CovarianceTraceToleranceReached`, whatever
/// the number of iterations done.
pub proof fn lemma_trace_tolerance_stops_solve(iterations: nat, max_iterations: nat)
    ensures
        linear_stop_reason(false, true, iterations, max_iterations) == Some(
            LinearSolveTermination::CovarianceTraceToleranceReached,
        ),
{
}

/// With both tolerances unmet, the solve stops with `IterationBudgetReached`
/// exactly when the iteration budget is spent, and goes on otherwise.
pub proof fn lemma_iteration_budget_stops_solve(iterations: nat, max_iterations: nat)
    ensures
        (linear_stop_reason(false, false, iterations, max_iterations) == Some(
            LinearSolveTermination::IterationBudgetReached,
        )) <==> iterations >= max_iterations,
        linear_stop_reason(false, false, iterations, max_iterations) is None <==> iterations
            < max_iterations,
{
}

/// The solve goes on exactly when neither tolerance is met and the budget is
/// not spent.
pub proof fn lemma_solve_goes_on(
    residual_within_tolerance: bool,
    trace_within_tolerance: bool,
    iterations: nat,
    max_iterations: nat,
)
    ensures
        linear_stop_reason(
            residual_within_tolerance,
            trace_within_tolerance,
            iterations,
            max_iterations,
        ) is None <==> !residual_within_tolerance && !trace_within_tolerance && iterations
            < max_iterations,
{
}

/// Solver tolerances are accepted exactly when both are finite and
/// non-negative; non-finiteness of either is reported before a negative sign.
pub proof fn lemma_solver_tolerance_rule(residual_tolerance: ScalarClass, covariance_trace_tolerance: ScalarClass)
    ensures
        (solver_tolerance_error(residual_tolerance, covariance_trace_tolerance) == Some(LinearSolverError::NonFiniteTolerance)) <==> residual_tolerance is NonFinite || covariance_trace_tolerance is NonFinite,
        (solver_tolerance_error(residual_tolerance, covariance_trace_tolerance) == Some(LinearSolverError::NegativeTolerance)) <==> !(residual_tolerance is NonFinite) && !(covariance_trace_tolerance is NonFinite) && (residual_tolerance is Negative || covariance_trace_tolerance is Negative),
        solver_tolerance_error(residual_tolerance, covariance_trace_tolerance) is None <==> (residual_tolerance is Zero || residual_tolerance is Positive) && (covariance_trace_tolerance is Zero || covariance_trace_tolerance is Positive),
{
}

/// A degenerate observation ends a solve without error, reported as
/// `NoInformativeDirection`; every other conditioning failure is reported
/// unchanged.
pub proof fn lemma_conditioning_failure_rule(error: LinearSolverError)
    ensures
        error == LinearSolverError::DegenerateObservation ==> conditioning_failure_outcome(error)
            == Ok::<LinearSolveTermination, LinearSolverError>(
            LinearSolveTermination::NoInformativeDirection,
        ),
        error != LinearSolverError::DegenerateObservation ==> conditioning_failure_outcome(error)
            == Err::<LinearSolveTermination, LinearSolverError>(error),
{
}

} // verus!
