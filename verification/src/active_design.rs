use vstd::prelude::*;

use crate::active_design_error::ActiveDesignError;
use crate::candidate_pool::CandidatePool;
use crate::scalar::{all_finite, entries_finite, verdict, ScalarClass};

verus! {

/// Reason a sequential active Bayesian-quadrature run terminated.
#[derive(Debug, Clone, Copy, PartialEq, Eq, Structural)]
pub enum ActiveTermination {
    /// The posterior integral variance reached the requested tolerance.
    VarianceToleranceReached,
    /// The configured budget of new function evaluations was exhausted.
    EvaluationBudgetReached,
    /// No unevaluated candidates remain.
    CandidatesExhausted,
}

/// The error that an active run reports for a variance tolerance and
/// candidates of the given classes, or `None` when they are valid.
///
/// The checks run in this order: finite tolerance, non-negative tolerance,
/// finite candidates.
pub open spec fn active_design_input_error<R>(
    variance_tolerance: ScalarClass,
    candidates: Seq<ScalarClass>,
) -> Option<ActiveDesignError<R>> {
    if !variance_tolerance.finite() {
        Some(ActiveDesignError::NonFiniteVarianceTolerance)
    } else if !variance_tolerance.non_negative() {
        Some(ActiveDesignError::NegativeVarianceTolerance)
    } else if !all_finite(candidates) {
        Some(ActiveDesignError::NonFiniteCandidate)
    } else {
        None
    }
}

/// Validate the stopping tolerance and the candidate set of an active run
/// before any posterior is computed.
pub fn check_active_design_inputs<R>(
    variance_tolerance: ScalarClass,
    candidates: &[ScalarClass],
) -> (result: Result<(), ActiveDesignError<R>>)
    ensures
        result == verdict(active_design_input_error::<R>(variance_tolerance, candidates@)),
{
    match variance_tolerance {
        ScalarClass::NonFinite => {
            return Err(ActiveDesignError::NonFiniteVarianceTolerance);
        },
        ScalarClass::Negative => {
            return Err(ActiveDesignError::NegativeVarianceTolerance);
        },
        ScalarClass::Zero | ScalarClass::Positive => {},
    }
    if !entries_finite(candidates) {
        return Err(ActiveDesignError::NonFiniteCandidate);
    }
    Ok(())
}

/// The error that an active run reports for a function evaluation of the
/// given class, or `None` when the value may be recorded.
pub open spec fn function_value_error<R>(value: ScalarClass) -> Option<ActiveDesignError<R>> {
    if !value.finite() {
        Some(ActiveDesignError::NonFiniteFunctionValue)
    } else {
        None
    }
}

/// Validate the value returned by the user's function at a selected point
/// before it is recorded.
pub fn check_function_value<R>(value: ScalarClass) -> (result: Result<(), ActiveDesignError<R>>)
    ensures
        result == verdict(function_value_error::<R>(value)),
        result is Ok <==> value.finite(),
{
    if value.is_finite() {
        Ok(())
    } else {
        Err(ActiveDesignError::NonFiniteFunctionValue)
    }
}

/// The stopping rule of active Bayesian quadrature, applied after every
/// posterior computation (the initial one and the one after each evaluation).
///
/// The run stops when the posterior variance is within the tolerance; otherwise
/// when no candidate remains; otherwise when `budget` evaluations have been
/// made. `None` means: select and evaluate the next candidate.
pub open spec fn active_stop_reason(
    variance_within_tolerance: bool,
    evaluations: nat,
    budget: nat,
    remaining: nat,
) -> Option<ActiveTermination> {
    if variance_within_tolerance {
        Some(ActiveTermination::VarianceToleranceReached)
    } else if remaining == 0 {
        Some(ActiveTermination::CandidatesExhausted)
    } else if evaluations >= budget {
        Some(ActiveTermination::EvaluationBudgetReached)
    } else {
        None
    }
}

/// Decide whether an active run stops, given its candidate pool and whether
/// the current posterior variance is at most the variance tolerance.
///
/// When the run goes on, a candidate may be taken from the pool.
pub fn active_design_decision<T>(pool: &CandidatePool<T>, variance_within_tolerance: bool) -> (decision: Option<ActiveTermination>)
    requires
        pool.wf(),
    ensures
        decision == active_stop_reason(
            variance_within_tolerance,
            pool.selected_seq().len(),
            pool.selection_budget(),
            pool.remaining_seq().len(),
        ),
        decision is None ==> pool.remaining_seq().len() > 0 && pool.selected_seq().len()
            < pool.selection_budget(),
        decision == Some(ActiveTermination::CandidatesExhausted) ==> pool.remaining_seq().len()
            == 0,
        decision == Some(ActiveTermination::EvaluationBudgetReached) ==> pool.selected_seq().len()
            == pool.selection_budget() && pool.remaining_seq().len() > 0,
        variance_within_tolerance ==> decision == Some(ActiveTermination::VarianceToleranceReached),
        !variance_within_tolerance && pool.remaining_seq().len() == 0 ==> decision == Some(
            ActiveTermination::CandidatesExhausted,
        ),
        !variance_within_tolerance && pool.remaining_seq().len() > 0 && pool.selected_seq().len()
            >= pool.selection_budget() ==> decision == Some(
            ActiveTermination::EvaluationBudgetReached,
        ),
        decision is None <==> !variance_within_tolerance && pool.remaining_seq().len() > 0
            && pool.selected_seq().len() < pool.selection_budget(),
{
    if variance_within_tolerance {
        Some(ActiveTermination::VarianceToleranceReached)
    } else if pool.remaining_count() == 0 {
        Some(ActiveTermination::CandidatesExhausted)
    } else if pool.selections() >= pool.budget() {
        Some(ActiveTermination::EvaluationBudgetReached)
    } else {
        None
    }
}

/// A posterior variance within the tolerance ends an active run with
/// `VarianceToleranceReached`, whatever the number of evaluations made, the
/// budget and the number of remaining candidates.
pub proof fn lemma_variance_tolerance_stops_active_run(evaluations: nat, budget: nat, remaining: nat)
    ensures
        active_stop_reason(true, evaluations, budget, remaining) == Some(
            ActiveTermination::VarianceToleranceReached,
        ),
{
}

/// While the posterior variance is above the tolerance, an active run stops
/// with `CandidatesExhausted` exactly when no candidate remains, with
/// `EvaluationBudgetReached` exactly when candidates remain but the budget is
/// spent, and goes on otherwise; it never reports the variance tolerance.
pub proof fn lemma_active_run_above_tolerance(evaluations: nat, budget: nat, remaining: nat)
    ensures
        (active_stop_reason(false, evaluations, budget, remaining) == Some(
            ActiveTermination::CandidatesExhausted,
        )) <==> remaining == 0,
        (active_stop_reason(false, evaluations, budget, remaining) == Some(
            ActiveTermination::EvaluationBudgetReached,
        )) <==> remaining > 0 && evaluations >= budget,
        active_stop_reason(false, evaluations, budget, remaining) is None <==> remaining > 0
            && evaluations < budget,
        active_stop_reason(false, evaluations, budget, remaining) != Some(
            ActiveTermination::VarianceToleranceReached,
        ),
{
}

/// An active run's inputs are accepted exactly when the variance tolerance is
/// finite and non-negative and every candidate is finite, of any sign; the
/// tolerance is judged first.
pub proof fn lemma_active_design_input_rule<R>(variance_tolerance: ScalarClass, candidates: Seq<ScalarClass>)
    ensures
        (active_design_input_error::<R>(variance_tolerance, candidates) == Some(ActiveDesignError::<R>::NonFiniteVarianceTolerance)) <==> variance_tolerance is NonFinite,
        (active_design_input_error::<R>(variance_tolerance, candidates) == Some(ActiveDesignError::<R>::NegativeVarianceTolerance)) <==> variance_tolerance is Negative,
        (active_design_input_error::<R>(variance_tolerance, candidates) == Some(ActiveDesignError::<R>::NonFiniteCandidate)) <==> (variance_tolerance is Zero || variance_tolerance is Positive) && (exists|i: int| 0 <= i < candidates.len() && #[trigger] candidates[i] is NonFinite),
        active_design_input_error::<R>(variance_tolerance, candidates) is None <==> (variance_tolerance is Zero || variance_tolerance is Positive) && (forall|i: int| 0 <= i < candidates.len() ==> !(#[trigger] candidates[i] is NonFinite)),
{
}

/// A function value is recorded exactly when it is finite, of any sign.
pub proof fn lemma_function_value_rule<R>(value: ScalarClass)
    ensures
        (function_value_error::<R>(value) == Some(ActiveDesignError::<R>::NonFiniteFunctionValue)) <==> value is NonFinite,
        function_value_error::<R>(value) is None <==> !(value is NonFinite),
{
}

} // verus!
