use vstd::prelude::*;

use crate::candidate_pool::CandidatePool;
use crate::linear_solver_error::LinearSolverError;
use crate::linear_belief::{check_projection_inputs, projection_input_error};
use crate::scalar::{verdict, ScalarClass};
use crate::selection::{first_maximum, is_first_maximum};

verus! {

/// Reason a covariance-greedy probabilistic solve terminated.
#[derive(Debug, Clone, Copy, PartialEq, Eq, Structural)]
pub enum CovarianceGreedyTermination {
    /// Posterior covariance trace reached the requested tolerance.
    CovarianceTraceToleranceReached,
    /// The configured projection budget was exhausted.
    ProjectionBudgetReached,
    /// No unevaluated candidate directions remain.
    CandidatesExhausted,
    /// Remaining candidates carry no posterior uncertainty.
    NoInformativeDirection,
}

/// Covariance-trace acquisition for exact linear-system projection observations.
///
/// A candidate direction is scored by the posterior covariance-trace reduction
/// it would achieve; the library sees each score through an order key.
#[derive(Debug, Clone, Copy, PartialEq, Eq, Structural)]
pub struct CovarianceTraceAcquisition;

impl CovarianceTraceAcquisition {
    /// Select the candidate with the largest predicted covariance-trace
    /// reduction, given the order keys of the candidates' reductions.
    ///
    /// Ties are resolved deterministically by retaining the first maximum.
    pub fn select_best_index(reduction_keys: &[u64]) -> (selected: Result<
        usize,
        LinearSolverError,
    >)
        ensures
            selected is Err <==> reduction_keys@.len() == 0,
            selected matches Err(error) ==> error == LinearSolverError::EmptyCandidateDirections,
            selected matches Ok(index) ==> is_first_maximum(reduction_keys@, index as int),
    {
        match first_maximum(reduction_keys) {
            Some(index) => Ok(index),
            None => Err(LinearSolverError::EmptyCandidateDirections),
        }
    }
}

/// The error that the covariance-greedy solver constructor reports for a
/// covariance-trace tolerance of the given class, or `None`.
pub open spec fn trace_tolerance_error(tolerance: ScalarClass) -> Option<LinearSolverError> {
    if !tolerance.finite() {
        Some(LinearSolverError::NonFiniteTolerance)
    } else if !tolerance.non_negative() {
        Some(LinearSolverError::NegativeTolerance)
    } else {
        None
    }
}

/// Validate the covariance-trace tolerance of a covariance-greedy solver.
pub fn check_trace_tolerance(tolerance: ScalarClass) -> (result: Result<(), LinearSolverError>)
    ensures
        result == verdict(trace_tolerance_error(tolerance)),
{
    match tolerance {
        ScalarClass::NonFinite => Err(LinearSolverError::NonFiniteTolerance),
        ScalarClass::Negative => Err(LinearSolverError::NegativeTolerance),
        ScalarClass::Zero | ScalarClass::Positive => Ok(()),
    }
}

/// The error that the first invalid candidate direction reports, scanning
/// the candidates in order, or `None` when every candidate is valid: a
/// candidate is valid when it has `dimension` entries, all finite (the rule of
/// [`projection_input_error`] for a belief of the system's dimension).
pub open spec fn first_candidate_error(
    dimension: int,
    candidates: Seq<Seq<ScalarClass>>,
) -> Option<LinearSolverError>
    decreases candidates.len(),
{
    if candidates.len() == 0 {
        None
    } else if projection_input_error(dimension, dimension, candidates[0]) is Some {
        projection_input_error(dimension, dimension, candidates[0])
    } else {
        first_candidate_error(dimension, candidates.drop_first())
    }
}

/// The entry classes of each candidate direction.
pub open spec fn candidate_classes(candidates: Seq<Vec<ScalarClass>>) -> Seq<Seq<ScalarClass>> {
    candidates.map_values(|candidate: Vec<ScalarClass>| candidate@)
}

/// The error that a covariance-greedy solve reports before its first stopping
/// decision, or `None`: the belief must have the system's dimension, at least
/// one candidate direction must be given, and every candidate must have the
/// system's dimension and finite entries (the first invalid candidate decides
/// the error).
pub open spec fn covariance_greedy_input_error(
    system_dimension: int,
    belief_dimension: int,
    candidates: Seq<Seq<ScalarClass>>,
) -> Option<LinearSolverError> {
    if system_dimension != belief_dimension {
        Some(LinearSolverError::VectorDimensionMismatch)
    } else if candidates.len() == 0 {
        Some(LinearSolverError::EmptyCandidateDirections)
    } else {
        first_candidate_error(system_dimension, candidates)
    }
}

/// Validate the inputs of a covariance-greedy solve, every candidate direction
/// included, before any stopping decision is taken.
pub fn check_covariance_greedy_inputs(
    system_dimension: usize,
    belief_dimension: usize,
    candidates: &[Vec<ScalarClass>],
) -> (result: Result<(), LinearSolverError>)
    ensures
        result == verdict(
            covariance_greedy_input_error(
                system_dimension as int,
                belief_dimension as int,
                candidate_classes(candidates@),
            ),
        ),
{
    if system_dimension != belief_dimension {
        return Err(LinearSolverError::VectorDimensionMismatch);
    }
    if candidates.len() == 0 {
        return Err(LinearSolverError::EmptyCandidateDirections);
    }
    let ghost all = candidate_classes(candidates@);
    assert(all.skip(0) =~= all);
    let mut index: usize = 0;
    while index < candidates.len()
        invariant
            index <= candidates.len(),
            system_dimension == belief_dimension,
            candidates@.len() > 0,
            all == candidate_classes(candidates@),
            first_candidate_error(system_dimension as int, all) == first_candidate_error(
                system_dimension as int,
                all.skip(index as int),
            ),
        decreases candidates.len() - index,
    {
        let ghost rest = all.skip(index as int);
        assert(all.len() == candidates@.len());
        assert(rest.len() > 0);
        assert(rest[0] == candidates@[index as int]@);
        let checked = check_projection_inputs(
            system_dimension,
            system_dimension,
            candidates[index].as_slice(),
        );
        if let Err(error) = checked {
            assert(projection_input_error(system_dimension as int, system_dimension as int, rest[0])
                == Some(error));
            assert(first_candidate_error(system_dimension as int, rest) == Some(error));
            return Err(error);
        }
        assert(rest.drop_first() =~= all.skip(index + 1));
        index = index + 1;
    }
    assert(all.skip(index as int) =~= Seq::<Seq<ScalarClass>>::empty());
    Ok(())
}

/// The stopping rule of the covariance-greedy solver, applied before the first
/// step and after every conditioning step.
///
/// The solve stops when the posterior covariance trace is within the tolerance;
/// otherwise when no candidate remains; otherwise when `budget` projections
/// have been made. `None` means: select the next direction.
pub open spec fn covariance_greedy_stop_reason(
    trace_within_tolerance: bool,
    projections: nat,
    budget: nat,
    remaining: nat,
) -> Option<CovarianceGreedyTermination> {
    if trace_within_tolerance {
        Some(CovarianceGreedyTermination::CovarianceTraceToleranceReached)
    } else if remaining == 0 {
        Some(CovarianceGreedyTermination::CandidatesExhausted)
    } else if projections >= budget {
        Some(CovarianceGreedyTermination::ProjectionBudgetReached)
    } else {
        None
    }
}

/// Decide whether a covariance-greedy solve stops, given its pool of candidate
/// directions and whether the current covariance trace is at most the
/// tolerance.
pub fn covariance_greedy_decision<T>(pool: &CandidatePool<T>, trace_within_tolerance: bool) -> (decision: Option<CovarianceGreedyTermination>)
    requires
        pool.wf(),
    ensures
        decision == covariance_greedy_stop_reason(
            trace_within_tolerance,
            pool.selected_seq().len(),
            pool.selection_budget(),
            pool.remaining_seq().len(),
        ),
        decision is None ==> pool.remaining_seq().len() > 0 && pool.selected_seq().len()
            < pool.selection_budget(),
        decision == Some(CovarianceGreedyTermination::CandidatesExhausted)
            ==> pool.remaining_seq().len() == 0,
        decision == Some(CovarianceGreedyTermination::ProjectionBudgetReached)
            ==> pool.selected_seq().len() == pool.selection_budget() && pool.remaining_seq().len()
            > 0,
        trace_within_tolerance ==> decision == Some(
            CovarianceGreedyTermination::CovarianceTraceToleranceReached,
        ),
        !trace_within_tolerance && pool.remaining_seq().len() == 0 ==> decision == Some(
            CovarianceGreedyTermination::CandidatesExhausted,
        ),
        !trace_within_tolerance && pool.remaining_seq().len() > 0 && pool.selected_seq().len()
            >= pool.selection_budget() ==> decision == Some(
            CovarianceGreedyTermination::ProjectionBudgetReached,
        ),
        decision is None <==> !trace_within_tolerance && pool.remaining_seq().len() > 0
            && pool.selected_seq().len() < pool.selection_budget(),
{
    if trace_within_tolerance {
        Some(CovarianceGreedyTermination::CovarianceTraceToleranceReached)
    } else if pool.remaining_count() == 0 {
        Some(CovarianceGreedyTermination::CandidatesExhausted)
    } else if pool.selections() >= pool.budget() {
        Some(CovarianceGreedyTermination::ProjectionBudgetReached)
    } else {
        None
    }
}

/// Decide, once the best remaining direction is known, whether the solve stops
/// because even that direction carries no posterior uncertainty (its predicted
/// trace reduction is at most the information tolerance).
pub fn covariance_greedy_selection_decision(best_is_informative: bool) -> (decision: Option<
    CovarianceGreedyTermination,
>)
    ensures
        decision is None <==> best_is_informative,
        decision is Some ==> decision == Some(CovarianceGreedyTermination::NoInformativeDirection),
{
    if best_is_informative {
        None
    } else {
        Some(CovarianceGreedyTermination::NoInformativeDirection)
    }
}

/// A covariance trace within the tolerance ends a covariance-greedy solve with
/// `CovarianceTraceToleranceReached`, whatever the number of projections made,
/// the budget and the number of remaining candidates.
pub proof fn lemma_trace_tolerance_stops_greedy_solve(projections: nat, budget: nat, remaining: nat)
    ensures
        covariance_greedy_stop_reason(true, projections, budget, remaining) == Some(
            CovarianceGreedyTermination::CovarianceTraceToleranceReached,
        ),
{
}

/// While the covariance trace is above the tolerance, a covariance-greedy solve
/// stops with `CandidatesExhausted` exactly when no candidate remains, with
/// `ProjectionBudgetReached` exactly when candidates remain but the budget is
/// spent, and goes on otherwise; it never reports the trace tolerance.
pub proof fn lemma_greedy_solve_above_tolerance(projections: nat, budget: nat, remaining: nat)
    ensures
        (covariance_greedy_stop_reason(false, projections, budget, remaining) == Some(
            CovarianceGreedyTermination::CandidatesExhausted,
        )) <==> remaining == 0,
        (covariance_greedy_stop_reason(false, projections, budget, remaining) == Some(
            CovarianceGreedyTermination::ProjectionBudgetReached,
        )) <==> remaining > 0 && projections >= budget,
        covariance_greedy_stop_reason(false, projections, budget, remaining) is None <==> remaining
            > 0 && projections < budget,
        covariance_greedy_stop_reason(false, projections, budget, remaining) != Some(
            CovarianceGreedyTermination::CovarianceTraceToleranceReached,
        ),
{
}

/// A covariance-trace tolerance is accepted exactly when it is finite and
/// non-negative.
pub proof fn lemma_trace_tolerance_rule(tolerance: ScalarClass)
    ensures
        (trace_tolerance_error(tolerance) == Some(LinearSolverError::NonFiniteTolerance)) <==> tolerance is NonFinite,
        (trace_tolerance_error(tolerance) == Some(LinearSolverError::NegativeTolerance)) <==> tolerance is Negative,
        trace_tolerance_error(tolerance) is None <==> (tolerance is Zero || tolerance is Positive),
{
}

/// A candidate direction fit for a system of dimension `dimension`: it has
/// `dimension` entries and every entry is finite.
pub open spec fn direction_fits(dimension: int, direction: Seq<ScalarClass>) -> bool {
    direction.len() == dimension && forall|i: int|
        0 <= i < direction.len() ==> !(#[trigger] direction[i] is NonFinite)
}

/// The first `count` candidate directions all fit a system of dimension
/// `dimension`.
pub open spec fn prefix_fits(dimension: int, candidates: Seq<Seq<ScalarClass>>, count: int) -> bool {
    forall|j: int| 0 <= j < count ==> direction_fits(dimension, #[trigger] candidates[j])
}

proof fn lemma_error_at_first_unfit(dimension: int, candidates: Seq<Seq<ScalarClass>>, k: int)
    requires
        0 <= k < candidates.len(),
        prefix_fits(dimension, candidates, k),
        !direction_fits(dimension, candidates[k]),
    ensures
        candidates[k].len() != dimension ==> first_candidate_error(dimension, candidates) == Some(
            LinearSolverError::VectorDimensionMismatch,
        ),
        candidates[k].len() == dimension ==> first_candidate_error(dimension, candidates) == Some(
            LinearSolverError::NonFiniteVectorEntry,
        ),
    decreases k,
{
    if k > 0 {
        let rest = candidates.drop_first();
        assert(direction_fits(dimension, candidates[0]));
        assert(rest[k - 1] == candidates[k]);
        assert forall|j: int| 0 <= j < k - 1 implies direction_fits(dimension, #[trigger] rest[j]) by {
            assert(rest[j] == candidates[j + 1]);
        }
        lemma_error_at_first_unfit(dimension, rest, k - 1);
    }
}

proof fn lemma_no_error_when_all_fit(dimension: int, candidates: Seq<Seq<ScalarClass>>)
    ensures
        first_candidate_error(dimension, candidates) is None <==> prefix_fits(
            dimension,
            candidates,
            candidates.len() as int,
        ),
    decreases candidates.len(),
{
    if candidates.len() > 0 {
        let rest = candidates.drop_first();
        lemma_no_error_when_all_fit(dimension, rest);
        if prefix_fits(dimension, candidates, candidates.len() as int) {
            assert(direction_fits(dimension, candidates[0]));
            assert forall|j: int| 0 <= j < rest.len() implies direction_fits(
                dimension,
                #[trigger] rest[j],
            ) by {
                assert(rest[j] == candidates[j + 1]);
            }
        }
        if first_candidate_error(dimension, candidates) is None {
            assert(direction_fits(dimension, candidates[0]));
            assert forall|j: int| 0 <= j < candidates.len() implies direction_fits(
                dimension,
                #[trigger] candidates[j],
            ) by {
                if j > 0 {
                    assert(candidates[j] == rest[j - 1]);
                }
            }
        }
    }
}

proof fn lemma_error_has_first_unfit(dimension: int, candidates: Seq<Seq<ScalarClass>>)
    requires
        first_candidate_error(dimension, candidates) is Some,
    ensures
        exists|k: int|
            0 <= k < candidates.len() && prefix_fits(dimension, candidates, k) && !direction_fits(
                dimension,
                #[trigger] candidates[k],
            ),
    decreases candidates.len(),
{
    if !direction_fits(dimension, candidates[0]) {
        assert(prefix_fits(dimension, candidates, 0));
    } else {
        let rest = candidates.drop_first();
        lemma_error_has_first_unfit(dimension, rest);
        let k = choose|k: int|
            0 <= k < rest.len() && prefix_fits(dimension, rest, k) && !direction_fits(
                dimension,
                #[trigger] rest[k],
            );
        assert(candidates[k + 1] == rest[k]);
        assert forall|j: int| 0 <= j < k + 1 implies direction_fits(
            dimension,
            #[trigger] candidates[j],
        ) by {
            if j > 0 {
                assert(candidates[j] == rest[j - 1]);
            }
        }
        assert(prefix_fits(dimension, candidates, k + 1));
    }
}

proof fn lemma_candidate_errors_are_vector_errors(dimension: int, candidates: Seq<Seq<ScalarClass>>)
    ensures
        first_candidate_error(dimension, candidates) is None || first_candidate_error(
            dimension,
            candidates,
        ) == Some(LinearSolverError::VectorDimensionMismatch) || first_candidate_error(
            dimension,
            candidates,
        ) == Some(LinearSolverError::NonFiniteVectorEntry),
    decreases candidates.len(),
{
    if candidates.len() > 0 {
        lemma_candidate_errors_are_vector_errors(dimension, candidates.drop_first());
    }
}

/// Scanning candidate directions in order, no error is found exactly when
/// every candidate fits; otherwise the error is that of the first candidate
/// that does not fit: `VectorDimensionMismatch` when it has the wrong number of
/// entries, `NonFiniteVectorEntry` when it has the right number but one of them
/// is not finite. The sign of an entry never matters.
pub proof fn lemma_first_candidate_error_rule(
    dimension: int,
    candidates: Seq<Seq<ScalarClass>>,
    first_unfit: int,
)
    ensures
        first_candidate_error(dimension, candidates) is None <==> prefix_fits(
            dimension,
            candidates,
            candidates.len() as int,
        ),
        first_candidate_error(dimension, candidates) is Some ==> exists|k: int|
            0 <= k < candidates.len() && prefix_fits(dimension, candidates, k) && !direction_fits(
                dimension,
                #[trigger] candidates[k],
            ),
        0 <= first_unfit < candidates.len() && prefix_fits(dimension, candidates, first_unfit)
            && !direction_fits(dimension, candidates[first_unfit]) ==> first_candidate_error(
            dimension,
            candidates,
        ) == (if candidates[first_unfit].len() != dimension {
            Some(LinearSolverError::VectorDimensionMismatch)
        } else {
            Some(LinearSolverError::NonFiniteVectorEntry)
        }),
{
    lemma_no_error_when_all_fit(dimension, candidates);
    if first_candidate_error(dimension, candidates) is Some {
        lemma_error_has_first_unfit(dimension, candidates);
    }
    if 0 <= first_unfit < candidates.len() && prefix_fits(dimension, candidates, first_unfit)
        && !direction_fits(dimension, candidates[first_unfit]) {
        lemma_error_at_first_unfit(dimension, candidates, first_unfit);
    }
}

/// A covariance-greedy solve accepts its inputs exactly when the system and
/// belief dimensions agree, at least one candidate is given, and every
/// candidate has the system's dimension and finite entries.
pub proof fn lemma_covariance_greedy_input_rule(
    system_dimension: int,
    belief_dimension: int,
    candidates: Seq<Seq<ScalarClass>>,
)
    ensures
        covariance_greedy_input_error(system_dimension, belief_dimension, candidates) is None
            <==> system_dimension == belief_dimension && candidates.len() > 0 && prefix_fits(
            system_dimension,
            candidates,
            candidates.len() as int,
        ),
        (covariance_greedy_input_error(system_dimension, belief_dimension, candidates) == Some(
            LinearSolverError::EmptyCandidateDirections,
        )) <==> system_dimension == belief_dimension && candidates.len() == 0,
        system_dimension != belief_dimension ==> covariance_greedy_input_error(
            system_dimension,
            belief_dimension,
            candidates,
        ) == Some(LinearSolverError::VectorDimensionMismatch),
{
    lemma_no_error_when_all_fit(system_dimension, candidates);
    lemma_candidate_errors_are_vector_errors(system_dimension, candidates);
}

} // verus!
