use vstd::prelude::*;

use crate::active_error::ActiveSelectionError;
use crate::bayesian_quadrature_error::BayesianQuadratureError;
use crate::scalar::{all_finite, entries_finite, verdict, ScalarClass};

verus! {

/// The error that the variance-reduction acquisition reports for current nodes
/// and a candidate of the given classes, or `None` when they are valid.
///
/// The checks run in this order: at least one node, finite nodes, finite
/// candidate.
pub open spec fn acquisition_input_error<R>(
    nodes: Seq<ScalarClass>,
    candidate: ScalarClass,
) -> Option<BayesianQuadratureError<R>> {
    if nodes.len() == 0 {
        Some(BayesianQuadratureError::EmptyObservations)
    } else if !all_finite(nodes) {
        Some(BayesianQuadratureError::NonFiniteObservationNode)
    } else if !candidate.finite() {
        Some(BayesianQuadratureError::NonFiniteObservationNode)
    } else {
        None
    }
}

/// Validate the current nodes and a candidate before the posterior
/// integral-variance reduction at the candidate is evaluated.
pub fn check_acquisition_inputs<R>(nodes: &[ScalarClass], candidate: ScalarClass) -> (result:
    Result<(), BayesianQuadratureError<R>>)
    ensures
        result == verdict(acquisition_input_error::<R>(nodes@, candidate)),
{
    if nodes.len() == 0 {
        return Err(BayesianQuadratureError::EmptyObservations);
    }
    if !entries_finite(nodes) {
        return Err(BayesianQuadratureError::NonFiniteObservationNode);
    }
    if !candidate.is_finite() {
        return Err(BayesianQuadratureError::NonFiniteObservationNode);
    }
    Ok(())
}

/// The error that active candidate selection reports for a candidate set of
/// the given classes, or `None` when it is valid.
pub open spec fn selection_candidate_error<R>(candidates: Seq<ScalarClass>) -> Option<
    ActiveSelectionError<R>,
> {
    if candidates.len() == 0 {
        Some(ActiveSelectionError::EmptyCandidates)
    } else if !all_finite(candidates) {
        Some(ActiveSelectionError::NonFiniteCandidate)
    } else {
        None
    }
}

/// Validate a candidate set before the best candidate is selected from it.
pub fn check_selection_candidates<R>(candidates: &[ScalarClass]) -> (result: Result<
    (),
    ActiveSelectionError<R>,
>)
    ensures
        result == verdict(selection_candidate_error::<R>(candidates@)),
{
    if candidates.len() == 0 {
        return Err(ActiveSelectionError::EmptyCandidates);
    }
    if !entries_finite(candidates) {
        return Err(ActiveSelectionError::NonFiniteCandidate);
    }
    Ok(())
}

/// The acquisition accepts current nodes and a candidate exactly when there is
/// at least one node and the nodes and the candidate are finite, of any sign.
pub proof fn lemma_acquisition_input_rule<R>(nodes: Seq<ScalarClass>, candidate: ScalarClass)
    ensures
        (acquisition_input_error::<R>(nodes, candidate) == Some(BayesianQuadratureError::<R>::EmptyObservations)) <==> nodes.len() == 0,
        (acquisition_input_error::<R>(nodes, candidate) == Some(BayesianQuadratureError::<R>::NonFiniteObservationNode)) <==> nodes.len() > 0 && ((exists|i: int| 0 <= i < nodes.len() && #[trigger] nodes[i] is NonFinite) || candidate is NonFinite),
        acquisition_input_error::<R>(nodes, candidate) is None <==> nodes.len() > 0 && (forall|i: int| 0 <= i < nodes.len() ==> !(#[trigger] nodes[i] is NonFinite)) && !(candidate is NonFinite),
{
}

/// A candidate set is accepted for selection exactly when it is non-empty and
/// every candidate is finite, of any sign.
pub proof fn lemma_selection_candidate_rule<R>(candidates: Seq<ScalarClass>)
    ensures
        (selection_candidate_error::<R>(candidates) == Some(ActiveSelectionError::<R>::EmptyCandidates)) <==> candidates.len() == 0,
        (selection_candidate_error::<R>(candidates) == Some(ActiveSelectionError::<R>::NonFiniteCandidate)) <==> candidates.len() > 0 && (exists|i: int| 0 <= i < candidates.len() && #[trigger] candidates[i] is NonFinite),
        selection_candidate_error::<R>(candidates) is None <==> candidates.len() > 0 && (forall|i: int| 0 <= i < candidates.len() ==> !(#[trigger] candidates[i] is NonFinite)),
{
}

} // verus!
