use vstd::prelude::*;

use crate::linear_solver_error::LinearSolverError;
use crate::scalar::{all_finite, entries_finite, verdict, ScalarClass};

verus! {

/// The error that the Gaussian linear-belief constructor reports before its
/// symmetry and positive-semidefiniteness checks, for a mean and a row-major
/// covariance whose entries have the given classes, or `None`.
///
/// The checks run in this order: positive dimension, mean length equal to
/// `dimension`, covariance length equal to `dimension * dimension`, finite mean
/// entries, finite covariance entries.
pub open spec fn belief_input_error(
    mean: Seq<ScalarClass>,
    covariance: Seq<ScalarClass>,
    dimension: int,
) -> Option<LinearSolverError> {
    if dimension == 0 {
        Some(LinearSolverError::ZeroDimension)
    } else if mean.len() != dimension {
        Some(LinearSolverError::VectorDimensionMismatch)
    } else if covariance.len() != dimension * dimension {
        Some(LinearSolverError::MatrixDimensionMismatch)
    } else if !all_finite(mean) {
        Some(LinearSolverError::NonFiniteVectorEntry)
    } else if !all_finite(covariance) {
        Some(LinearSolverError::NonFiniteMatrixEntry)
    } else {
        None
    }
}

/// Validate the layout and finiteness of a Gaussian belief over a solution vector.
pub fn check_belief_inputs(
    mean: &[ScalarClass],
    covariance: &[ScalarClass],
    dimension: usize,
) -> (result: Result<(), LinearSolverError>)
    ensures
        result == verdict(belief_input_error(mean@, covariance@, dimension as int)),
{
    if dimension == 0 {
        return Err(LinearSolverError::ZeroDimension);
    }
    if mean.len() != dimension {
        return Err(LinearSolverError::VectorDimensionMismatch);
    }
    let length: usize = covariance.len();
    match dimension.checked_mul(dimension) {
        None => {
            return Err(LinearSolverError::MatrixDimensionMismatch);
        },
        Some(expected) => {
            if length != expected {
                return Err(LinearSolverError::MatrixDimensionMismatch);
            }
        },
    }
    if !entries_finite(mean) {
        return Err(LinearSolverError::NonFiniteVectorEntry);
    }
    if !entries_finite(covariance) {
        return Err(LinearSolverError::NonFiniteMatrixEntry);
    }
    Ok(())
}

/// The error that a projection observation reports for a system of dimension
/// `system_dimension`, a belief of dimension `belief_dimension` and a search
/// direction whose entries have the classes `direction`, or `None`.
///
/// This rule is shared by conditioning on a projection and by the
/// covariance-trace acquisition.
pub open spec fn projection_input_error(
    system_dimension: int,
    belief_dimension: int,
    direction: Seq<ScalarClass>,
) -> Option<LinearSolverError> {
    if system_dimension != belief_dimension || direction.len() != belief_dimension {
        Some(LinearSolverError::VectorDimensionMismatch)
    } else if !all_finite(direction) {
        Some(LinearSolverError::NonFiniteVectorEntry)
    } else {
        None
    }
}

/// Validate a search direction before an exact projection observation
/// `s^T A x = s^T b` is conditioned on or scored.
pub fn check_projection_inputs(
    system_dimension: usize,
    belief_dimension: usize,
    direction: &[ScalarClass],
) -> (result: Result<(), LinearSolverError>)
    ensures
        result == verdict(
            projection_input_error(system_dimension as int, belief_dimension as int, direction@),
        ),
{
    if system_dimension != belief_dimension || direction.len() != belief_dimension {
        return Err(LinearSolverError::VectorDimensionMismatch);
    }
    if !entries_finite(direction) {
        return Err(LinearSolverError::NonFiniteVectorEntry);
    }
    Ok(())
}

/// A belief's inputs are accepted exactly when the dimension is positive, the
/// mean has `dimension` entries, the covariance `dimension * dimension`, and
/// every entry is finite, of any sign. Each error names the first unmet
/// condition.
pub proof fn lemma_belief_input_rule(mean: Seq<ScalarClass>, covariance: Seq<ScalarClass>, dimension: nat)
    ensures
        (belief_input_error(mean, covariance, dimension as int) == Some(LinearSolverError::ZeroDimension)) <==> dimension == 0,
        (belief_input_error(mean, covariance, dimension as int) == Some(LinearSolverError::VectorDimensionMismatch)) <==> dimension > 0 && mean.len() != dimension,
        (belief_input_error(mean, covariance, dimension as int) == Some(LinearSolverError::MatrixDimensionMismatch)) <==> dimension > 0 && mean.len() == dimension && covariance.len() != dimension * dimension,
        (belief_input_error(mean, covariance, dimension as int) == Some(LinearSolverError::NonFiniteVectorEntry)) <==> dimension > 0 && mean.len() == dimension && covariance.len() == dimension * dimension && (exists|i: int| 0 <= i < mean.len() && #[trigger] mean[i] is NonFinite),
        (belief_input_error(mean, covariance, dimension as int) == Some(LinearSolverError::NonFiniteMatrixEntry)) <==> dimension > 0 && mean.len() == dimension && covariance.len() == dimension * dimension && (forall|i: int| 0 <= i < mean.len() ==> !(#[trigger] mean[i] is NonFinite)) && (exists|i: int| 0 <= i < covariance.len() && #[trigger] covariance[i] is NonFinite),
        belief_input_error(mean, covariance, dimension as int) is None <==> dimension > 0 && mean.len() == dimension && covariance.len() == dimension * dimension && (forall|i: int| 0 <= i < mean.len() ==> !(#[trigger] mean[i] is NonFinite)) && (forall|i: int| 0 <= i < covariance.len() ==> !(#[trigger] covariance[i] is NonFinite)),
{
}

/// A search direction is accepted exactly when the system and belief dimensions
/// agree, the direction has that many entries, and all of them are finite, of
/// any sign.
pub proof fn lemma_projection_input_rule(system_dimension: int, belief_dimension: int, direction: Seq<ScalarClass>)
    ensures
        (projection_input_error(system_dimension, belief_dimension, direction) == Some(LinearSolverError::VectorDimensionMismatch)) <==> system_dimension != belief_dimension || direction.len() != belief_dimension,
        (projection_input_error(system_dimension, belief_dimension, direction) == Some(LinearSolverError::NonFiniteVectorEntry)) <==> system_dimension == belief_dimension && direction.len() == belief_dimension && (exists|i: int| 0 <= i < direction.len() && #[trigger] direction[i] is NonFinite),
        projection_input_error(system_dimension, belief_dimension, direction) is None <==> system_dimension == belief_dimension && direction.len() == belief_dimension && (forall|i: int| 0 <= i < direction.len() ==> !(#[trigger] direction[i] is NonFinite)),
{
}

} // verus!
