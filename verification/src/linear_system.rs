use vstd::prelude::*;

use crate::linear_solver_error::LinearSolverError;
use crate::scalar::{all_finite, entries_finite, verdict, ScalarClass};

verus! {

/// The error that the SPD linear-system constructor reports before its
/// symmetry and positive-definiteness checks, for a row-major matrix and a
/// right-hand side whose entries have the given classes, or `None`.
///
/// The checks run in this order: positive dimension, matrix length equal to
/// `dimension * dimension`, right-hand-side length equal to `dimension`, finite
/// matrix entries, finite right-hand-side entries.
pub open spec fn system_input_error(
    matrix: Seq<ScalarClass>,
    rhs: Seq<ScalarClass>,
    dimension: int,
) -> Option<LinearSolverError> {
    if dimension == 0 {
        Some(LinearSolverError::ZeroDimension)
    } else if matrix.len() != dimension * dimension {
        Some(LinearSolverError::MatrixDimensionMismatch)
    } else if rhs.len() != dimension {
        Some(LinearSolverError::VectorDimensionMismatch)
    } else if !all_finite(matrix) {
        Some(LinearSolverError::NonFiniteMatrixEntry)
    } else if !all_finite(rhs) {
        Some(LinearSolverError::NonFiniteVectorEntry)
    } else {
        None
    }
}

/// Validate the layout and finiteness of a dense linear system `A x = b`.
pub fn check_system_inputs(
    matrix: &[ScalarClass],
    rhs: &[ScalarClass],
    dimension: usize,
) -> (result: Result<(), LinearSolverError>)
    ensures
        result == verdict(system_input_error(matrix@, rhs@, dimension as int)),
        result is Ok <==> dimension > 0 && matrix@.len() == dimension * dimension && rhs@.len()
            == dimension && (forall|i: int|
            0 <= i < matrix@.len() ==> !(#[trigger] matrix@[i] is NonFinite)) && (forall|i: int|
            0 <= i < rhs@.len() ==> !(#[trigger] rhs@[i] is NonFinite)),
        result == Err::<(), _>(LinearSolverError::ZeroDimension) <==> dimension == 0,
        result == Err::<(), _>(LinearSolverError::MatrixDimensionMismatch) <==> dimension > 0
            && matrix@.len() != dimension * dimension,
        result == Err::<(), _>(LinearSolverError::VectorDimensionMismatch) <==> dimension > 0
            && matrix@.len() == dimension * dimension && rhs@.len() != dimension,
        result == Err::<(), _>(LinearSolverError::NonFiniteMatrixEntry) <==> dimension > 0
            && matrix@.len() == dimension * dimension && rhs@.len() == dimension && (exists|i: int|
            0 <= i < matrix@.len() && #[trigger] matrix@[i] is NonFinite),
        result == Err::<(), _>(LinearSolverError::NonFiniteVectorEntry) <==> dimension > 0
            && matrix@.len() == dimension * dimension && rhs@.len() == dimension && (forall|i: int|
            0 <= i < matrix@.len() ==> !(#[trigger] matrix@[i] is NonFinite)) && (exists|i: int|
            0 <= i < rhs@.len() && #[trigger] rhs@[i] is NonFinite),
{
    if dimension == 0 {
        return Err(LinearSolverError::ZeroDimension);
    }
    let length: usize = matrix.len();
    match dimension.checked_mul(dimension) {
        None => {
            return Err(LinearSolverError::MatrixDimensionMismatch);
        },
        Some(expected) => {
            if length != expected {
                return Err(LinearSolverError::MatrixDimensionMismatch);
            }
        },
    }
    if rhs.len() != dimension {
        return Err(LinearSolverError::VectorDimensionMismatch);
    }
    if !entries_finite(matrix) {
        return Err(LinearSolverError::NonFiniteMatrixEntry);
    }
    if !entries_finite(rhs) {
        return Err(LinearSolverError::NonFiniteVectorEntry);
    }
    Ok(())
}

/// A linear system passes the layout and finiteness checks exactly when its
/// dimension is positive, the matrix has `dimension * dimension` entries, the
/// right-hand side `dimension` entries, and every entry is finite; the sign of
/// an entry never matters.
pub proof fn lemma_system_input_rule(matrix: Seq<ScalarClass>, rhs: Seq<ScalarClass>, dimension: nat)
    ensures
        system_input_error(matrix, rhs, dimension as int) is None <==> dimension > 0
            && matrix.len() == dimension * dimension && rhs.len() == dimension && (forall|i: int|
            0 <= i < matrix.len() ==> !(#[trigger] matrix[i] is NonFinite)) && (forall|i: int|
            0 <= i < rhs.len() ==> !(#[trigger] rhs[i] is NonFinite)),
        (system_input_error(matrix, rhs, dimension as int) == Some(LinearSolverError::ZeroDimension)) <==> dimension == 0,
        (system_input_error(matrix, rhs, dimension as int) == Some(LinearSolverError::MatrixDimensionMismatch)) <==> dimension > 0
            && matrix.len() != dimension * dimension,
        (system_input_error(matrix, rhs, dimension as int) == Some(LinearSolverError::VectorDimensionMismatch)) <==> dimension > 0
            && matrix.len() == dimension * dimension && rhs.len() != dimension,
        (system_input_error(matrix, rhs, dimension as int) == Some(LinearSolverError::NonFiniteMatrixEntry)) <==> dimension > 0 && matrix.len() == dimension * dimension && rhs.len() == dimension && (exists|i: int| 0 <= i < matrix.len() && #[trigger] matrix[i] is NonFinite),
        (system_input_error(matrix, rhs, dimension as int) == Some(LinearSolverError::NonFiniteVectorEntry)) <==> dimension > 0 && matrix.len() == dimension * dimension && rhs.len() == dimension && (forall|i: int| 0 <= i < matrix.len() ==> !(#[trigger] matrix[i] is NonFinite))
            && (exists|i: int| 0 <= i < rhs.len() && #[trigger] rhs[i] is NonFinite),
{
}

/// Changing the sign of finite entries (keeping them finite) never changes the
/// verdict on a linear system.
pub proof fn lemma_system_input_rule_ignores_signs(
    matrix: Seq<ScalarClass>,
    rhs: Seq<ScalarClass>,
    other_matrix: Seq<ScalarClass>,
    other_rhs: Seq<ScalarClass>,
    dimension: int,
)
    requires
        matrix.len() == other_matrix.len(),
        rhs.len() == other_rhs.len(),
        forall|i: int| 0 <= i < matrix.len() ==> (matrix[i] is NonFinite <==> other_matrix[i] is NonFinite),
        forall|i: int| 0 <= i < rhs.len() ==> (rhs[i] is NonFinite <==> other_rhs[i] is NonFinite),
    ensures
        system_input_error(matrix, rhs, dimension) == system_input_error(other_matrix, other_rhs, dimension),
{
}

} // verus!
