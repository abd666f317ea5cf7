use vstd::prelude::*;

use crate::conditioning_error::ConditioningError;
use crate::scalar::{all_finite, entries_finite, verdict, ScalarClass};

verus! {

/// The error that the Gaussian conditioner constructor reports for a
/// row-major matrix whose entries have the classes `matrix`, the requested
/// `dimension` and a jitter of class `jitter`, or `None` when the inputs are
/// valid (the factorization itself may still fail).
///
/// The checks run in this order: positive dimension, matrix length equal to
/// `dimension * dimension`, finite matrix entries, finite jitter, non-negative
/// jitter.
pub open spec fn conditioner_input_error(
    matrix: Seq<ScalarClass>,
    dimension: int,
    jitter: ScalarClass,
) -> Option<ConditioningError> {
    if dimension == 0 {
        Some(ConditioningError::ZeroDimension)
    } else if matrix.len() != dimension * dimension {
        Some(ConditioningError::MatrixDimensionMismatch)
    } else if !all_finite(matrix) {
        Some(ConditioningError::NonFiniteMatrixEntry)
    } else if !jitter.finite() {
        Some(ConditioningError::NonFiniteJitter)
    } else if !jitter.non_negative() {
        Some(ConditioningError::NegativeJitter)
    } else {
        None
    }
}

/// Validate the inputs of a Gaussian conditioner before its Cholesky
/// factorization.
pub fn check_conditioner_inputs(
    matrix: &[ScalarClass],
    dimension: usize,
    jitter: ScalarClass,
) -> (result: Result<(), ConditioningError>)
    ensures
        result == verdict(conditioner_input_error(matrix@, dimension as int, jitter)),
{
    if dimension == 0 {
        return Err(ConditioningError::ZeroDimension);
    }
    let length: usize = matrix.len();
    match dimension.checked_mul(dimension) {
        None => {
            return Err(ConditioningError::MatrixDimensionMismatch);
        },
        Some(expected) => {
            if length != expected {
                return Err(ConditioningError::MatrixDimensionMismatch);
            }
        },
    }
    if !entries_finite(matrix) {
        return Err(ConditioningError::NonFiniteMatrixEntry);
    }
    match jitter {
        ScalarClass::NonFinite => Err(ConditioningError::NonFiniteJitter),
        ScalarClass::Negative => Err(ConditioningError::NegativeJitter),
        ScalarClass::Zero | ScalarClass::Positive => Ok(()),
    }
}

/// The error that a conditioner solve reports for a right-hand side whose
/// entries have the classes `rhs`, or `None` when the right-hand side is valid.
pub open spec fn right_hand_side_error(rhs: Seq<ScalarClass>, dimension: int) -> Option<
    ConditioningError,
> {
    if rhs.len() != dimension {
        Some(ConditioningError::RightHandSideDimensionMismatch)
    } else if !all_finite(rhs) {
        Some(ConditioningError::NonFiniteRightHandSideEntry)
    } else {
        None
    }
}

/// Validate a right-hand side before solving with a conditioner of the given
/// dimension.
pub fn check_right_hand_side(rhs: &[ScalarClass], dimension: usize) -> (result: Result<
    (),
    ConditioningError,
>)
    ensures
        result == verdict(right_hand_side_error(rhs@, dimension as int)),
{
    if rhs.len() != dimension {
        return Err(ConditioningError::RightHandSideDimensionMismatch);
    }
    if !entries_finite(rhs) {
        return Err(ConditioningError::NonFiniteRightHandSideEntry);
    }
    Ok(())
}

/// A conditioner's inputs are accepted exactly when the dimension is positive,
/// the matrix has `dimension * dimension` entries, all finite, and the jitter is
/// finite and non-negative; the sign of a matrix entry never matters. Each error
/// names the first unmet condition.
pub proof fn lemma_conditioner_input_rule(matrix: Seq<ScalarClass>, dimension: nat, jitter: ScalarClass)
    ensures
        (conditioner_input_error(matrix, dimension as int, jitter) == Some(ConditioningError::ZeroDimension)) <==> dimension == 0,
        (conditioner_input_error(matrix, dimension as int, jitter) == Some(ConditioningError::MatrixDimensionMismatch)) <==> dimension > 0 && matrix.len() != dimension * dimension,
        (conditioner_input_error(matrix, dimension as int, jitter) == Some(ConditioningError::NonFiniteMatrixEntry)) <==> dimension > 0 && matrix.len() == dimension * dimension && (exists|i: int| 0 <= i < matrix.len() && #[trigger] matrix[i] is NonFinite),
        (conditioner_input_error(matrix, dimension as int, jitter) == Some(ConditioningError::NonFiniteJitter)) <==> dimension > 0 && matrix.len() == dimension * dimension && (forall|i: int| 0 <= i < matrix.len() ==> !(#[trigger] matrix[i] is NonFinite)) && jitter is NonFinite,
        (conditioner_input_error(matrix, dimension as int, jitter) == Some(ConditioningError::NegativeJitter)) <==> dimension > 0 && matrix.len() == dimension * dimension && (forall|i: int| 0 <= i < matrix.len() ==> !(#[trigger] matrix[i] is NonFinite)) && jitter is Negative,
        conditioner_input_error(matrix, dimension as int, jitter) is None <==> dimension > 0 && matrix.len() == dimension * dimension && (forall|i: int| 0 <= i < matrix.len() ==> !(#[trigger] matrix[i] is NonFinite)) && (jitter is Zero || jitter is Positive),
{
}

/// A right-hand side is accepted exactly when it has `dimension` entries, all
/// finite, of any sign.
pub proof fn lemma_right_hand_side_rule(rhs: Seq<ScalarClass>, dimension: int)
    ensures
        (right_hand_side_error(rhs, dimension) == Some(ConditioningError::RightHandSideDimensionMismatch)) <==> rhs.len() != dimension,
        (right_hand_side_error(rhs, dimension) == Some(ConditioningError::NonFiniteRightHandSideEntry)) <==> rhs.len() == dimension && (exists|i: int| 0 <= i < rhs.len() && #[trigger] rhs[i] is NonFinite),
        right_hand_side_error(rhs, dimension) is None <==> rhs.len() == dimension && (forall|i: int| 0 <= i < rhs.len() ==> !(#[trigger] rhs[i] is NonFinite)),
{
}

} // verus!
