use vstd::prelude::*;

verus! {

/// Errors raised while constructing or using a Gaussian conditioning system.
#[derive(Debug, Clone, Copy, PartialEq, Eq, Structural)]
pub enum ConditioningError {
    /// The requested matrix dimension is zero.
    ZeroDimension,
    /// The flattened matrix length does not equal `dimension * dimension`.
    MatrixDimensionMismatch,
    /// At least one matrix entry is not finite.
    NonFiniteMatrixEntry,
    /// The jitter value is not finite.
    NonFiniteJitter,
    /// The jitter value is negative.
    NegativeJitter,
    /// Cholesky factorization failed because the regularized matrix is not positive definite.
    NotPositiveDefinite,
    /// The right-hand-side length does not equal the matrix dimension.
    RightHandSideDimensionMismatch,
    /// At least one right-hand-side entry is not finite.
    NonFiniteRightHandSideEntry,
}

impl ConditioningError {
    /// The human-readable description of the error.
    pub open spec fn text(self) -> Seq<char> {
        match self {
            ConditioningError::ZeroDimension => "conditioning matrix dimension must be positive"@,
            ConditioningError::MatrixDimensionMismatch =>
                "flattened conditioning matrix length must equal dimension squared"@,
            ConditioningError::NonFiniteMatrixEntry => "conditioning matrix entries must be finite"@,
            ConditioningError::NonFiniteJitter => "conditioning jitter must be finite"@,
            ConditioningError::NegativeJitter => "conditioning jitter must be non-negative"@,
            ConditioningError::NotPositiveDefinite =>
                "conditioning matrix is not positive definite after applying jitter"@,
            ConditioningError::RightHandSideDimensionMismatch =>
                "right-hand-side length must equal conditioning matrix dimension"@,
            ConditioningError::NonFiniteRightHandSideEntry =>
                "right-hand-side entries must be finite"@,
        }
    }

    /// Return the human-readable description of the error.
    pub fn message(&self) -> (message: &'static str)
        ensures
            message@ == self.text(),
    {
        match self {
            ConditioningError::ZeroDimension => "conditioning matrix dimension must be positive",
            ConditioningError::MatrixDimensionMismatch =>
                "flattened conditioning matrix length must equal dimension squared",
            ConditioningError::NonFiniteMatrixEntry => "conditioning matrix entries must be finite",
            ConditioningError::NonFiniteJitter => "conditioning jitter must be finite",
            ConditioningError::NegativeJitter => "conditioning jitter must be non-negative",
            ConditioningError::NotPositiveDefinite =>
                "conditioning matrix is not positive definite after applying jitter",
            ConditioningError::RightHandSideDimensionMismatch =>
                "right-hand-side length must equal conditioning matrix dimension",
            ConditioningError::NonFiniteRightHandSideEntry =>
                "right-hand-side entries must be finite",
        }
    }
}

} // verus!
