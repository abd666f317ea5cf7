use vstd::prelude::*;

verus! {

/// Errors raised by probabilistic linear-system primitives.
#[derive(Debug, Clone, Copy, PartialEq, Eq, Structural)]
pub enum LinearSolverError {
    /// The system dimension is zero.
    ZeroDimension,
    /// A flattened square matrix has the wrong length.
    MatrixDimensionMismatch,
    /// A vector has the wrong length.
    VectorDimensionMismatch,
    /// At least one matrix entry is not finite.
    NonFiniteMatrixEntry,
    /// At least one vector entry is not finite.
    NonFiniteVectorEntry,
    /// A solver tolerance is not finite.
    NonFiniteTolerance,
    /// A solver tolerance is negative.
    NegativeTolerance,
    /// No candidate projection directions were supplied.
    EmptyCandidateDirections,
    /// The system matrix is not symmetric within numerical tolerance.
    NonSymmetricSystemMatrix,
    /// The system matrix is not positive definite.
    SystemMatrixNotPositiveDefinite,
    /// The covariance matrix is not symmetric within numerical tolerance.
    NonSymmetricCovariance,
    /// The covariance matrix is not positive semidefinite within numerical tolerance.
    CovarianceNotPositiveSemidefinite,
    /// The observation direction contains no remaining prior uncertainty.
    DegenerateObservation,
}

impl LinearSolverError {
    /// The human-readable description of the error.
    pub open spec fn text(self) -> Seq<char> {
        match self {
            LinearSolverError::ZeroDimension => "linear-system dimension must be positive"@,
            LinearSolverError::MatrixDimensionMismatch =>
                "flattened matrix length must equal dimension squared"@,
            LinearSolverError::VectorDimensionMismatch =>
                "vector length must equal the system dimension"@,
            LinearSolverError::NonFiniteMatrixEntry => "matrix entries must be finite"@,
            LinearSolverError::NonFiniteVectorEntry => "vector entries must be finite"@,
            LinearSolverError::NonFiniteTolerance => "solver tolerances must be finite"@,
            LinearSolverError::NegativeTolerance => "solver tolerances must be non-negative"@,
            LinearSolverError::EmptyCandidateDirections =>
                "at least one candidate projection direction is required"@,
            LinearSolverError::NonSymmetricSystemMatrix => "system matrix must be symmetric"@,
            LinearSolverError::SystemMatrixNotPositiveDefinite =>
                "system matrix must be positive definite"@,
            LinearSolverError::NonSymmetricCovariance => "covariance matrix must be symmetric"@,
            LinearSolverError::CovarianceNotPositiveSemidefinite =>
                "covariance matrix must be positive semidefinite"@,
            LinearSolverError::DegenerateObservation =>
                "observation direction has no remaining prior uncertainty"@,
        }
    }

    /// Return the human-readable description of the error.
    pub fn message(&self) -> (message: &'static str)
        ensures
            message@ == self.text(),
    {
        match self {
            LinearSolverError::ZeroDimension => "linear-system dimension must be positive",
            LinearSolverError::MatrixDimensionMismatch =>
                "flattened matrix length must equal dimension squared",
            LinearSolverError::VectorDimensionMismatch =>
                "vector length must equal the system dimension",
            LinearSolverError::NonFiniteMatrixEntry => "matrix entries must be finite",
            LinearSolverError::NonFiniteVectorEntry => "vector entries must be finite",
            LinearSolverError::NonFiniteTolerance => "solver tolerances must be finite",
            LinearSolverError::NegativeTolerance => "solver tolerances must be non-negative",
            LinearSolverError::EmptyCandidateDirections =>
                "at least one candidate projection direction is required",
            LinearSolverError::NonSymmetricSystemMatrix => "system matrix must be symmetric",
            LinearSolverError::SystemMatrixNotPositiveDefinite =>
                "system matrix must be positive definite",
            LinearSolverError::NonSymmetricCovariance => "covariance matrix must be symmetric",
            LinearSolverError::CovarianceNotPositiveSemidefinite =>
                "covariance matrix must be positive semidefinite",
            LinearSolverError::DegenerateObservation =>
                "observation direction has no remaining prior uncertainty",
        }
    }
}

} // verus!
