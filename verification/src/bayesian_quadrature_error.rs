use vstd::prelude::*;

use crate::conditioning_error::ConditioningError;
use crate::error::PosteriorError;
use crate::text::joined;

verus! {

/// Errors raised while constructing a Bayesian quadrature posterior.
///
/// `R` is the type of the real numbers that the posterior was computed in; it
/// is carried, not read, by the library.
#[derive(Debug, Clone, Copy, PartialEq)]
pub enum BayesianQuadratureError<R> {
    /// No function observations were supplied.
    EmptyObservations,
    /// Observation nodes and function values have different lengths.
    ObservationLengthMismatch,
    /// At least one observation node is not finite.
    NonFiniteObservationNode,
    /// At least one observed function value is not finite.
    NonFiniteObservationValue,
    /// Gaussian conditioning failed.
    Conditioning(ConditioningError),
    /// The computed posterior could not be represented as a valid scalar Gaussian posterior.
    Posterior(PosteriorError),
    /// The posterior variance is negative by more than the documented roundoff tolerance.
    MateriallyNegativePosteriorVariance {
        /// Raw variance before roundoff handling.
        value: R,
        /// Maximum negative magnitude treated as roundoff.
        tolerance: R,
    },
}

impl<R> BayesianQuadratureError<R> {
    /// The human-readable description of the error, where `variance_sentence`
    /// describes a materially negative posterior variance (its numbers are
    /// formatted by the caller).
    pub open spec fn text_with(self, variance_sentence: Seq<char>) -> Seq<char> {
        match self {
            BayesianQuadratureError::EmptyObservations => "at least one observation is required"@,
            BayesianQuadratureError::ObservationLengthMismatch =>
                "observation nodes and values must have equal lengths"@,
            BayesianQuadratureError::NonFiniteObservationNode => "observation nodes must be finite"@,
            BayesianQuadratureError::NonFiniteObservationValue =>
                "observed function values must be finite"@,
            BayesianQuadratureError::Conditioning(error) => "Gaussian conditioning failed: "@
                + error.text(),
            BayesianQuadratureError::Posterior(error) => "posterior construction failed: "@
                + error.text(),
            BayesianQuadratureError::MateriallyNegativePosteriorVariance { .. } => variance_sentence,
        }
    }

    /// Return the human-readable description of the error; `variance_sentence`
    /// is used for a materially negative posterior variance.
    pub fn message_with(&self, variance_sentence: &str) -> (message: String)
        ensures
            message@ == self.text_with(variance_sentence@),
    {
        match self {
            BayesianQuadratureError::EmptyObservations => "at least one observation is required".to_owned(),
            BayesianQuadratureError::ObservationLengthMismatch =>
                "observation nodes and values must have equal lengths".to_owned(),
            BayesianQuadratureError::NonFiniteObservationNode =>
                "observation nodes must be finite".to_owned(),
            BayesianQuadratureError::NonFiniteObservationValue =>
                "observed function values must be finite".to_owned(),
            BayesianQuadratureError::Conditioning(error) => joined(
                "Gaussian conditioning failed: ",
                error.message(),
            ),
            BayesianQuadratureError::Posterior(error) => joined(
                "posterior construction failed: ",
                error.message(),
            ),
            BayesianQuadratureError::MateriallyNegativePosteriorVariance { .. } =>
                variance_sentence.to_owned(),
        }
    }

    /// The raw variance and the roundoff tolerance of a materially negative
    /// posterior variance, or `None` for any other error.
    pub open spec fn variance_payload(self) -> Option<(R, R)> {
        match self {
            BayesianQuadratureError::MateriallyNegativePosteriorVariance { value, tolerance } =>
                Some((value, tolerance)),
            _ => None,
        }
    }

    /// Return the raw variance and the roundoff tolerance of a materially
    /// negative posterior variance, or `None` for any other error.
    pub fn negative_variance(&self) -> (payload: Option<(&R, &R)>)
        ensures
            payload is None <==> self.variance_payload() is None,
            payload matches Some((value, tolerance)) ==> self.variance_payload() == Some(
                (*value, *tolerance),
            ),
    {
        match self {
            BayesianQuadratureError::MateriallyNegativePosteriorVariance { value, tolerance } =>
                Some((value, tolerance)),
            _ => None,
        }
    }
}

impl<R> From<ConditioningError> for BayesianQuadratureError<R> {
    fn from(error: ConditioningError) -> (wrapped: Self) {
        BayesianQuadratureError::Conditioning(error)
    }
}

impl<R> vstd::std_specs::convert::FromSpecImpl<ConditioningError> for BayesianQuadratureError<R> {
    open spec fn obeys_from_spec() -> bool {
        true
    }

    open spec fn from_spec(error: ConditioningError) -> Self {
        BayesianQuadratureError::Conditioning(error)
    }
}

impl<R> From<PosteriorError> for BayesianQuadratureError<R> {
    fn from(error: PosteriorError) -> (wrapped: Self) {
        BayesianQuadratureError::Posterior(error)
    }
}

impl<R> vstd::std_specs::convert::FromSpecImpl<PosteriorError> for BayesianQuadratureError<R> {
    open spec fn obeys_from_spec() -> bool {
        true
    }

    open spec fn from_spec(error: PosteriorError) -> Self {
        BayesianQuadratureError::Posterior(error)
    }
}

} // verus!
