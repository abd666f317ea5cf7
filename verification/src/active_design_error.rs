use vstd::prelude::*;

use crate::active_error::ActiveSelectionError;
use crate::bayesian_quadrature_error::BayesianQuadratureError;
use crate::text::joined;

verus! {

/// Errors raised while running sequential active Bayesian quadrature.
///
/// `R` is the type of the real numbers carried by a nested quadrature error.
#[derive(Debug, Clone, Copy, PartialEq)]
pub enum ActiveDesignError<R> {
    /// The posterior-variance stopping tolerance is not finite.
    NonFiniteVarianceTolerance,
    /// The posterior-variance stopping tolerance is negative.
    NegativeVarianceTolerance,
    /// At least one candidate point is not finite.
    NonFiniteCandidate,
    /// A user-supplied function evaluation returned a non-finite value.
    NonFiniteFunctionValue,
    /// Candidate selection failed.
    Selection(ActiveSelectionError<R>),
    /// Bayesian-quadrature posterior construction failed.
    Posterior(BayesianQuadratureError<R>),
}

impl<R> ActiveDesignError<R> {
    /// The human-readable description of the error, where `variance_sentence`
    /// describes a materially negative posterior variance of a nested error.
    pub open spec fn text_with(self, variance_sentence: Seq<char>) -> Seq<char> {
        match self {
            ActiveDesignError::NonFiniteVarianceTolerance =>
                "posterior-variance stopping tolerance must be finite"@,
            ActiveDesignError::NegativeVarianceTolerance =>
                "posterior-variance stopping tolerance must be non-negative"@,
            ActiveDesignError::NonFiniteCandidate => "candidate points must be finite"@,
            ActiveDesignError::NonFiniteFunctionValue =>
                "active function evaluations must be finite"@,
            ActiveDesignError::Selection(error) => "active candidate selection failed: "@
                + error.text_with(variance_sentence),
            ActiveDesignError::Posterior(error) => "Bayesian quadrature failed: "@ + error.text_with(
                variance_sentence,
            ),
        }
    }

    /// Return the human-readable description of the error.
    pub fn message_with(&self, variance_sentence: &str) -> (message: String)
        ensures
            message@ == self.text_with(variance_sentence@),
    {
        match self {
            ActiveDesignError::NonFiniteVarianceTolerance =>
                "posterior-variance stopping tolerance must be finite".to_owned(),
            ActiveDesignError::NegativeVarianceTolerance =>
                "posterior-variance stopping tolerance must be non-negative".to_owned(),
            ActiveDesignError::NonFiniteCandidate => "candidate points must be finite".to_owned(),
            ActiveDesignError::NonFiniteFunctionValue =>
                "active function evaluations must be finite".to_owned(),
            ActiveDesignError::Selection(error) => {
                let inner = error.message_with(variance_sentence);
                joined("active candidate selection failed: ", inner.as_str())
            },
            ActiveDesignError::Posterior(error) => {
                let inner = error.message_with(variance_sentence);
                joined("Bayesian quadrature failed: ", inner.as_str())
            },
        }
    }

    /// The payload of a nested materially negative posterior variance, or `None`.
    pub open spec fn variance_payload(self) -> Option<(R, R)> {
        match self {
            ActiveDesignError::Selection(error) => error.variance_payload(),
            ActiveDesignError::Posterior(error) => error.variance_payload(),
            _ => None,
        }
    }

    /// Return the payload of a nested materially negative posterior variance.
    pub fn negative_variance(&self) -> (payload: Option<(&R, &R)>)
        ensures
            payload is None <==> self.variance_payload() is None,
            payload matches Some((value, tolerance)) ==> self.variance_payload() == Some(
                (*value, *tolerance),
            ),
    {
        match self {
            ActiveDesignError::Selection(error) => error.negative_variance(),
            ActiveDesignError::Posterior(error) => error.negative_variance(),
            _ => None,
        }
    }
}

impl<R> From<ActiveSelectionError<R>> for ActiveDesignError<R> {
    fn from(error: ActiveSelectionError<R>) -> (wrapped: Self) {
        ActiveDesignError::Selection(error)
    }
}

impl<R> vstd::std_specs::convert::FromSpecImpl<ActiveSelectionError<R>> for ActiveDesignError<R> {
    open spec fn obeys_from_spec() -> bool {
        true
    }

    open spec fn from_spec(error: ActiveSelectionError<R>) -> Self {
        ActiveDesignError::Selection(error)
    }
}

impl<R> From<BayesianQuadratureError<R>> for ActiveDesignError<R> {
    fn from(error: BayesianQuadratureError<R>) -> (wrapped: Self) {
        ActiveDesignError::Posterior(error)
    }
}

impl<R> vstd::std_specs::convert::FromSpecImpl<BayesianQuadratureError<R>> for ActiveDesignError<R> {
    open spec fn obeys_from_spec() -> bool {
        true
    }

    open spec fn from_spec(error: BayesianQuadratureError<R>) -> Self {
        ActiveDesignError::Posterior(error)
    }
}

} // verus!
