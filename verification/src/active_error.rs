use vstd::prelude::*;

use crate::bayesian_quadrature_error::BayesianQuadratureError;
use crate::text::joined;

verus! {

/// Errors raised while selecting active Bayesian-quadrature candidates.
///
/// `R` is the type of the real numbers carried by a nested quadrature error.
#[derive(Debug, Clone, Copy, PartialEq)]
pub enum ActiveSelectionError<R> {
    /// No candidate points were supplied.
    EmptyCandidates,
    /// At least one candidate is not finite.
    NonFiniteCandidate,
    /// Acquisition evaluation failed for the current design.
    Acquisition(BayesianQuadratureError<R>),
}

impl<R> ActiveSelectionError<R> {
    /// The human-readable description of the error, where `variance_sentence`
    /// describes a materially negative posterior variance of a nested error.
    pub open spec fn text_with(self, variance_sentence: Seq<char>) -> Seq<char> {
        match self {
            ActiveSelectionError::EmptyCandidates => "at least one candidate is required"@,
            ActiveSelectionError::NonFiniteCandidate => "candidate points must be finite"@,
            ActiveSelectionError::Acquisition(error) => "acquisition evaluation failed: "@
                + error.text_with(variance_sentence),
        }
    }

    /// Return the human-readable description of the error.
    pub fn message_with(&self, variance_sentence: &str) -> (message: String)
        ensures
            message@ == self.text_with(variance_sentence@),
    {
        match self {
            ActiveSelectionError::EmptyCandidates => "at least one candidate is required".to_owned(),
            ActiveSelectionError::NonFiniteCandidate => "candidate points must be finite".to_owned(),
            ActiveSelectionError::Acquisition(error) => {
                let inner = error.message_with(variance_sentence);
                joined("acquisition evaluation failed: ", inner.as_str())
            },
        }
    }

    /// The payload of a nested materially negative posterior variance, or `None`.
    pub open spec fn variance_payload(self) -> Option<(R, R)> {
        match self {
            ActiveSelectionError::Acquisition(error) => error.variance_payload(),
            _ => None,
        }
    }

    /// Return the payload of a nested materially negative posterior variance.
    pub fn negative_variance(&self) -> (payload: Option<(&R, &R)>)
        ensures
            payload is None <==> self.variance_payload() is None,
            payload matches Some((value, tolerance)) ==> self.variance_payload() == Some(
                (*value, *tolerance),
            ),
    {
        match self {
            ActiveSelectionError::Acquisition(error) => error.negative_variance(),
            _ => None,
        }
    }
}

impl<R> From<BayesianQuadratureError<R>> for ActiveSelectionError<R> {
    fn from(error: BayesianQuadratureError<R>) -> (wrapped: Self) {
        ActiveSelectionError::Acquisition(error)
    }
}

impl<R> vstd::std_specs::convert::FromSpecImpl<BayesianQuadratureError<R>> for ActiveSelectionError<R> {
    open spec fn obeys_from_spec() -> bool {
        true
    }

    open spec fn from_spec(error: BayesianQuadratureError<R>) -> Self {
        ActiveSelectionError::Acquisition(error)
    }
}

} // verus!
