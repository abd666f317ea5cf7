use vstd::prelude::*;

verus! {

/// Errors raised while constructing probabilistic numerical results.
#[derive(Debug, Clone, Copy, PartialEq, Eq, Structural)]
pub enum PosteriorError {
    /// The posterior mean is not finite.
    NonFiniteMean,
    /// The posterior variance is not finite.
    NonFiniteVariance,
    /// The posterior variance is negative.
    NegativeVariance,
}

impl PosteriorError {
    /// The human-readable description of the error.
    pub open spec fn text(self) -> Seq<char> {
        match self {
            PosteriorError::NonFiniteMean => "posterior mean must be finite"@,
            PosteriorError::NonFiniteVariance => "posterior variance must be finite"@,
            PosteriorError::NegativeVariance => "posterior variance must be non-negative"@,
        }
    }

    /// Return the human-readable description of the error.
    pub fn message(&self) -> (message: &'static str)
        ensures
            message@ == self.text(),
    {
        match self {
            PosteriorError::NonFiniteMean => "posterior mean must be finite",
            PosteriorError::NonFiniteVariance => "posterior variance must be finite",
            PosteriorError::NegativeVariance => "posterior variance must be non-negative",
        }
    }
}

} // verus!
