use vstd::prelude::*;

verus! {

/// Errors raised while constructing prior mean functions.
#[derive(Debug, Clone, Copy, PartialEq, Eq, Structural)]
pub enum PriorMeanError {
    /// The constant prior mean is not finite.
    NonFiniteConstant,
    /// The affine prior mean intercept is not finite.
    NonFiniteIntercept,
    /// The affine prior mean slope is not finite.
    NonFiniteSlope,
}

impl PriorMeanError {
    /// The human-readable description of the error.
    pub open spec fn text(self) -> Seq<char> {
        match self {
            PriorMeanError::NonFiniteConstant => "constant prior mean must be finite"@,
            PriorMeanError::NonFiniteIntercept => "affine prior mean intercept must be finite"@,
            PriorMeanError::NonFiniteSlope => "affine prior mean slope must be finite"@,
        }
    }

    /// Return the human-readable description of the error.
    pub fn message(&self) -> (message: &'static str)
        ensures
            message@ == self.text(),
    {
        match self {
            PriorMeanError::NonFiniteConstant => "constant prior mean must be finite",
            PriorMeanError::NonFiniteIntercept => "affine prior mean intercept must be finite",
            PriorMeanError::NonFiniteSlope => "affine prior mean slope must be finite",
        }
    }
}

} // verus!
