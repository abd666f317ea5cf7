use vstd::prelude::*;

verus! {

/// Errors raised while constructing probability measures.
#[derive(Debug, Clone, Copy, PartialEq, Eq, Structural)]
pub enum MeasureError {
    /// The measure mean is not finite.
    NonFiniteMean,
    /// The measure variance is not finite.
    NonFiniteVariance,
    /// The measure variance is zero or negative.
    NonPositiveVariance,
}

impl MeasureError {
    /// The human-readable description of the error.
    pub open spec fn text(self) -> Seq<char> {
        match self {
            MeasureError::NonFiniteMean => "measure mean must be finite"@,
            MeasureError::NonFiniteVariance => "measure variance must be finite"@,
            MeasureError::NonPositiveVariance => "measure variance must be strictly positive"@,
        }
    }

    /// Return the human-readable description of the error.
    pub fn message(&self) -> (message: &'static str)
        ensures
            message@ == self.text(),
    {
        match self {
            MeasureError::NonFiniteMean => "measure mean must be finite",
            MeasureError::NonFiniteVariance => "measure variance must be finite",
            MeasureError::NonPositiveVariance => "measure variance must be strictly positive",
        }
    }
}

} // verus!
