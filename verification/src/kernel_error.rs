use vstd::prelude::*;

verus! {

/// Errors raised while constructing covariance kernels.
#[derive(Debug, Clone, Copy, PartialEq, Eq, Structural)]
pub enum KernelError {
    /// The RBF signal variance is not finite.
    NonFiniteSignalVariance,
    /// The RBF signal variance is zero or negative.
    NonPositiveSignalVariance,
    /// The RBF length scale is not finite.
    NonFiniteLengthScale,
    /// The RBF length scale is zero or negative.
    NonPositiveLengthScale,
}

impl KernelError {
    /// The human-readable description of the error.
    pub open spec fn text(self) -> Seq<char> {
        match self {
            KernelError::NonFiniteSignalVariance => "signal variance must be finite"@,
            KernelError::NonPositiveSignalVariance => "signal variance must be strictly positive"@,
            KernelError::NonFiniteLengthScale => "length scale must be finite"@,
            KernelError::NonPositiveLengthScale => "length scale must be strictly positive"@,
        }
    }

    /// Return the human-readable description of the error.
    pub fn message(&self) -> (message: &'static str)
        ensures
            message@ == self.text(),
    {
        match self {
            KernelError::NonFiniteSignalVariance => "signal variance must be finite",
            KernelError::NonPositiveSignalVariance => "signal variance must be strictly positive",
            KernelError::NonFiniteLengthScale => "length scale must be finite",
            KernelError::NonPositiveLengthScale => "length scale must be strictly positive",
        }
    }
}

} // verus!
