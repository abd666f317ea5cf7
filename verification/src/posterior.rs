use vstd::prelude::*;

use crate::error::PosteriorError;
use crate::scalar::{verdict, ScalarClass};

verus! {

/// The error that the scalar normal posterior constructor reports for a mean
/// and a variance of the given classes, or `None` when both are valid.
pub open spec fn posterior_parameter_error(mean: ScalarClass, variance: ScalarClass) -> Option<
    PosteriorError,
> {
    if !mean.finite() {
        Some(PosteriorError::NonFiniteMean)
    } else if !variance.finite() {
        Some(PosteriorError::NonFiniteVariance)
    } else if !variance.non_negative() {
        Some(PosteriorError::NegativeVariance)
    } else {
        None
    }
}

/// Validate the parameters of a scalar Gaussian posterior.
///
/// The mean must be finite and the variance finite and non-negative; a zero
/// variance is accepted.
pub fn check_posterior_parameters(mean: ScalarClass, variance: ScalarClass) -> (result: Result<
    (),
    PosteriorError,
>)
    ensures
        result == verdict(posterior_parameter_error(mean, variance)),
        result is Ok <==> mean.finite() && variance.non_negative(),
{
    if !mean.is_finite() {
        return Err(PosteriorError::NonFiniteMean);
    }
    match variance {
        ScalarClass::NonFinite => Err(PosteriorError::NonFiniteVariance),
        ScalarClass::Negative => Err(PosteriorError::NegativeVariance),
        ScalarClass::Zero | ScalarClass::Positive => Ok(()),
    }
}

/// A scalar posterior is accepted exactly when its mean is finite and its
/// variance finite and non-negative (zero included); the mean is judged first.
pub proof fn lemma_posterior_parameter_rule(mean: ScalarClass, variance: ScalarClass)
    ensures
        (posterior_parameter_error(mean, variance) == Some(PosteriorError::NonFiniteMean)) <==> mean is NonFinite,
        (posterior_parameter_error(mean, variance) == Some(PosteriorError::NonFiniteVariance)) <==> !(mean is NonFinite) && variance is NonFinite,
        (posterior_parameter_error(mean, variance) == Some(PosteriorError::NegativeVariance)) <==> !(mean is NonFinite) && variance is Negative,
        posterior_parameter_error(mean, variance) is None <==> !(mean is NonFinite) && (variance is Zero || variance is Positive),
{
}

} // verus!
