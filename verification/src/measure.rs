use vstd::prelude::*;

use crate::measure_error::MeasureError;
use crate::scalar::{verdict, ScalarClass};

verus! {

/// The error that the Gaussian measure constructor reports for a mean and a
/// variance of the given classes, or `None` when both are valid.
pub open spec fn measure_parameter_error(mean: ScalarClass, variance: ScalarClass) -> Option<
    MeasureError,
> {
    if !mean.finite() {
        Some(MeasureError::NonFiniteMean)
    } else if !variance.finite() {
        Some(MeasureError::NonFiniteVariance)
    } else if !variance.strictly_positive() {
        Some(MeasureError::NonPositiveVariance)
    } else {
        None
    }
}

/// Validate the parameters of a Gaussian probability measure `N(mean, variance)`.
///
/// The mean must be finite and the variance finite and strictly positive.
pub fn check_measure_parameters(mean: ScalarClass, variance: ScalarClass) -> (result: Result<
    (),
    MeasureError,
>)
    ensures
        result == verdict(measure_parameter_error(mean, variance)),
        result is Ok <==> mean.finite() && variance.strictly_positive(),
{
    if !mean.is_finite() {
        return Err(MeasureError::NonFiniteMean);
    }
    match variance {
        ScalarClass::NonFinite => Err(MeasureError::NonFiniteVariance),
        ScalarClass::Negative | ScalarClass::Zero => Err(MeasureError::NonPositiveVariance),
        ScalarClass::Positive => Ok(()),
    }
}

/// A Gaussian measure is accepted exactly when its mean is finite and its
/// variance finite and strictly positive; the mean is judged first.
pub proof fn lemma_measure_parameter_rule(mean: ScalarClass, variance: ScalarClass)
    ensures
        (measure_parameter_error(mean, variance) == Some(MeasureError::NonFiniteMean)) <==> mean is NonFinite,
        (measure_parameter_error(mean, variance) == Some(MeasureError::NonFiniteVariance)) <==> !(mean is NonFinite) && variance is NonFinite,
        (measure_parameter_error(mean, variance) == Some(MeasureError::NonPositiveVariance)) <==> !(mean is NonFinite) && (variance is Negative || variance is Zero),
        measure_parameter_error(mean, variance) is None <==> !(mean is NonFinite) && variance is Positive,
{
}

} // verus!
