use vstd::prelude::*;

use crate::prior_mean_error::PriorMeanError;
use crate::scalar::{verdict, ScalarClass};

verus! {

/// The zero prior mean `m(x) = 0`, the default prior of Bayesian quadrature.
///
/// Its value at every point and its integral under every probability measure
/// are zero.
#[derive(Debug, Clone, Copy, PartialEq, Eq, Default, Structural)]
pub struct ZeroMean;

/// The error that the constant prior mean constructor reports, or `None`.
pub open spec fn constant_mean_error(constant: ScalarClass) -> Option<PriorMeanError> {
    if !constant.finite() {
        Some(PriorMeanError::NonFiniteConstant)
    } else {
        None
    }
}

/// Validate the constant `c` of a constant prior mean `m(x) = c`.
pub fn check_constant_mean(constant: ScalarClass) -> (result: Result<(), PriorMeanError>)
    ensures
        result == verdict(constant_mean_error(constant)),
        result is Ok <==> constant.finite(),
{
    if constant.is_finite() {
        Ok(())
    } else {
        Err(PriorMeanError::NonFiniteConstant)
    }
}

/// The error that the affine prior mean constructor reports, or `None`.
///
/// The intercept is checked before the slope.
pub open spec fn affine_mean_error(intercept: ScalarClass, slope: ScalarClass) -> Option<
    PriorMeanError,
> {
    if !intercept.finite() {
        Some(PriorMeanError::NonFiniteIntercept)
    } else if !slope.finite() {
        Some(PriorMeanError::NonFiniteSlope)
    } else {
        None
    }
}

/// Validate the coefficients of an affine prior mean `m(x) = intercept + slope * x`.
pub fn check_affine_mean(intercept: ScalarClass, slope: ScalarClass) -> (result: Result<
    (),
    PriorMeanError,
>)
    ensures
        result == verdict(affine_mean_error(intercept, slope)),
        result is Ok <==> intercept.finite() && slope.finite(),
{
    if !intercept.is_finite() {
        return Err(PriorMeanError::NonFiniteIntercept);
    }
    if !slope.is_finite() {
        return Err(PriorMeanError::NonFiniteSlope);
    }
    Ok(())
}

/// A constant prior mean is accepted exactly when the constant is finite, of
/// any sign.
pub proof fn lemma_constant_mean_rule(constant: ScalarClass)
    ensures
        (constant_mean_error(constant) == Some(PriorMeanError::NonFiniteConstant)) <==> constant is NonFinite,
        constant_mean_error(constant) is None <==> !(constant is NonFinite),
{
}

/// An affine prior mean is accepted exactly when both coefficients are finite,
/// of any sign; the intercept is judged first.
pub proof fn lemma_affine_mean_rule(intercept: ScalarClass, slope: ScalarClass)
    ensures
        (affine_mean_error(intercept, slope) == Some(PriorMeanError::NonFiniteIntercept)) <==> intercept is NonFinite,
        (affine_mean_error(intercept, slope) == Some(PriorMeanError::NonFiniteSlope)) <==> !(intercept is NonFinite) && slope is NonFinite,
        affine_mean_error(intercept, slope) is None <==> !(intercept is NonFinite) && !(slope is NonFinite),
{
}

} // verus!
