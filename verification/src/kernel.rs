use vstd::prelude::*;

use crate::kernel_error::KernelError;
use crate::scalar::{verdict, ScalarClass};

verus! {

/// The error that the RBF kernel constructor reports for the given parameter
/// classes, or `None` when both parameters are valid.
///
/// The signal variance is checked before the length scale, and finiteness
/// before sign.
pub open spec fn kernel_parameter_error(
    signal_variance: ScalarClass,
    length_scale: ScalarClass,
) -> Option<KernelError> {
    if !signal_variance.finite() {
        Some(KernelError::NonFiniteSignalVariance)
    } else if !signal_variance.strictly_positive() {
        Some(KernelError::NonPositiveSignalVariance)
    } else if !length_scale.finite() {
        Some(KernelError::NonFiniteLengthScale)
    } else if !length_scale.strictly_positive() {
        Some(KernelError::NonPositiveLengthScale)
    } else {
        None
    }
}

/// Validate the hyperparameters of a squared-exponential kernel
/// `k(x, y) = signal_variance * exp(-0.5 * ((x - y) / length_scale)^2)`.
///
/// Both parameters must be finite and strictly positive.
pub fn check_kernel_parameters(
    signal_variance: ScalarClass,
    length_scale: ScalarClass,
) -> (result: Result<(), KernelError>)
    ensures
        result == verdict(kernel_parameter_error(signal_variance, length_scale)),
        result is Ok <==> signal_variance.strictly_positive() && length_scale.strictly_positive(),
{
    match signal_variance {
        ScalarClass::NonFinite => return Err(KernelError::NonFiniteSignalVariance),
        ScalarClass::Negative | ScalarClass::Zero => {
            return Err(KernelError::NonPositiveSignalVariance)
        },
        ScalarClass::Positive => {},
    }
    match length_scale {
        ScalarClass::NonFinite => Err(KernelError::NonFiniteLengthScale),
        ScalarClass::Negative | ScalarClass::Zero => Err(KernelError::NonPositiveLengthScale),
        ScalarClass::Positive => Ok(()),
    }
}

/// Kernel parameters are accepted exactly when both are finite and strictly
/// positive; the signal variance is judged before the length scale.
pub proof fn lemma_kernel_parameter_rule(signal_variance: ScalarClass, length_scale: ScalarClass)
    ensures
        (kernel_parameter_error(signal_variance, length_scale) == Some(KernelError::NonFiniteSignalVariance)) <==> signal_variance is NonFinite,
        (kernel_parameter_error(signal_variance, length_scale) == Some(KernelError::NonPositiveSignalVariance)) <==> (signal_variance is Negative || signal_variance is Zero),
        (kernel_parameter_error(signal_variance, length_scale) == Some(KernelError::NonFiniteLengthScale)) <==> signal_variance is Positive && length_scale is NonFinite,
        (kernel_parameter_error(signal_variance, length_scale) == Some(KernelError::NonPositiveLengthScale)) <==> signal_variance is Positive && (length_scale is Negative || length_scale is Zero),
        kernel_parameter_error(signal_variance, length_scale) is None <==> signal_variance is Positive && length_scale is Positive,
{
}

} // verus!
