use vstd::prelude::*;

verus! {

/// The class of a real-valued input, as far as the validation rules read it.
///
/// A non-finite value (`NaN` or an infinity) is `NonFinite`; a finite value is
/// `Negative`, `Zero` (both signed zeros) or `Positive`.
#[derive(Debug, Clone, Copy, PartialEq, Eq, Structural)]
pub enum ScalarClass {
    /// `NaN`, `+inf` or `-inf`.
    NonFinite,
    /// A finite value below zero.
    Negative,
    /// Positive or negative zero.
    Zero,
    /// A finite value above zero.
    Positive,
}

impl ScalarClass {
    /// The value is finite.
    pub open spec fn finite(self) -> bool {
        !(self is NonFinite)
    }

    /// The value is finite and strictly positive.
    pub open spec fn strictly_positive(self) -> bool {
        self is Positive
    }

    /// The value is finite and at least zero.
    pub open spec fn non_negative(self) -> bool {
        self is Zero || self is Positive
    }

    /// Return whether the value is finite.
    pub fn is_finite(&self) -> (finite: bool)
        ensures
            finite == self.finite(),
    {
        !matches!(self, ScalarClass::NonFinite)
    }
}

/// Every entry of `values` is finite.
pub open spec fn all_finite(values: Seq<ScalarClass>) -> bool {
    forall|i: int| 0 <= i < values.len() ==> (#[trigger] values[i]).finite()
}

/// Return whether every entry of `values` is finite.
pub fn entries_finite(values: &[ScalarClass]) -> (finite: bool)
    ensures
        finite == all_finite(values@),
{
    let mut index: usize = 0;
    while index < values.len()
        invariant
            index <= values.len(),
            forall|i: int| 0 <= i < index ==> (#[trigger] values@[i]).finite(),
        decreases values.len() - index,
    {
        if !values[index].is_finite() {
            return false;
        }
        index = index + 1;
    }
    true
}

/// The outcome of a validation rule: `Ok(())` when the rule reports no error,
/// otherwise the first error that it reports.
pub open spec fn verdict<E>(error: Option<E>) -> Result<(), E> {
    match error {
        Some(error) => Err(error),
        None => Ok(()),
    }
}

} // verus!
