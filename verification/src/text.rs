use vstd::prelude::*;

verus! {

/// Return the concatenation of `prefix` and `rest` as a new `String`.
pub(crate) fn joined(prefix: &str, rest: &str) -> (message: String)
    ensures
        message@ == prefix@ + rest@,
{
    let mut message = prefix.to_owned();
    message.append(rest);
    message
}

} // verus!
