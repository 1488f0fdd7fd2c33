//! What the host gets back for a statement: a success text or a failure text.

use vstd::prelude::*;
use vstd::string::to_string_from_display_ensures;

verus! {

/// `text` is what `to_string` may give for `error`: its rendering by `Display`.
pub open spec fn renders<X: core::fmt::Display>(error: X, text: String) -> bool {
    to_string_from_display_ensures::<X>(&error, text)
}

/// `outcome` is `answer` as the host sees it: a rendering as it is, an error as its text.
pub open spec fn flattened<X: core::fmt::Display>(
    answer: Result<String, X>,
    outcome: Result<String, String>,
) -> bool {
    match answer {
        Ok(rendering) => outcome == Ok::<String, String>(rendering),
        Err(error) => outcome matches Err(text) && renders(error, text),
    }
}

/// Turns an evaluator's answer into the two texts that cross to the host.
///
/// A rendering passes through untouched. An error, whatever structure it has, is reduced to the
/// text that its `Display` gives; the kind of failure is not told apart in any other way.
pub fn flatten<X: core::fmt::Display>(answer: Result<String, X>) -> (outcome: Result<
    String,
    String,
>)
    ensures
        flattened(answer, outcome),
{
    match answer {
        Ok(rendering) => Ok(rendering),
        Err(error) => Err(error.to_string()),
    }
}

} // verus!
