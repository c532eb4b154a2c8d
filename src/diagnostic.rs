//! The diagnostics that the unwrapping operations stop with.
use vstd::prelude::*;
use vstd::string::*;

verus! {

/// Text of the failure of `todo`.
pub open spec fn todo_message() -> Seq<char> {
    "not yet implemented"@
}

/// Text of the failure of `assured`, for the given reason.
pub open spec fn assured_message(reason: Seq<char>) -> Seq<char> {
    "the success was expected to be assured, but the error was returned: "@ + reason
}

/// Text of the failure of `verified`, for the given reason.
pub open spec fn verified_message(reason: Seq<char>) -> Seq<char> {
    "the success was expected to be verified in the code earlier, but the error was returned: "@
        + reason
}

/// A message followed by the rendered detail of what was found instead of a value.
pub open spec fn with_detail(message: Seq<char>, detail: Seq<char>) -> Seq<char> {
    message + ": "@ + detail
}

/// How an empty `Option` is rendered in a diagnostic.
pub open spec fn empty_marker() -> Seq<char> {
    "None"@
}

/// The diagnostic of `todo`, before any detail is added.
pub fn todo_diagnostic() -> (r: String)
    ensures
        r@ == todo_message(),
{
    String::from_str("not yet implemented")
}

/// The diagnostic of `assured` with `reason`, before any detail is added.
pub fn assured_diagnostic(reason: &str) -> (r: String)
    ensures
        r@ == assured_message(reason@),
{
    let mut r = String::from_str("the success was expected to be assured, but the error was returned: ");
    r.append(reason);
    r
}

/// The diagnostic of `verified` with `reason`, before any detail is added.
pub fn verified_diagnostic(reason: &str) -> (r: String)
    ensures
        r@ == verified_message(reason@),
{
    let mut r = String::from_str(
        "the success was expected to be verified in the code earlier, but the error was returned: ",
    );
    r.append(reason);
    r
}

/// `message` followed by the separator and `detail`.
pub fn add_detail(message: String, detail: &str) -> (r: String)
    ensures
        r@ == with_detail(message@, detail@),
{
    let mut r = message;
    r.append(": ");
    r.append(detail);
    r
}

/// The diagnostic of `todo` on an empty `Option`: the empty marker stands as the detail.
pub fn empty_todo_diagnostic() -> (r: String)
    ensures
        r@ == with_detail(todo_message(), empty_marker()),
{
    add_detail(todo_diagnostic(), "None")
}

} // verus!
