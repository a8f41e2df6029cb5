//! JSON values, as `serde_json` parses them.

use vstd::prelude::*;

verus! {

/// `serde_json::Value`, carried and never looked into.
#[verifier::external_type_specification]
#[verifier::external_body]
pub struct ExValue(serde_json::Value);

/// `serde_json::Error`, carried and never looked into.
#[verifier::external_type_specification]
#[verifier::external_body]
pub struct ExJsonError(serde_json::Error);

/// What `serde_json::from_str` makes of a text when asked for a
/// `serde_json::Value`: the value that the text denotes, or the error that
/// says where it stops being JSON.
pub uninterp spec fn json_parse(text: Seq<char>) -> Result<serde_json::Value, serde_json::Error>;

/// Calls `serde_json::from_str` for a `serde_json::Value`. The parser reads
/// nothing but the text, so the same text always gives the same answer; the
/// contract names that answer and says no more of it.
#[verifier::external_body]
pub(crate) fn parse_json(text: &str) -> (parsed: Result<serde_json::Value, serde_json::Error>)
    ensures
        parsed == json_parse(text@),
{
    serde_json::from_str::<serde_json::Value>(text)
}

/// What the `Display` impl of `serde_json::Error` writes for an error.
pub uninterp spec fn json_error_display(error: serde_json::Error) -> Seq<char>;

/// Renders a `serde_json::Error` through its `Display` impl. The impl reads
/// nothing but the error, so the same error always gives the same text; the
/// contract names that text and says no more of it.
#[verifier::external_body]
pub(crate) fn json_error_text(error: &serde_json::Error) -> (text: String)
    ensures
        text@ == json_error_display(*error),
{
    error.to_string()
}

} // verus!
