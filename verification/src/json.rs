//! JSON values as they pass through the gateway.
//!
//! The gateway never looks inside a JSON value: it parses the text of a tool
//! call's arguments and carries the value to the caller.

use vstd::prelude::*;

verus! {

/// `serde_json::Value`, opaque to the verifier.
#[verifier::external_type_specification]
#[verifier::external_body]
pub struct ExJsonValue(serde_json::Value);

/// The value that `serde_json::from_str::<serde_json::Value>` gives for a
/// text, `None` where it rejects the text.
pub uninterp spec fn json_value_of(text: Seq<char>) -> Option<serde_json::Value>;

/// Calls `serde_json::from_str::<serde_json::Value>`. The parser reads
/// nothing but its argument, so the outcome is the named function of the text;
/// the parser's error is dropped.
#[verifier::external_body]
pub(crate) fn parse_json(text: &str) -> (r: Option<serde_json::Value>)
    ensures
        r == json_value_of(text@),
{
    serde_json::from_str::<serde_json::Value>(text).ok()
}

/// `<serde_json::Value as Clone>::clone` gives a value equal to the one it
/// was called on.
pub assume_specification[ <serde_json::Value as Clone>::clone ](
    value: &serde_json::Value,
) -> (r: serde_json::Value)
    ensures
        r == *value,
;

} // verus!
