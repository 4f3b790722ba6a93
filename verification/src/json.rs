//! JSON values are carried through the library without being inspected.

use vstd::prelude::*;

verus! {

/// `serde_json::Value`, opaque to the verifier.
#[verifier::external_type_specification]
#[verifier::external_body]
pub struct ExJsonValue(serde_json::Value);

/// The value that a text denotes when read as JSON, or `None` where the
/// text is not one JSON document.
pub uninterp spec fn json_value_of(text: Seq<char>) -> Option<serde_json::Value>;

/// Calls `serde_json::from_str::<serde_json::Value>` and drops the error.
/// What comes back depends on the text alone; nothing more is claimed.
#[verifier::external_body]
pub(crate) fn parse_json(text: &str) -> (value: Option<serde_json::Value>)
    ensures
        value == json_value_of(text@),
{
    serde_json::from_str::<serde_json::Value>(text).ok()
}

} // verus!
