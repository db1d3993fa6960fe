//! JSON documents that the library carries without looking inside them.
use vstd::prelude::*;

verus! {

/// `serde_json::Value`, opaque here: the library only moves such values.
#[verifier::external_type_specification]
#[verifier::external_body]
pub struct ExJsonValue(serde_json::Value);

/// `Clone` of `serde_json::Value`, which serde_json derives: the copy is
/// the same document.
pub assume_specification[ <serde_json::Value as Clone>::clone ](v: &serde_json::Value) -> (r:
    serde_json::Value)
    ensures
        r == *v,
;

/// Whether `serde_json::from_str::<serde_json::Value>` accepts the text:
/// the text holds exactly one JSON document, with nothing but white space
/// around it.
pub uninterp spec fn json_document(text: Seq<char>) -> bool;

/// `serde_json::from_str::<serde_json::Value>(text).ok()`: the document the
/// text holds, or `None` when it holds none. The contract says when a
/// document comes out; which document it is, it does not say (the library
/// carries it without looking inside).
#[verifier::external_body]
pub(crate) fn parse_json_value(text: &str) -> (r: Option<serde_json::Value>)
    ensures
        r is Some <==> json_document(text@),
{
    serde_json::from_str::<serde_json::Value>(text).ok()
}

} // verus!
