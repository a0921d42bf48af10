//! JSON text parsing for configuration values and manifests, by `serde_json`.
pub use serde_json::Value;
use vstd::prelude::*;

verus! {

/// Declares `serde_json::Value`, carried as an opaque value.
#[verifier::external_type_specification]
#[verifier::external_body]
pub struct ExJsonValue(serde_json::Value);

/// Declares `serde_json::Error`, carried as an opaque value.
#[verifier::external_type_specification]
#[verifier::external_body]
pub struct ExJsonError(serde_json::Error);

/// Whether `serde_json` accepts a text as one JSON document (its grammar and nesting limit).
pub uninterp spec fn is_json_text(text: Seq<char>) -> bool;

/// Parses a JSON text into a `serde_json::Value` by `serde_json::from_str`. Which texts it
/// accepts is named, not spelled out; nothing is stated of the value or the error.
#[verifier::external_body]
pub fn parse(text: &str) -> (result: Result<serde_json::Value, serde_json::Error>)
    ensures
        result is Ok <==> is_json_text(text@),
{
    serde_json::from_str(text)
}

} // verus!
