//! The JSON values that the relay carries, as serde_json holds them.
//!
//! A value stays opaque: the relay reads of it only the names of its
//! top-level members, which decide whether it is a final JSON-RPC response.

use vstd::prelude::*;

verus! {

/// `serde_json::Value`, carried through unopened.
#[verifier::external_type_specification]
#[verifier::external_body]
pub struct ExValue(serde_json::Value);

/// `serde_json::Error`, which the relay only turns into a message.
#[verifier::external_type_specification]
#[verifier::external_body]
pub struct ExJsonError(serde_json::Error);

/// The texts that serde_json reads as exactly one JSON document.
pub uninterp spec fn is_json_text(text: Seq<char>) -> bool;

/// The member names of a JSON object; no names for any other kind of value.
pub uninterp spec fn member_names(v: serde_json::Value) -> Set<Seq<char>>;

/// The top-level member names of the document that serde_json reads from
/// `text`: those of the object it holds, none where it holds another kind of
/// value.
pub uninterp spec fn json_member_names(text: Seq<char>) -> Set<Seq<char>>;

/// Relies on `serde_json::from_str::<serde_json::Value>`: it succeeds exactly
/// on the texts that hold one JSON document, and the value it reads depends
/// on the text alone, so its member names do too.
#[verifier::external_body]
pub(crate) fn parse_json(text: &str) -> (r: Result<serde_json::Value, serde_json::Error>)
    ensures
        r is Ok <==> is_json_text(text@),
        r matches Ok(v) ==> member_names(v) == json_member_names(text@),
{
    serde_json::from_str::<serde_json::Value>(text)
}

/// Relies on `serde_json::Value::get` with a string key: it finds a value
/// exactly when `v` is an object that holds a member of that name.
#[verifier::external_body]
pub(crate) fn has_member(v: &serde_json::Value, key: &str) -> (r: bool)
    ensures
        r == member_names(*v).contains(key@),
{
    v.get(key).is_some()
}

/// Relies on the `Display` of `serde_json::Error`: a message that says what
/// was wrong with the text and where.
#[verifier::external_body]
pub(crate) fn describe_json_error(e: &serde_json::Error) -> (r: String) {
    e.to_string()
}

} // verus!
