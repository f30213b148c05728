//! The JSON values that pass through the gateway unread: the free-form
//! answers of a paper submission.
use vstd::prelude::*;

verus! {

#[verifier::external_type_specification]
#[verifier::external_body]
pub struct ExJsonValue(serde_json::Value);

#[verifier::external_type_specification]
#[verifier::external_body]
#[verifier::reject_recursive_types(K)]
#[verifier::reject_recursive_types(V)]
pub struct ExJsonMap<K, V>(serde_json::Map<K, V>);

/// Whether the text is a single JSON object, as serde_json reads it.
pub uninterp spec fn is_json_object_text(text: Seq<char>) -> bool;

/// Relies on `serde_json::from_str` into a `Map<String, Value>`: it succeeds
/// exactly on the texts that hold one JSON object.
#[verifier::external_body]
pub(crate) fn parse_json_object(text: &str) -> (r: Option<serde_json::Map<String, serde_json::Value>>)
    ensures
        r is Some <==> is_json_object_text(text@),
{
    serde_json::from_str::<serde_json::Map<String, serde_json::Value>>(text).ok()
}

/// The JSON text that serde_json writes for a map.
pub uninterp spec fn json_text_of(m: serde_json::Map<String, serde_json::Value>) -> Seq<char>;

/// Relies on `serde_json::to_string`: the JSON text of a map. It fails only
/// where a `Serialize` impl fails or a map key is not a string; a
/// `Map<String, Value>` has string keys and `Value` serialises without error.
#[verifier::external_body]
pub(crate) fn json_object_to_text(m: &serde_json::Map<String, serde_json::Value>) -> (r: Option<String>)
    ensures
        r is Some,
        r->Some_0@ == json_text_of(*m),
{
    serde_json::to_string(m).ok()
}

} // verus!
