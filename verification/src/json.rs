//! The body of an incoming message, as `serde_json` holds it.

use vstd::prelude::*;

verus! {

/// A JSON value of `serde_json`. The handlers carry such values and never look
/// inside one.
#[verifier::external_type_specification]
#[verifier::external_body]
pub struct ExValue(serde_json::Value);

/// A JSON object of `serde_json`: the fields of a message, by name.
#[verifier::external_type_specification]
#[verifier::external_body]
#[verifier::reject_recursive_types(K)]
#[verifier::reject_recursive_types(V)]
pub struct ExJsonObject<K, V>(serde_json::Map<K, V>);

/// The names of the fields that a message body holds.
pub uninterp spec fn field_names(body: serde_json::Map<String, serde_json::Value>) -> Set<Seq<char>>;

/// `serde_json::Map::get`: the value stored under `key`, if the body has a
/// field of that name. The map is keyed by the field names, so the result is
/// `Some` exactly for the names in `field_names`.
#[verifier::external_body]
pub(crate) fn field<'a>(
    body: &'a serde_json::Map<String, serde_json::Value>,
    key: &str,
) -> (found: Option<&'a serde_json::Value>)
    ensures
        found.is_some() <==> field_names(*body).contains(key@),
{
    body.get(key)
}

/// Whether the body has a field named `key`.
pub fn has_field(body: &serde_json::Map<String, serde_json::Value>, key: &str) -> (has: bool)
    ensures
        has == field_names(*body).contains(key@),
{
    field(body, key).is_some()
}

} // verus!
