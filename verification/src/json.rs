use vstd::prelude::*;

verus! {

#[verifier::external_type_specification]
#[verifier::external_body]
pub struct ExValue(serde_json::Value);

/// Relies on serde_json::Value::is_object: whether the value is a
/// JSON object.
#[verifier::external_body]
pub(crate) fn json_is_object(v: &serde_json::Value) -> bool {
    v.is_object()
}

/// Relies on serde_json::Value::get: looks a key up in a JSON object;
/// `None` on a non-object or an absent key.
#[verifier::external_body]
pub(crate) fn json_get<'a>(v: &'a serde_json::Value, key: &str) -> Option<&'a serde_json::Value> {
    v.get(key)
}

/// Relies on serde_json::Value::as_str: the value's text when it is a
/// JSON string, copied into an owned string.
#[verifier::external_body]
pub(crate) fn json_as_str(v: &serde_json::Value) -> Option<String> {
    v.as_str().map(|s| s.to_string())
}

} // verus!
