use vstd::prelude::*;

verus! {

#[verifier::external_type_specification]
#[verifier::external_body]
#[verifier::reject_recursive_types(K)]
#[verifier::reject_recursive_types(V)]
pub struct ExJsonObject<K, V>(serde_json::Map<K, V>);

#[verifier::external_type_specification]
#[verifier::external_body]
pub struct ExJsonValue(serde_json::Value);

#[verifier::external_type_specification]
#[verifier::external_body]
pub struct ExJsonError(serde_json::Error);

/// A decoded JSON object: string keys, arbitrary JSON values.
pub type JsonMap = serde_json::Map<String, serde_json::Value>;

/// The JSON text of an object whose values are all strings.
pub uninterp spec fn json_object_text(entries: Map<Seq<char>, Seq<char>>) -> Seq<u8>;

/// What reading a JSON object from the bytes gives: the object, or the reason
/// the bytes hold none.
pub uninterp spec fn decoded_object(bytes: Seq<u8>) -> Result<JsonMap, serde_json::Error>;

/// Whether the bytes are the JSON text of an object.
pub open spec fn decodes_as_object(bytes: Seq<u8>) -> bool {
    decoded_object(bytes) is Ok
}

/// Relies on serde_json::from_slice: what it reads from the bytes, object or
/// error, depends on the bytes alone.
#[verifier::external_body]
pub(crate) fn decode_object(bytes: &[u8]) -> (r: Result<JsonMap, serde_json::Error>)
    ensures
        r == decoded_object(bytes@),
{
    serde_json::from_slice(bytes)
}

} // verus!
