use vstd::prelude::*;

verus! {

#[verifier::external_type_specification]
#[verifier::external_body]
pub struct ExJsonValue(serde_json::Value);

#[verifier::external_type_specification]
#[verifier::external_body]
#[verifier::reject_recursive_types(K)]
#[verifier::reject_recursive_types(V)]
pub struct ExJsonMap<K, V>(serde_json::Map<K, V>);

#[verifier::external_type_specification]
#[verifier::external_body]
pub struct ExJsonError(serde_json::Error);

/// The keys of a structured record.
pub uninterp spec fn record_keys(m: serde_json::Map<String, serde_json::Value>) -> Set<Seq<char>>;

/// The outer shape of a pretty-printed JSON object with the given keys: `{}`
/// when there are none, otherwise an opening brace on a line of its own and a
/// closing brace at the start of the last line.
pub open spec fn pretty_object_shape(keys: Set<Seq<char>>, s: Seq<char>) -> bool {
    if keys.is_empty() {
        s == seq!['{', '}']
    } else {
        &&& s.len() >= 4
        &&& s.take(2) == seq!['{', '\n']
        &&& s.skip(s.len() - 2) == seq!['\n', '}']
    }
}

/// A record value that the structured output format cannot represent.
#[derive(Debug, Clone, Copy, PartialEq, Eq)]
pub enum SerializationError {
    Unrepresentable,
}

/// Relies on `serde_json::to_string_pretty` on a `Map<String, Value>`. Keys
/// are written in the map's own (sorted) order, each entry on its own line
/// indented by two spaces. Every `Value` serializes without error (non-finite
/// numbers cannot be stored in one) and the writer is an in-memory buffer, so
/// the call always succeeds; an empty map is written as `{}`, any other map
/// opens with `{` and a newline and closes with a newline and `}`.
#[verifier::external_body]
fn to_pretty_json(record: &serde_json::Map<String, serde_json::Value>) -> (r: Result<String, serde_json::Error>)
    ensures
        r.is_ok(),
        r.is_ok() ==> pretty_object_shape(record_keys(*record), r.unwrap()@),
{
    serde_json::to_string_pretty(record)
}

/// Renders `data` as pretty-printed JSON. Keys come out in sorted order, so
/// equal records always give equal text.
pub fn process_data(data: &serde_json::Map<String, serde_json::Value>) -> (r: Result<String, SerializationError>)
    ensures
        r.is_ok(),
        r.is_ok() ==> pretty_object_shape(record_keys(*data), r.unwrap()@),
{
    match to_pretty_json(data) {
        Ok(s) => Ok(s),
        Err(_) => Err(SerializationError::Unrepresentable),
    }
}

} // verus!
