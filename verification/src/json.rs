//! JSON objects with string values, built by `serde_json`.

use vstd::prelude::*;

verus! {

/// `serde_json::Map`, the map behind a JSON object. Nothing of its inside is
/// known here but what the functions below say.
#[verifier::external_type_specification]
#[verifier::external_body]
#[verifier::reject_recursive_types(K)]
#[verifier::reject_recursive_types(V)]
pub struct ExJsonMap<K, V>(serde_json::Map<K, V>);

/// `serde_json::Value`, any JSON value. It is only carried.
#[verifier::external_type_specification]
#[verifier::external_body]
pub struct ExJsonValue(serde_json::Value);

/// A JSON object.
pub type JsonObject = serde_json::Map<String, serde_json::Value>;

/// The keys of a JSON object, whatever kind of value each holds.
pub uninterp spec fn object_keys(object: JsonObject) -> Set<Seq<char>>;

/// The entries of a JSON object whose value is a JSON string: the text of
/// each, by key. Entries with a value of another kind are left out.
pub uninterp spec fn string_entries(object: JsonObject) -> Map<Seq<char>, Seq<char>>;

/// Whether `object` holds the entries `strings`, each as a JSON string, and
/// nothing else.
pub open spec fn holds_exactly(object: JsonObject, strings: Map<Seq<char>, Seq<char>>) -> bool {
    object_keys(object) == strings.dom() && string_entries(object) == strings
}

/// `serde_json::Map::new`: an object without entries.
#[verifier::external_body]
pub(crate) fn empty_object() -> (object: JsonObject)
    ensures
        object_keys(object) =~= Set::empty(),
        string_entries(object) =~= Map::empty(),
{
    serde_json::Map::new()
}

/// `serde_json::Map::insert` with a `serde_json::Value::String`: the object
/// then holds the text `value` under `key`, in place of whatever stood there,
/// and its other entries are as before.
#[verifier::external_body]
pub(crate) fn insert_string(object: &mut JsonObject, key: String, value: String)
    ensures
        object_keys(*final(object)) == object_keys(*old(object)).insert(key@),
        string_entries(*final(object)) == string_entries(*old(object)).insert(key@, value@),
{
    object.insert(key, serde_json::Value::String(value));
}

} // verus!
