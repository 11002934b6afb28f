//! The JSON object that a record is written through. The object and its
//! text come from `serde_json`; the contracts here are taken on trust.

use vstd::prelude::*;
use crate::value::JsonValue;

verus! {

/// `serde_json::Map`, carried as it is: what it holds is known through
/// `json_entries` only.
#[verifier::external_type_specification]
#[verifier::external_body]
#[verifier::reject_recursive_types(K)]
#[verifier::reject_recursive_types(V)]
pub struct ExJsonMap<K, V>(serde_json::Map<K, V>);

/// `serde_json::Value`, carried as it is.
#[verifier::external_type_specification]
#[verifier::external_body]
pub struct ExJsonValue(serde_json::Value);

/// A JSON object as `serde_json` holds it.
pub type JsonObject = serde_json::Map<String, serde_json::Value>;

/// The members of a JSON object: each key with the value stored under it.
pub uninterp spec fn json_entries(object: JsonObject) -> Map<Seq<char>, JsonValue>;

/// The compact text that `serde_json` prints for an object with these
/// members. The members alone decide it because the object keeps them
/// sorted by key; `serde_json` must be built without its `preserve_order`
/// feature, under which the text would follow the order of insertion.
pub uninterp spec fn json_text(entries: Map<Seq<char>, JsonValue>) -> Seq<char>;

/// The value that `serde_json` reads from a text holding one JSON number,
/// `None` where it does not accept the text as a number.
pub uninterp spec fn json_number_value(text: Seq<char>) -> Option<JsonValue>;

/// `serde_json::Map::new`: an object without members.
#[verifier::external_body]
pub(crate) fn json_object() -> (fresh: JsonObject)
    ensures
        json_entries(fresh) == (Map::<Seq<char>, JsonValue>::empty()),
{
    serde_json::Map::new()
}

/// `serde_json::Map::insert` with a string value: afterwards the object
/// holds that string under `key`, in place of what `key` held, and every
/// other member is as before.
#[verifier::external_body]
pub(crate) fn json_put_text(object: &mut JsonObject, key: &str, text: &str)
    ensures
        json_entries(*final(object)) == json_entries(*old(object)).insert(key@, JsonValue::Text(text@)),
{
    object.insert(key.to_owned(), serde_json::Value::String(text.to_owned()));
}

/// `serde_json::Map::insert` with a signed integer as the value.
#[verifier::external_body]
pub(crate) fn json_put_signed(object: &mut JsonObject, key: &str, number: i64)
    ensures
        json_entries(*final(object)) == json_entries(*old(object)).insert(key@, JsonValue::Int(number as int)),
{
    object.insert(key.to_owned(), serde_json::Value::from(number));
}

/// `serde_json::Map::insert` with an unsigned integer as the value.
#[verifier::external_body]
pub(crate) fn json_put_unsigned(object: &mut JsonObject, key: &str, number: u64)
    ensures
        json_entries(*final(object)) == json_entries(*old(object)).insert(key@, JsonValue::Int(number as int)),
{
    object.insert(key.to_owned(), serde_json::Value::from(number));
}

/// `serde_json::Map::insert` with a boolean as the value.
#[verifier::external_body]
pub(crate) fn json_put_flag(object: &mut JsonObject, key: &str, flag: bool)
    ensures
        json_entries(*final(object)) == json_entries(*old(object)).insert(key@, JsonValue::Flag(flag)),
{
    object.insert(key.to_owned(), serde_json::Value::Bool(flag));
}

/// `serde_json::from_str` for a number, then `serde_json::Map::insert`:
/// where the text is read as a JSON number that number is stored under
/// `key` and the result is `true`; otherwise the object is left alone.
/// The number goes from the one call into the other inside this function,
/// since it has no form in which verified code could hold it; what is done
/// with a text that is no number is decided by the caller.
#[verifier::external_body]
pub(crate) fn json_put_number(object: &mut JsonObject, key: &str, text: &str) -> (stored: bool)
    ensures
        stored == json_number_value(text@).is_some(),
        stored ==> json_entries(*final(object)) == json_entries(*old(object)).insert(key@, json_number_value(text@).unwrap()),
        !stored ==> json_entries(*final(object)) == json_entries(*old(object)),
{
    match serde_json::from_str::<serde_json::Number>(text) {
        Ok(number) => {
            object.insert(key.to_owned(), serde_json::Value::Number(number));
            true
        }
        Err(_) => false,
    }
}

/// `Display` of `serde_json::Value`: the compact text of the object. The
/// text holds no line feed, since the printer escapes every control
/// character inside strings and puts no white space between tokens.
#[verifier::external_body]
pub(crate) fn json_render(object: JsonObject) -> (text: String)
    ensures
        text@ == json_text(json_entries(object)),
        !text@.contains('\n'),
{
    serde_json::Value::Object(object).to_string()
}

} // verus!
