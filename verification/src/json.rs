//! JSON payloads. `serde_json` builds and writes them; the contracts speak of
//! a payload as a mathematical [`Json`] document.
//!
//! What is taken on trust of `serde_json` stands first: two opaque types,
//! three names for what they hold and for the text that is written, and one
//! contract for each function of `serde_json` that the library calls. The
//! rest of the module is verified against those contracts.
use crate::error::{Error, ErrorView};
use vstd::prelude::*;

verus! {

/// `serde_json::Value`: one JSON value, opaque here. [`json_of`] names the
/// document that it holds.
#[verifier::external_type_specification]
#[verifier::external_body]
pub struct ExValue(serde_json::Value);

/// `serde_json::Map`: the members of a JSON object, opaque here.
/// [`fields_of`] names what it holds.
#[verifier::external_type_specification]
#[verifier::external_body]
#[verifier::reject_recursive_types(K)]
#[verifier::reject_recursive_types(V)]
pub struct ExObject<K, V>(serde_json::Map<K, V>);

/// A JSON document.
pub enum Json {
    Null,
    Bool(bool),
    Number(int),
    Text(Seq<char>),
    List(Seq<Json>),
    Object(Map<Seq<char>, Json>),
}

/// The document that a `serde_json::Value` holds.
pub uninterp spec fn json_of(value: serde_json::Value) -> Json;

/// The members that a `serde_json::Map` holds, by key.
pub uninterp spec fn fields_of(object: serde_json::Map<String, serde_json::Value>) -> Map<
    Seq<char>,
    Json,
>;

/// The text that `serde_json::to_string` writes for a document, or `None`
/// where it reports an error. The members of an object are written in the
/// order of their keys, so the text depends on nothing but the document.
pub uninterp spec fn json_text(document: Json) -> Option<Seq<char>>;

/// The member of an object under `key`; `null` for what is no object.
pub open spec fn member(document: Json, key: Seq<char>) -> Json {
    match document {
        Json::Object(fields) => fields[key],
        _ => Json::Null,
    }
}

/// An object without members.
pub open spec fn no_fields() -> Map<Seq<char>, Json> {
    Map::empty()
}

/// A list of texts as a list of JSON strings.
pub open spec fn text_items(items: Seq<String>) -> Seq<Json> {
    Seq::new(items.len(), |i: int| Json::Text(items[i]@))
}

/// A text, or `null` where there is none.
pub open spec fn text_or_null(text: Option<Seq<char>>) -> Json {
    match text {
        Some(t) => Json::Text(t),
        None => Json::Null,
    }
}

/// `serde_json::Map::new` makes a map without members.
pub assume_specification[ serde_json::Map::<String, serde_json::Value>::new ]() -> (object:
    serde_json::Map<String, serde_json::Value>)
    ensures
        fields_of(object) == no_fields(),
;

/// `serde_json::Map::insert` sets the member under the key, in place of a
/// member that was there, and returns the member that was there.
pub assume_specification[ serde_json::Map::<String, serde_json::Value>::insert ](
    object: &mut serde_json::Map<String, serde_json::Value>,
    k: String,
    v: serde_json::Value,
) -> (prior: Option<serde_json::Value>)
    ensures
        fields_of(*final(object)) == fields_of(*old(object)).insert(k@, json_of(v)),
        match prior {
            Some(member) => fields_of(*old(object)).contains_key(k@) && json_of(member)
                == fields_of(*old(object))[k@],
            None => !fields_of(*old(object)).contains_key(k@),
        },
;

/// `Value::Null` holds `null`.
#[verifier::external_body]
pub(crate) fn null() -> (value: serde_json::Value)
    ensures
        json_of(value) == Json::Null,
{
    serde_json::Value::Null
}

/// `Value::Bool` holds the truth value given.
#[verifier::external_body]
pub(crate) fn boolean(flag: bool) -> (value: serde_json::Value)
    ensures
        json_of(value) == Json::Bool(flag),
{
    serde_json::Value::Bool(flag)
}

/// `Value::from` of an unsigned integer holds that number.
#[verifier::external_body]
pub(crate) fn number(n: u64) -> (value: serde_json::Value)
    ensures
        json_of(value) == Json::Number(n as int),
{
    serde_json::Value::from(n)
}

/// `Value::String` holds the text given.
#[verifier::external_body]
pub(crate) fn text(content: String) -> (value: serde_json::Value)
    ensures
        json_of(value) == Json::Text(content@),
{
    serde_json::Value::String(content)
}

/// `Value::from` of a slice holds the array of its items, each converted in
/// turn: here each a JSON string.
#[verifier::external_body]
pub(crate) fn text_list(items: &[String]) -> (value: serde_json::Value)
    ensures
        json_of(value) == Json::List(text_items(items@)),
{
    serde_json::Value::from(items)
}

/// `Value::Object` holds the object with the map's members.
#[verifier::external_body]
pub(crate) fn object(members: serde_json::Map<String, serde_json::Value>) -> (value:
    serde_json::Value)
    ensures
        json_of(value) == Json::Object(fields_of(members)),
{
    serde_json::Value::Object(members)
}

/// `serde_json::to_string` on a value: the text it writes, or the report of
/// its error. Which of the two, and the text, are named by [`json_text`];
/// nothing is said of the report.
#[verifier::external_body]
pub(crate) fn render(value: &serde_json::Value) -> (written: Result<String, String>)
    ensures
        match written {
            Ok(t) => json_text(json_of(*value)) == Some(t@),
            Err(_) => json_text(json_of(*value)) is None,
        },
{
    match serde_json::to_string(value) {
        Ok(written) => Ok(written),
        Err(error) => Err(error.to_string()),
    }
}

/// Turns the writer's answer into a request body or a serialization error.
pub fn serialized(written: Result<String, String>) -> (body: Result<String, Error>)
    ensures
        match written {
            Ok(t) => body matches Ok(b) && b@ == t@,
            Err(report) => body matches Err(e) && e@ == ErrorView::Serialize(report@),
        },
{
    match written {
        Ok(t) => Ok(t),
        Err(report) => Err(Error::Serialize(report)),
    }
}

/// Whether `body` is what writing `document` gives: the text that the writer
/// names for it, or a serialization error where it names none.
pub open spec fn is_body_of(body: Result<String, Error>, document: Json) -> bool {
    match json_text(document) {
        Some(t) => body matches Ok(b) && b@ == t,
        None => body matches Err(e) && e@ is Serialize,
    }
}

/// Writes an object as the text of a request body.
pub fn to_body(members: serde_json::Map<String, serde_json::Value>) -> (body: Result<
    String,
    Error,
>)
    ensures
        is_body_of(body, Json::Object(fields_of(members))),
{
    let value = object(members);
    serialized(render(&value))
}

/// Sets a member to a JSON string.
pub fn put_text(object: &mut serde_json::Map<String, serde_json::Value>, key: &str, content: &str)
    ensures
        fields_of(*final(object)) == fields_of(*old(object)).insert(key@, Json::Text(content@)),
{
    object.insert(String::from_str(key), text(String::from_str(content)));
}

/// Sets a member to a JSON string, or to `null` where there is no text.
pub fn put_text_or_null(
    object: &mut serde_json::Map<String, serde_json::Value>,
    key: &str,
    content: Option<String>,
)
    ensures
        fields_of(*final(object)) == fields_of(*old(object)).insert(
            key@,
            text_or_null(
                match content {
                    Some(t) => Some(t@),
                    None => None,
                },
            ),
        ),
{
    let value = match content {
        Some(t) => text(t),
        None => null(),
    };
    object.insert(String::from_str(key), value);
}

/// Sets a member to a truth value.
pub fn put_bool(object: &mut serde_json::Map<String, serde_json::Value>, key: &str, flag: bool)
    ensures
        fields_of(*final(object)) == fields_of(*old(object)).insert(key@, Json::Bool(flag)),
{
    object.insert(String::from_str(key), boolean(flag));
}

/// Sets a member to a number.
pub fn put_number(object: &mut serde_json::Map<String, serde_json::Value>, key: &str, n: u64)
    ensures
        fields_of(*final(object)) == fields_of(*old(object)).insert(key@, Json::Number(n as int)),
{
    object.insert(String::from_str(key), number(n));
}

/// Sets a member to an array of JSON strings.
pub fn put_text_list(
    object: &mut serde_json::Map<String, serde_json::Value>,
    key: &str,
    items: &[String],
)
    ensures
        fields_of(*final(object)) == fields_of(*old(object)).insert(
            key@,
            Json::List(text_items(items@)),
        ),
{
    object.insert(String::from_str(key), text_list(items));
}

/// Sets a member to a nested object.
pub fn put_object(
    object: &mut serde_json::Map<String, serde_json::Value>,
    key: &str,
    members: serde_json::Map<String, serde_json::Value>,
)
    ensures
        fields_of(*final(object)) == fields_of(*old(object)).insert(
            key@,
            Json::Object(fields_of(members)),
        ),
{
    object.insert(String::from_str(key), self::object(members));
}

} // verus!
