//! The JSON text format, as `serde_json` reads and writes it.
//!
//! Nothing in this module is proved about JSON itself: parsing and string
//! escaping are `serde_json`'s, reached through the trusted functions below.
//! The rest of the library reasons about their results by name.

use vstd::prelude::*;

verus! {

/// A member value of a JSON object, as far as this library reads it.
#[derive(Debug)]
pub enum Field {
    /// A JSON string.
    Text(String),
    /// `true` or `false`.
    Flag(bool),
    /// A number that is an integer in the range of `i64`.
    Integer(i64),
    /// Anything else: `null`, other numbers, arrays, objects.
    Other,
}

/// The mathematical value of a [`Field`].
pub enum FieldView {
    Text(Seq<char>),
    Flag(bool),
    Integer(int),
    Other,
}

impl View for Field {
    type V = FieldView;

    open spec fn view(&self) -> FieldView {
        match self {
            Field::Text(s) => FieldView::Text(s@),
            Field::Flag(b) => FieldView::Flag(*b),
            Field::Integer(n) => FieldView::Integer(*n as int),
            Field::Other => FieldView::Other,
        }
    }
}

/// The view of an optional field.
pub open spec fn field_view(field: Option<Field>) -> Option<FieldView> {
    match field {
        Some(f) => Some(f@),
        None => None,
    }
}

#[verifier::external_type_specification]
#[verifier::external_body]
pub struct ExJsonValue(serde_json::Value);

#[verifier::external_type_specification]
#[verifier::external_body]
#[verifier::reject_recursive_types(K)]
#[verifier::reject_recursive_types(V)]
pub struct ExJsonMap<K, V>(serde_json::Map<K, V>);

#[verifier::external_type_specification]
#[verifier::external_body]
pub struct ExJsonError(serde_json::Error);

/// The members of a parsed JSON object, by key.
pub uninterp spec fn object_members(
    object: serde_json::Map<String, serde_json::Value>,
) -> Map<Seq<char>, FieldView>;

/// The members of the JSON object that `text` denotes, or `None` where `text`
/// is not the JSON notation of one object.
pub uninterp spec fn json_object(text: Seq<char>) -> Option<Map<Seq<char>, FieldView>>;

/// The JSON string literal that denotes `text`, quotes included, or `None`
/// where the encoder fails.
pub uninterp spec fn json_string(text: Seq<char>) -> Option<Seq<char>>;

/// Parses `text` as one JSON object, by `serde_json::from_str`.
///
/// Trusted: whether the call succeeds, and the members of the object it
/// returns, are a function of `text` alone.
#[verifier::external_body]
pub(crate) fn parse_object(text: &str) -> (r: Result<
    serde_json::Map<String, serde_json::Value>,
    serde_json::Error,
>)
    ensures
        match r {
            Ok(object) => json_object(text@) == Some(object_members(object)),
            Err(_) => json_object(text@) is None,
        },
{
    serde_json::from_str::<serde_json::Map<String, serde_json::Value>>(text)
}

/// Looks `key` up in a parsed object, by `serde_json::Map::get`.
///
/// Trusted: the result is the member stored under `key`, if there is one.
#[verifier::external_body]
pub(crate) fn member(object: &serde_json::Map<String, serde_json::Value>, key: &str) -> (r: Option<
    Field,
>)
    ensures
        match r {
            Some(field) => object_members(*object).contains_key(key@) && object_members(
                *object,
            )[key@] == field@,
            None => !object_members(*object).contains_key(key@),
        },
{
    match object.get(key) {
        None => None,
        Some(serde_json::Value::String(s)) => Some(Field::Text(s.clone())),
        Some(serde_json::Value::Bool(b)) => Some(Field::Flag(*b)),
        Some(serde_json::Value::Number(n)) => Some(n.as_i64().map_or(Field::Other, Field::Integer)),
        Some(_) => Some(Field::Other),
    }
}

/// Writes `text` as a JSON string literal, by `serde_json::to_string`.
///
/// Trusted: the result is a function of `text` alone.
#[verifier::external_body]
pub(crate) fn quote(text: &str) -> (r: Result<String, serde_json::Error>)
    ensures
        match r {
            Ok(literal) => json_string(text@) == Some(literal@),
            Err(_) => json_string(text@) is None,
        },
{
    serde_json::to_string(text)
}

} // verus!
