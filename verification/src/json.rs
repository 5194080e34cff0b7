//! JSON documents, read with serde_json.
//!
//! The proofs see a document as the tree of what it holds; how serde_json
//! reads a text into a document is its own business.

use vstd::prelude::*;

verus! {

#[verifier::external_type_specification]
#[verifier::external_body]
pub struct ExJson(serde_json::Value);

/// What a JSON document holds.  A number that is no integer of 64 bits is
/// kept as a number of which no more is known.
pub ghost enum JsonData {
    Null,
    Bool(bool),
    Integer(int),
    OtherNumber,
    Text(Seq<char>),
    List(Seq<JsonData>),
    Object(Map<Seq<char>, JsonData>),
}

/// What a `serde_json::Value` holds.
pub uninterp spec fn json_view(value: serde_json::Value) -> JsonData;

/// The document that serde_json reads from a text; `None` where the text
/// is not JSON.
pub uninterp spec fn parsed_json(text: Seq<char>) -> Option<JsonData>;

/// The member `key` of a document, where the document is an object that has
/// one.
pub open spec fn member_of(document: JsonData, key: Seq<char>) -> Option<JsonData> {
    match document {
        JsonData::Object(members) => if members.contains_key(key) {
            Some(members[key])
        } else {
            None
        },
        _ => None,
    }
}

/// The text of a document, where the document is one.
pub open spec fn text_of(document: JsonData) -> Option<Seq<char>> {
    match document {
        JsonData::Text(text) => Some(text),
        _ => None,
    }
}

/// The text member `key` of a document: none where the document is no
/// object, has no such member, or the member is no text.
pub open spec fn text_member(document: JsonData, key: Seq<char>) -> Option<Seq<char>> {
    match member_of(document, key) {
        Some(member) => text_of(member),
        None => None,
    }
}

/// The integer of a document, where the document is one.
pub open spec fn integer_of(document: JsonData) -> Option<int> {
    match document {
        JsonData::Integer(number) => Some(number),
        _ => None,
    }
}

/// The items of a document, where the document is an array.
pub open spec fn items_of(document: JsonData) -> Option<Seq<JsonData>> {
    match document {
        JsonData::List(items) => Some(items),
        _ => None,
    }
}

/// What each of the values holds.
pub open spec fn views_of(values: Seq<serde_json::Value>) -> Seq<JsonData> {
    Seq::new(values.len(), |i: int| json_view(values[i]))
}

/// `serde_json::from_str` into a `serde_json::Value`; `None` where the text
/// is not JSON.  The value holds the document that [`parsed_json`] names.
#[verifier::external_body]
pub(crate) fn parse_json(text: &str) -> (r: Option<serde_json::Value>)
    ensures
        match r {
            Some(value) => parsed_json(text@) == Some(json_view(value)),
            None => parsed_json(text@) is None,
        },
{
    serde_json::from_str(text).ok()
}

/// `serde_json::Value::get` with a text key: the member of that name, where
/// the value is an object that has one.
#[verifier::external_body]
pub(crate) fn json_member<'a>(value: &'a serde_json::Value, key: &str) -> (r: Option<&'a serde_json::Value>)
    ensures
        match r {
            Some(member) => member_of(json_view(*value), key@) == Some(json_view(*member)),
            None => member_of(json_view(*value), key@) is None,
        },
{
    value.get(key)
}

/// `serde_json::Value::as_str`: the text, where the value is one.
#[verifier::external_body]
pub(crate) fn json_text(value: &serde_json::Value) -> (r: Option<String>)
    ensures
        match r {
            Some(text) => text_of(json_view(*value)) == Some(text@),
            None => text_of(json_view(*value)) is None,
        },
{
    value.as_str().map(str::to_owned)
}

/// `serde_json::Value::as_i64`: the number, where the value is an integer
/// of 64 bits.
#[verifier::external_body]
pub(crate) fn json_integer(value: &serde_json::Value) -> (r: Option<i64>)
    ensures
        match r {
            Some(number) => integer_of(json_view(*value)) == Some(number as int),
            None => integer_of(json_view(*value)) is None,
        },
{
    value.as_i64()
}

/// `serde_json::Value::as_array`: the items, where the value is an array.
#[verifier::external_body]
pub(crate) fn json_items<'a>(value: &'a serde_json::Value) -> (r: Option<&'a Vec<serde_json::Value>>)
    ensures
        match r {
            Some(items) => items_of(json_view(*value)) == Some(views_of(items@)),
            None => items_of(json_view(*value)) is None,
        },
{
    value.as_array()
}

/// `serde_json::Value::is_null`.
#[verifier::external_body]
pub(crate) fn json_is_null(value: &serde_json::Value) -> (r: bool)
    ensures
        r == (json_view(*value) is Null),
{
    value.is_null()
}

} // verus!
