//! The boundary to `serde_json`.
//!
//! A `serde_json::Value` is opaque to the verifier. Its content is named by
//! [`json_view`], a tree of plain values, and every function below states
//! over that tree what the corresponding `serde_json` function does. None of
//! these statements is proved: they are read off the source of `serde_json`,
//! built with its default features, where an object keeps its members sorted
//! by key and a number is a `u64`, a negative `i64` or a finite `f64`.

use vstd::prelude::*;

verus! {

/// A JSON document held by `serde_json`.
#[verifier::external_type_specification]
#[verifier::external_body]
pub struct ExValue(serde_json::Value);

/// The error that `serde_json` reports when it cannot parse or print.
#[verifier::external_type_specification]
#[verifier::external_body]
pub struct ExJsonError(serde_json::Error);

/// The content of a JSON number: either an integer between `i64::MIN` and
/// `u64::MAX`, or a finite binary64 number given by its bit pattern.
pub enum JsonNumber {
    Integer(int),
    Binary64(u64),
}

/// The content of a JSON document.
pub enum JsonView {
    Null,
    Bool(bool),
    Number(JsonNumber),
    String(Seq<char>),
    Array(Seq<JsonView>),
    Object(Map<Seq<char>, JsonView>),
}

impl JsonView {
    /// The member stored under `key`, if this is an object that has one.
    pub open spec fn member(self, key: Seq<char>) -> Option<JsonView> {
        match self {
            JsonView::Object(members) => if members.contains_key(key) {
                Some(members[key])
            } else {
                None
            },
            _ => None,
        }
    }

    /// The member stored under `key`, where an absent member and a `null`
    /// member both count as missing.
    pub open spec fn field(self, key: Seq<char>) -> Option<JsonView> {
        match self.member(key) {
            Some(JsonView::Null) => None,
            other => other,
        }
    }

    /// The number as an unsigned 64-bit integer, if it is one.
    pub open spec fn as_u64(self) -> Option<u64> {
        match self {
            JsonView::Number(JsonNumber::Integer(i)) => if 0 <= i <= u64::MAX {
                Some(i as u64)
            } else {
                None
            },
            _ => None,
        }
    }

    /// The number as a signed 64-bit integer, if it is one.
    pub open spec fn as_i64(self) -> Option<i64> {
        match self {
            JsonView::Number(JsonNumber::Integer(i)) => if i64::MIN <= i <= i64::MAX {
                Some(i as i64)
            } else {
                None
            },
            _ => None,
        }
    }
}

/// The object that holds the given entries, a later entry replacing an
/// earlier one with the same key.
pub open spec fn object_of(entries: Seq<(Seq<char>, JsonView)>) -> Map<Seq<char>, JsonView>
    decreases entries.len(),
{
    if entries.len() == 0 {
        Map::empty()
    } else {
        object_of(entries.drop_last()).insert(entries.last().0, entries.last().1)
    }
}

/// Whether no key occurs twice among the entries.
pub open spec fn distinct_keys(entries: Seq<(Seq<char>, JsonView)>) -> bool {
    forall|i: int, j: int|
        0 <= i < j < entries.len() ==> (#[trigger] entries[i]).0 != (#[trigger] entries[j]).0
}

/// The content of a `serde_json::Value`.
pub uninterp spec fn json_view(value: serde_json::Value) -> JsonView;

/// What `serde_json::from_str` makes of a text: the document it denotes, or
/// `None` where the text is not one JSON document.
pub uninterp spec fn json_parse(text: Seq<char>) -> Option<JsonView>;

/// The compact text that `serde_json::to_string` prints for a document.
pub uninterp spec fn json_text(document: JsonView) -> Seq<char>;

/// The contents of a list of documents.
pub open spec fn views_of(items: Seq<serde_json::Value>) -> Seq<JsonView> {
    Seq::new(items.len(), |i: int| json_view(items[i]))
}

/// The contents of a list of keyed documents.
pub open spec fn entries_of(entries: Seq<(String, serde_json::Value)>) -> Seq<
    (Seq<char>, JsonView),
> {
    Seq::new(entries.len(), |i: int| (entries[i].0@, json_view(entries[i].1)))
}

/// `serde_json::from_str` at `Value`: parses one JSON document. The result is
/// a function of the text alone; it is `Ok` exactly where [`json_parse`] names
/// a document, and then holds that document.
#[verifier::external_body]
pub(crate) fn parse(text: &str) -> (parsed: Result<serde_json::Value, serde_json::Error>)
    ensures
        parsed is Ok <==> json_parse(text@) is Some,
        parsed matches Ok(value) ==> json_parse(text@) == Some(json_view(value)),
{
    serde_json::from_str::<serde_json::Value>(text)
}

/// `serde_json::to_string` at `Value`: prints a document as compact JSON. The
/// text depends on the document's content alone, since the members of an
/// object are printed in the order of their keys, and is named by
/// [`json_text`]. It holds no line break: a string prints its own escaped,
/// and nothing else prints one. Printing a `Value` does not fail: printing
/// fails on a key that is no string and on a writer that fails, and here the
/// keys are strings and the text is written to memory.
#[verifier::external_body]
pub(crate) fn print(value: &serde_json::Value) -> (printed: Result<String, serde_json::Error>)
    ensures
        printed is Ok,
        printed matches Ok(text) ==> text@ == json_text(json_view(*value)),
        printed matches Ok(text) ==> !text@.contains('\n'),
{
    serde_json::to_string(value)
}

/// `Value::get` with a string index: the member of an object under `key`;
/// `None` for a missing key and for anything that is not an object.
#[verifier::external_body]
pub(crate) fn get<'a>(value: &'a serde_json::Value, key: &str) -> (member: Option<
    &'a serde_json::Value,
>)
    ensures
        match member {
            Some(found) => json_view(*value).member(key@) == Some(json_view(*found)),
            None => json_view(*value).member(key@) is None,
        },
{
    value.get(key)
}

/// `Value::is_object`.
#[verifier::external_body]
pub(crate) fn is_object(value: &serde_json::Value) -> (object: bool)
    ensures
        object == (json_view(*value) is Object),
{
    value.is_object()
}

/// `Value::is_null`.
#[verifier::external_body]
pub(crate) fn is_null(value: &serde_json::Value) -> (null: bool)
    ensures
        null == (json_view(*value) is Null),
{
    value.is_null()
}

/// `Value::as_u64`: the number, where the value is a non-negative integer.
#[verifier::external_body]
pub(crate) fn as_u64(value: &serde_json::Value) -> (number: Option<u64>)
    ensures
        number == json_view(*value).as_u64(),
{
    value.as_u64()
}

/// `Value::as_i64`: the number, where the value is an integer that fits.
#[verifier::external_body]
pub(crate) fn as_i64(value: &serde_json::Value) -> (number: Option<i64>)
    ensures
        number == json_view(*value).as_i64(),
{
    value.as_i64()
}

/// `Value::as_str`: the text, where the value is a string.
#[verifier::external_body]
pub(crate) fn as_str<'a>(value: &'a serde_json::Value) -> (text: Option<&'a str>)
    ensures
        match text {
            Some(s) => json_view(*value) == JsonView::String(s@),
            None => !(json_view(*value) is String),
        },
{
    value.as_str()
}

/// `Value::as_array`: the elements, where the value is an array.
#[verifier::external_body]
pub(crate) fn as_array<'a>(value: &'a serde_json::Value) -> (elements: Option<
    &'a Vec<serde_json::Value>,
>)
    ensures
        match elements {
            Some(items) => json_view(*value) == JsonView::Array(views_of(items@)),
            None => !(json_view(*value) is Array),
        },
{
    value.as_array()
}

/// `Value::clone`: a document with the same content.
pub assume_specification[ <serde_json::Value as Clone>::clone ](
    value: &serde_json::Value,
) -> (copy: serde_json::Value)
    ensures
        json_view(copy) == json_view(*value),
;

/// `Value::Null`.
#[verifier::external_body]
pub(crate) fn null() -> (value: serde_json::Value)
    ensures
        json_view(value) == JsonView::Null,
{
    serde_json::Value::Null
}

/// `Value::from` at `&str`: a string value with the same text.
#[verifier::external_body]
pub(crate) fn string(text: &str) -> (value: serde_json::Value)
    ensures
        json_view(value) == JsonView::String(text@),
{
    serde_json::Value::from(text)
}

/// `Value::from` at `u64`: an integer value.
#[verifier::external_body]
pub(crate) fn unsigned(number: u64) -> (value: serde_json::Value)
    ensures
        json_view(value) == JsonView::Number(JsonNumber::Integer(number as int)),
{
    serde_json::Value::from(number)
}

/// `Value::Array`: an array of the given elements, in order.
#[verifier::external_body]
pub(crate) fn array(items: Vec<serde_json::Value>) -> (value: serde_json::Value)
    ensures
        json_view(value) == JsonView::Array(views_of(items@)),
{
    serde_json::Value::Array(items)
}

/// `Value::from_iter` at key-value pairs: an object with one member per
/// entry. Entries with equal keys are left out by the precondition.
#[verifier::external_body]
pub(crate) fn object(entries: Vec<(String, serde_json::Value)>) -> (value: serde_json::Value)
    requires
        distinct_keys(entries_of(entries@)),
    ensures
        json_view(value) == JsonView::Object(object_of(entries_of(entries@))),
{
    entries.into_iter().collect::<serde_json::Value>()
}

} // verus!
