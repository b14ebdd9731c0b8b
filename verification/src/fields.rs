//! Reading the members of a JSON object by name.
//!
//! A member that is absent and a member that is `null` both count as missing
//! wherever a member is optional.

use crate::json::{as_i64, as_str, as_u64, get, is_null, json_view, JsonView};
use vstd::prelude::*;
use vstd::string::StringExecFns;

verus! {

/// The value of an optional text member. The outer `None` says that the
/// member is there and is not a string.
pub open spec fn optional_text(doc: JsonView, key: Seq<char>) -> Option<Option<Seq<char>>> {
    match doc.field(key) {
        None => Some(None),
        Some(JsonView::String(text)) => Some(Some(text)),
        Some(_) => None,
    }
}

/// The value of a text member that must be there.
pub open spec fn required_text(doc: JsonView, key: Seq<char>) -> Option<Seq<char>> {
    match doc.member(key) {
        Some(JsonView::String(text)) => Some(text),
        _ => None,
    }
}

/// The value of a text member that is empty where the member is absent. A
/// `null` member is not accepted.
pub open spec fn defaulted_text(doc: JsonView, key: Seq<char>) -> Option<Seq<char>> {
    match doc.member(key) {
        None => Some(Seq::empty()),
        Some(JsonView::String(text)) => Some(text),
        Some(_) => None,
    }
}

/// The value of an optional unsigned member. The outer `None` says that the
/// member is there and is not an unsigned 64-bit integer.
pub open spec fn optional_u64(doc: JsonView, key: Seq<char>) -> Option<Option<u64>> {
    match doc.field(key) {
        None => Some(None),
        Some(number) => match number.as_u64() {
            Some(n) => Some(Some(n)),
            None => None,
        },
    }
}

/// The value of a signed member that must be there.
pub open spec fn required_i64(doc: JsonView, key: Seq<char>) -> Option<i64> {
    match doc.member(key) {
        Some(number) => number.as_i64(),
        None => None,
    }
}

/// The view of an optional document.
pub open spec fn document_view(doc: Option<serde_json::Value>) -> Option<JsonView> {
    match doc {
        Some(d) => Some(json_view(d)),
        None => None,
    }
}

/// The view of an optional text.
pub open spec fn text_view(text: Option<String>) -> Option<Seq<char>> {
    match text {
        Some(t) => Some(t@),
        None => None,
    }
}

/// Looks up an optional member.
pub fn field<'a>(doc: &'a serde_json::Value, key: &str) -> (found: Option<&'a serde_json::Value>)
    ensures
        match found {
            Some(member) => json_view(*doc).field(key@) == Some(json_view(*member)),
            None => json_view(*doc).field(key@) is None,
        },
{
    match get(doc, key) {
        None => None,
        Some(member) => if is_null(member) {
            None
        } else {
            Some(member)
        },
    }
}

/// Reads an optional text member.
pub fn read_optional_text(doc: &serde_json::Value, key: &str) -> (read: Option<Option<String>>)
    ensures
        match read {
            Some(text) => optional_text(json_view(*doc), key@) == Some(text_view(text)),
            None => optional_text(json_view(*doc), key@) is None,
        },
{
    match field(doc, key) {
        None => Some(None),
        Some(member) => match as_str(member) {
            Some(text) => Some(Some(String::from_str(text))),
            None => None,
        },
    }
}

/// Reads a text member that must be there.
pub fn read_required_text(doc: &serde_json::Value, key: &str) -> (read: Option<String>)
    ensures
        text_view(read) == required_text(json_view(*doc), key@),
{
    match get(doc, key) {
        None => None,
        Some(member) => match as_str(member) {
            Some(text) => Some(String::from_str(text)),
            None => None,
        },
    }
}

/// Reads a text member that defaults to the empty text.
pub fn read_defaulted_text(doc: &serde_json::Value, key: &str) -> (read: Option<String>)
    ensures
        text_view(read) == defaulted_text(json_view(*doc), key@),
{
    match get(doc, key) {
        None => Some(String::new()),
        Some(member) => match as_str(member) {
            Some(text) => Some(String::from_str(text)),
            None => None,
        },
    }
}

/// Reads an optional unsigned member.
pub fn read_optional_u64(doc: &serde_json::Value, key: &str) -> (read: Option<Option<u64>>)
    ensures
        read == optional_u64(json_view(*doc), key@),
{
    match field(doc, key) {
        None => Some(None),
        Some(member) => match as_u64(member) {
            Some(n) => Some(Some(n)),
            None => None,
        },
    }
}

/// Reads a signed member that must be there.
pub fn read_required_i64(doc: &serde_json::Value, key: &str) -> (read: Option<i64>)
    ensures
        read == required_i64(json_view(*doc), key@),
{
    match get(doc, key) {
        None => None,
        Some(member) => as_i64(member),
    }
}

} // verus!
