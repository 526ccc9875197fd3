//! Members of a JSON document, read by name.
//!
//! The documents are parsed by `serde_json`. What it reads is a function of
//! the document's text and the member's name alone, and the contracts here
//! give each reading a name of its own; nothing more is claimed of them.

use serde_json::Value;
use vstd::prelude::*;

use crate::text::optional_text;
use crate::text::optional_texts;

verus! {

/// Whether the document parses as a JSON object that has a member `name`.
pub uninterp spec fn json_has(document: Seq<char>, name: Seq<char>) -> bool;

/// The text of the member `name`, where the document parses as a JSON
/// object and that member is a string.
pub uninterp spec fn json_text(document: Seq<char>, name: Seq<char>) -> Option<Seq<char>>;

/// The number of the member `name`, where the document parses as a JSON
/// object and that member is an integer from 0 to `u64::MAX`.
pub uninterp spec fn json_number(document: Seq<char>, name: Seq<char>) -> Option<u64>;

/// The texts of the member `name`, where the document parses as a JSON
/// object and that member is an array of strings.
pub uninterp spec fn json_texts(document: Seq<char>, name: Seq<char>) -> Option<Seq<Seq<char>>>;

/// `serde_json::from_str` to a `Value`, then `Value::get` with the name:
/// whether there is such a member.
#[verifier::external_body]
pub(crate) fn has_member(document: &str, name: &str) -> (r: bool)
    ensures
        r == json_has(document@, name@),
{
    match serde_json::from_str::<Value>(document) {
        Ok(value) => value.get(name).is_some(),
        Err(_) => false,
    }
}

/// `serde_json::from_str` to a `Value`, then `Value::get` with the name and
/// `Value::as_str`: the member's text, copied.
#[verifier::external_body]
pub(crate) fn text_member(document: &str, name: &str) -> (r: Option<String>)
    ensures
        optional_text(r) == json_text(document@, name@),
{
    serde_json::from_str::<Value>(document).ok()?.get(name)?.as_str().map(String::from)
}

/// `serde_json::from_str` to a `Value`, then `Value::get` with the name and
/// `Value::as_u64`.
#[verifier::external_body]
pub(crate) fn number_member(document: &str, name: &str) -> (r: Option<u64>)
    ensures
        r == json_number(document@, name@),
{
    serde_json::from_str::<Value>(document).ok()?.get(name)?.as_u64()
}

/// `serde_json::from_str` to a `Value`, then `Value::get` with the name,
/// `Value::as_array`, and `Value::as_str` on each item: the items' texts,
/// copied; none where one item is no string.
#[verifier::external_body]
pub(crate) fn texts_member(document: &str, name: &str) -> (r: Option<Vec<String>>)
    ensures
        optional_texts(r) == json_texts(document@, name@),
{
    let value = serde_json::from_str::<Value>(document).ok()?;
    let items = value.get(name)?.as_array()?;
    items.iter().map(|item| item.as_str().map(String::from)).collect()
}

} // verus!
