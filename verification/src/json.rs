//! The calls into `serde_json`, with what the library takes on trust of them.
//!
//! A provider's answer is JSON text. The library parses it, looks members up
//! by name and takes a member's text, all through `serde_json`. None of that
//! is verified here. A parsed value is known by its compact text, the one that
//! `to_string` writes, and each call's result gets a name that stands for what
//! `serde_json` returns on the same arguments. The contracts of the rest of the
//! library are stated over those names.

use vstd::prelude::*;

verus! {

/// `serde_json::Value`: a parsed JSON value. Nothing is known of what is inside one.
#[verifier::external_type_specification]
#[verifier::external_body]
pub struct ExValue(serde_json::Value);

/// `serde_json::Error`: why a text could not be parsed.
#[verifier::external_type_specification]
#[verifier::external_body]
pub struct ExError(serde_json::Error);

/// The compact JSON text of `value`: what `to_string` returns for it.
pub uninterp spec fn text_of(value: serde_json::Value) -> Seq<char>;

/// The compact text of the value that `serde_json::from_str` reads out of
/// `text`, or `None` where it returns an error.
pub uninterp spec fn parsed(text: Seq<char>) -> Option<Seq<char>>;

/// What `serde_json::Value::is_object` returns for the value with the compact
/// text `json`.
pub uninterp spec fn holds_object(json: Seq<char>) -> bool;

/// The compact text of what `serde_json::Value::get` returns for the value
/// with the compact text `json` and the string index `name`, or `None` where
/// it returns `None`.
pub uninterp spec fn member(json: Seq<char>, name: Seq<char>) -> Option<Seq<char>>;

/// Calls `serde_json::from_str` to parse `text` as one JSON value.
///
/// Trusted: whether it succeeds, and the compact text of the value it gives,
/// depend on `text` alone and are what `parsed(text)` names.
#[verifier::external_body]
pub(crate) fn parse(text: &str) -> (result: Result<serde_json::Value, serde_json::Error>)
    ensures
        match result {
            Ok(value) => parsed(text@) == Some(text_of(value)),
            Err(_) => parsed(text@) is None,
        },
{
    serde_json::from_str::<serde_json::Value>(text)
}

/// Calls `serde_json::Value::is_object`.
///
/// Trusted: the answer depends on the compact text of `value` alone and is what
/// `holds_object` names.
#[verifier::external_body]
pub(crate) fn is_object(value: &serde_json::Value) -> (result: bool)
    ensures
        result == holds_object(text_of(*value)),
{
    value.is_object()
}

/// Calls `serde_json::Value::get` with a string index.
///
/// Trusted: whether a member is found, and the compact text of the member,
/// depend on the compact text of `value` and on `name` alone and are what
/// `member` names.
#[verifier::external_body]
pub(crate) fn get<'a>(value: &'a serde_json::Value, name: &str) -> (result: Option<
    &'a serde_json::Value,
>)
    ensures
        match result {
            Some(found) => member(text_of(*value), name@) == Some(text_of(*found)),
            None => member(text_of(*value), name@) is None,
        },
{
    value.get(name)
}

/// Calls `to_string` on a `serde_json::Value`, which writes it as compact JSON.
///
/// Trusted: the text is the one that `text_of(value)` names.
#[verifier::external_body]
pub(crate) fn to_text(value: &serde_json::Value) -> (result: String)
    ensures
        result@ == text_of(*value),
{
    value.to_string()
}

} // verus!
