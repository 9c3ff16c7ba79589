//! The JSON documents that workers write, as `serde_json` reads them, and the
//! text of raw output bytes.
//!
//! Nothing in this file is proved. Each function below hands its arguments to
//! one function of `serde_json` or of the standard library, and its contract
//! is taken on trust. What those functions compute is too long to write out
//! here, so each result is given a name; the names mean nothing beyond "what
//! that function returns on these arguments".

use vstd::prelude::*;

verus! {

#[verifier::external_type_specification]
#[verifier::external_body]
pub struct ExValue(serde_json::Value);

#[verifier::external_type_specification]
#[verifier::external_body]
pub struct ExError(serde_json::Error);

/// What `serde_json::from_str` returns for a text, read as a
/// `serde_json::Value`: the document, or the error that tells why the text
/// is not one JSON document.
pub uninterp spec fn json_parse(text: Seq<char>) -> Result<serde_json::Value, serde_json::Error>;

/// What `serde_json::Value::get` returns for a string key: the member of
/// that name if the value is an object that has one.
pub uninterp spec fn json_member(value: serde_json::Value, key: Seq<char>) -> Option<
    serde_json::Value,
>;

/// What `serde_json::Value::as_str` returns: the text of the value if the
/// value is a JSON string.
pub uninterp spec fn json_string(value: serde_json::Value) -> Option<Seq<char>>;

/// What a `serde_json::Error` displays as.
pub uninterp spec fn json_error_text(error: serde_json::Error) -> Seq<char>;

/// What `String::from_utf8_lossy` makes of a sequence of bytes: their text,
/// in which each ill-formed part is replaced by U+FFFD.
pub uninterp spec fn lossy_text(bytes: Seq<u8>) -> Seq<char>;

/// Calls `serde_json::from_str` for a `serde_json::Value`. Trusted: the
/// result depends on the text alone. The parser stops with an error at a
/// nesting depth of 128, so it returns on every text.
#[verifier::external_body]
pub(crate) fn parse_json(text: &str) -> (parsed: Result<serde_json::Value, serde_json::Error>)
    ensures
        parsed == json_parse(text@),
{
    serde_json::from_str::<serde_json::Value>(text)
}

/// Calls `serde_json::Value::get` with a string key. Trusted: the result
/// depends on the value and the key alone.
#[verifier::external_body]
pub(crate) fn member<'a>(value: &'a serde_json::Value, key: &str) -> (found: Option<
    &'a serde_json::Value,
>)
    ensures
        match found {
            Some(inner) => json_member(*value, key@) == Some(*inner),
            None => json_member(*value, key@) is None,
        },
{
    value.get(key)
}

/// Calls `serde_json::Value::as_str`. Trusted: the result depends on the
/// value alone.
#[verifier::external_body]
pub(crate) fn string_of<'a>(value: &'a serde_json::Value) -> (text: Option<&'a str>)
    ensures
        match text {
            Some(inner) => json_string(*value) == Some(inner@),
            None => json_string(*value) is None,
        },
{
    value.as_str()
}

/// Renders a `serde_json::Error` through its `Display` impl. Trusted: the
/// text depends on the error alone.
#[verifier::external_body]
pub(crate) fn error_text(error: &serde_json::Error) -> (text: String)
    ensures
        text@ == json_error_text(*error),
{
    error.to_string()
}

/// Calls `String::from_utf8_lossy` and takes ownership of the text. Trusted:
/// the text depends on the bytes alone.
#[verifier::external_body]
pub(crate) fn text_of_bytes(bytes: &[u8]) -> (text: String)
    ensures
        text@ == lossy_text(bytes@),
{
    String::from_utf8_lossy(bytes).into_owned()
}

} // verus!
