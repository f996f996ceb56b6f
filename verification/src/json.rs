//! Decoding one complete JSON document into a target type.
//!
//! Parsing itself is done by serde_json. Each target type that the
//! [`crate::chunked_response::Assembler`] can decode into implements
//! [`JsonDecode`]; the outcome of one decode attempt distinguishes a complete
//! document from one that merely ran out of input, since only the latter can
//! become complete when more text arrives.

use vstd::prelude::*;

verus! {

/// serde_json's parsed representation of an arbitrary JSON document.
/// Declared so that values of it can flow through this crate; the crate
/// never looks inside one except through the accessor functions below.
#[verifier::external_type_specification]
#[verifier::external_body]
pub struct ExValue(serde_json::Value);

/// A hard decode failure: the text can never become a document of the
/// target type, however much more text is appended.
#[derive(Debug, Clone)]
pub struct DecodeError {
    message: String,
}

impl DecodeError {
    /// The parser's description of what was wrong with the text.
    pub fn message(&self) -> &str {
        self.message.as_str()
    }
}

/// The outcome of trying to read one text fragment as one complete document.
pub enum DecodeOutcome<T> {
    /// The text was one complete document; here is its value.
    Complete(T),
    /// The text ran out before the document's grammar was satisfied;
    /// appending more text may still complete it.
    Incomplete,
    /// The text can never become a complete document of the target type.
    Rejected(DecodeError),
}

/// What `serde_json::from_str::<serde_json::Value>` returns on `text`:
/// the parsed document when `text` is exactly one complete JSON document,
/// `None` otherwise.
pub uninterp spec fn json_value_of(text: Seq<char>) -> Option<serde_json::Value>;

/// Whether `serde_json::from_str::<serde_json::Value>` fails on `text` with
/// an error whose `is_eof` holds: the parser reached the end of the input
/// while the document's grammar still expected more.
pub uninterp spec fn json_value_eof(text: Seq<char>) -> bool;

/// What `serde_json::from_str::<HashMap<String, i32>>` returns on `text`,
/// as the map's mathematical contents, `None` on any failure.
pub uninterp spec fn json_int_map_of(text: Seq<char>) -> Option<Map<String, i32>>;

/// Whether `serde_json::from_str::<HashMap<String, i32>>` fails on `text`
/// with an end-of-input error.
pub uninterp spec fn json_int_map_eof(text: Seq<char>) -> bool;

/// What `serde_json::from_str::<HashMap<String, String>>` returns on `text`,
/// as the map's mathematical contents, `None` on any failure.
pub uninterp spec fn json_string_map_of(text: Seq<char>) -> Option<Map<String, String>>;

/// Whether `serde_json::from_str::<HashMap<String, String>>` fails on `text`
/// with an end-of-input error.
pub uninterp spec fn json_string_map_eof(text: Seq<char>) -> bool;

/// What `serde_json::Value::is_object` returns on a document: whether it is
/// a JSON object.
pub uninterp spec fn json_is_object(v: serde_json::Value) -> bool;

/// What `serde_json::Value::is_null` returns on a document: whether it is
/// JSON null.
pub uninterp spec fn json_is_null(v: serde_json::Value) -> bool;

/// What `serde_json::Value::get` returns on a document and a string key:
/// the member of a JSON object under that key, `None` when the key is
/// absent or the document is no object.
pub uninterp spec fn json_member(v: serde_json::Value, key: Seq<char>) -> Option<serde_json::Value>;

/// What `serde_json::Value::as_str` returns on a document: the text of a
/// JSON string value, `None` for any other kind of value.
pub uninterp spec fn json_string(v: serde_json::Value) -> Option<Seq<char>>;

/// What `serde_json::Value::as_u64` returns on a document: a JSON number
/// that is an unsigned integer fitting in 64 bits, `None` otherwise.
pub uninterp spec fn json_integer(v: serde_json::Value) -> Option<u64>;

/// What `serde_json::Value::as_array` returns on a document: the elements
/// of a JSON array, `None` for any other kind of value.
pub uninterp spec fn json_elements(v: serde_json::Value) -> Option<Seq<serde_json::Value>>;

/// Relies on `serde_json::Value::is_object`: whether the document is a JSON
/// object.
#[verifier::external_body]
pub(crate) fn value_is_object(v: &serde_json::Value) -> (r: bool)
    ensures
        r == json_is_object(*v),
{
    v.is_object()
}

/// Relies on `serde_json::Value::is_null`: whether the document is JSON null.
#[verifier::external_body]
pub(crate) fn value_is_null(v: &serde_json::Value) -> (r: bool)
    ensures
        r == json_is_null(*v),
{
    v.is_null()
}

/// Relies on `serde_json::Value::get`: the member of a JSON object under a
/// key, `None` when the key is absent or the value is no object.
#[verifier::external_body]
pub(crate) fn value_get<'a>(v: &'a serde_json::Value, key: &str) -> (r: Option<
    &'a serde_json::Value,
>)
    ensures
        (match r {
            Some(m) => json_member(*v, key@) == Some(*m),
            None => json_member(*v, key@) is None,
        }),
{
    v.get(key)
}

/// Relies on `serde_json::Value::as_str`: the text of a JSON string value.
#[verifier::external_body]
pub(crate) fn value_as_str<'a>(v: &'a serde_json::Value) -> (r: Option<&'a str>)
    ensures
        (match r {
            Some(s) => json_string(*v) == Some(s@),
            None => json_string(*v) is None,
        }),
{
    v.as_str()
}

/// Relies on `serde_json::Value::as_u64`: a JSON number value, when it is an
/// unsigned integer that fits in 64 bits.
#[verifier::external_body]
pub(crate) fn value_as_u64(v: &serde_json::Value) -> (r: Option<u64>)
    ensures
        r == json_integer(*v),
{
    v.as_u64()
}

/// Relies on `serde_json::Value::as_array`: the elements of a JSON array.
#[verifier::external_body]
pub(crate) fn value_as_array<'a>(v: &'a serde_json::Value) -> (r: Option<&'a Vec<serde_json::Value>>)
    ensures
        (match r {
            Some(arr) => json_elements(*v) == Some(arr@),
            None => json_elements(*v) is None,
        }),
{
    v.as_array()
}

/// Relies on `serde_json::Value`'s `Clone`: an equal copy of the document.
pub assume_specification[ <serde_json::Value as Clone>::clone ](v: &serde_json::Value) -> (r:
    serde_json::Value)
    ensures
        r == *v,
;

/// A type that can be read from the text of one complete JSON document.
pub trait JsonDecode: Sized {
    /// The mathematical value a decoded result stands for.
    type Model;

    /// The model of one decoded value.
    spec fn model(&self) -> Self::Model;

    /// The model of the document `text`, when `text` is exactly one complete
    /// document of this type; `None` when decoding `text` fails.
    spec fn json_of(text: Seq<char>) -> Option<Self::Model>;

    /// Whether decoding `text` fails only because the text ran out before
    /// the document was complete.
    spec fn json_eof(text: Seq<char>) -> bool;

    /// Try to read `text` as one complete document of this type. A value
    /// comes out exactly when the text is one complete document, and a
    /// failure is `Incomplete` exactly when the parser ran out of input.
    fn decode_json(text: &str) -> (r: DecodeOutcome<Self>)
        ensures
            (match r {
                DecodeOutcome::Complete(v) => Self::json_of(text@) is Some && Some(v.model())
                    == Self::json_of(text@),
                DecodeOutcome::Incomplete => Self::json_of(text@) is None && Self::json_eof(
                    text@,
                ),
                DecodeOutcome::Rejected(_) => Self::json_of(text@) is None && !Self::json_eof(
                    text@,
                ),
            }),
    ;
}

/// Relies on `serde_json::from_str::<serde_json::Value>` to parse one complete
/// JSON document, and on `serde_json::Error::is_eof` to tell a document that
/// merely ran out of input from one that can never parse.
#[verifier::external_body]
fn decode_json_value(text: &str) -> (r: DecodeOutcome<serde_json::Value>)
    ensures
        (match r {
            DecodeOutcome::Complete(v) => json_value_of(text@) == Some(v),
            DecodeOutcome::Incomplete => json_value_of(text@) is None && json_value_eof(text@),
            DecodeOutcome::Rejected(_) => json_value_of(text@) is None && !json_value_eof(text@),
        }),
{
    match serde_json::from_str::<serde_json::Value>(text) {
        Ok(v) => DecodeOutcome::Complete(v),
        Err(e) if e.is_eof() => DecodeOutcome::Incomplete,
        Err(e) => DecodeOutcome::Rejected(DecodeError { message: e.to_string() }),
    }
}

impl JsonDecode for serde_json::Value {
    type Model = serde_json::Value;

    open spec fn model(&self) -> serde_json::Value {
        *self
    }

    open spec fn json_of(text: Seq<char>) -> Option<serde_json::Value> {
        json_value_of(text)
    }

    open spec fn json_eof(text: Seq<char>) -> bool {
        json_value_eof(text)
    }

    fn decode_json(text: &str) -> (r: DecodeOutcome<Self>) {
        decode_json_value(text)
    }
}

/// Relies on `serde_json::from_str::<HashMap<String, i32>>` and
/// `serde_json::Error::is_eof`, as `decode_json_value` does.
#[verifier::external_body]
fn decode_json_int_map(text: &str) -> (r: DecodeOutcome<std::collections::HashMap<String, i32>>)
    ensures
        (match r {
            DecodeOutcome::Complete(v) => json_int_map_of(text@) == Some(v@),
            DecodeOutcome::Incomplete => json_int_map_of(text@) is None && json_int_map_eof(
                text@,
            ),
            DecodeOutcome::Rejected(_) => json_int_map_of(text@) is None && !json_int_map_eof(
                text@,
            ),
        }),
{
    match serde_json::from_str::<std::collections::HashMap<String, i32>>(text) {
        Ok(v) => DecodeOutcome::Complete(v),
        Err(e) if e.is_eof() => DecodeOutcome::Incomplete,
        Err(e) => DecodeOutcome::Rejected(DecodeError { message: e.to_string() }),
    }
}

impl JsonDecode for std::collections::HashMap<String, i32> {
    type Model = Map<String, i32>;

    open spec fn model(&self) -> Map<String, i32> {
        self.view()
    }

    open spec fn json_of(text: Seq<char>) -> Option<Map<String, i32>> {
        json_int_map_of(text)
    }

    open spec fn json_eof(text: Seq<char>) -> bool {
        json_int_map_eof(text)
    }

    fn decode_json(text: &str) -> (r: DecodeOutcome<Self>) {
        decode_json_int_map(text)
    }
}

/// Relies on `serde_json::from_str::<HashMap<String, String>>` and
/// `serde_json::Error::is_eof`, as `decode_json_value` does.
#[verifier::external_body]
fn decode_json_string_map(text: &str) -> (r: DecodeOutcome<
    std::collections::HashMap<String, String>,
>)
    ensures
        (match r {
            DecodeOutcome::Complete(v) => json_string_map_of(text@) == Some(v@),
            DecodeOutcome::Incomplete => json_string_map_of(text@) is None && json_string_map_eof(
                text@,
            ),
            DecodeOutcome::Rejected(_) => json_string_map_of(text@) is None
                && !json_string_map_eof(text@),
        }),
{
    match serde_json::from_str::<std::collections::HashMap<String, String>>(text) {
        Ok(v) => DecodeOutcome::Complete(v),
        Err(e) if e.is_eof() => DecodeOutcome::Incomplete,
        Err(e) => DecodeOutcome::Rejected(DecodeError { message: e.to_string() }),
    }
}

impl JsonDecode for std::collections::HashMap<String, String> {
    type Model = Map<String, String>;

    open spec fn model(&self) -> Map<String, String> {
        self.view()
    }

    open spec fn json_of(text: Seq<char>) -> Option<Map<String, String>> {
        json_string_map_of(text)
    }

    open spec fn json_eof(text: Seq<char>) -> bool {
        json_string_map_eof(text)
    }

    fn decode_json(text: &str) -> (r: DecodeOutcome<Self>) {
        decode_json_string_map(text)
    }
}

} // verus!
