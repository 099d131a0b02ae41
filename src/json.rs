//! The boundary to `serde_json`: parsing reply bodies and reading the
//! members of a parsed reply as plain values.

use vstd::prelude::*;

verus! {

#[verifier::external_type_specification]
#[verifier::external_body]
pub struct ExJsonValue(serde_json::Value);

#[verifier::external_type_specification]
#[verifier::external_body]
pub struct ExJsonError(serde_json::Error);

/// What one member of a JSON object holds, as far as reply handling reads it.
#[derive(Clone, Debug, PartialEq, Eq)]
pub enum Field {
    /// The key is not there (or the container is not an object).
    Missing,
    /// The key is there with `null`.
    Null,
    /// The key holds a string.
    Text(String),
    /// The key holds a boolean.
    Flag(bool),
    /// The key holds a number, an array or an object.
    Other,
}

impl Field {
    /// A field is present when its key exists, whatever it holds.
    pub open spec fn is_present(self) -> bool {
        !(self is Missing)
    }

    /// The string a field holds, if it holds one.
    pub open spec fn text(self) -> Option<Seq<char>> {
        match self {
            Field::Text(s) => Some(s@),
            _ => None,
        }
    }

    /// The boolean a field holds, if it holds one.
    pub open spec fn flag(self) -> Option<bool> {
        match self {
            Field::Flag(b) => Some(b),
            _ => None,
        }
    }

    pub fn is_missing(&self) -> (r: bool)
        ensures
            r == !self.is_present(),
    {
        match self {
            Field::Missing => true,
            _ => false,
        }
    }
}

/// Whether `serde_json::from_str` accepts the text as a JSON value.
pub uninterp spec fn json_parses(s: Seq<char>) -> bool;

/// Relies on `serde_json::from_str`: whether it accepts the text depends on
/// the text alone.
#[verifier::external_body]
pub(crate) fn parse_json(s: &str) -> (r: Result<serde_json::Value, serde_json::Error>)
    ensures
        r.is_ok() == json_parses(s@),
{
    serde_json::from_str(s)
}

/// The member under `key` of the JSON value that `body` parses to
/// (`Missing` when the body does not parse or is not an object).
pub uninterp spec fn member_of(body: Seq<char>, key: Seq<char>) -> Field;

/// The member `inner` of the member `outer` of the JSON value that `body`
/// parses to (`Missing` when any step is absent).
pub uninterp spec fn nested_member_of(body: Seq<char>, outer: Seq<char>, inner: Seq<char>) -> Field;

/// Relies on `serde_json::from_str` and `serde_json::Value::get` with a `&str`
/// key; the member found depends on the text and the key alone.
#[verifier::external_body]
pub(crate) fn body_member(body: &str, key: &str) -> (r: Field)
    ensures
        r == member_of(body@, key@),
{
    let parsed: Result<serde_json::Value, serde_json::Error> = serde_json::from_str(body);
    let found = match &parsed {
        Ok(v) => v.get(key),
        Err(_) => None,
    };
    match found {
        None => Field::Missing,
        Some(serde_json::Value::Null) => Field::Null,
        Some(serde_json::Value::String(t)) => Field::Text(t.clone()),
        Some(serde_json::Value::Bool(b)) => Field::Flag(*b),
        Some(_) => Field::Other,
    }
}

/// Relies on `serde_json::from_str` and `serde_json::Value::get` with `&str`
/// keys, applied twice; the member found depends on the text and keys alone.
#[verifier::external_body]
pub(crate) fn body_nested_member(body: &str, outer: &str, inner: &str) -> (r: Field)
    ensures
        r == nested_member_of(body@, outer@, inner@),
{
    let parsed: Result<serde_json::Value, serde_json::Error> = serde_json::from_str(body);
    let found = match &parsed {
        Ok(v) => match v.get(outer) {
            Some(o) => o.get(inner),
            None => None,
        },
        Err(_) => None,
    };
    match found {
        None => Field::Missing,
        Some(serde_json::Value::Null) => Field::Null,
        Some(serde_json::Value::String(t)) => Field::Text(t.clone()),
        Some(serde_json::Value::Bool(b)) => Field::Flag(*b),
        Some(_) => Field::Other,
    }
}

/// Relies on `serde_json::Map::insert` and `serde_json::Value::String`: an
/// object with the single member `key` holding `text`.
#[verifier::external_body]
pub(crate) fn single_member_object(key: String, text: String) -> (r: serde_json::Value) {
    let mut map = serde_json::Map::new();
    map.insert(key, serde_json::Value::String(text));
    serde_json::Value::Object(map)
}

} // verus!
