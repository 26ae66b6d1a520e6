//! JSON documents as plain values, read with `serde_json`.

use vstd::prelude::*;

verus! {

/// A JSON document.
#[derive(Debug)]
pub enum Json {
    Null,
    Bool(bool),
    /// A number, as its decimal text.
    Number(String),
    Text(String),
    Array(Vec<Json>),
    /// The members of an object, in the order in which the reader holds them.
    Object(Vec<(String, Json)>),
}

/// `serde_json::Value`, carried from the reader to the conversion.
#[verifier::external_type_specification]
#[verifier::external_body]
pub struct ExValue(serde_json::Value);

/// `serde_json::Error`, the reason for which the reader refused a text.
#[verifier::external_type_specification]
#[verifier::external_body]
pub struct ExJsonError(serde_json::Error);

/// The document that a text denotes, or `None` where the text is not JSON.
pub uninterp spec fn json_document(text: Seq<char>) -> Option<Json>;

/// The document that a value of `serde_json` holds.
pub uninterp spec fn json_content(value: serde_json::Value) -> Json;

/// `serde_json::from_str` at `serde_json::Value`: the reader accepts the
/// text exactly when the text denotes a document, and the value it returns
/// holds that document.
#[verifier::external_body]
fn read_value(text: &str) -> (r: Result<serde_json::Value, serde_json::Error>)
    ensures
        match r {
            Ok(value) => json_document(text@) == Some(json_content(value)),
            Err(_) => json_document(text@) is None,
        },
{
    serde_json::from_str::<serde_json::Value>(text)
}

/// Tells the variants of `serde_json::Value` apart and moves what each one
/// holds into the same variant of `Json`; a number is moved as the text that
/// `serde_json::Number` displays.
#[verifier::external_body]
fn value_to_json(value: &serde_json::Value) -> (json: Json)
    ensures
        json == json_content(*value),
{
    match value {
        serde_json::Value::Null => Json::Null,
        serde_json::Value::Bool(b) => Json::Bool(*b),
        serde_json::Value::Number(n) => Json::Number(n.to_string()),
        serde_json::Value::String(s) => Json::Text(s.clone()),
        serde_json::Value::Array(a) => Json::Array(a.iter().map(value_to_json).collect()),
        serde_json::Value::Object(m) => Json::Object(
            m.iter().map(|(k, v)| (k.clone(), value_to_json(v))).collect(),
        ),
    }
}

/// Reads a JSON text. Returns `None` exactly when the text is not JSON.
pub fn parse_json(text: &str) -> (r: Option<Json>)
    ensures
        r == json_document(text@),
{
    match read_value(text) {
        Ok(value) => Some(value_to_json(&value)),
        Err(_) => None,
    }
}

impl Json {
    /// The items of an array; `None` for every other document.
    pub open spec fn items(self) -> Option<Seq<Json>> {
        match self {
            Json::Array(a) => Some(a@),
            _ => None,
        }
    }

    /// The characters of a string; `None` for every other document.
    pub open spec fn text(self) -> Option<Seq<char>> {
        match self {
            Json::Text(s) => Some(s@),
            _ => None,
        }
    }

    /// The item at a position of an array; `None` for every other document
    /// and for a position past the end.
    pub open spec fn item(self, index: int) -> Option<Json> {
        match self {
            Json::Array(a) => if 0 <= index < a@.len() {
                Some(a@[index])
            } else {
                None
            },
            _ => None,
        }
    }

    pub fn as_array(&self) -> (r: Option<&Vec<Json>>)
        ensures
            match r {
                Some(a) => self.items() == Some(a@),
                None => self.items() is None,
            },
    {
        match self {
            Json::Array(a) => Some(a),
            _ => None,
        }
    }

    pub fn as_str(&self) -> (r: Option<&str>)
        ensures
            match r {
                Some(s) => self.text() == Some(s@),
                None => self.text() is None,
            },
    {
        match self {
            Json::Text(s) => Some(s.as_str()),
            _ => None,
        }
    }

    pub fn get(&self, index: usize) -> (r: Option<&Json>)
        ensures
            match r {
                Some(j) => self.item(index as int) == Some(*j),
                None => self.item(index as int) is None,
            },
    {
        match self {
            Json::Array(a) => if index < a.len() {
                Some(&a[index])
            } else {
                None
            },
            _ => None,
        }
    }
}

} // verus!
