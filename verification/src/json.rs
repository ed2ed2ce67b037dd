//! JSON as the service speaks it: reading a reply, and quoting the texts
//! that go into a request.

use serde_json::Value;
use vstd::prelude::*;

verus! {

/// A JSON document. A number is kept where it is a whole number that fits
/// `u64`; of any other number only that it is one.
#[derive(Debug)]
pub enum Json {
    Null,
    Bool(bool),
    Number(Option<u64>),
    Text(String),
    List(Vec<Json>),
    Object(Vec<(String, Json)>),
}

/// `serde_json::Value`: a JSON document as `serde_json` holds it.
#[verifier::external_type_specification]
#[verifier::external_body]
pub struct ExValue(Value);

/// The document that a text is read as, if it is JSON at all.
pub uninterp spec fn parsed_json(text: Seq<char>) -> Option<Json>;

/// A text written as a JSON string: quoted and escaped.
pub uninterp spec fn json_string(text: Seq<char>) -> Seq<char>;

/// Turns a `serde_json::Value` into a [`Json`], variant by variant. A number
/// is given through `Number::as_u64`.
#[verifier::external_body]
fn lift(value: Value) -> Json {
    match value {
        Value::Null => Json::Null,
        Value::Bool(b) => Json::Bool(b),
        Value::Number(n) => Json::Number(n.as_u64()),
        Value::String(s) => Json::Text(s),
        Value::Array(items) => Json::List(items.into_iter().map(lift).collect()),
        Value::Object(fields) => Json::Object(fields.into_iter().map(|(k, v)| (k, lift(v))).collect()),
    }
}

/// `serde_json::from_str` to a `Value`: the same text is always read as the
/// same document, or is always refused.
#[verifier::external_body]
pub(crate) fn read_json(text: &str) -> (doc: Option<Json>)
    ensures
        doc == parsed_json(text@),
{
    serde_json::from_str::<Value>(text).ok().map(lift)
}

/// `serde_json::to_string` of a string: it writes into a buffer in memory and
/// so never fails, and the same text is always written the same way.
#[verifier::external_body]
pub(crate) fn write_json_string(text: &str) -> (quoted: Option<String>)
    ensures
        quoted is Some,
        quoted matches Some(q) ==> q@ == json_string(text@),
{
    serde_json::to_string(text).ok()
}

/// The value of the first field called `key` among `fields[from..]`.
pub open spec fn field_from(fields: Seq<(String, Json)>, key: Seq<char>, from: int) -> Option<Json>
    decreases fields.len() - from,
{
    if from < 0 || from >= fields.len() {
        None
    } else if fields[from].0@ == key {
        Some(fields[from].1)
    } else {
        field_from(fields, key, from + 1)
    }
}

impl Json {
    /// The value of the field `key`, where the document is an object that
    /// has one.
    pub open spec fn field(self, key: Seq<char>) -> Option<Json> {
        match self {
            Json::Object(fields) => field_from(fields@, key, 0),
            _ => None,
        }
    }

    /// The text, where the document is a string.
    pub open spec fn text(self) -> Option<Seq<char>> {
        match self {
            Json::Text(t) => Some(t@),
            _ => None,
        }
    }

    /// The number, where the document is a whole number that fits `u64`.
    pub open spec fn number(self) -> Option<u64> {
        match self {
            Json::Number(n) => n,
            _ => None,
        }
    }

    /// The truth value, where the document is `true` or `false`.
    pub open spec fn flag(self) -> Option<bool> {
        match self {
            Json::Bool(b) => Some(b),
            _ => None,
        }
    }

    /// Looks a field up by its name.
    pub fn get(&self, key: &str) -> (found: Option<&Json>)
        ensures
            found is Some <==> self.field(key@) is Some,
            found matches Some(j) ==> self.field(key@) == Some(*j),
    {
        match self {
            Json::Object(fields) => {
                let wanted = key.to_owned();
                let mut i: usize = 0;
                while i < fields.len()
                    invariant
                        i <= fields@.len(),
                        wanted@ == key@,
                        self.field(key@) == field_from(fields@, key@, 0),
                        field_from(fields@, key@, 0) == field_from(fields@, key@, i as int),
                    decreases fields@.len() - i,
                {
                    if fields[i].0 == wanted {
                        return Some(&fields[i].1);
                    }
                    i += 1;
                }
                None
            },
            _ => None,
        }
    }

    /// The text of a string.
    pub fn as_text(&self) -> (t: Option<&String>)
        ensures
            t is Some <==> self.text() is Some,
            t matches Some(s) ==> self.text() == Some(s@),
    {
        match self {
            Json::Text(t) => Some(t),
            _ => None,
        }
    }

    /// The value of a whole number.
    pub fn as_number(&self) -> (n: Option<u64>)
        ensures
            n == self.number(),
    {
        match self {
            Json::Number(n) => *n,
            _ => None,
        }
    }

    /// The value of `true` or `false`.
    pub fn as_flag(&self) -> (b: Option<bool>)
        ensures
            b == self.flag(),
    {
        match self {
            Json::Bool(b) => Some(*b),
            _ => None,
        }
    }
}

} // verus!
