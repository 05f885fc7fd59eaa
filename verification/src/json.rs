//! A JSON document model holding, as plain values, exactly what the
//! library's logic reads: unsigned integers, booleans, strings, arrays
//! and objects. Parsing the raw text is delegated to `serde_json`
//! behind a trusted wrapper; everything that inspects the document is
//! verified against this model.

use vstd::prelude::*;

verus! {

/// A parsed JSON value. Numbers that are not representable as `u64`
/// (negative or fractional) are kept only as `NonUInt`: the library
/// reads nothing from them but their presence.
#[derive(Debug)]
pub enum Json {
    Null,
    Bool(bool),
    UInt(u64),
    NonUInt,
    Text(String),
    Array(Vec<Json>),
    Object(Vec<(String, Json)>),
}

/// The value under `key` in an object's field list: the first binding
/// of the key, if any.
pub open spec fn obj_get(fields: Seq<(String, Json)>, key: Seq<char>) -> Option<Json>
    decreases fields.len(),
{
    if fields.len() == 0 {
        None
    } else if fields.first().0@ == key {
        Some(fields.first().1)
    } else {
        obj_get(fields.drop_first(), key)
    }
}

/// The value under `key`, when the document is an object holding it.
pub open spec fn spec_get(doc: Json, key: Seq<char>) -> Option<Json> {
    match doc {
        Json::Object(fields) => obj_get(fields@, key),
        _ => None,
    }
}

/// The element at index `i`, when the document is a long enough array.
pub open spec fn spec_at(doc: Json, i: int) -> Option<Json> {
    match doc {
        Json::Array(items) => if 0 <= i < items@.len() {
            Some(items@[i])
        } else {
            None
        },
        _ => None,
    }
}

/// The document's value as an unsigned integer, if it is one.
pub open spec fn spec_as_uint(doc: Json) -> Option<u64> {
    match doc {
        Json::UInt(n) => Some(n),
        _ => None,
    }
}

/// The document's value as a boolean, if it is one.
pub open spec fn spec_as_bool(doc: Json) -> Option<bool> {
    match doc {
        Json::Bool(b) => Some(b),
        _ => None,
    }
}

/// The document's value as text, if it is a string.
pub open spec fn spec_as_text(doc: Json) -> Option<Seq<char>> {
    match doc {
        Json::Text(s) => Some(s@),
        _ => None,
    }
}

impl Json {
    /// Looks up a field of an object document.
    pub fn field<'a>(&'a self, key: &str) -> (r: Option<&'a Json>)
        ensures
            match r {
                Some(v) => spec_get(*self, key@) == Some(*v),
                None => spec_get(*self, key@) is None,
            },
    {
        match self {
            Json::Object(fields) => {
                let n = fields.len();
                proof {
                    assert(spec_get(*self, key@) == obj_get(fields@, key@));
                    assert(fields@.skip(0) =~= fields@);
                }
                for i in 0..n
                    invariant
                        n == fields@.len(),
                        spec_get(*self, key@) == obj_get(fields@.skip(i as int), key@),
                {
                    let entry = &fields[i];
                    proof {
                        assert(fields@.skip(i as int).first() == fields@[i as int]);
                        assert(fields@.skip(i as int).drop_first() =~= fields@.skip(i + 1));
                    }
                    if crate::text::str_eq(entry.0.as_str(), key) {
                        proof {
                            assert(fields@.skip(i as int).len() > 0);
                            assert(fields@.skip(i as int).first().0@ == key@);
                            assert(obj_get(fields@.skip(i as int), key@) == Some(
                                fields@[i as int].1,
                            ));
                            assert(entry.1 == fields@[i as int].1);
                        }
                        return Some(&entry.1);
                    }
                }
                proof {
                    assert(fields@.skip(n as int) =~= Seq::<(String, Json)>::empty());
                }
                None
            },
            _ => None,
        }
    }

    /// The element at index `i` of an array document.
    pub fn at<'a>(&'a self, i: usize) -> (r: Option<&'a Json>)
        ensures
            match r {
                Some(v) => spec_at(*self, i as int) == Some(*v),
                None => spec_at(*self, i as int) is None,
            },
    {
        match self {
            Json::Array(items) => if i < items.len() {
                Some(&items[i])
            } else {
                None
            },
            _ => None,
        }
    }

    /// The document's value as an unsigned integer.
    pub fn as_uint(&self) -> (r: Option<u64>)
        ensures
            r == spec_as_uint(*self),
    {
        match self {
            Json::UInt(n) => Some(*n),
            _ => None,
        }
    }

    /// The document's value as a boolean.
    pub fn as_bool(&self) -> (r: Option<bool>)
        ensures
            r == spec_as_bool(*self),
    {
        match self {
            Json::Bool(b) => Some(*b),
            _ => None,
        }
    }

    /// The document's value as text.
    pub fn text<'a>(&'a self) -> (r: Option<&'a String>)
        ensures
            match r {
                Some(s) => spec_as_text(*self) == Some(s@),
                None => spec_as_text(*self) is None,
            },
    {
        match self {
            Json::Text(s) => Some(s),
            _ => None,
        }
    }
}

/// What parsing a text as JSON yields: `None` where the text is not a
/// JSON document. Parsing is a fixed function of the text alone
/// (`serde_json` builds objects on an ordered map, so even the field
/// order of the result is determined by the text).
pub uninterp spec fn json_of(text: Seq<char>) -> Option<Json>;

#[verifier::external_type_specification]
#[verifier::external_body]
pub struct ExJsonValue(serde_json::Value);

/// Relies on the shape of `serde_json::Value`: each variant is carried
/// over one-to-one into the library's model, numbers through
/// `Number::as_u64`.
#[verifier::external_body]
fn from_value(v: serde_json::Value) -> Json {
    match v {
        serde_json::Value::Null => Json::Null,
        serde_json::Value::Bool(b) => Json::Bool(b),
        serde_json::Value::Number(n) => match n.as_u64() {
            Some(u) => Json::UInt(u),
            None => Json::NonUInt,
        },
        serde_json::Value::String(s) => Json::Text(s),
        serde_json::Value::Array(items) => Json::Array(items.into_iter().map(from_value).collect()),
        serde_json::Value::Object(fields) => Json::Object(
            fields.into_iter().map(|(k, fv)| (k, from_value(fv))).collect(),
        ),
    }
}

/// Relies on `serde_json::from_str::<Value>`: deterministic in the
/// text, `Err` exactly where the text is not a JSON document.
#[verifier::external_body]
pub fn parse_json(text: &str) -> (r: Option<Json>)
    ensures
        r == json_of(text@),
{
    match serde_json::from_str::<serde_json::Value>(text) {
        Ok(v) => Some(from_value(v)),
        Err(_) => None,
    }
}

} // verus!
