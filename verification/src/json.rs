//! The library's own JSON representation.
//!
//! Wire frames arrive as text. Decoding that text is delegated to
//! `serde_json` behind one trusted boundary; everything the engine then
//! reads out of a decoded document — field lookups, string and integer
//! extraction, array indexing — is verified code over [`JsonValue`].
//!
//! A JSON number is kept as its decimal text, never as a float: the whole
//! pipeline forwards numeric fields as strings to avoid representation
//! drift.

use vstd::prelude::*;
use crate::strings::{spec_parse_i64, parse_i64, str_eq};

verus! {

/// One decoded JSON document.
pub enum JsonValue {
    /// JSON `null`.
    Null,
    /// A boolean.
    Bool(bool),
    /// A number, kept as the decimal text the decoder produced.
    Num(String),
    /// A string.
    Str(String),
    /// An array.
    Arr(Vec<JsonValue>),
    /// An object: fields as the decoder delivers them — sorted by key,
    /// duplicate keys collapsed.
    Obj(Vec<(String, JsonValue)>),
}

/// The JSON document a text denotes, or `None` when the text is not valid
/// JSON. The decoding is total and depends on the text alone.
pub uninterp spec fn json_of(s: Seq<char>) -> Option<JsonValue>;

/// Declares `serde_json::Value`, the decoder's own tree type, so that
/// the trusted boundary below may move it into [`JsonValue`].
#[verifier::external_type_specification]
#[verifier::external_body]
pub struct ExSerdeValue(serde_json::Value);

/// Relies on `serde_json::Value`: moves each variant of the decoded tree
/// into the library's own representation, keeping a number's decimal text.
#[verifier::external_body]
fn from_serde(v: serde_json::Value) -> JsonValue {
    match v {
        serde_json::Value::Null => JsonValue::Null,
        serde_json::Value::Bool(b) => JsonValue::Bool(b),
        serde_json::Value::Number(n) => JsonValue::Num(n.to_string()),
        serde_json::Value::String(s) => JsonValue::Str(s),
        serde_json::Value::Array(a) => JsonValue::Arr(a.into_iter().map(from_serde).collect()),
        serde_json::Value::Object(m) => JsonValue::Obj(
            m.into_iter().map(|p| (p.0, from_serde(p.1))).collect(),
        ),
    }
}

/// Relies on `serde_json::from_str`: decides whether the text is valid JSON
/// and, when it is, produces the decoded document. The outcome is a function
/// of the text alone, named by [`json_of`].
#[verifier::external_body]
pub fn parse_json(raw: &str) -> (r: Option<JsonValue>)
    ensures
        match r {
            Some(v) => json_of(raw@) == Some(v),
            None => json_of(raw@) is None,
        },
{
    serde_json::from_str::<serde_json::Value>(raw).ok().map(from_serde)
}

/// First field with the given name in an object's field list.
pub open spec fn spec_obj_get(ps: Seq<(String, JsonValue)>, name: Seq<char>) -> Option<JsonValue>
    decreases ps.len(),
{
    if ps.len() == 0 {
        None
    } else if ps[0].0@ == name {
        Some(ps[0].1)
    } else {
        spec_obj_get(ps.drop_first(), name)
    }
}

/// Field lookup: `None` unless the document is an object with that field.
pub open spec fn spec_get(v: JsonValue, name: Seq<char>) -> Option<JsonValue> {
    match v {
        JsonValue::Obj(ps) => spec_obj_get(ps@, name),
        _ => None,
    }
}

/// The string content of a document, when it is a string.
pub open spec fn spec_as_str(v: JsonValue) -> Option<Seq<char>> {
    match v {
        JsonValue::Str(t) => Some(t@),
        _ => None,
    }
}

/// The integer value of a document, when it is a number whose decimal text
/// denotes an `i64`.
pub open spec fn spec_as_i64(v: JsonValue) -> Option<i64> {
    match v {
        JsonValue::Num(t) => spec_parse_i64(t@),
        _ => None,
    }
}

/// The boolean value of a document, when it is a boolean.
pub open spec fn spec_as_bool(v: JsonValue) -> Option<bool> {
    match v {
        JsonValue::Bool(b) => Some(b),
        _ => None,
    }
}

/// The boolean value of a field of an object.
pub open spec fn spec_get_bool(v: JsonValue, name: Seq<char>) -> Option<bool> {
    match spec_get(v, name) {
        Some(f) => spec_as_bool(f),
        None => None,
    }
}

/// The string content of a field of an object.
pub open spec fn spec_get_str(v: JsonValue, name: Seq<char>) -> Option<Seq<char>> {
    match spec_get(v, name) {
        Some(f) => spec_as_str(f),
        None => None,
    }
}

/// The integer value of a field of an object.
pub open spec fn spec_get_i64(v: JsonValue, name: Seq<char>) -> Option<i64> {
    match spec_get(v, name) {
        Some(f) => spec_as_i64(f),
        None => None,
    }
}

impl JsonValue {
    /// Looks up a field of an object, first match in document order.
    pub fn get<'a>(&'a self, name: &str) -> (r: Option<&'a JsonValue>)
        ensures
            match r {
                Some(f) => spec_get(*self, name@) == Some(*f),
                None => spec_get(*self, name@) is None,
            },
    {
        match self {
            JsonValue::Obj(ps) => {
                let n = ps.len();
                proof {
                    assert(ps@.subrange(0, n as int) =~= ps@);
                    assert(spec_get(*self, name@) == spec_obj_get(ps@, name@));
                }
                let mut i: usize = 0;
                while i < n
                    invariant
                        n == ps@.len(),
                        i <= n,
                        spec_get(*self, name@) == spec_obj_get(ps@, name@),
                        spec_obj_get(ps@, name@) == spec_obj_get(
                            ps@.subrange(i as int, n as int),
                            name@,
                        ),
                    decreases n - i,
                {
                    proof {
                        assert(ps@.subrange(i as int, n as int).drop_first() =~= ps@.subrange(
                            i + 1,
                            n as int,
                        ));
                        assert(ps@.subrange(i as int, n as int)[0] == ps@[i as int]);
                    }
                    if str_eq(ps[i].0.as_str(), name) {
                        proof {
                            assert(spec_obj_get(ps@.subrange(i as int, n as int), name@) == Some(
                                ps@[i as int].1,
                            ));
                        }
                        return Some(&ps[i].1);
                    }
                    i += 1;
                }
                proof {
                    assert(ps@.subrange(n as int, n as int).len() == 0);
                }
                None
            },
            _ => None,
        }
    }

    /// The string content, when this document is a string.
    pub fn as_str<'a>(&'a self) -> (r: Option<&'a String>)
        ensures
            match r {
                Some(t) => spec_as_str(*self) == Some(t@),
                None => spec_as_str(*self) is None,
            },
    {
        match self {
            JsonValue::Str(t) => Some(t),
            _ => None,
        }
    }

    /// The boolean value, when this document is a boolean.
    pub fn as_bool(&self) -> (r: Option<bool>)
        ensures
            r == spec_as_bool(*self),
    {
        match self {
            JsonValue::Bool(b) => Some(*b),
            _ => None,
        }
    }

    /// The integer value, when this document is an integral number.
    pub fn as_i64(&self) -> (r: Option<i64>)
        ensures
            r == spec_as_i64(*self),
    {
        match self {
            JsonValue::Num(t) => parse_i64(t.as_str()),
            _ => None,
        }
    }

    /// The element list, when this document is an array.
    pub fn as_array<'a>(&'a self) -> (r: Option<&'a Vec<JsonValue>>)
        ensures
            match r {
                Some(xs) => *self matches JsonValue::Arr(v) && v@ == xs@,
                None => !(*self is Arr),
            },
    {
        match self {
            JsonValue::Arr(xs) => Some(xs),
            _ => None,
        }
    }

    /// The `i`-th element, when this document is an array of that length.
    pub fn idx<'a>(&'a self, i: usize) -> (r: Option<&'a JsonValue>)
        ensures
            match r {
                Some(f) => *self matches JsonValue::Arr(v) && i < v@.len() && v@[i as int] == *f,
                None => !(*self matches JsonValue::Arr(v) && i < v@.len()),
            },
    {
        match self {
            JsonValue::Arr(xs) => {
                if i < xs.len() {
                    Some(&xs[i])
                } else {
                    None
                }
            },
            _ => None,
        }
    }

    /// Whether this document is an object.
    pub fn is_object(&self) -> (r: bool)
        ensures
            r == (*self is Obj),
    {
        match self {
            JsonValue::Obj(_) => true,
            _ => false,
        }
    }
}

} // verus!
