//! A JSON document as plain values, and the bridge from `serde_json`
//! that produces it.
//!
//! The registry answers with JSON text. `serde_json` is trusted for the
//! JSON *syntax* only: it parses the text into a tree, which is rebuilt
//! here as the crate's own [`JsonValue`]. Everything about the *schema*
//! of that tree is checked by verified code downstream.

use vstd::prelude::*;

use crate::text::str_equal;

verus! {

/// One JSON value, as plain values the verified code can read.
///
/// Numbers are carried as their decimal rendering: the registry schema
/// read by this crate never looks inside a number.
#[derive(Debug, PartialEq, Eq)]
pub enum JsonValue {
    Null,
    Bool(bool),
    Num(String),
    Str(String),
    Arr(Vec<JsonValue>),
    Obj(Vec<(String, JsonValue)>),
}

/// Declares `serde_json::value::Value` so the bridge below can take
/// it; the value stays opaque to the verifier.
#[verifier::external_type_specification]
#[verifier::external_body]
pub struct ExSerdeValue(serde_json::Value);

/// Relies on `serde_json::value::Value` pattern matching and
/// `serde_json::Map::iter`: rebuilds a parsed document as the crate's
/// own [`JsonValue`], variant for variant, in the map's own entry order
/// (object keys are unique).
#[verifier::external_body]
fn value_to_json(v: &serde_json::Value) -> JsonValue {
    match v {
        serde_json::Value::Null => JsonValue::Null,
        serde_json::Value::Bool(b) => JsonValue::Bool(*b),
        serde_json::Value::Number(n) => JsonValue::Num(n.to_string()),
        serde_json::Value::String(s) => JsonValue::Str(s.clone()),
        serde_json::Value::Array(a) => JsonValue::Arr(a.iter().map(value_to_json).collect()),
        serde_json::Value::Object(o) => JsonValue::Obj(
            o.iter().map(|(k, x)| (k.clone(), value_to_json(x))).collect(),
        ),
    }
}

/// The document a text parses to, if it is well-formed JSON, as
/// `serde_json` reads it and the bridge above rebuilds it. Parsing is
/// a function of the text alone.
pub uninterp spec fn json_doc_of(text: Seq<char>) -> Option<JsonValue>;

/// Relies on `serde_json::from_str::<Value>`: `Ok` exactly when `text`
/// is well-formed JSON, `Err` with the parser's message otherwise. The
/// schema of the returned tree is checked by verified callers.
#[verifier::external_body]
pub(crate) fn parse_json(text: &str) -> (r: Result<JsonValue, String>)
    ensures
        match json_doc_of(text@) {
            Some(doc) => r matches Ok(d) && d == doc,
            None => r is Err,
        },
{
    match serde_json::from_str::<serde_json::Value>(text) {
        Ok(v) => Ok(value_to_json(&v)),
        Err(e) => Err(e.to_string()),
    }
}

/// First value under `key` in an object's entry list, if any.
pub open spec fn spec_obj_get(entries: Seq<(String, JsonValue)>, key: Seq<char>) -> Option<
    JsonValue,
>
    decreases entries.len(),
{
    if entries.len() == 0 {
        None
    } else if entries[0].0@ == key {
        Some(entries[0].1)
    } else {
        spec_obj_get(entries.drop_first(), key)
    }
}

impl JsonValue {
    /// Looks a field up in an object; `None` for a missing field or a
    /// non-object value.
    pub fn get<'a>(&'a self, key: &str) -> (r: Option<&'a JsonValue>)
        ensures
            match *self {
                JsonValue::Obj(entries) => match spec_obj_get(entries@, key@) {
                    Some(v) => r matches Some(x) && *x == v,
                    None => r is None,
                },
                _ => r is None,
            },
    {
        match self {
            JsonValue::Obj(entries) => {
                let n = entries.len();
                assert(entries@.skip(0) =~= entries@);
                for i in 0..n
                    invariant
                        *self == JsonValue::Obj(*entries),
                        n == entries@.len(),
                        spec_obj_get(entries@, key@) == spec_obj_get(
                            entries@.skip(i as int),
                            key@,
                        ),
                {
                    if str_equal(entries[i].0.as_str(), key) {
                        proof {
                            assert(entries@.skip(i as int)[0] == entries@[i as int]);
                            assert(spec_obj_get(entries@.skip(i as int), key@) == Some(
                                entries@[i as int].1,
                            ));
                        }
                        return Some(&entries[i].1);
                    }
                    proof {
                        assert(entries@.skip(i as int).drop_first() =~= entries@.skip(
                            i as int + 1,
                        ));
                    }
                }
                None
            },
            _ => None,
        }
    }
}

} // verus!
