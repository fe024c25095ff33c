//! A plain model of a JSON document, the shape in which frames reach and
//! leave the codec. The transport hands the client a tree of these values;
//! every rule about what a frame means is stated and checked over this model.
//!
//! Numbers are kept as unsigned integers: the protocol's frames carry only
//! ids, counters and intervals, and anything else is treated as malformed.

use vstd::prelude::*;

use crate::strutil::str_eq;

verus! {

/// One JSON value.
#[derive(Debug, PartialEq)]
pub enum JsonValue {
    Null,
    Bool(bool),
    Num(u64),
    Str(String),
    Arr(Vec<JsonValue>),
    Obj(Vec<(String, JsonValue)>),
}

/// The value of the first field named `key` at or after position `i`.
pub open spec fn field_lookup_from(
    fields: Seq<(String, JsonValue)>,
    key: Seq<char>,
    i: int,
) -> Option<JsonValue>
    decreases fields.len() - i,
{
    if i < 0 || i >= fields.len() {
        None
    } else if fields[i].0@ == key {
        Some(fields[i].1)
    } else {
        field_lookup_from(fields, key, i + 1)
    }
}

/// The value of the first field named `key` of a JSON object, if any.
pub open spec fn field_lookup(fields: Seq<(String, JsonValue)>, key: Seq<char>) -> Option<
    JsonValue,
> {
    field_lookup_from(fields, key, 0)
}

/// The fields of `v`, if `v` is a JSON object.
pub open spec fn obj_fields(v: JsonValue) -> Option<Seq<(String, JsonValue)>> {
    match v {
        JsonValue::Obj(fields) => Some(fields@),
        _ => None,
    }
}

/// The number held by field `key`, if present and numeric.
pub open spec fn num_field(fields: Seq<(String, JsonValue)>, key: Seq<char>) -> Option<u64> {
    match field_lookup(fields, key) {
        Some(JsonValue::Num(n)) => Some(n),
        _ => None,
    }
}

/// The string held by field `key`, if present and a string.
pub open spec fn str_field(fields: Seq<(String, JsonValue)>, key: Seq<char>) -> Option<String> {
    match field_lookup(fields, key) {
        Some(JsonValue::Str(s)) => Some(s),
        _ => None,
    }
}

/// Finds the first field named `key` of a JSON object.
pub fn lookup_field<'a>(fields: &'a Vec<(String, JsonValue)>, key: &str) -> (r: Option<
    &'a JsonValue,
>)
    ensures
        match r {
            Some(v) => field_lookup(fields@, key@) == Some(*v),
            None => field_lookup(fields@, key@) is None,
        },
{
    let mut i: usize = 0;
    while i < fields.len()
        invariant
            i <= fields@.len(),
            field_lookup(fields@, key@) == field_lookup_from(fields@, key@, i as int),
        decreases fields@.len() - i,
    {
        if str_eq(fields[i].0.as_str(), key) {
            return Some(&fields[i].1);
        }
        i += 1;
    }
    None
}

} // verus!
