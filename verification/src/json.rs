//! A mathematical model of JSON documents, the trusted boundary around the
//! outside JSON parser, and verified field accessors built on it.
//!
//! Parsing itself is the outside crate's work; its result is named by the
//! uninterpreted `json_of`, and each accessor's contract says what it
//! observes of the modelled document.

use vstd::prelude::*;

verus! {

/// The model of one JSON node. Integer values representable in 64 signed
/// bits are modelled exactly; every other number (fractional or out of
/// range) is `NumOther`, which no field of the card schema accepts. An
/// object is modelled as a map from key to value.
pub enum JVal {
    Null,
    Bool(bool),
    Int(int),
    NumOther,
    Str(Seq<char>),
    Arr(Seq<JVal>),
    Obj(Map<Seq<char>, JVal>),
}

#[verifier::external_type_specification]
#[verifier::external_body]
pub struct ExValue(serde_json::Value);

/// The model of a parsed JSON node.
pub uninterp spec fn jval_of(v: serde_json::Value) -> JVal;

/// The document a byte sequence parses to, or `None` where the outside
/// parser rejects it.
pub uninterp spec fn json_of(bytes: Seq<u8>) -> Option<JVal>;

/// Relies on serde_json::from_slice::<serde_json::Value>: parses the bytes
/// as one JSON document; parsing is a function of the bytes alone.
#[verifier::external_body]
pub(crate) fn parse_value(bytes: &[u8]) -> (r: Option<serde_json::Value>)
    ensures
        r matches Some(v) ==> json_of(bytes@) == Some(jval_of(v)),
        r is None ==> json_of(bytes@) is None,
{
    serde_json::from_slice::<serde_json::Value>(bytes).ok()
}

/// Relies on serde_json::Value::get with a string index: looks the key up
/// when the value is an object, and finds nothing otherwise.
#[verifier::external_body]
pub(crate) fn jv_get<'a>(v: &'a serde_json::Value, key: &str) -> (r: Option<&'a serde_json::Value>)
    ensures
        match jval_of(*v) {
            JVal::Obj(m) => match r {
                Some(f) => m.contains_key(key@) && jval_of(*f) == m[key@],
                None => !m.contains_key(key@),
            },
            _ => r is None,
        },
{
    v.get(key)
}

/// Relies on serde_json::Value::as_i64: the integer when the value is a
/// number representable in 64 signed bits, nothing otherwise.
#[verifier::external_body]
pub(crate) fn jv_as_i64(v: &serde_json::Value) -> (r: Option<i64>)
    ensures
        match r {
            Some(i) => jval_of(*v) == JVal::Int(i as int),
            None => !(jval_of(*v) is Int),
        },
{
    v.as_i64()
}

/// Relies on serde_json::Value::as_str: the string when the value is a
/// string, nothing otherwise.
#[verifier::external_body]
pub(crate) fn jv_as_str<'a>(v: &'a serde_json::Value) -> (r: Option<&'a str>)
    ensures
        match r {
            Some(s) => jval_of(*v) == JVal::Str(s@),
            None => !(jval_of(*v) is Str),
        },
{
    v.as_str()
}

/// Relies on serde_json::Value::as_array: the elements when the value is an
/// array, nothing otherwise.
#[verifier::external_body]
pub(crate) fn jv_as_array<'a>(v: &'a serde_json::Value) -> (r: Option<&'a Vec<serde_json::Value>>)
    ensures
        match r {
            Some(a) => jval_of(*v) matches JVal::Arr(s) && a@.len() == s.len() && (forall|i: int|
                0 <= i < s.len() ==> jval_of(#[trigger] a@[i]) == s[i]),
            None => !(jval_of(*v) is Arr),
        },
{
    v.as_array()
}

/// Relies on serde_json::Value::is_null: whether the value is JSON null.
#[verifier::external_body]
pub(crate) fn jv_is_null(v: &serde_json::Value) -> (r: bool)
    ensures
        r == (jval_of(*v) is Null),
{
    v.is_null()
}

/// The field a key holds in an object, if the node is an object and has it.
pub open spec fn obj_field(j: JVal, key: Seq<char>) -> Option<JVal> {
    match j {
        JVal::Obj(m) => if m.contains_key(key) {
            Some(m[key])
        } else {
            None
        },
        _ => None,
    }
}

/// The integer a key holds, if the field is present and an integer.
pub open spec fn int_field(j: JVal, key: Seq<char>) -> Option<int> {
    match obj_field(j, key) {
        Some(JVal::Int(i)) => Some(i),
        _ => None,
    }
}

/// The string a key holds, if the field is present and a string.
pub open spec fn str_field(j: JVal, key: Seq<char>) -> Option<Seq<char>> {
    match obj_field(j, key) {
        Some(JVal::Str(s)) => Some(s),
        _ => None,
    }
}

/// Whether a key is absent or holds JSON null: the two wire forms of a
/// missing optional field.
pub open spec fn field_absent(j: JVal, key: Seq<char>) -> bool {
    match obj_field(j, key) {
        None => true,
        Some(f) => f is Null,
    }
}

/// Looks a field up: the key's value, unless it is absent or the node is
/// not an object.
pub(crate) fn get_field<'a>(v: &'a serde_json::Value, key: &str) -> (r: Option<
    &'a serde_json::Value,
>)
    ensures
        match r {
            Some(f) => obj_field(jval_of(*v), key@) == Some(jval_of(*f)),
            None => obj_field(jval_of(*v), key@) is None,
        },
{
    jv_get(v, key)
}

/// Reads a required 32-bit integer field.
pub(crate) fn get_i32(v: &serde_json::Value, key: &str) -> (r: Option<i32>)
    ensures
        match r {
            Some(x) => int_field(jval_of(*v), key@) == Some(x as int),
            None => !(int_field(jval_of(*v), key@) matches Some(i) && i32::MIN <= i <= i32::MAX),
        },
{
    match get_field(v, key) {
        Some(f) => match jv_as_i64(f) {
            Some(x) => if i32::MIN as i64 <= x && x <= i32::MAX as i64 {
                Some(x as i32)
            } else {
                None
            },
            None => None,
        },
        None => None,
    }
}

/// Reads a required string field.
pub(crate) fn get_string(v: &serde_json::Value, key: &str) -> (r: Option<String>)
    ensures
        match r {
            Some(s) => str_field(jval_of(*v), key@) == Some(s@),
            None => str_field(jval_of(*v), key@) is None,
        },
{
    match get_field(v, key) {
        Some(f) => match jv_as_str(f) {
            Some(s) => Some(s.to_owned()),
            None => None,
        },
        None => None,
    }
}

/// Reads an optional 32-bit integer field: absent and null both yield no
/// value; a present field of any other shape is a schema violation.
pub(crate) fn get_opt_i32(v: &serde_json::Value, key: &str) -> (r: Result<Option<i32>, ()>)
    ensures
        match r {
            Ok(Some(x)) => int_field(jval_of(*v), key@) == Some(x as int),
            Ok(None) => field_absent(jval_of(*v), key@),
            Err(()) => !field_absent(jval_of(*v), key@) && !(int_field(jval_of(*v), key@)
                matches Some(i) && i32::MIN <= i <= i32::MAX),
        },
{
    match get_field(v, key) {
        Some(f) => if jv_is_null(f) {
            Ok(None)
        } else {
            match jv_as_i64(f) {
                Some(x) => if i32::MIN as i64 <= x && x <= i32::MAX as i64 {
                    Ok(Some(x as i32))
                } else {
                    Err(())
                },
                None => Err(()),
            }
        },
        None => Ok(None),
    }
}

/// Reads an optional string field: absent and null both yield no value; a
/// present field of any other shape is a schema violation.
pub(crate) fn get_opt_string(v: &serde_json::Value, key: &str) -> (r: Result<Option<String>, ()>)
    ensures
        match r {
            Ok(Some(s)) => str_field(jval_of(*v), key@) == Some(s@),
            Ok(None) => field_absent(jval_of(*v), key@),
            Err(()) => !field_absent(jval_of(*v), key@) && str_field(jval_of(*v), key@) is None,
        },
{
    match get_field(v, key) {
        Some(f) => if jv_is_null(f) {
            Ok(None)
        } else {
            match jv_as_str(f) {
                Some(s) => Ok(Some(s.to_owned())),
                None => Err(()),
            }
        },
        None => Ok(None),
    }
}

} // verus!
