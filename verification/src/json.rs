//! The library's own model of a decoded wire message.
//!
//! Messages arrive as JSON text; the caller decodes them and hands the
//! library a [`Json`] tree of plain values.  Everything the engine reads
//! out of a message goes through the accessors here, whose results are
//! pinned down by spec functions of the same shape.

use vstd::prelude::*;

verus! {

/// A decoded message value: the subset of JSON this engine reads.
///
/// Numbers that fit in `u64` arrive as `UInt`; negative integers as
/// `Int`.  Anything else a wire message can carry but this core never
/// interprets (fractional numbers, for instance) arrives as `Other`,
/// and every read of such a value fails as malformed.
pub enum Json {
    Null,
    Bool(bool),
    UInt(u64),
    Int(i64),
    Str(String),
    Array(Vec<Json>),
    Object(Vec<(String, Json)>),
    Other,
}

/// The value under `key` in `fields`, searching from position `i`:
/// the first binding wins.
pub open spec fn spec_get_from(fields: Seq<(String, Json)>, key: Seq<char>, i: int) -> Option<Json>
    decreases fields.len() - i,
{
    if i < 0 || i >= fields.len() {
        None
    } else if fields[i].0@ == key {
        Some(fields[i].1)
    } else {
        spec_get_from(fields, key, i + 1)
    }
}

/// The value under `key` when `j` is an object; `None` otherwise.
pub open spec fn spec_obj_get(j: Json, key: Seq<char>) -> Option<Json> {
    match j {
        Json::Object(fields) => spec_get_from(fields@, key, 0),
        _ => None,
    }
}

pub open spec fn spec_as_u64(j: Json) -> Option<u64> {
    match j {
        Json::UInt(n) => Some(n),
        _ => None,
    }
}

pub open spec fn spec_as_i64(j: Json) -> Option<i64> {
    match j {
        Json::UInt(n) => if n <= i64::MAX as u64 {
            Some(n as i64)
        } else {
            None
        },
        Json::Int(n) => Some(n),
        _ => None,
    }
}

/// A `u64` field read into `u32` range; out-of-range counts as absent,
/// which the callers report as a malformed message.
pub open spec fn spec_as_u32(j: Json) -> Option<u32> {
    match spec_as_u64(j) {
        Some(n) => if n <= u32::MAX as u64 {
            Some(n as u32)
        } else {
            None
        },
        None => None,
    }
}

pub open spec fn spec_as_u8(j: Json) -> Option<u8> {
    match spec_as_u64(j) {
        Some(n) => if n <= u8::MAX as u64 {
            Some(n as u8)
        } else {
            None
        },
        None => None,
    }
}

pub open spec fn spec_as_i32(j: Json) -> Option<i32> {
    match spec_as_i64(j) {
        Some(n) => if i32::MIN as i64 <= n && n <= i32::MAX as i64 {
            Some(n as i32)
        } else {
            None
        },
        None => None,
    }
}

pub open spec fn spec_as_string(j: Json) -> Option<Seq<char>> {
    match j {
        Json::Str(s) => Some(s@),
        _ => None,
    }
}

/// A `u64` under `key` in object `j`, absent unless the field exists
/// and has that shape.
pub open spec fn spec_field_u64(j: Json, key: Seq<char>) -> Option<u64> {
    match spec_obj_get(j, key) {
        Some(v) => spec_as_u64(v),
        None => None,
    }
}

/// A `u32`-ranged field under `key` in object `j`.
pub open spec fn spec_field_u32(j: Json, key: Seq<char>) -> Option<u32> {
    match spec_obj_get(j, key) {
        Some(v) => spec_as_u32(v),
        None => None,
    }
}

/// A `u8`-ranged field under `key` in object `j`.
pub open spec fn spec_field_u8(j: Json, key: Seq<char>) -> Option<u8> {
    match spec_obj_get(j, key) {
        Some(v) => spec_as_u8(v),
        None => None,
    }
}

/// A string field under `key` in object `j`.
pub open spec fn spec_field_string(j: Json, key: Seq<char>) -> Option<Seq<char>> {
    match spec_obj_get(j, key) {
        Some(v) => spec_as_string(v),
        None => None,
    }
}

/// String equality against a key literal.
fn str_eq(a: &String, b: &str) -> (r: bool)
    ensures
        r == (a@ == b@),
{
    let owned: String = b.to_owned();
    a.eq(&owned)
}

/// Looks a field up in an object, as the wire router does: a non-object
/// has no fields.
pub fn obj_get<'a>(j: &'a Json, key: &str) -> (r: Option<&'a Json>)
    ensures
        (match r {
            Some(v) => spec_obj_get(*j, key@) == Some(*v),
            None => spec_obj_get(*j, key@) is None,
        }),
{
    match j {
        Json::Object(fields) => {
            let mut i: usize = 0;
            while i < fields.len()
                invariant
                    i <= fields@.len(),
                    spec_obj_get(*j, key@) == spec_get_from(fields@, key@, i as int),
                decreases fields@.len() - i,
            {
                let entry = &fields[i];
                if str_eq(&entry.0, key) {
                    proof {
                        assert(spec_get_from(fields@, key@, i as int) == Some(fields@[i as int].1));
                    }
                    return Some(&entry.1);
                }
                i = i + 1;
            }
            None
        },
        _ => None,
    }
}

pub fn as_u64(j: &Json) -> (r: Option<u64>)
    ensures
        r == spec_as_u64(*j),
{
    match j {
        Json::UInt(n) => Some(*n),
        _ => None,
    }
}

pub fn as_i64(j: &Json) -> (r: Option<i64>)
    ensures
        r == spec_as_i64(*j),
{
    match j {
        Json::UInt(n) => if *n <= i64::MAX as u64 {
            Some(*n as i64)
        } else {
            None
        },
        Json::Int(n) => Some(*n),
        _ => None,
    }
}

pub fn as_u32(j: &Json) -> (r: Option<u32>)
    ensures
        r == spec_as_u32(*j),
{
    match as_u64(j) {
        Some(n) => if n <= u32::MAX as u64 {
            Some(n as u32)
        } else {
            None
        },
        None => None,
    }
}

pub fn as_u8(j: &Json) -> (r: Option<u8>)
    ensures
        r == spec_as_u8(*j),
{
    match as_u64(j) {
        Some(n) => if n <= u8::MAX as u64 {
            Some(n as u8)
        } else {
            None
        },
        None => None,
    }
}

pub fn as_i32(j: &Json) -> (r: Option<i32>)
    ensures
        r == spec_as_i32(*j),
{
    match as_i64(j) {
        Some(n) => if i32::MIN as i64 <= n && n <= i32::MAX as i64 {
            Some(n as i32)
        } else {
            None
        },
        None => None,
    }
}

pub fn as_array<'a>(j: &'a Json) -> (r: Option<&'a Vec<Json>>)
    ensures
        (match r {
            Some(v) => *j matches Json::Array(a) && a == *v,
            None => !(*j matches Json::Array(_)),
        }),
{
    match j {
        Json::Array(a) => Some(a),
        _ => None,
    }
}

pub fn field_u64(j: &Json, key: &str) -> (r: Option<u64>)
    ensures
        r == spec_field_u64(*j, key@),
{
    match obj_get(j, key) {
        Some(v) => as_u64(v),
        None => None,
    }
}

pub fn field_u32(j: &Json, key: &str) -> (r: Option<u32>)
    ensures
        r == spec_field_u32(*j, key@),
{
    match obj_get(j, key) {
        Some(v) => as_u32(v),
        None => None,
    }
}

pub fn field_u8(j: &Json, key: &str) -> (r: Option<u8>)
    ensures
        r == spec_field_u8(*j, key@),
{
    match obj_get(j, key) {
        Some(v) => as_u8(v),
        None => None,
    }
}

pub fn field_string<'a>(j: &'a Json, key: &str) -> (r: Option<&'a String>)
    ensures
        (match r {
            Some(s) => spec_field_string(*j, key@) == Some(s@),
            None => spec_field_string(*j, key@) is None,
        }),
{
    match obj_get(j, key) {
        Some(v) => match v {
            Json::Str(s) => Some(s),
            _ => None,
        },
        None => None,
    }
}

/// Takes a string value out of a message field; any other shape of
/// value yields nothing.
pub fn take_string(value: Json) -> (r: Option<String>)
    ensures
        (match r {
            Some(s) => spec_as_string(value) == Some(s@),
            None => spec_as_string(value) is None,
        }),
{
    match value {
        Json::Str(s) => Some(s),
        _ => None,
    }
}

} // verus!
