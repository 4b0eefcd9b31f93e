//! The JSON values the library builds and reads: request bodies, response
//! envelopes, decoded sections and the aggregate record of a document.
use vstd::prelude::*;

use crate::text::{chars_equal, chars_of};

verus! {

/// A JSON value. Numbers keep the text they were written with; an object keeps
/// its entries in order.
#[derive(Debug)]
pub enum JsonValue {
    Null,
    Bool(bool),
    Number(String),
    Str(String),
    Array(Vec<JsonValue>),
    Object(Vec<(String, JsonValue)>),
}

/// `v` is the string `s`.
pub open spec fn is_str(v: JsonValue, s: Seq<char>) -> bool {
    v is Str && v->Str_0@ == s
}

/// The entry `e` has key `k`.
pub open spec fn key_is(e: (String, JsonValue), k: Seq<char>) -> bool {
    e.0@ == k
}

/// `w` is an object whose one entry holds `v` under `key`.
pub open spec fn wraps(w: JsonValue, key: Seq<char>, v: JsonValue) -> bool {
    &&& w is Object
    &&& w->Object_0@.len() == 1
    &&& key_is(w->Object_0@[0], key)
    &&& w->Object_0@[0].1 == v
}

/// What is kept of a decoded value: the inner value of an object with a single
/// entry, the value itself otherwise.
pub open spec fn unwrapped(v: JsonValue) -> JsonValue {
    if v is Object && v->Object_0@.len() == 1 {
        v->Object_0@[0].1
    } else {
        v
    }
}

/// An object with one entry, `v` under `key`.
pub fn wrap_single_entry(key: String, v: JsonValue) -> (r: JsonValue)
    ensures
        wraps(r, key@, v),
{
    let mut fields: Vec<(String, JsonValue)> = Vec::new();
    fields.push((key, v));
    JsonValue::Object(fields)
}

/// The inner value of an object with a single entry; any other value unchanged.
pub fn unwrap_single_entry(v: JsonValue) -> (r: JsonValue)
    ensures
        r == unwrapped(v),
{
    match v {
        JsonValue::Object(mut fields) => {
            if fields.len() == 1 {
                match fields.pop() {
                    Some(entry) => entry.1,
                    None => JsonValue::Object(fields),
                }
            } else {
                JsonValue::Object(fields)
            }
        },
        other => other,
    }
}

/// Unwrapping a single-entry object gives back the value that was wrapped.
pub proof fn lemma_unwrap_of_wrap(w: JsonValue, key: Seq<char>, v: JsonValue)
    requires
        wraps(w, key, v),
    ensures
        unwrapped(w) == v,
{
}

/// The value under `key` in object `v`: the first entry with that key.
pub open spec fn field_of(v: JsonValue, key: Seq<char>) -> Option<JsonValue> {
    if v is Object && exists|i: int|
        0 <= i < v->Object_0@.len() && key_is(#[trigger] v->Object_0@[i], key) {
        let i = choose|i: int|
            0 <= i < v->Object_0@.len() && key_is(#[trigger] v->Object_0@[i], key) && forall|
                j: int,
            | 0 <= j < i ==> !key_is(#[trigger] v->Object_0@[j], key);
        Some(v->Object_0@[i].1)
    } else {
        None
    }
}

/// The position of the first entry with key `key`.
fn find_key(fields: &Vec<(String, JsonValue)>, key: &str) -> (r: Option<usize>)
    ensures
        r matches Some(i) ==> i < fields@.len() && key_is(fields@[i as int], key@) && forall|
            j: int,
        | 0 <= j < i ==> !key_is(#[trigger] fields@[j], key@),
        r is None ==> forall|j: int| 0 <= j < fields@.len() ==> !key_is(#[trigger] fields@[j], key@),
{
    let k = chars_of(key);
    for i in 0..fields.len()
        invariant
            k@ == key@,
            forall|j: int| 0 <= j < i ==> !key_is(#[trigger] fields@[j], key@),
    {
        let name = chars_of(fields[i].0.as_str());
        if chars_equal(&name, &k) {
            return Some(i);
        }
    }
    None
}

/// The value under `key`, when `v` is an object that has it.
pub fn get_field<'a>(v: &'a JsonValue, key: &str) -> (r: Option<&'a JsonValue>)
    ensures
        r matches Some(x) ==> field_of(*v, key@) == Some(*x),
        r is None ==> field_of(*v, key@) is None,
{
    match v {
        JsonValue::Object(fields) => match find_key(fields, key) {
            Some(i) => {
                proof {
                    let c = choose|c: int|
                        0 <= c < fields@.len() && key_is(#[trigger] fields@[c], key@) && forall|
                            j: int,
                        | 0 <= j < c ==> !key_is(#[trigger] fields@[j], key@);
                    if c < i {
                        assert(!key_is(fields@[c], key@));
                    }
                    if c > i {
                        assert(!key_is(fields@[i as int], key@));
                    }
                }
                Some(&fields[i].1)
            },
            None => None,
        },
        _ => None,
    }
}

/// The value under `key`, taken out of `v`, when `v` is an object that has it.
pub fn take_field(v: JsonValue, key: &str) -> (r: Option<JsonValue>)
    ensures
        r == field_of(v, key@),
{
    match v {
        JsonValue::Object(mut fields) => match find_key(&fields, key) {
            Some(i) => {
                proof {
                    let c = choose|c: int|
                        0 <= c < fields@.len() && key_is(#[trigger] fields@[c], key@) && forall|
                            j: int,
                        | 0 <= j < c ==> !key_is(#[trigger] fields@[j], key@);
                    if c < i {
                        assert(!key_is(fields@[c], key@));
                    }
                    if c > i {
                        assert(!key_is(fields@[i as int], key@));
                    }
                }
                let e = fields.swap_remove(i);
                Some(e.1)
            },
            None => None,
        },
        _ => None,
    }
}

} // verus!
