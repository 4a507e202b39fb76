//! A structured value, as handed over by the upstream transaction decoder.
//!
//! Each raw message record is one such value: an object with a `type` tag
//! and a `value` payload. Objects keep their fields in order; a lookup
//! takes the first field with the asked-for key.

use vstd::prelude::*;

use crate::fmt::str_eq;

verus! {

/// A decoded structured value: the input shape of every message record.
#[derive(Debug)]
pub enum JsonVal {
    Null,
    Bool(bool),
    Uint(u64),
    Text(String),
    List(Vec<JsonVal>),
    Object(Vec<(String, JsonVal)>),
}

/// The first field of `fields` named `key`, if any.
pub open spec fn lookup_field(fields: Seq<(String, JsonVal)>, key: Seq<char>) -> Option<
    JsonVal,
>
    decreases fields.len(),
{
    if fields.len() == 0 {
        None
    } else if fields[0].0@ == key {
        Some(fields[0].1)
    } else {
        lookup_field(fields.drop_first(), key)
    }
}

/// The field `key` of `v`, when `v` is an object that has it.
pub open spec fn field_of(v: JsonVal, key: Seq<char>) -> Option<JsonVal> {
    match v {
        JsonVal::Object(fields) => lookup_field(fields@, key),
        _ => None,
    }
}

/// Whether `v` is an object whose field `key` holds a text value.
pub open spec fn has_text_field(v: JsonVal, key: Seq<char>) -> bool {
    field_of(v, key) matches Some(JsonVal::Text(_))
}

/// The text of field `key` of `v` (empty when there is no such text field).
pub open spec fn text_field(v: JsonVal, key: Seq<char>) -> Seq<char> {
    match field_of(v, key) {
        Some(JsonVal::Text(s)) => s@,
        _ => Seq::empty(),
    }
}

/// Looks `key` up in `v`, returning the first field with that name.
pub fn get_field<'a>(v: &'a JsonVal, key: &str) -> (r: Option<&'a JsonVal>)
    ensures
        match r {
            Some(w) => field_of(*v, key@) == Some(*w),
            None => field_of(*v, key@) is None,
        },
{
    let fields = match v {
        JsonVal::Object(fields) => fields,
        _ => {
            return None;
        },
    };
    proof {
        assert(fields@.skip(0) =~= fields@);
    }
    let mut i: usize = 0;
    while i < fields.len()
        invariant
            0 <= i <= fields@.len(),
            field_of(*v, key@) == lookup_field(fields@.skip(i as int), key@),
        decreases fields@.len() - i,
    {
        proof {
            assert(fields@.skip(i as int)[0] == fields@[i as int]);
            assert(fields@.skip(i as int).drop_first() =~= fields@.skip(i as int + 1));
        }
        if str_eq(fields[i].0.as_str(), key) {
            proof {
                assert(lookup_field(fields@.skip(i as int), key@) == Some(
                    fields@[i as int].1,
                ));
            }
            return Some(&fields[i].1);
        }
        i += 1;
    }
    proof {
        assert(fields@.skip(fields@.len() as int).len() == 0);
    }
    None
}

/// Looks up a text field, handing back the text.
pub fn get_text_field<'a>(v: &'a JsonVal, key: &str) -> (r: Option<&'a String>)
    ensures
        match r {
            Some(s) => has_text_field(*v, key@) && s@ == text_field(*v, key@),
            None => !has_text_field(*v, key@),
        },
{
    match get_field(v, key) {
        Some(JsonVal::Text(s)) => Some(s),
        _ => None,
    }
}

} // verus!
