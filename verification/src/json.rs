use vstd::prelude::*;
use crate::text::same_text;

verus! {

/// A JSON document, held as the plain values the library reads of it. A
/// number is held as its value when it is an integer that fits in `i64`
/// (what `as_i64` gives), `None` otherwise. Object keys are unique.
#[derive(Debug)]
pub enum Json {
    Null,
    Bool(bool),
    Number(Option<i64>),
    Str(String),
    Array(Vec<Json>),
    Object(Vec<JsonEntry>),
}

/// One member of a JSON object.
#[derive(Debug)]
pub struct JsonEntry {
    pub key: String,
    pub value: Json,
}

/// The value stored under `key` in the entries of an object.
pub open spec fn entry_lookup(entries: Seq<JsonEntry>, key: Seq<char>) -> Option<Json>
    decreases entries.len(),
{
    if entries.len() == 0 {
        None
    } else if entries[0].key@ == key {
        Some(entries[0].value)
    } else {
        entry_lookup(entries.drop_first(), key)
    }
}

/// `value.get(key)`: the member `key` of an object; nothing for anything else.
pub open spec fn jget(j: Option<Json>, key: Seq<char>) -> Option<Json> {
    match j {
        Some(Json::Object(e)) => entry_lookup(e@, key),
        _ => None,
    }
}

/// `value.as_array()`.
pub open spec fn jarr(j: Option<Json>) -> Option<Seq<Json>> {
    match j {
        Some(Json::Array(v)) => Some(v@),
        _ => None,
    }
}

/// `value.as_str()`.
pub open spec fn jstr(j: Option<Json>) -> Option<Seq<char>> {
    match j {
        Some(Json::Str(s)) => Some(s@),
        _ => None,
    }
}

/// `value.as_i64()`.
pub open spec fn ji64(j: Option<Json>) -> Option<i64> {
    match j {
        Some(Json::Number(n)) => n,
        _ => None,
    }
}

/// `array.first()`.
pub open spec fn jfirst(a: Option<Seq<Json>>) -> Option<Json> {
    match a {
        Some(v) => if v.len() > 0 {
            Some(v[0])
        } else {
            None
        },
        None => None,
    }
}

pub open spec fn deref_json(r: Option<&Json>) -> Option<Json> {
    match r {
        Some(x) => Some(*x),
        None => None,
    }
}

pub open spec fn deref_array(r: Option<&Vec<Json>>) -> Option<Seq<Json>> {
    match r {
        Some(v) => Some(v@),
        None => None,
    }
}

pub open spec fn deref_str(r: Option<&String>) -> Option<Seq<char>> {
    match r {
        Some(s) => Some(s@),
        None => None,
    }
}

/// `value.get(key)`.
pub fn get<'a>(j: Option<&'a Json>, key: &str) -> (r: Option<&'a Json>)
    ensures
        deref_json(r) == jget(deref_json(j), key@),
{
    match j {
        Some(Json::Object(entries)) => {
            let mut i: usize = 0;
            assert(entries@.skip(0) =~= entries@);
            while i < entries.len()
                invariant
                    i <= entries@.len(),
                    deref_json(j) == Some(Json::Object(*entries)),
                    entry_lookup(entries@, key@) == entry_lookup(entries@.skip(i as int), key@),
                decreases entries.len() - i,
            {
                let ghost rest = entries@.skip(i as int);
                assert(rest[0] == entries@[i as int]);
                let e = &entries[i];
                if same_text(e.key.as_str(), key) {
                    assert(entry_lookup(rest, key@) == Some(rest[0].value));
                    assert(deref_json(j) == Some(Json::Object(*entries)));
                    return Some(&e.value);
                }
                assert(rest.drop_first() =~= entries@.skip(i + 1));
                i = i + 1;
            }
            None
        },
        _ => None,
    }
}

/// `value.as_array()`.
pub fn as_array<'a>(j: Option<&'a Json>) -> (r: Option<&'a Vec<Json>>)
    ensures
        deref_array(r) == jarr(deref_json(j)),
{
    match j {
        Some(Json::Array(v)) => Some(v),
        _ => None,
    }
}

/// `array.first()`.
pub fn first<'a>(a: Option<&'a Vec<Json>>) -> (r: Option<&'a Json>)
    ensures
        deref_json(r) == jfirst(deref_array(a)),
{
    match a {
        Some(v) => if v.len() > 0 {
            Some(&v[0])
        } else {
            None
        },
        None => None,
    }
}

/// `value.as_str()`.
pub fn as_str<'a>(j: Option<&'a Json>) -> (r: Option<&'a String>)
    ensures
        deref_str(r) == jstr(deref_json(j)),
{
    match j {
        Some(Json::Str(s)) => Some(s),
        _ => None,
    }
}

/// `value.as_i64()`.
pub fn as_i64(j: Option<&Json>) -> (r: Option<i64>)
    ensures
        r == ji64(deref_json(j)),
{
    match j {
        Some(Json::Number(n)) => *n,
        _ => None,
    }
}

} // verus!
