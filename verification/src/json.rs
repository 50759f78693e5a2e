//! A JSON value as the library reads it.
use vstd::prelude::*;
use crate::text;

verus! {

/// A JSON number with the readings that the library uses.
#[derive(Debug, Clone)]
pub struct JsonNumber {
    /// The number when it is a non-negative integer that fits in a `u64`.
    pub as_u64: Option<u64>,
    /// The number when it is an integer that fits in an `i64`.
    pub as_i64: Option<i64>,
    /// The number read as an `f64` and converted to `u64` (saturating,
    /// fraction dropped); `None` when it has no `f64` reading.
    pub float_as_u64: Option<u64>,
    /// The number's text, as JSON writes it.
    pub text: String,
}

/// A JSON document.
#[derive(Debug)]
pub enum JsonValue {
    Null,
    Bool(bool),
    Number(JsonNumber),
    Str(String),
    Array(Vec<JsonValue>),
    /// Members in document order; keys are distinct.
    Object(Vec<(String, JsonValue)>),
}

/// Position of the first member named `key`.
pub open spec fn member_index(o: Seq<(String, JsonValue)>, key: Seq<char>) -> int
    decreases o.len(),
{
    if o.len() == 0 {
        -1
    } else {
        let r = member_index(o.drop_last(), key);
        if r >= 0 {
            r
        } else if o.last().0@ == key {
            o.len() - 1
        } else {
            -1
        }
    }
}

pub proof fn lemma_member_index(o: Seq<(String, JsonValue)>, key: Seq<char>)
    ensures
        -1 <= member_index(o, key) < o.len(),
        member_index(o, key) >= 0 ==> o[member_index(o, key)].0@ == key,
        member_index(o, key) >= 0 ==> forall|j: int| 0 <= j < member_index(o, key) ==> o[j].0@ != key,
        member_index(o, key) < 0 ==> forall|j: int| 0 <= j < o.len() ==> o[j].0@ != key,
    decreases o.len(),
{
    if o.len() > 0 {
        let p = o.drop_last();
        lemma_member_index(p, key);
        let r = member_index(o, key);
        if r >= 0 {
            assert forall|j: int| 0 <= j < r implies o[j].0@ != key by {
                assert(p[j] == o[j]);
            }
        } else {
            assert forall|j: int| 0 <= j < o.len() implies o[j].0@ != key by {
                if j < p.len() {
                    assert(p[j] == o[j]);
                }
            }
        }
    }
}

/// The member named `key` of an object.
pub open spec fn member(o: Seq<(String, JsonValue)>, key: Seq<char>) -> Option<JsonValue> {
    let i = member_index(o, key);
    if 0 <= i < o.len() { Some(o[i].1) } else { None }
}

/// Position of the first member named `key`.
pub fn find_member(o: &Vec<(String, JsonValue)>, key: &str) -> (r: Option<usize>)
    ensures
        match r {
            Some(i) => i as int == member_index(o@, key@) && i < o.len(),
            None => member_index(o@, key@) < 0,
        },
{
    proof { lemma_member_index(o@, key@); }
    let mut i: usize = 0;
    while i < o.len()
        invariant
            i <= o.len(),
            forall|j: int| 0 <= j < i ==> o@[j].0@ != key@,
        decreases o.len() - i,
    {
        if text::str_eq(o[i].0.as_str(), key) {
            proof { lemma_member_first(o@, key@, i as int); }
            return Some(i);
        }
        i += 1;
    }
    proof { lemma_member_none(o@, key@); }
    None
}

proof fn lemma_member_first(o: Seq<(String, JsonValue)>, key: Seq<char>, i: int)
    requires
        0 <= i < o.len(),
        o[i].0@ == key,
        forall|j: int| 0 <= j < i ==> o[j].0@ != key,
    ensures
        member_index(o, key) == i,
    decreases o.len(),
{
    lemma_member_index(o, key);
    if i < o.len() - 1 {
        lemma_member_first(o.drop_last(), key, i);
    } else {
        lemma_member_none(o.drop_last(), key);
    }
}

proof fn lemma_member_none(o: Seq<(String, JsonValue)>, key: Seq<char>)
    requires
        forall|j: int| 0 <= j < o.len() ==> o[j].0@ != key,
    ensures
        member_index(o, key) == -1,
    decreases o.len(),
{
    if o.len() > 0 {
        lemma_member_none(o.drop_last(), key);
    }
}

/// The text of a JSON string.
pub open spec fn str_of(v: JsonValue) -> Option<Seq<char>> {
    match v {
        JsonValue::Str(s) => Some(s@),
        _ => None,
    }
}

/// The member named `key`, when the value is an object that has it.
pub open spec fn get(v: JsonValue, key: Seq<char>) -> Option<JsonValue> {
    match v {
        JsonValue::Object(o) => member(o@, key),
        _ => None,
    }
}

/// The text of the member `key`, when it is a string.
pub open spec fn get_str(v: JsonValue, key: Seq<char>) -> Option<Seq<char>> {
    match get(v, key) {
        Some(m) => str_of(m),
        None => None,
    }
}

/// The member named `key`, when the value is an object that has it.
pub fn get_member<'a>(v: &'a JsonValue, key: &str) -> (r: Option<&'a JsonValue>)
    ensures
        match r {
            Some(m) => get(*v, key@) == Some(*m),
            None => get(*v, key@) is None,
        },
{
    match v {
        JsonValue::Object(o) => match find_member(o, key) {
            Some(i) => Some(&o[i].1),
            None => None,
        },
        _ => None,
    }
}

/// The text of a JSON string value.
pub fn as_str<'a>(v: &'a JsonValue) -> (r: Option<&'a str>)
    ensures
        match r {
            Some(s) => str_of(*v) == Some(s@),
            None => str_of(*v) is None,
        },
{
    match v {
        JsonValue::Str(s) => Some(s.as_str()),
        _ => None,
    }
}

} // verus!
