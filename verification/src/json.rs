//! JSON values as the metadata payloads carry them.

use vstd::prelude::*;
use crate::text::str_eq;

verus! {

/// A JSON value. Numbers keep their textual form; an object keeps its
/// members in order. Lookups read the first member of a name; a value is
/// well keyed (`keys_unique`) when every object in it names each key once.
/// Every decoded value is well keyed, and inserting or taking a member keeps
/// an object's own names unique (`unique_keys`).
#[derive(Debug)]
pub enum JsonValue {
    Null,
    Bool(bool),
    Number(String),
    Str(String),
    Array(Vec<JsonValue>),
    Object(Vec<(String, JsonValue)>),
}

/// No two members of `fields` share a name.
pub open spec fn unique_keys(fields: Seq<(String, JsonValue)>) -> bool {
    forall|i: int, j: int| 0 <= i < j < fields.len() ==> (#[trigger] fields[i]).0@ != (#[trigger] fields[j]).0@
}

/// Every object within `v` names each key once.
pub open spec fn keys_unique(v: JsonValue) -> bool
    decreases v,
{
    match v {
        JsonValue::Array(items) => forall|i: int| 0 <= i < items@.len() ==> {
            proof { assert(decreases_to!(v => items)); assert(decreases_to!(items => items@)); }
            keys_unique(#[trigger] items@[i])
        },
        JsonValue::Object(fields) => unique_keys(fields@) && forall|i: int| 0 <= i < fields@.len() ==> {
            proof { assert(decreases_to!(v => fields)); assert(decreases_to!(fields => fields@)); assert(decreases_to!(fields@ => fields@[i])); }
            keys_unique((#[trigger] fields@[i]).1)
        },
        _ => true,
    }
}

/// Member `i` of `fields` is the first one named `key`.
pub open spec fn first_key_at(fields: Seq<(String, JsonValue)>, key: Seq<char>, i: int) -> bool {
    &&& 0 <= i < fields.len()
    &&& fields[i].0@ == key
    &&& forall|j: int| 0 <= j < i ==> (#[trigger] fields[j]).0@ != key
}

/// The value of the first member of `fields` named `key`, if any.
pub open spec fn member(fields: Seq<(String, JsonValue)>, key: Seq<char>) -> Option<JsonValue> {
    if exists|i: int| first_key_at(fields, key, i) {
        Some(fields[choose|i: int| first_key_at(fields, key, i)].1)
    } else {
        None
    }
}

/// The member `key` of an object; nothing for any other value.
pub open spec fn json_get(v: JsonValue, key: Seq<char>) -> Option<JsonValue> {
    match v {
        JsonValue::Object(fields) => member(fields@, key),
        _ => None,
    }
}

/// The value reached from `v` by following the object members `path`.
pub open spec fn json_path(v: JsonValue, path: Seq<Seq<char>>) -> Option<JsonValue>
    decreases path.len(),
{
    if path.len() == 0 {
        Some(v)
    } else {
        match json_get(v, path[0]) {
            Some(w) => json_path(w, path.drop_first()),
            None => None,
        }
    }
}

/// The text of a JSON string; nothing for any other value.
pub open spec fn json_text(v: JsonValue) -> Option<Seq<char>> {
    match v {
        JsonValue::Str(s) => Some(s@),
        _ => None,
    }
}

proof fn lemma_first_key_unique(fields: Seq<(String, JsonValue)>, key: Seq<char>, i: int, j: int)
    requires
        first_key_at(fields, key, i),
        first_key_at(fields, key, j),
    ensures
        i == j,
{
    if i < j {
        assert(fields[i].0@ != key);
    } else if j < i {
        assert(fields[j].0@ != key);
    }
}

impl JsonValue {
    /// The member `key` of an object value.
    pub fn get(&self, key: &str) -> (r: Option<&JsonValue>)
        ensures
            match r {
                Some(x) => json_get(*self, key@) == Some(*x),
                None => json_get(*self, key@) is None,
            },
    {
        match self {
            JsonValue::Object(fields) => {
                let mut i: usize = 0;
                while i < fields.len()
                    invariant
                        *self == JsonValue::Object(*fields),
                        i <= fields@.len(),
                        forall|j: int| 0 <= j < i ==> (#[trigger] fields@[j]).0@ != key@,
                    decreases fields@.len() - i,
                {
                    if str_eq(fields[i].0.as_str(), key) {
                        proof {
                            assert(first_key_at(fields@, key@, i as int));
                            let c = choose|t: int| first_key_at(fields@, key@, t);
                            lemma_first_key_unique(fields@, key@, i as int, c);
                        }
                        return Some(&fields[i].1);
                    }
                    i = i + 1;
                }
                assert(!exists|t: int| first_key_at(fields@, key@, t));
                None
            },
            _ => None,
        }
    }

    /// Whether the value is `null`.
    pub fn is_null(&self) -> (r: bool)
        ensures
            r == (*self is Null),
    {
        match self {
            JsonValue::Null => true,
            _ => false,
        }
    }

    /// The text of a string value.
    pub fn as_text(&self) -> (r: Option<&String>)
        ensures
            match r {
                Some(s) => json_text(*self) == Some(s@),
                None => json_text(*self) is None,
            },
    {
        match self {
            JsonValue::Str(s) => Some(s),
            _ => None,
        }
    }
}

/// Removes the first member named `key` and gives its value.
pub fn take_member(fields: &mut Vec<(String, JsonValue)>, key: &str) -> (r: Option<JsonValue>)
    ensures
        r == member(old(fields)@, key@),
        unique_keys(old(fields)@) ==> unique_keys(final(fields)@),
{
    let mut i: usize = 0;
    while i < fields.len()
        invariant
            *fields == *old(fields),
            i <= fields@.len(),
            forall|j: int| 0 <= j < i ==> (#[trigger] fields@[j]).0@ != key@,
        decreases fields@.len() - i,
    {
        if str_eq(fields[i].0.as_str(), key) {
            proof {
                assert(first_key_at(fields@, key@, i as int));
                let c = choose|t: int| first_key_at(fields@, key@, t);
                lemma_first_key_unique(fields@, key@, i as int, c);
            }
            let ghost before = fields@;
            let (_, v) = fields.remove(i);
            assert forall|a: int, b: int| 0 <= a < b < fields@.len() && unique_keys(before)
                implies (#[trigger] fields@[a]).0@ != (#[trigger] fields@[b]).0@ by {
                let a2 = if a < i { a } else { a + 1 };
                let b2 = if b < i { b } else { b + 1 };
                assert(fields@[a] == before[a2]);
                assert(fields@[b] == before[b2]);
            }
            return Some(v);
        }
        i = i + 1;
    }
    assert(!exists|t: int| first_key_at(fields@, key@, t));
    None
}

/// A JSON string holding `text`.
pub open spec fn is_text(v: JsonValue, text: Seq<char>) -> bool {
    v matches JsonValue::Str(s) && s@ == text
}

/// `new` is `old` with member `key` set to `value`: replaced in place when
/// present, appended otherwise.
pub open spec fn with_member(old: Seq<(String, JsonValue)>, key: Seq<char>, value: JsonValue, new: Seq<(String, JsonValue)>) -> bool {
    if exists|i: int| first_key_at(old, key, i) {
        let i = choose|i: int| first_key_at(old, key, i);
        new == old.update(i, (old[i].0, value))
    } else {
        new.len() == old.len() + 1 && new.drop_last() == old && new.last().0@ == key && new.last().1 == value
    }
}

/// Sets member `key` of an object to `value`.
pub fn insert_member(fields: &mut Vec<(String, JsonValue)>, key: &str, value: JsonValue)
    ensures
        with_member(old(fields)@, key@, value, final(fields)@),
        unique_keys(old(fields)@) ==> unique_keys(final(fields)@),
{
    let mut i: usize = 0;
    while i < fields.len()
        invariant
            *fields == *old(fields),
            i <= fields@.len(),
            forall|j: int| 0 <= j < i ==> (#[trigger] fields@[j]).0@ != key@,
        decreases fields@.len() - i,
    {
        if str_eq(fields[i].0.as_str(), key) {
            proof {
                assert(first_key_at(fields@, key@, i as int));
                let c = choose|t: int| first_key_at(fields@, key@, t);
                lemma_first_key_unique(fields@, key@, i as int, c);
            }
            let name = fields[i].0.clone();
            let ghost before = fields@;
            fields.set(i, (name, value));
            assert forall|a: int, b: int| 0 <= a < b < fields@.len() && unique_keys(before)
                implies (#[trigger] fields@[a]).0@ != (#[trigger] fields@[b]).0@ by {
                assert(fields@[a].0@ == before[a].0@);
                assert(fields@[b].0@ == before[b].0@);
            }
            return;
        }
        i = i + 1;
    }
    assert(!exists|t: int| first_key_at(fields@, key@, t));
    let ghost before = fields@;
    fields.push((String::from_str(key), value));
    assert(fields@.drop_last() =~= old(fields)@);
    assert forall|a: int, b: int| 0 <= a < b < fields@.len() && unique_keys(before)
        implies (#[trigger] fields@[a]).0@ != (#[trigger] fields@[b]).0@ by {
        if b == fields@.len() - 1 {
            assert(fields@[a] == before[a]);
            assert(before[a].0@ != key@);
        } else {
            assert(fields@[a] == before[a]);
            assert(fields@[b] == before[b]);
        }
    }
}

/// Follows the object members `path` from `v`.
pub fn follow<'a>(v: &'a JsonValue, path: &[&str]) -> (r: Option<&'a JsonValue>)
    ensures
        match r {
            Some(x) => json_path(*v, path@.map_values(|k: &str| k@)) == Some(*x),
            None => json_path(*v, path@.map_values(|k: &str| k@)) is None,
        },
{
    let ghost keys = path@.map_values(|k: &str| k@);
    let mut cur: &JsonValue = v;
    let mut i: usize = 0;
    assert(keys.skip(0) =~= keys);
    while i < path.len()
        invariant
            i <= path@.len(),
            keys == path@.map_values(|k: &str| k@),
            json_path(*v, keys) == json_path(*cur, keys.skip(i as int)),
        decreases path@.len() - i,
    {
        assert(keys.skip(i as int).drop_first() =~= keys.skip(i + 1));
        assert(keys.skip(i as int)[0] == path@[i as int]@);
        match cur.get(path[i]) {
            Some(next) => {
                cur = next;
            },
            None => {
                return None;
            },
        }
        i = i + 1;
    }
    assert(keys.skip(i as int) =~= Seq::<Seq<char>>::empty());
    Some(cur)
}

/// serde_json's JSON value, carried opaquely while it is converted.
#[verifier::external_type_specification]
#[verifier::external_body]
pub struct ExSerdeJsonValue(serde_json::Value);

/// What `serde_json::from_str::<serde_json::Value>` reads from `text`: the
/// value it denotes, or nothing when the text is not JSON.
pub uninterp spec fn json_text_value(text: Seq<char>) -> Option<JsonValue>;

/// Converts serde_json's value into the library's, variant for variant
/// (a number by its text, an object member for member).
#[verifier::external_body]
fn json_of_value(v: serde_json::Value) -> JsonValue {
    match v {
        serde_json::Value::Null => JsonValue::Null,
        serde_json::Value::Bool(b) => JsonValue::Bool(b),
        serde_json::Value::Number(n) => JsonValue::Number(n.to_string()),
        serde_json::Value::String(t) => JsonValue::Str(t),
        serde_json::Value::Array(items) => JsonValue::Array(items.into_iter().map(json_of_value).collect()),
        serde_json::Value::Object(map) => JsonValue::Object(map.into_iter().map(|(k, x)| (k, json_of_value(x))).collect()),
    }
}

/// Calls `serde_json::from_str::<serde_json::Value>` on `text`. The contract
/// claims that the result is a function of the text alone, and that a decoded
/// value names each object key once (serde_json keeps object members in a map).
#[verifier::external_body]
pub fn decode_json_text(text: &str) -> (r: Option<JsonValue>)
    ensures
        r == json_text_value(text@),
        r matches Some(v) ==> keys_unique(v),
{
    serde_json::from_str::<serde_json::Value>(text).ok().map(json_of_value)
}

} // verus!
