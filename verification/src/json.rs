//! A JSON tree modelled with plain values.
//!
//! The carrier's wire format is JSON.  This library reads and writes JSON
//! through this type, whose contents are fully visible to the verifier:
//! objects keep their fields in order, and numbers are integers (everywhere
//! this library reads or writes a number it is integral; fractional
//! quantities travel as decimal strings).  The caller turns this tree into
//! wire bytes and back.

use vstd::prelude::*;

verus! {

#[derive(Debug, PartialEq, Eq)]
pub enum JsonValue {
    Null,
    Bool(bool),
    Int(i64),
    Str(String),
    Arr(Vec<JsonValue>),
    Obj(Vec<(String, JsonValue)>),
}

/// The value of the first field named `key` at or after position `i`.
pub open spec fn lookup_from(fields: Seq<(String, JsonValue)>, key: Seq<char>, i: int) -> Option<
    JsonValue,
>
    decreases fields.len() - i,
{
    if !(0 <= i < fields.len()) {
        None
    } else if fields[i].0@ == key {
        Some(fields[i].1)
    } else {
        lookup_from(fields, key, i + 1)
    }
}

/// The value of the first field named `key`, if any.
pub open spec fn lookup_field(fields: Seq<(String, JsonValue)>, key: Seq<char>) -> Option<
    JsonValue,
> {
    lookup_from(fields, key, 0)
}

/// Looking a key up in a sequence extended by one field finds the old value
/// first, and the new field only when the old ones miss.
pub proof fn lemma_lookup_push(fields: Seq<(String, JsonValue)>, key: Seq<char>, f: (
    String,
    JsonValue,
))
    ensures
        lookup_field(fields.push(f), key) == match lookup_field(fields, key) {
            Some(v) => Some(v),
            None => if f.0@ == key {
                Some(f.1)
            } else {
                None
            },
        },
{
    lemma_lookup_from_push(fields, key, f, 0);
}

proof fn lemma_lookup_from_push(
    fields: Seq<(String, JsonValue)>,
    key: Seq<char>,
    f: (String, JsonValue),
    i: int,
)
    requires
        0 <= i <= fields.len(),
    ensures
        lookup_from(fields.push(f), key, i) == match lookup_from(fields, key, i) {
            Some(v) => Some(v),
            None => if f.0@ == key {
                Some(f.1)
            } else {
                None
            },
        },
    decreases fields.len() - i,
{
    if i < fields.len() {
        assert(fields.push(f)[i] == fields[i]);
        lemma_lookup_from_push(fields, key, f, i + 1);
    } else {
        assert(fields.push(f)[i] == f);
        assert(lookup_from(fields, key, i) is None);
        assert(lookup_from(fields.push(f), key, i + 1) is None);
    }
}

impl JsonValue {
    /// The first field named `key` of an object; `None` for any other value.
    pub open spec fn spec_get(self, key: Seq<char>) -> Option<JsonValue> {
        match self {
            JsonValue::Obj(fields) => lookup_field(fields@, key),
            _ => None,
        }
    }

    /// A borrow of the first field named `key` of an object.
    pub fn get<'a>(&'a self, key: &str) -> (r: Option<&'a JsonValue>)
        ensures
            match r {
                Some(v) => self.spec_get(key@) == Some(*v),
                None => self.spec_get(key@) is None,
            },
    {
        match self {
            JsonValue::Obj(fields) => {
                proof {
                    assert(self.spec_get(key@) == lookup_field(fields@, key@));
                }
                let mut i: usize = 0;
                while i < fields.len()
                    invariant
                        self.spec_get(key@) == lookup_field(fields@, key@),
                        0 <= i <= fields@.len(),
                        lookup_field(fields@, key@) == lookup_from(fields@, key@, i as int),
                    decreases fields@.len() - i,
                {
                    if crate::text::string_eq_str(&fields[i].0, key) {
                        proof {
                            assert(lookup_from(fields@, key@, i as int) == Some(
                                fields@[i as int].1,
                            ));
                        }
                        return Some(&fields[i].1);
                    }
                    i = i + 1;
                }
                None
            },
            _ => None,
        }
    }

    /// The characters of a string value.
    pub open spec fn spec_as_str(self) -> Option<Seq<char>> {
        match self {
            JsonValue::Str(s) => Some(s@),
            _ => None,
        }
    }

    pub fn as_str<'a>(&'a self) -> (r: Option<&'a String>)
        ensures
            match r {
                Some(s) => self.spec_as_str() == Some(s@),
                None => self.spec_as_str() is None,
            },
    {
        match self {
            JsonValue::Str(s) => Some(s),
            _ => None,
        }
    }

    pub fn as_bool(&self) -> (r: Option<bool>)
        ensures
            match r {
                Some(b) => *self == JsonValue::Bool(b),
                None => !(*self is Bool),
            },
    {
        match self {
            JsonValue::Bool(b) => Some(*b),
            _ => None,
        }
    }

    pub fn as_int(&self) -> (r: Option<i64>)
        ensures
            match r {
                Some(n) => *self == JsonValue::Int(n),
                None => !(*self is Int),
            },
    {
        match self {
            JsonValue::Int(n) => Some(*n),
            _ => None,
        }
    }

    pub fn as_arr<'a>(&'a self) -> (r: Option<&'a Vec<JsonValue>>)
        ensures
            match r {
                Some(a) => *self == JsonValue::Arr(*a),
                None => !(*self is Arr),
            },
    {
        match self {
            JsonValue::Arr(a) => Some(a),
            _ => None,
        }
    }
}

/// `None` encodes as JSON null, `Some(s)` as the string itself, the way the
/// carrier's optional text properties travel.
pub open spec fn opt_str_json(o: Option<String>) -> JsonValue {
    match o {
        Some(s) => JsonValue::Str(s),
        None => JsonValue::Null,
    }
}

pub fn opt_str_to_json(o: Option<String>) -> (r: JsonValue)
    ensures
        r == opt_str_json(o),
{
    match o {
        Some(s) => JsonValue::Str(s),
        None => JsonValue::Null,
    }
}

/// An owned copy of an optional string.
pub fn clone_opt_string(o: &Option<String>) -> (r: Option<String>)
    ensures
        r == *o,
{
    match o {
        Some(s) => Some(s.clone()),
        None => None,
    }
}

/// An owned string value from a string slice.
pub fn json_str(s: &str) -> (r: JsonValue)
    ensures
        r matches JsonValue::Str(t) && t@ == s@,
{
    JsonValue::Str(s.to_owned())
}

/// An array of string values.
pub fn strs_to_json(items: &Vec<String>) -> (r: JsonValue)
    ensures
        r matches JsonValue::Arr(a) && a@.len() == items@.len() && (forall|i: int|
            0 <= i < items@.len() ==> a@[i] == JsonValue::Str(items@[i])),
{
    let mut out: Vec<JsonValue> = Vec::new();
    let mut i: usize = 0;
    while i < items.len()
        invariant
            0 <= i <= items@.len(),
            out@.len() == i,
            forall|j: int| 0 <= j < i ==> out@[j] == JsonValue::Str(items@[j]),
        decreases items@.len() - i,
    {
        out.push(JsonValue::Str(items[i].clone()));
        i = i + 1;
    }
    JsonValue::Arr(out)
}

/// Appends one named field to an object's field list.
pub fn push_field(fields: &mut Vec<(String, JsonValue)>, key: &str, v: JsonValue)
    ensures
        final(fields)@.len() == old(fields)@.len() + 1,
        forall|i: int| 0 <= i < old(fields)@.len() ==> final(fields)@[i] == old(fields)@[i],
        final(fields)@.last().0@ == key@,
        final(fields)@.last().1 == v,
{
    fields.push((key.to_owned(), v));
}

} // verus!
