//! The generic request/response envelope.
//!
//! Every call to the carrier wraps one method's properties in the same
//! outbound envelope, and every answer arrives in the same inbound envelope
//! `{success, data, errors, warnings}` whose `data` list carries a
//! method-specific record shape.  This module decodes the inbound envelope:
//! `success=false` becomes a carrier rejection carrying the wire error list,
//! and on success every element of `data` must decode into the expected
//! record, any one failure failing the whole call.

use crate::error::NovaError;
use crate::json::{lemma_lookup_push, lookup_field, JsonValue};
use crate::text::string_eq_str;
use vstd::prelude::*;

verus! {

/// The carrier's inbound envelope with `data` decoded into `T` records.
#[derive(Debug, PartialEq, Eq)]
pub struct NovaResponse<T> {
    pub success: bool,
    pub data: Vec<T>,
    pub errors: Vec<JsonValue>,
    pub warnings: Vec<JsonValue>,
}

/// A record shape that one of the carrier's methods returns in `data`.
pub trait FromJson: Sized {
    /// Whether the record decodes from this value.
    spec fn wf_json(v: JsonValue) -> bool;

    /// Whether `t` is the record that `v` decodes to.
    spec fn json_matches(v: JsonValue, t: Self) -> bool;

    /// Decodes one element of the envelope's `data` list.
    fn from_json(v: &JsonValue) -> (r: Result<Self, NovaError>)
        ensures
            match r {
                Ok(t) => Self::wf_json(*v) && Self::json_matches(*v, t),
                Err(e) => !Self::wf_json(*v) && e is Transport,
            },
    ;
}

/// The envelope's `success` flag, when it is present and boolean.
pub open spec fn envelope_success(env: JsonValue) -> Option<bool> {
    match env.spec_get("success"@) {
        Some(JsonValue::Bool(b)) => Some(b),
        _ => None,
    }
}

/// One of the envelope's list fields, when it is present and a list.
pub open spec fn envelope_list(env: JsonValue, key: Seq<char>) -> Option<Seq<JsonValue>> {
    match env.spec_get(key) {
        Some(JsonValue::Arr(a)) => Some(a@),
        _ => None,
    }
}

/// Whether the value has the envelope's shape: a boolean `success` and the
/// three lists `data`, `errors` and `warnings`.
pub open spec fn wf_envelope(env: JsonValue) -> bool {
    &&& envelope_success(env) is Some
    &&& envelope_list(env, "data"@) is Some
    &&& envelope_list(env, "errors"@) is Some
    &&& envelope_list(env, "warnings"@) is Some
}

/// `a`, unless it is `None`, then `b`.
pub open spec fn or_opt(a: Option<JsonValue>, b: Option<JsonValue>) -> Option<JsonValue> {
    if a is Some {
        a
    } else {
        b
    }
}

/// Moves the four envelope fields out of an object's field list; for each,
/// the first occurrence wins, as a decoder reading front to back would have
/// it.
fn take_envelope_fields(fields: Vec<(String, JsonValue)>) -> (r: (
    Option<JsonValue>,
    Option<JsonValue>,
    Option<JsonValue>,
    Option<JsonValue>,
))
    ensures
        r.0 == lookup_field(fields@, "success"@),
        r.1 == lookup_field(fields@, "data"@),
        r.2 == lookup_field(fields@, "errors"@),
        r.3 == lookup_field(fields@, "warnings"@),
{
    let ghost orig = fields@;
    let mut fields = fields;
    let mut success: Option<JsonValue> = None;
    let mut data: Option<JsonValue> = None;
    let mut errors: Option<JsonValue> = None;
    let mut warnings: Option<JsonValue> = None;
    while fields.len() > 0
        invariant
            lookup_field(orig, "success"@) == or_opt(lookup_field(fields@, "success"@), success),
            lookup_field(orig, "data"@) == or_opt(lookup_field(fields@, "data"@), data),
            lookup_field(orig, "errors"@) == or_opt(lookup_field(fields@, "errors"@), errors),
            lookup_field(orig, "warnings"@) == or_opt(lookup_field(fields@, "warnings"@), warnings),
        decreases fields@.len(),
    {
        let ghost pre = fields@;
        let kv = fields.pop().unwrap();
        proof {
            reveal_strlit("success");
            reveal_strlit("data");
            reveal_strlit("errors");
            reveal_strlit("warnings");
            assert("success"@.len() == 7);
            assert("data"@.len() == 4);
            assert("errors"@.len() == 6);
            assert("warnings"@.len() == 8);
            assert(pre =~= fields@.push(kv));
            lemma_lookup_push(fields@, "success"@, kv);
            lemma_lookup_push(fields@, "data"@, kv);
            lemma_lookup_push(fields@, "errors"@, kv);
            lemma_lookup_push(fields@, "warnings"@, kv);
        }
        if string_eq_str(&kv.0, "success") {
            success = Some(kv.1);
        } else if string_eq_str(&kv.0, "data") {
            data = Some(kv.1);
        } else if string_eq_str(&kv.0, "errors") {
            errors = Some(kv.1);
        } else if string_eq_str(&kv.0, "warnings") {
            warnings = Some(kv.1);
        }
    }
    (success, data, errors, warnings)
}

/// Decodes the carrier's inbound envelope, then every element of `data` as a
/// `T` record.  A malformed envelope or a `data` element the record shape
/// refuses is a transport-kind failure; `success=false` is a carrier
/// rejection carrying the wire error list.
pub fn decode_typed<T: FromJson>(env: JsonValue) -> (r: Result<NovaResponse<T>, NovaError>)
    ensures
        !wf_envelope(env) ==> (r matches Err(e) && e is Transport),
        wf_envelope(env) && envelope_success(env) == Some(false) ==> (r matches Err(e) && (e matches
            NovaError::CarrierRejection { errors } && errors@ == envelope_list(env, "errors"@)->0)),
        wf_envelope(env) && envelope_success(env) == Some(true) && (forall|i: int|
            0 <= i < envelope_list(env, "data"@)->0.len() ==> T::wf_json(
                envelope_list(env, "data"@)->0[i],
            )) ==> (r matches Ok(resp) && {
            &&& resp.success == true
            &&& resp.data@.len() == envelope_list(env, "data"@)->0.len()
            &&& forall|i: int|
                0 <= i < resp.data@.len() ==> T::json_matches(
                    envelope_list(env, "data"@)->0[i],
                    resp.data@[i],
                )
            &&& resp.errors@ == envelope_list(env, "errors"@)->0
            &&& resp.warnings@ == envelope_list(env, "warnings"@)->0
        }),
        wf_envelope(env) && envelope_success(env) == Some(true) && !(forall|i: int|
            0 <= i < envelope_list(env, "data"@)->0.len() ==> T::wf_json(
                envelope_list(env, "data"@)->0[i],
            )) ==> (r matches Err(e) && e is Transport),
{
    match env {
        JsonValue::Obj(fields) => {
            proof {
                assert(env.spec_get("success"@) == lookup_field(fields@, "success"@));
                assert(env.spec_get("data"@) == lookup_field(fields@, "data"@));
                assert(env.spec_get("errors"@) == lookup_field(fields@, "errors"@));
                assert(env.spec_get("warnings"@) == lookup_field(fields@, "warnings"@));
            }
            let (s_v, d_v, e_v, w_v) = take_envelope_fields(fields);
            let success = match s_v {
                Some(JsonValue::Bool(b)) => b,
                _ => {
                    return Err(NovaError::transport("envelope: missing or non-boolean success"));
                },
            };
            let data = match d_v {
                Some(JsonValue::Arr(a)) => a,
                _ => {
                    return Err(NovaError::transport("envelope: missing or non-list data"));
                },
            };
            let errors = match e_v {
                Some(JsonValue::Arr(a)) => a,
                _ => {
                    return Err(NovaError::transport("envelope: missing or non-list errors"));
                },
            };
            let warnings = match w_v {
                Some(JsonValue::Arr(a)) => a,
                _ => {
                    return Err(NovaError::transport("envelope: missing or non-list warnings"));
                },
            };
            if !success {
                return Err(NovaError::CarrierRejection { errors });
            }
            let mut out: Vec<T> = Vec::new();
            let mut i: usize = 0;
            while i < data.len()
                invariant
                    wf_envelope(env),
                    envelope_success(env) == Some(true),
                    envelope_list(env, "data"@) == Some(data@),
                    0 <= i <= data@.len(),
                    out@.len() == i,
                    forall|j: int|
                        0 <= j < i ==> T::wf_json(data@[j]) && T::json_matches(
                            data@[j],
                            out@[j],
                        ),
                decreases data@.len() - i,
            {
                match T::from_json(&data[i]) {
                    Ok(t) => out.push(t),
                    Err(e) => {
                        proof {
                            assert(!T::wf_json(envelope_list(env, "data"@)->0[i as int]));
                        }
                        return Err(e);
                    },
                }
                i = i + 1;
            }
            Ok(NovaResponse { success, data: out, errors, warnings })
        },
        _ => Err(NovaError::transport("envelope: not a JSON object")),
    }
}

impl<T> NovaResponse<T> {
    /// The first record of `data`, the only one most callers need.  A
    /// carrier rejection and a successful search with no matches are
    /// distinct failures; both carry the wire error list.
    pub fn first_or_error(self) -> (r: Result<T, NovaError>)
        ensures
            !self.success ==> (r matches Err(e) && (e matches NovaError::CarrierRejection { errors }
                && errors@ == self.errors@)),
            self.success && self.data@.len() == 0 ==> (r matches Err(e) && (e matches
                NovaError::EmptyResult { errors } && errors@ == self.errors@)),
            self.success && self.data@.len() > 0 ==> (r matches Ok(t) && t == self.data@[0]),
    {
        if !self.success {
            return Err(NovaError::CarrierRejection { errors: self.errors });
        }
        let mut data = self.data;
        if data.len() == 0 {
            Err(NovaError::EmptyResult { errors: self.errors })
        } else {
            Ok(data.remove(0))
        }
    }
}

/// The characters of a string field of an object, when present.
pub open spec fn spec_str_field(v: JsonValue, key: Seq<char>) -> Option<Seq<char>> {
    match v.spec_get(key) {
        Some(JsonValue::Str(s)) => Some(s@),
        _ => None,
    }
}

/// A required string field: present and a string, or a transport failure.
pub fn str_field(v: &JsonValue, key: &str) -> (r: Result<String, NovaError>)
    ensures
        match r {
            Ok(s) => spec_str_field(*v, key@) == Some(s@),
            Err(e) => spec_str_field(*v, key@) is None && e is Transport,
        },
{
    match v.get(key) {
        Some(jv) => match jv {
            JsonValue::Str(s) => Ok(s.clone()),
            _ => Err(NovaError::transport("field is not a string")),
        },
        None => Err(NovaError::transport("missing required field")),
    }
}

/// Whether a field, if present at all, is a string.
pub open spec fn wf_opt_str_field(v: JsonValue, key: Seq<char>) -> bool {
    v.spec_get(key) is None || v.spec_get(key) matches Some(JsonValue::Str(_))
}

/// The characters of an optional string field, empty when absent.
pub open spec fn spec_str_field_or_empty(v: JsonValue, key: Seq<char>) -> Seq<char> {
    match spec_str_field(v, key) {
        Some(s) => s,
        None => Seq::empty(),
    }
}

/// An optional string field: absent decodes to the empty string, a present
/// non-string is a transport failure.
pub fn str_field_or_empty(v: &JsonValue, key: &str) -> (r: Result<String, NovaError>)
    ensures
        match r {
            Ok(s) => wf_opt_str_field(*v, key@) && s@ == spec_str_field_or_empty(*v, key@),
            Err(e) => !wf_opt_str_field(*v, key@) && e is Transport,
        },
{
    match v.get(key) {
        Some(jv) => match jv {
            JsonValue::Str(s) => Ok(s.clone()),
            _ => Err(NovaError::transport("field is not a string")),
        },
        None => Ok(String::new()),
    }
}

/// Whether an integer lies in `i32` range.
pub open spec fn fits_i32(n: int) -> bool {
    i32::MIN <= n <= i32::MAX
}

/// The value of an integer field of an object, when present and integral.
pub open spec fn spec_int_field(v: JsonValue, key: Seq<char>) -> Option<int> {
    match v.spec_get(key) {
        Some(JsonValue::Int(n)) => Some(n as int),
        _ => None,
    }
}

/// A required `i32` field: the carrier sends these as JSON numbers, and a
/// missing field, a non-number or a value out of range refuses the record.
pub fn i32_field(v: &JsonValue, key: &str) -> (r: Result<i32, NovaError>)
    ensures
        match r {
            Ok(n) => spec_int_field(*v, key@) == Some(n as int),
            Err(e) => e is Transport && (spec_int_field(*v, key@) matches Some(m) ==> !fits_i32(
                m,
            )),
        },
{
    match v.get(key) {
        Some(jv) => match jv {
            JsonValue::Int(n) => {
                let n = *n;
                if n < i32::MIN as i64 || n > i32::MAX as i64 {
                    Err(NovaError::transport("numeric field out of range"))
                } else {
                    Ok(n as i32)
                }
            },
            _ => Err(NovaError::transport("field is not a number")),
        },
        None => Err(NovaError::transport("missing required field")),
    }
}

} // verus!
