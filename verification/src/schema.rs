//! Field access for leaf-record schemas: required and optional fields of the
//! supported shapes, the closed-world key check, and the spec-level canonical
//! forms they produce.
//!
//! Every leaf record is read from a JSON object under three rules: a key not
//! declared by the schema is an error, a key declared twice is an error, and
//! a required key that is absent is an error.  Optional fields treat an
//! absent key and a `null` value alike.

use vstd::prelude::*;

use crate::common::{DeserError, SpecDeserError};
use crate::json::{JsonValue, SpecJson, spec_obj_get, spec_obj_has, view_fields, view_items,
    lemma_view_fields, str_eq};

verus! {

broadcast use vstd::std_specs::vec::group_vec_axioms, vstd::seq::group_seq_axioms;

/// A sequence of `n` JSON nulls.
pub open spec fn nulls(n: nat) -> Seq<SpecJson> {
    Seq::new(n, |i: int| SpecJson::Null)
}

/// The canonical JSON of an optional string: `null` when absent.
pub open spec fn opt_str_json(o: Option<Seq<char>>) -> SpecJson {
    match o {
        Option::None => SpecJson::Null,
        Option::Some(s) => SpecJson::Str(s),
    }
}

/// The canonical JSON of an optional integer: `null` when absent.
pub open spec fn opt_int_json(o: Option<int>) -> SpecJson {
    match o {
        Option::None => SpecJson::Null,
        Option::Some(n) => SpecJson::Int(n),
    }
}

/// The canonical JSON of an optional boolean: `null` when absent.
pub open spec fn opt_bool_json(o: Option<bool>) -> SpecJson {
    match o {
        Option::None => SpecJson::Null,
        Option::Some(b) => SpecJson::Bool(b),
    }
}

/// The canonical JSON of an optional canonical value: `null` when absent.
pub open spec fn opt_json(o: Option<SpecJson>) -> SpecJson {
    match o {
        Option::None => SpecJson::Null,
        Option::Some(j) => j,
    }
}

/// The first key of `fields` that appears again later, if any.
pub open spec fn first_dup(fields: Seq<(Seq<char>, SpecJson)>) -> Option<Seq<char>>
    decreases fields.len(),
{
    if fields.len() == 0 {
        None
    } else if spec_obj_has(fields.drop_first(), fields[0].0) {
        Some(fields[0].0)
    } else {
        first_dup(fields.drop_first())
    }
}

/// The first key of `fields` that is not in `allowed`, if any.
pub open spec fn first_unknown(
    fields: Seq<(Seq<char>, SpecJson)>,
    allowed: Seq<Seq<char>>,
) -> Option<Seq<char>>
    decreases fields.len(),
{
    if fields.len() == 0 {
        None
    } else if !allowed.contains(fields[0].0) {
        Some(fields[0].0)
    } else {
        first_unknown(fields.drop_first(), allowed)
    }
}

/// The closed-world key check: duplicates first, then unknown keys.
pub open spec fn spec_check_keys(
    fields: Seq<(Seq<char>, SpecJson)>,
    allowed: Seq<Seq<char>>,
) -> Result<(), SpecDeserError> {
    match first_dup(fields) {
        Some(k) => Err(SpecDeserError::DuplicateField(k)),
        None => match first_unknown(fields, allowed) {
            Some(k) => Err(SpecDeserError::UnknownField(k)),
            None => Ok(()),
        },
    }
}

/// A required field of any shape.
pub open spec fn sf_req(fields: Seq<(Seq<char>, SpecJson)>, key: Seq<char>) -> Result<
    SpecJson,
    SpecDeserError,
> {
    match spec_obj_get(fields, key) {
        None => Err(SpecDeserError::MissingField(key)),
        Some(v) => Ok(v),
    }
}

/// An optional field of any shape: absent or `null` is `None`.
pub open spec fn sf_opt(fields: Seq<(Seq<char>, SpecJson)>, key: Seq<char>) -> Option<SpecJson> {
    match spec_obj_get(fields, key) {
        None => None,
        Some(v) => if v == SpecJson::Null {
            None
        } else {
            Some(v)
        },
    }
}

/// A required string field.
pub open spec fn sf_string(fields: Seq<(Seq<char>, SpecJson)>, key: Seq<char>) -> Result<
    Seq<char>,
    SpecDeserError,
> {
    match sf_req(fields, key) {
        Err(e) => Err(e),
        Ok(v) => match v {
            SpecJson::Str(s) => Ok(s),
            _ => Err(SpecDeserError::WrongType(key)),
        },
    }
}

/// An optional string field.
pub open spec fn sf_opt_string(fields: Seq<(Seq<char>, SpecJson)>, key: Seq<char>) -> Result<
    Option<Seq<char>>,
    SpecDeserError,
> {
    match sf_opt(fields, key) {
        None => Ok(None),
        Some(v) => match v {
            SpecJson::Str(s) => Ok(Some(s)),
            _ => Err(SpecDeserError::WrongType(key)),
        },
    }
}

/// A required integer field within `[lo, hi]`.
pub open spec fn sf_int(
    fields: Seq<(Seq<char>, SpecJson)>,
    key: Seq<char>,
    lo: int,
    hi: int,
) -> Result<int, SpecDeserError> {
    match sf_req(fields, key) {
        Err(e) => Err(e),
        Ok(v) => match v {
            SpecJson::Int(n) => if lo <= n && n <= hi {
                Ok(n)
            } else {
                Err(SpecDeserError::WrongType(key))
            },
            _ => Err(SpecDeserError::WrongType(key)),
        },
    }
}

/// An optional integer field within `[lo, hi]`.
pub open spec fn sf_opt_int(
    fields: Seq<(Seq<char>, SpecJson)>,
    key: Seq<char>,
    lo: int,
    hi: int,
) -> Result<Option<int>, SpecDeserError> {
    match sf_opt(fields, key) {
        None => Ok(None),
        Some(v) => match v {
            SpecJson::Int(n) => if lo <= n && n <= hi {
                Ok(Some(n))
            } else {
                Err(SpecDeserError::WrongType(key))
            },
            _ => Err(SpecDeserError::WrongType(key)),
        },
    }
}

/// A required boolean field.
pub open spec fn sf_bool(fields: Seq<(Seq<char>, SpecJson)>, key: Seq<char>) -> Result<
    bool,
    SpecDeserError,
> {
    match sf_req(fields, key) {
        Err(e) => Err(e),
        Ok(v) => match v {
            SpecJson::Bool(b) => Ok(b),
            _ => Err(SpecDeserError::WrongType(key)),
        },
    }
}

/// An optional boolean field.
pub open spec fn sf_opt_bool(fields: Seq<(Seq<char>, SpecJson)>, key: Seq<char>) -> Result<
    Option<bool>,
    SpecDeserError,
> {
    match sf_opt(fields, key) {
        None => Ok(None),
        Some(v) => match v {
            SpecJson::Bool(b) => Ok(Some(b)),
            _ => Err(SpecDeserError::WrongType(key)),
        },
    }
}

/// A required array field.
pub open spec fn sf_arr(fields: Seq<(Seq<char>, SpecJson)>, key: Seq<char>) -> Result<
    Seq<SpecJson>,
    SpecDeserError,
> {
    match sf_req(fields, key) {
        Err(e) => Err(e),
        Ok(v) => match v {
            SpecJson::Arr(items) => Ok(items),
            _ => Err(SpecDeserError::WrongType(key)),
        },
    }
}

/// A required array field whose elements must all be `null`.
pub open spec fn sf_null_arr(fields: Seq<(Seq<char>, SpecJson)>, key: Seq<char>) -> Result<
    nat,
    SpecDeserError,
> {
    match sf_arr(fields, key) {
        Err(e) => Err(e),
        Ok(items) => if forall|i: int| 0 <= i < items.len() ==> items[i] == SpecJson::Null {
            Ok(items.len())
        } else {
            Err(SpecDeserError::WrongType(key))
        },
    }
}

/// Looks a key up among the fields from `idx` on.
fn obj_get_from<'a>(fields: &'a Vec<(String, JsonValue)>, idx: usize, key: &str) -> (r: Option<
    &'a JsonValue,
>)
    requires
        idx <= fields@.len(),
    ensures
        match r {
            Some(v) => spec_obj_get(view_fields(fields@).skip(idx as int), key@) == Some(v@),
            None => spec_obj_get(view_fields(fields@).skip(idx as int), key@) is None,
        },
    decreases fields@.len() - idx,
{
    proof {
        lemma_view_fields(fields@);
    }
    if idx < fields.len() {
        proof {
            assert(view_fields(fields@).skip(idx as int)[0] == (
                fields@[idx as int].0@,
                fields@[idx as int].1@,
            ));
            assert(view_fields(fields@).skip(idx as int).drop_first() =~= view_fields(
                fields@,
            ).skip(idx as int + 1));
        }
        if str_eq(fields[idx].0.as_str(), key) {
            Some(&fields[idx].1)
        } else {
            obj_get_from(fields, idx + 1, key)
        }
    } else {
        proof {
            assert(view_fields(fields@).skip(idx as int) =~= Seq::<(Seq<char>, SpecJson)>::empty());
        }
        None
    }
}

/// Looks a key up in an object's fields: the first entry with that key.
pub fn obj_get<'a>(fields: &'a Vec<(String, JsonValue)>, key: &str) -> (r: Option<&'a JsonValue>)
    ensures
        match r {
            Some(v) => spec_obj_get(view_fields(fields@), key@) == Some(v@),
            None => spec_obj_get(view_fields(fields@), key@) is None,
        },
{
    let r = obj_get_from(fields, 0, key);
    proof {
        assert(view_fields(fields@).skip(0) =~= view_fields(fields@));
    }
    r
}

/// Whether any field from `idx` on has the given key.
fn has_key_from(fields: &Vec<(String, JsonValue)>, idx: usize, key: &String) -> (r: bool)
    requires
        idx <= fields@.len(),
    ensures
        r == spec_obj_has(view_fields(fields@).skip(idx as int), key@),
    decreases fields@.len() - idx,
{
    proof {
        lemma_view_fields(fields@);
    }
    if idx < fields.len() {
        proof {
            assert(view_fields(fields@).skip(idx as int)[0] == (
                fields@[idx as int].0@,
                fields@[idx as int].1@,
            ));
            assert(view_fields(fields@).skip(idx as int).drop_first() =~= view_fields(
                fields@,
            ).skip(idx as int + 1));
        }
        if str_eq(fields[idx].0.as_str(), key.as_str()) {
            true
        } else {
            has_key_from(fields, idx + 1, key)
        }
    } else {
        proof {
            assert(view_fields(fields@).skip(idx as int) =~= Seq::<(Seq<char>, SpecJson)>::empty());
        }
        false
    }
}

/// The first key from `idx` on that appears again later, if any.
fn dup_from(fields: &Vec<(String, JsonValue)>, idx: usize) -> (r: Option<String>)
    requires
        idx <= fields@.len(),
    ensures
        match r {
            Some(k) => first_dup(view_fields(fields@).skip(idx as int)) == Some(k@),
            None => first_dup(view_fields(fields@).skip(idx as int)) is None,
        },
    decreases fields@.len() - idx,
{
    proof {
        lemma_view_fields(fields@);
    }
    if idx < fields.len() {
        proof {
            assert(view_fields(fields@).skip(idx as int)[0] == (
                fields@[idx as int].0@,
                fields@[idx as int].1@,
            ));
            assert(view_fields(fields@).skip(idx as int).drop_first() =~= view_fields(
                fields@,
            ).skip(idx as int + 1));
        }
        if has_key_from(fields, idx + 1, &fields[idx].0) {
            Some(fields[idx].0.clone())
        } else {
            dup_from(fields, idx + 1)
        }
    } else {
        proof {
            assert(view_fields(fields@).skip(idx as int) =~= Seq::<(Seq<char>, SpecJson)>::empty());
        }
        None
    }
}

/// Whether `key` has the same content as some element of `allowed`.
fn key_allowed(key: &String, allowed: &Vec<&str>) -> (r: bool)
    ensures
        r == allowed.deep_view().contains(key@),
{
    let mut j: usize = 0;
    while j < allowed.len()
        invariant
            j <= allowed@.len(),
            forall|m: int| 0 <= m < j ==> allowed.deep_view()[m] != key@,
        decreases allowed@.len() - j,
    {
        if str_eq(key.as_str(), allowed[j]) {
            proof {
                assert(allowed.deep_view()[j as int] == key@);
            }
            return true;
        }
        j = j + 1;
    }
    proof {
        assert(forall|m: int| 0 <= m < allowed.deep_view().len() ==> allowed.deep_view()[m]
            != key@);
    }
    false
}

/// The first key from `idx` on that is not in `allowed`, if any.
fn unknown_from(fields: &Vec<(String, JsonValue)>, idx: usize, allowed: &Vec<&str>) -> (r: Option<
    String,
>)
    requires
        idx <= fields@.len(),
    ensures
        match r {
            Some(k) => first_unknown(view_fields(fields@).skip(idx as int), allowed.deep_view())
                == Some(k@),
            None => first_unknown(view_fields(fields@).skip(idx as int), allowed.deep_view())
                is None,
        },
    decreases fields@.len() - idx,
{
    proof {
        lemma_view_fields(fields@);
    }
    if idx < fields.len() {
        proof {
            assert(view_fields(fields@).skip(idx as int)[0] == (
                fields@[idx as int].0@,
                fields@[idx as int].1@,
            ));
            assert(view_fields(fields@).skip(idx as int).drop_first() =~= view_fields(
                fields@,
            ).skip(idx as int + 1));
        }
        if !key_allowed(&fields[idx].0, allowed) {
            Some(fields[idx].0.clone())
        } else {
            unknown_from(fields, idx + 1, allowed)
        }
    } else {
        proof {
            assert(view_fields(fields@).skip(idx as int) =~= Seq::<(Seq<char>, SpecJson)>::empty());
        }
        None
    }
}

/// The closed-world key check: every key exactly once and in the schema.
pub fn check_keys(fields: &Vec<(String, JsonValue)>, allowed: &Vec<&str>) -> (r: Result<
    (),
    DeserError,
>)
    ensures
        match r {
            Ok(_) => spec_check_keys(view_fields(fields@), allowed.deep_view()) is Ok,
            Err(e) => spec_check_keys(view_fields(fields@), allowed.deep_view()) == Err::<
                (),
                SpecDeserError,
            >(e@),
        },
{
    proof {
        assert(view_fields(fields@).skip(0) =~= view_fields(fields@));
    }
    match dup_from(fields, 0) {
        Some(k) => Err(DeserError::DuplicateField(k)),
        None => match unknown_from(fields, 0, allowed) {
            Some(k) => Err(DeserError::UnknownField(k)),
            None => Ok(()),
        },
    }
}

/// A required field of any shape.
pub fn gf_req<'a>(fields: &'a Vec<(String, JsonValue)>, key: &str) -> (r: Result<
    &'a JsonValue,
    DeserError,
>)
    ensures
        match r {
            Ok(v) => sf_req(view_fields(fields@), key@) == Ok::<SpecJson, SpecDeserError>(v@),
            Err(e) => sf_req(view_fields(fields@), key@) == Err::<SpecJson, SpecDeserError>(e@),
        },
{
    match obj_get(fields, key) {
        Some(v) => Ok(v),
        None => Err(DeserError::MissingField(String::from_str(key))),
    }
}

/// An optional field of any shape: absent or `null` is `None`.
pub fn gf_opt<'a>(fields: &'a Vec<(String, JsonValue)>, key: &str) -> (r: Option<&'a JsonValue>)
    ensures
        match r {
            Some(v) => sf_opt(view_fields(fields@), key@) == Some(v@),
            None => sf_opt(view_fields(fields@), key@) is None,
        },
{
    match obj_get(fields, key) {
        Some(v) => match v {
            JsonValue::Null => None,
            _ => Some(v),
        },
        None => None,
    }
}

/// A required string field.
pub fn gf_string(fields: &Vec<(String, JsonValue)>, key: &str) -> (r: Result<String, DeserError>)
    ensures
        match r {
            Ok(s) => sf_string(view_fields(fields@), key@) == Ok::<Seq<char>, SpecDeserError>(s@),
            Err(e) => sf_string(view_fields(fields@), key@) == Err::<Seq<char>, SpecDeserError>(
                e@,
            ),
        },
{
    match gf_req(fields, key) {
        Err(e) => Err(e),
        Ok(v) => match v {
            JsonValue::Str(s) => Ok(s.clone()),
            _ => Err(DeserError::WrongType(String::from_str(key))),
        },
    }
}

/// An optional string field.
pub fn gf_opt_string(fields: &Vec<(String, JsonValue)>, key: &str) -> (r: Result<
    Option<String>,
    DeserError,
>)
    ensures
        match r {
            Ok(o) => sf_opt_string(view_fields(fields@), key@) == Ok::<
                Option<Seq<char>>,
                SpecDeserError,
            >(o.deep_view()),
            Err(e) => sf_opt_string(view_fields(fields@), key@) == Err::<
                Option<Seq<char>>,
                SpecDeserError,
            >(e@),
        },
{
    match gf_opt(fields, key) {
        None => Ok(None),
        Some(v) => match v {
            JsonValue::Str(s) => Ok(Some(s.clone())),
            _ => Err(DeserError::WrongType(String::from_str(key))),
        },
    }
}

/// A required `u64` field.
pub fn gf_u64(fields: &Vec<(String, JsonValue)>, key: &str) -> (r: Result<u64, DeserError>)
    ensures
        match r {
            Ok(n) => sf_int(view_fields(fields@), key@, 0, 0xffff_ffff_ffff_ffff) == Ok::<
                int,
                SpecDeserError,
            >(n as int),
            Err(e) => sf_int(view_fields(fields@), key@, 0, 0xffff_ffff_ffff_ffff) == Err::<
                int,
                SpecDeserError,
            >(e@),
        },
{
    match gf_req(fields, key) {
        Err(e) => Err(e),
        Ok(v) => match v {
            JsonValue::UInt(n) => Ok(*n),
            JsonValue::Int(n) => if *n >= 0 {
                Ok(*n as u64)
            } else {
                Err(DeserError::WrongType(String::from_str(key)))
            },
            _ => Err(DeserError::WrongType(String::from_str(key))),
        },
    }
}

/// An optional `u64` field.
pub fn gf_opt_u64(fields: &Vec<(String, JsonValue)>, key: &str) -> (r: Result<
    Option<u64>,
    DeserError,
>)
    ensures
        match r {
            Ok(o) => sf_opt_int(view_fields(fields@), key@, 0, 0xffff_ffff_ffff_ffff) == Ok::<
                Option<int>,
                SpecDeserError,
            >(
                match o {
                    Option::None => None,
                    Option::Some(n) => Some(n as int),
                },
            ),
            Err(e) => sf_opt_int(view_fields(fields@), key@, 0, 0xffff_ffff_ffff_ffff) == Err::<
                Option<int>,
                SpecDeserError,
            >(e@),
        },
{
    match gf_opt(fields, key) {
        None => Ok(None),
        Some(v) => match v {
            JsonValue::UInt(n) => Ok(Some(*n)),
            JsonValue::Int(n) => if *n >= 0 {
                Ok(Some(*n as u64))
            } else {
                Err(DeserError::WrongType(String::from_str(key)))
            },
            _ => Err(DeserError::WrongType(String::from_str(key))),
        },
    }
}

/// A required `u32` field.
pub fn gf_u32(fields: &Vec<(String, JsonValue)>, key: &str) -> (r: Result<u32, DeserError>)
    ensures
        match r {
            Ok(n) => sf_int(view_fields(fields@), key@, 0, 0xffff_ffff) == Ok::<
                int,
                SpecDeserError,
            >(n as int),
            Err(e) => sf_int(view_fields(fields@), key@, 0, 0xffff_ffff) == Err::<
                int,
                SpecDeserError,
            >(e@),
        },
{
    match gf_req(fields, key) {
        Err(e) => Err(e),
        Ok(v) => match v {
            JsonValue::UInt(n) => if *n <= 0xffff_ffff {
                Ok(*n as u32)
            } else {
                Err(DeserError::WrongType(String::from_str(key)))
            },
            JsonValue::Int(n) => if 0 <= *n && *n <= 0xffff_ffff {
                Ok(*n as u32)
            } else {
                Err(DeserError::WrongType(String::from_str(key)))
            },
            _ => Err(DeserError::WrongType(String::from_str(key))),
        },
    }
}

/// An optional `u32` field.
pub fn gf_opt_u32(fields: &Vec<(String, JsonValue)>, key: &str) -> (r: Result<
    Option<u32>,
    DeserError,
>)
    ensures
        match r {
            Ok(o) => sf_opt_int(view_fields(fields@), key@, 0, 0xffff_ffff) == Ok::<
                Option<int>,
                SpecDeserError,
            >(
                match o {
                    Option::None => None,
                    Option::Some(n) => Some(n as int),
                },
            ),
            Err(e) => sf_opt_int(view_fields(fields@), key@, 0, 0xffff_ffff) == Err::<
                Option<int>,
                SpecDeserError,
            >(e@),
        },
{
    match gf_opt(fields, key) {
        None => Ok(None),
        Some(v) => match v {
            JsonValue::UInt(n) => if *n <= 0xffff_ffff {
                Ok(Some(*n as u32))
            } else {
                Err(DeserError::WrongType(String::from_str(key)))
            },
            JsonValue::Int(n) => if 0 <= *n && *n <= 0xffff_ffff {
                Ok(Some(*n as u32))
            } else {
                Err(DeserError::WrongType(String::from_str(key)))
            },
            _ => Err(DeserError::WrongType(String::from_str(key))),
        },
    }
}

/// A required `i32` field.
pub fn gf_i32(fields: &Vec<(String, JsonValue)>, key: &str) -> (r: Result<i32, DeserError>)
    ensures
        match r {
            Ok(n) => sf_int(view_fields(fields@), key@, -0x8000_0000, 0x7fff_ffff) == Ok::<
                int,
                SpecDeserError,
            >(n as int),
            Err(e) => sf_int(view_fields(fields@), key@, -0x8000_0000, 0x7fff_ffff) == Err::<
                int,
                SpecDeserError,
            >(e@),
        },
{
    match gf_req(fields, key) {
        Err(e) => Err(e),
        Ok(v) => match v {
            JsonValue::UInt(n) => if *n <= 0x7fff_ffff {
                Ok(*n as i32)
            } else {
                Err(DeserError::WrongType(String::from_str(key)))
            },
            JsonValue::Int(n) => if -0x8000_0000 <= *n && *n <= 0x7fff_ffff {
                Ok(*n as i32)
            } else {
                Err(DeserError::WrongType(String::from_str(key)))
            },
            _ => Err(DeserError::WrongType(String::from_str(key))),
        },
    }
}

/// A required boolean field.
pub fn gf_bool(fields: &Vec<(String, JsonValue)>, key: &str) -> (r: Result<bool, DeserError>)
    ensures
        match r {
            Ok(b) => sf_bool(view_fields(fields@), key@) == Ok::<bool, SpecDeserError>(b),
            Err(e) => sf_bool(view_fields(fields@), key@) == Err::<bool, SpecDeserError>(e@),
        },
{
    match gf_req(fields, key) {
        Err(e) => Err(e),
        Ok(v) => match v {
            JsonValue::Bool(b) => Ok(*b),
            _ => Err(DeserError::WrongType(String::from_str(key))),
        },
    }
}

/// An optional boolean field.
pub fn gf_opt_bool(fields: &Vec<(String, JsonValue)>, key: &str) -> (r: Result<
    Option<bool>,
    DeserError,
>)
    ensures
        match r {
            Ok(o) => sf_opt_bool(view_fields(fields@), key@) == Ok::<
                Option<bool>,
                SpecDeserError,
            >(o),
            Err(e) => sf_opt_bool(view_fields(fields@), key@) == Err::<
                Option<bool>,
                SpecDeserError,
            >(e@),
        },
{
    match gf_opt(fields, key) {
        None => Ok(None),
        Some(v) => match v {
            JsonValue::Bool(b) => Ok(Some(*b)),
            _ => Err(DeserError::WrongType(String::from_str(key))),
        },
    }
}

/// A required array field.
pub fn gf_arr<'a>(fields: &'a Vec<(String, JsonValue)>, key: &str) -> (r: Result<
    &'a Vec<JsonValue>,
    DeserError,
>)
    ensures
        match r {
            Ok(a) => sf_arr(view_fields(fields@), key@) == Ok::<Seq<SpecJson>, SpecDeserError>(
                view_items(a@),
            ),
            Err(e) => sf_arr(view_fields(fields@), key@) == Err::<Seq<SpecJson>, SpecDeserError>(
                e@,
            ),
        },
{
    match gf_req(fields, key) {
        Err(e) => Err(e),
        Ok(v) => match v {
            JsonValue::Arr(items) => Ok(items),
            _ => Err(DeserError::WrongType(String::from_str(key))),
        },
    }
}

/// A required array field whose elements must all be `null`; yields the
/// element count.
pub fn gf_null_arr(fields: &Vec<(String, JsonValue)>, key: &str) -> (r: Result<usize, DeserError>)
    ensures
        match r {
            Ok(n) => sf_null_arr(view_fields(fields@), key@) == Ok::<nat, SpecDeserError>(
                n as nat,
            ),
            Err(e) => sf_null_arr(view_fields(fields@), key@) == Err::<nat, SpecDeserError>(e@),
        },
{
    match gf_arr(fields, key) {
        Err(e) => Err(e),
        Ok(items) => {
            let mut i: usize = 0;
            while i < items.len()
                invariant
                    i <= items@.len(),
                    sf_arr(view_fields(fields@), key@) == Ok::<Seq<SpecJson>, SpecDeserError>(
                        view_items(items@),
                    ),
                    forall|m: int| 0 <= m < i ==> view_items(items@)[m] == SpecJson::Null,
                decreases items@.len() - i,
            {
                proof {
                    crate::json::lemma_view_items(items@);
                }
                match &items[i] {
                    JsonValue::Null => {},
                    _ => {
                        proof {
                            assert(view_items(items@)[i as int] == items@[i as int]@);
                            assert(view_items(items@)[i as int] != SpecJson::Null);
                        }
                        return Err(DeserError::WrongType(String::from_str(key)));
                    },
                }
                i = i + 1;
            }
            proof {
                crate::json::lemma_view_items(items@);
            }
            Ok(items.len())
        },
    }
}

/// Looking a key up after appending a field: an earlier binding still wins,
/// the appended field answers only for its own, previously absent key.
pub proof fn lemma_obj_get_push(
    fields: Seq<(Seq<char>, SpecJson)>,
    p: (Seq<char>, SpecJson),
    key: Seq<char>,
)
    ensures
        spec_obj_get(fields.push(p), key) == (if spec_obj_has(fields, key) {
            spec_obj_get(fields, key)
        } else if key == p.0 {
            Some(p.1)
        } else {
            None
        }),
    decreases fields.len(),
{
    if fields.len() == 0 {
        assert(fields.push(p)[0] == p);
        assert(fields.push(p).drop_first() =~= Seq::<(Seq<char>, SpecJson)>::empty());
    } else {
        assert(fields.push(p)[0] == fields[0]);
        assert(fields.push(p).drop_first() =~= fields.drop_first().push(p));
        lemma_obj_get_push(fields.drop_first(), p, key);
    }
}

/// Appending a field under a fresh key introduces no duplicate.
pub proof fn lemma_first_dup_push(fields: Seq<(Seq<char>, SpecJson)>, p: (Seq<char>, SpecJson))
    requires
        first_dup(fields) is None,
        !spec_obj_has(fields, p.0),
    ensures
        first_dup(fields.push(p)) is None,
    decreases fields.len(),
{
    if fields.len() == 0 {
        assert(fields.push(p)[0] == p);
        assert(fields.push(p).drop_first() =~= Seq::<(Seq<char>, SpecJson)>::empty());
        assert(!spec_obj_has(fields.push(p).drop_first(), p.0));
        assert(first_dup(fields.push(p).drop_first()) is None);
    } else {
        assert(fields.push(p)[0] == fields[0]);
        assert(fields.push(p).drop_first() =~= fields.drop_first().push(p));
        assert(fields[0].0 != p.0);
        assert(!spec_obj_has(fields.drop_first(), fields[0].0));
        assert(!spec_obj_has(fields.drop_first(), p.0));
        lemma_obj_get_push(fields.drop_first(), p, fields[0].0);
        assert(!spec_obj_has(fields.push(p).drop_first(), fields.push(p)[0].0));
        lemma_first_dup_push(fields.drop_first(), p);
        assert(first_dup(fields.push(p).drop_first()) is None);
    }
}

/// Appending a field under a key of the schema introduces no unknown key.
pub proof fn lemma_first_unknown_push(
    fields: Seq<(Seq<char>, SpecJson)>,
    p: (Seq<char>, SpecJson),
    allowed: Seq<Seq<char>>,
)
    requires
        first_unknown(fields, allowed) is None,
        allowed.contains(p.0),
    ensures
        first_unknown(fields.push(p), allowed) is None,
    decreases fields.len(),
{
    if fields.len() == 0 {
        assert(fields.push(p)[0] == p);
        assert(fields.push(p).drop_first() =~= Seq::<(Seq<char>, SpecJson)>::empty());
        assert(first_unknown(fields.push(p).drop_first(), allowed) is None);
    } else {
        assert(fields.push(p)[0] == fields[0]);
        assert(allowed.contains(fields[0].0));
        assert(fields.push(p).drop_first() =~= fields.drop_first().push(p));
        lemma_first_unknown_push(fields.drop_first(), p, allowed);
        assert(first_unknown(fields.push(p).drop_first(), allowed) is None);
    }
}

} // verus!
