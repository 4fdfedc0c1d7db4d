//! The leaf-record interface: every typed record of the archive reads from a
//! JSON value under the closed-world rules and rebuilds its canonical JSON,
//! and arrays and nested fields of records are handled once, generically.

use vstd::prelude::*;

use crate::common::{DeserError, SpecDeserError};
use crate::json::{JsonValue, SpecJson, view_items, lemma_view_items, lemma_view_items_push};
use crate::schema::{gf_arr, gf_opt, gf_req, sf_arr, sf_opt, sf_req};

verus! {

broadcast use vstd::std_specs::vec::group_vec_axioms, vstd::seq::group_seq_axioms;

/// A typed record of the archive schema.
///
/// `spec_parse` is the schema itself: the canonical JSON accepted for a
/// value, or the error rejecting it.  `from_json` and `to_json` are bound to
/// it exactly, so the schema has one statement that both directions answer
/// to.
pub trait JsonRecord: Sized {
    /// The canonical JSON of this record: every schema field present, in
    /// declaration order, absent optional fields as `null`.
    spec fn json_spec(&self) -> SpecJson;

    /// The schema: the canonical JSON accepted for `v`, or the rejection.
    spec fn spec_parse(v: SpecJson) -> Result<SpecJson, SpecDeserError>;

    /// Reads one record from a JSON value.
    fn from_json(v: &JsonValue) -> (r: Result<Self, DeserError>)
        ensures
            match r {
                Ok(rec) => Self::spec_parse(v@) == Ok::<SpecJson, SpecDeserError>(
                    rec.json_spec(),
                ),
                Err(e) => Self::spec_parse(v@) == Err::<SpecJson, SpecDeserError>(e@),
            },
    ;

    /// Rebuilds the canonical JSON value of this record.
    fn to_json(&self) -> (r: JsonValue)
        ensures
            r@ == self.json_spec(),
    ;
}

/// The canonical JSONs of a sequence of records.
pub open spec fn jsons_of<X: JsonRecord>(xs: Seq<X>) -> Seq<SpecJson> {
    Seq::new(xs.len(), |i: int| xs[i].json_spec())
}

/// The canonical JSON of an optional record: `null` when absent.
pub open spec fn opt_rec_json<X: JsonRecord>(o: Option<X>) -> SpecJson {
    match o {
        Option::None => SpecJson::Null,
        Option::Some(x) => x.json_spec(),
    }
}

/// Parses each element of a JSON array as a record of `X`.
pub open spec fn sp_items<X: JsonRecord>(items: Seq<SpecJson>) -> Result<
    Seq<SpecJson>,
    SpecDeserError,
>
    decreases items.len(),
{
    if items.len() == 0 {
        Ok(Seq::empty())
    } else {
        match X::spec_parse(items[0]) {
            Err(e) => Err(e),
            Ok(j) => match sp_items::<X>(items.drop_first()) {
                Err(e) => Err(e),
                Ok(rest) => Ok(seq![j] + rest),
            },
        }
    }
}

/// A required array field whose elements are records of `X`.
pub open spec fn sf_rec_arr<X: JsonRecord>(
    fields: Seq<(Seq<char>, SpecJson)>,
    key: Seq<char>,
) -> Result<Seq<SpecJson>, SpecDeserError> {
    match sf_arr(fields, key) {
        Err(e) => Err(e),
        Ok(items) => sp_items::<X>(items),
    }
}

/// An optional array field whose elements are records of `X`.
pub open spec fn sf_opt_rec_arr<X: JsonRecord>(
    fields: Seq<(Seq<char>, SpecJson)>,
    key: Seq<char>,
) -> Result<Option<Seq<SpecJson>>, SpecDeserError> {
    match sf_opt(fields, key) {
        None => Ok(None),
        Some(v) => match v {
            SpecJson::Arr(items) => match sp_items::<X>(items) {
                Err(e) => Err(e),
                Ok(js) => Ok(Some(js)),
            },
            _ => Err(SpecDeserError::WrongType(key)),
        },
    }
}

/// A required field holding one record of `X`.
pub open spec fn sf_rec<X: JsonRecord>(
    fields: Seq<(Seq<char>, SpecJson)>,
    key: Seq<char>,
) -> Result<SpecJson, SpecDeserError> {
    match sf_req(fields, key) {
        Err(e) => Err(e),
        Ok(v) => X::spec_parse(v),
    }
}

/// An optional field holding one record of `X`.
pub open spec fn sf_opt_rec<X: JsonRecord>(
    fields: Seq<(Seq<char>, SpecJson)>,
    key: Seq<char>,
) -> Result<Option<SpecJson>, SpecDeserError> {
    match sf_opt(fields, key) {
        None => Ok(None),
        Some(v) => match X::spec_parse(v) {
            Err(e) => Err(e),
            Ok(j) => Ok(Some(j)),
        },
    }
}

/// Reads the elements from `idx` on as records of `X`.
pub fn parse_items_from<X: JsonRecord>(items: &Vec<JsonValue>, idx: usize) -> (r: Result<
    Vec<X>,
    DeserError,
>)
    requires
        idx <= items@.len(),
    ensures
        match r {
            Ok(out) => sp_items::<X>(view_items(items@).skip(idx as int)) == Ok::<
                Seq<SpecJson>,
                SpecDeserError,
            >(jsons_of(out@)),
            Err(e) => sp_items::<X>(view_items(items@).skip(idx as int)) == Err::<
                Seq<SpecJson>,
                SpecDeserError,
            >(e@),
        },
    decreases items@.len() - idx,
{
    proof {
        lemma_view_items(items@);
    }
    if idx < items.len() {
        proof {
            assert(view_items(items@).skip(idx as int)[0] == items@[idx as int]@);
            assert(view_items(items@).skip(idx as int).drop_first() =~= view_items(items@).skip(
                idx as int + 1,
            ));
        }
        let x = match X::from_json(&items[idx]) {
            Ok(x) => x,
            Err(e) => {
                return Err(e);
            },
        };
        let rest = match parse_items_from::<X>(items, idx + 1) {
            Ok(v) => v,
            Err(e) => {
                return Err(e);
            },
        };
        let mut out = rest;
        out.insert(0, x);
        proof {
            assert(out@ == rest@.insert(0, x));
            assert(out@[0] == x);
            assert(out@.drop_first() =~= rest@);
            assert(forall|i: int| 0 <= i < rest@.len() ==> out@[i + 1] == #[trigger] rest@[i]);
            assert(jsons_of::<X>(out@) =~= seq![x.json_spec()] + jsons_of::<X>(rest@));
        }
        Ok(out)
    } else {
        proof {
            assert(view_items(items@).skip(idx as int) =~= Seq::<SpecJson>::empty());
            assert(jsons_of::<X>(Seq::<X>::empty()) =~= Seq::<SpecJson>::empty());
        }
        Ok(Vec::new())
    }
}

/// A required array field read as records of `X`.
pub fn gf_rec_arr<X: JsonRecord>(fields: &Vec<(String, JsonValue)>, key: &str) -> (r: Result<
    Vec<X>,
    DeserError,
>)
    ensures
        match r {
            Ok(out) => sf_rec_arr::<X>(crate::json::view_fields(fields@), key@) == Ok::<
                Seq<SpecJson>,
                SpecDeserError,
            >(jsons_of(out@)),
            Err(e) => sf_rec_arr::<X>(crate::json::view_fields(fields@), key@) == Err::<
                Seq<SpecJson>,
                SpecDeserError,
            >(e@),
        },
{
    match gf_arr(fields, key) {
        Err(e) => Err(e),
        Ok(items) => {
            proof {
                assert(view_items(items@).skip(0) =~= view_items(items@));
            }
            parse_items_from::<X>(items, 0)
        },
    }
}

/// An optional array field read as records of `X`.
pub fn gf_opt_rec_arr<X: JsonRecord>(fields: &Vec<(String, JsonValue)>, key: &str) -> (r: Result<
    Option<Vec<X>>,
    DeserError,
>)
    ensures
        match r {
            Ok(out) => sf_opt_rec_arr::<X>(crate::json::view_fields(fields@), key@) == Ok::<
                Option<Seq<SpecJson>>,
                SpecDeserError,
            >(
                match out {
                    Option::None => None,
                    Option::Some(v) => Some(jsons_of(v@)),
                },
            ),
            Err(e) => sf_opt_rec_arr::<X>(crate::json::view_fields(fields@), key@) == Err::<
                Option<Seq<SpecJson>>,
                SpecDeserError,
            >(e@),
        },
{
    match gf_opt(fields, key) {
        None => Ok(None),
        Some(v) => match v {
            JsonValue::Arr(items) => {
                proof {
                    assert(view_items(items@).skip(0) =~= view_items(items@));
                }
                match parse_items_from::<X>(items, 0) {
                    Ok(out) => Ok(Some(out)),
                    Err(e) => Err(e),
                }
            },
            _ => Err(DeserError::WrongType(String::from_str(key))),
        },
    }
}

/// A required field read as one record of `X`.
pub fn gf_rec<X: JsonRecord>(fields: &Vec<(String, JsonValue)>, key: &str) -> (r: Result<
    X,
    DeserError,
>)
    ensures
        match r {
            Ok(x) => sf_rec::<X>(crate::json::view_fields(fields@), key@) == Ok::<
                SpecJson,
                SpecDeserError,
            >(x.json_spec()),
            Err(e) => sf_rec::<X>(crate::json::view_fields(fields@), key@) == Err::<
                SpecJson,
                SpecDeserError,
            >(e@),
        },
{
    match gf_req(fields, key) {
        Err(e) => Err(e),
        Ok(v) => X::from_json(v),
    }
}

/// An optional field read as one record of `X`.
pub fn gf_opt_rec<X: JsonRecord>(fields: &Vec<(String, JsonValue)>, key: &str) -> (r: Result<
    Option<X>,
    DeserError,
>)
    ensures
        match r {
            Ok(o) => sf_opt_rec::<X>(crate::json::view_fields(fields@), key@) == Ok::<
                Option<SpecJson>,
                SpecDeserError,
            >(
                match o {
                    Option::None => None,
                    Option::Some(x) => Some(x.json_spec()),
                },
            ),
            Err(e) => sf_opt_rec::<X>(crate::json::view_fields(fields@), key@) == Err::<
                Option<SpecJson>,
                SpecDeserError,
            >(e@),
        },
{
    match gf_opt(fields, key) {
        None => Ok(None),
        Some(v) => match X::from_json(v) {
            Ok(x) => Ok(Some(x)),
            Err(e) => Err(e),
        },
    }
}

/// Rebuilds the JSON array of a vector of records.
pub fn items_to_json<X: JsonRecord>(xs: &Vec<X>) -> (r: Vec<JsonValue>)
    ensures
        view_items(r@) == jsons_of(xs@),
{
    let mut out: Vec<JsonValue> = Vec::new();
    let mut i: usize = 0;
    proof {
        assert(view_items(out@) =~= jsons_of::<X>(xs@).take(0));
    }
    while i < xs.len()
        invariant
            i <= xs@.len(),
            view_items(out@) == jsons_of::<X>(xs@).take(i as int),
        decreases xs@.len() - i,
    {
        let j = xs[i].to_json();
        proof {
            lemma_view_items_push(out@, j);
        }
        out.push(j);
        i = i + 1;
        proof {
            assert(view_items(out@) =~= jsons_of::<X>(xs@).take(i as int));
        }
    }
    proof {
        assert(jsons_of::<X>(xs@).take(xs@.len() as int) =~= jsons_of::<X>(xs@));
    }
    out
}

} // verus!
