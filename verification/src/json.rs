//! The JSON document model: an executable value tree, its mathematical view,
//! and helpers shared by the leaf-record schemas.

use vstd::prelude::*;

verus! {

broadcast use vstd::std_specs::vec::group_vec_axioms, vstd::seq::group_seq_axioms;

/// Mathematical model of a JSON document.  Numbers are unbounded integers;
/// the executable tree below keeps them split by sign so that they fit in
/// machine words.
pub enum SpecJson {
    Null,
    Bool(bool),
    Int(int),
    Str(Seq<char>),
    Arr(Seq<SpecJson>),
    Obj(Seq<(Seq<char>, SpecJson)>),
}

/// An executable JSON value.  Only integer numbers are representable: every
/// numeric field of the archive schema is a fixed-width integer, so a
/// fractional number can never be part of a valid document.
#[derive(Debug, PartialEq, Eq)]
pub enum JsonValue {
    Null,
    Bool(bool),
    /// A number that is zero or positive.
    UInt(u64),
    /// A number that is negative (also accepts non-negative `i64` values;
    /// the view erases the distinction).
    Int(i64),
    Str(String),
    Arr(Vec<JsonValue>),
    Obj(Vec<(String, JsonValue)>),
}

/// The views of a sequence of JSON values, element by element.
pub open spec fn view_items(items: Seq<JsonValue>) -> Seq<SpecJson>
    decreases items, 1int,
{
    if items.len() == 0 {
        Seq::empty()
    } else {
        seq![items[0]@] + view_items(items.drop_first())
    }
}

/// The views of a sequence of JSON object fields, element by element.
pub open spec fn view_fields(fields: Seq<(String, JsonValue)>) -> Seq<(Seq<char>, SpecJson)>
    decreases fields, 1int,
{
    if fields.len() == 0 {
        Seq::empty()
    } else {
        seq![(fields[0].0@, fields[0].1@)] + view_fields(fields.drop_first())
    }
}

impl View for JsonValue {
    type V = SpecJson;

    open spec fn view(&self) -> SpecJson
        decreases self, 0int,
    {
        match self {
            JsonValue::Null => SpecJson::Null,
            JsonValue::Bool(b) => SpecJson::Bool(*b),
            JsonValue::UInt(n) => SpecJson::Int(*n as int),
            JsonValue::Int(n) => SpecJson::Int(*n as int),
            JsonValue::Str(s) => SpecJson::Str(s@),
            JsonValue::Arr(items) => SpecJson::Arr(view_items(items@)),
            JsonValue::Obj(fields) => SpecJson::Obj(view_fields(fields@)),
        }
    }
}

/// `view_items` indexes as the element views.
pub proof fn lemma_view_items(items: Seq<JsonValue>)
    ensures
        view_items(items).len() == items.len(),
        forall|i: int| 0 <= i < items.len() ==> #[trigger] view_items(items)[i] == items[i]@,
    decreases items.len(),
{
    if items.len() > 0 {
        lemma_view_items(items.drop_first());
        assert forall|i: int| 0 <= i < items.len() implies #[trigger] view_items(items)[i]
            == items[i]@ by {
            if i > 0 {
                assert(seq![items[0]@].len() == 1);
                assert(view_items(items) == seq![items[0]@] + view_items(items.drop_first()));
                assert(view_items(items)[i] == view_items(items.drop_first())[i - 1]);
                assert(items.drop_first()[i - 1] == items[i]);
            }
        }
    }
}

/// `view_fields` indexes as the field views.
pub proof fn lemma_view_fields(fields: Seq<(String, JsonValue)>)
    ensures
        view_fields(fields).len() == fields.len(),
        forall|i: int| 0 <= i < fields.len() ==> #[trigger] view_fields(fields)[i] == (
            fields[i].0@,
            fields[i].1@,
        ),
    decreases fields.len(),
{
    if fields.len() > 0 {
        lemma_view_fields(fields.drop_first());
        assert forall|i: int| 0 <= i < fields.len() implies #[trigger] view_fields(fields)[i]
            == (fields[i].0@, fields[i].1@) by {
            if i > 0 {
                assert(seq![(fields[0].0@, fields[0].1@)].len() == 1);
                assert(view_fields(fields) == seq![(fields[0].0@, fields[0].1@)]
                    + view_fields(fields.drop_first()));
                assert(view_fields(fields)[i] == view_fields(fields.drop_first())[i - 1]);
                assert(fields.drop_first()[i - 1] == fields[i]);
            }
        }
    }
}

/// Appending a value commutes with taking views.
pub proof fn lemma_view_items_push(items: Seq<JsonValue>, x: JsonValue)
    ensures
        view_items(items.push(x)) == view_items(items).push(x@),
{
    lemma_view_items(items);
    lemma_view_items(items.push(x));
    assert(view_items(items.push(x)) =~= view_items(items).push(x@));
}

/// Appending a field commutes with taking views.
pub proof fn lemma_view_fields_push(fields: Seq<(String, JsonValue)>, k: String, x: JsonValue)
    ensures
        view_fields(fields.push((k, x))) == view_fields(fields).push((k@, x@)),
{
    lemma_view_fields(fields);
    lemma_view_fields(fields.push((k, x)));
    assert(view_fields(fields.push((k, x))) =~= view_fields(fields).push((k@, x@)));
}

/// Looks a key up in a spec-level JSON object: the value of the first entry
/// whose key matches, as JSON objects with duplicate keys are rejected before
/// any lookup happens.
pub open spec fn spec_obj_get(fields: Seq<(Seq<char>, SpecJson)>, key: Seq<char>) -> Option<SpecJson>
    decreases fields.len(),
{
    if fields.len() == 0 {
        None
    } else if fields[0].0 == key {
        Some(fields[0].1)
    } else {
        spec_obj_get(fields.drop_first(), key)
    }
}

/// True when `fields` contains an entry named `key`.
pub open spec fn spec_obj_has(fields: Seq<(Seq<char>, SpecJson)>, key: Seq<char>) -> bool {
    spec_obj_get(fields, key) is Some
}

/// Compares two string slices by content.
pub fn str_eq(a: &str, b: &str) -> (r: bool)
    ensures
        r == (a@ == b@),
{
    let sa = String::from_str(a);
    let sb = String::from_str(b);
    sa == sb
}

/// The characters of a string slice, as a vector.
pub fn chars_of(s: &str) -> (r: Vec<char>)
    ensures
        r@ == s@,
{
    let n = s.unicode_len();
    let mut out: Vec<char> = Vec::new();
    let mut i: usize = 0;
    while i < n
        invariant
            n == s@.len(),
            i <= n,
            out@ == s@.subrange(0, i as int),
        decreases n - i,
    {
        out.push(s.get_char(i));
        i = i + 1;
        proof {
            assert(out@ =~= s@.subrange(0, i as int));
        }
    }
    proof {
        assert(out@ =~= s@);
    }
    out
}

/// Rebuilds a `String` from a character vector.
/// Relies on `String`'s `FromIterator<char>` impl: collecting characters
/// concatenates them in order.
#[verifier::external_body]
pub fn string_from_chars(v: &Vec<char>) -> (r: String)
    ensures
        r@ == v@,
{
    v.iter().collect()
}

} // verus!
