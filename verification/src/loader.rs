//! The generic pieces of the section loaders: reading one leaf file, the
//! last-occurrence field rule, and error paths.
//!
//! A section loader walks its folder's entries in directory-read order,
//! dispatches each entry by exact name, and fails on the first entry the
//! expected-entries table does not explain.  A table entry with no matching
//! directory entry leaves its field unset.

use vstd::prelude::*;

use crate::common::{DeserError, ParseError, SpecDeserError, SpecParseError};
use crate::json::SpecJson;
use crate::json_parse::{parse_json, sp_json};
use crate::record::JsonRecord;
use crate::tree::SpecNode;

verus! {

broadcast use vstd::std_specs::vec::group_vec_axioms, vstd::seq::group_seq_axioms;

/// Reads one leaf file: its text parsed as JSON, then checked against the
/// schema of `X`; the canonical JSON on success, the error naming `path`
/// otherwise.
pub open spec fn sp_leaf<X: JsonRecord>(text: Seq<char>, path: Seq<Seq<char>>) -> Result<
    SpecJson,
    SpecParseError,
> {
    match sp_json(text) {
        None => Err(
            SpecParseError::Deserialization { path, error: SpecDeserError::Syntax },
        ),
        Some(j) => match X::spec_parse(j) {
            Ok(cj) => Ok(cj),
            Err(e) => Err(SpecParseError::Deserialization { path, error: e }),
        },
    }
}

/// The canonical JSON loaded for the entry named `name`, from its last
/// occurrence among `entries`; meaningful only when no entry fails.
pub open spec fn sp_field<X: JsonRecord>(
    entries: Seq<(Seq<char>, SpecNode)>,
    name: Seq<char>,
    at: Seq<Seq<char>>,
) -> Option<SpecJson>
    decreases entries.len(),
{
    if entries.len() == 0 {
        None
    } else if entries.last().0 == name {
        match entries.last().1 {
            SpecNode::File(text) => match sp_leaf::<X>(text, at.push(name)) {
                Ok(j) => Some(j),
                Err(_) => None,
            },
            SpecNode::Dir(_) => None,
        }
    } else {
        sp_field::<X>(entries.drop_last(), name, at)
    }
}

/// Extends an error path by one entry name.
pub fn path_push(at: &Vec<String>, name: &String) -> (r: Vec<String>)
    ensures
        r.deep_view() == at.deep_view().push(name@),
{
    let mut r: Vec<String> = Vec::new();
    let mut i: usize = 0;
    proof {
        assert(r.deep_view() =~= at.deep_view().take(0));
    }
    while i < at.len()
        invariant
            i <= at@.len(),
            r.deep_view() == at.deep_view().take(i as int),
        decreases at@.len() - i,
    {
        let ghost old_r = r@;
        proof {
            assert(r.deep_view().len() == r@.len());
            assert(at.deep_view().len() == at@.len());
            assert(r@.len() == i as int);
        }
        r.push(at[i].clone());
        i = i + 1;
        proof {
            assert(r@.len() == i as int);
            assert(r@[i as int - 1] == at@[i as int - 1]);
            assert(forall|j: int| 0 <= j < i - 1 ==> r@[j] == old_r[j]);
            assert forall|j: int| 0 <= j < i implies r.deep_view()[j] == at.deep_view().take(
                i as int,
            )[j] by {
                if j < i - 1 {
                    assert(r.deep_view()[j] == old_r[j].deep_view());
                    assert(at.deep_view().take(i as int - 1)[j] == at.deep_view()[j]);
                }
            }
            assert(r.deep_view() =~= at.deep_view().take(i as int));
        }
    }
    r.push(name.clone());
    proof {
        assert(at.deep_view().take(at@.len() as int) =~= at.deep_view());
        assert(r.deep_view() =~= at.deep_view().push(name@));
    }
    r
}

/// Reads one leaf file as a record of `X`, charging failures to `path`.
pub fn parse_leaf<X: JsonRecord>(text: &str, path: Vec<String>) -> (r: Result<X, ParseError>)
    ensures
        match r {
            Ok(x) => sp_leaf::<X>(text@, path.deep_view()) == Ok::<SpecJson, SpecParseError>(
                x.json_spec(),
            ),
            Err(e) => sp_leaf::<X>(text@, path.deep_view()) == Err::<SpecJson, SpecParseError>(
                e@,
            ),
        },
{
    match parse_json(text) {
        None => Err(ParseError::Deserialization { path, error: DeserError::Syntax }),
        Some(v) => match X::from_json(&v) {
            Ok(x) => Ok(x),
            Err(e) => Err(ParseError::Deserialization { path, error: e }),
        },
    }
}

} // verus!
