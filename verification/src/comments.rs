//! The comments section: the post- and reel-comment leaf files and their
//! records.
use vstd::prelude::*;

use crate::common::{DeserError, SpecDeserError};
use crate::json::{JsonValue, SpecJson, view_items, lemma_view_items_push};
use crate::record::{JsonRecord, jsons_of, sp_items, parse_items_from, items_to_json, gf_rec,
    gf_opt_rec, gf_rec_arr, gf_opt_rec_arr, sf_rec, sf_opt_rec, sf_rec_arr, sf_opt_rec_arr,
    opt_rec_json};
use crate::schema::{check_keys, spec_check_keys, gf_string, gf_opt_string, gf_u64, gf_opt_u64,
    gf_u32, gf_opt_u32, gf_i32, gf_bool, gf_opt_bool, gf_null_arr, sf_string, sf_opt_string,
    sf_int, sf_opt_int, sf_bool, sf_opt_bool, sf_null_arr, opt_str_json, opt_int_json,
    opt_bool_json, opt_json, nulls};
use crate::shared::{MediaUri, Timestamp, Value};
use crate::common::{ParseError, SpecParseError, StructuralIssue};
use crate::loader::{parse_leaf, path_push, sp_field, sp_leaf};
use crate::json::str_eq;
use crate::tree::{Folder, Node, SpecNode, lemma_view_entries, view_entries};

verus! {

/// The named fields of one comment.
#[derive(Debug, PartialEq, Eq, Clone)]
pub struct CommentData {
    pub comment: Value,
    pub media_owner: Option<Value>,
    pub time: Timestamp,
}

impl JsonRecord for CommentData {
    open spec fn json_spec(&self) -> SpecJson {
        SpecJson::Obj(
            seq![
                (("Comment")@, self.comment.json_spec()),
                (("Media Owner")@, opt_rec_json(self.media_owner)),
                (("Time")@, self.time.json_spec()),
            ],
        )
    }

    open spec fn spec_parse(v: SpecJson) -> Result<SpecJson, SpecDeserError> {
        match v {
            SpecJson::Obj(fields) => match spec_check_keys(fields, seq![("Comment")@, ("Media Owner")@, ("Time")@]) {
                Err(e) => Err(e),
                Ok(_) => match sf_rec::<Value>(fields, ("Comment")@) {
                    Err(e) => Err(e),
                    Ok(comment) => match sf_opt_rec::<Value>(fields, ("Media Owner")@) {
                        Err(e) => Err(e),
                        Ok(media_owner) => match sf_rec::<Timestamp>(fields, ("Time")@) {
                            Err(e) => Err(e),
                            Ok(time) => Ok(
                                SpecJson::Obj(
                                    seq![
                                        (("Comment")@, comment),
                                        (("Media Owner")@, opt_json(media_owner)),
                                        (("Time")@, time),
                                    ],
                                ),
                            ),
                        },
                    },
                },
            },
            _ => Err(SpecDeserError::NotAnObject),
        }
    }

    fn from_json(v: &JsonValue) -> (r: Result<Self, DeserError>) {
        match v {
            JsonValue::Obj(fields) => {
                let allowed: Vec<&str> = vec!["Comment", "Media Owner", "Time"];
                proof {
                    assert(allowed.deep_view() =~= seq![("Comment")@, ("Media Owner")@, ("Time")@]);
                }
                match check_keys(fields, &allowed) {
                    Err(e) => {
                        return Err(e);
                    },
                    Ok(_) => {},
                }
                let comment = match gf_rec::<Value>(fields, "Comment") {
                    Ok(x) => x,
                    Err(e) => {
                        return Err(e);
                    },
                };
                let media_owner = match gf_opt_rec::<Value>(fields, "Media Owner") {
                    Ok(x) => x,
                    Err(e) => {
                        return Err(e);
                    },
                };
                let time = match gf_rec::<Timestamp>(fields, "Time") {
                    Ok(x) => x,
                    Err(e) => {
                        return Err(e);
                    },
                };
                let rec = CommentData { comment, media_owner, time };
                proof {
                    let lhs = Self::spec_parse(v@)->Ok_0->Obj_0;
                    let rhs = rec.json_spec()->Obj_0;
                    assert(lhs =~= rhs);
                }
                Ok(rec)
            },
            _ => Err(DeserError::NotAnObject),
        }
    }

    fn to_json(&self) -> (r: JsonValue) {
        let mut fields: Vec<(String, JsonValue)> = Vec::new();
        fields.push((String::from_str("Comment"), self.comment.to_json()));
        fields.push((String::from_str("Media Owner"), match &self.media_owner { Some(x) => x.to_json(), None => JsonValue::Null }));
        fields.push((String::from_str("Time"), self.time.to_json()));
        let r = JsonValue::Obj(fields);
        proof {
            crate::json::lemma_view_fields(r->Obj_0@);
            assert(r@->Obj_0 =~= self.json_spec()->Obj_0);
        }
        r
    }
}

/// One comment left on a post.
#[derive(Debug, PartialEq, Eq, Clone)]
pub struct PostComment {
    pub media_list_data: Vec<MediaUri>,
    pub string_map_data: CommentData,
}

impl JsonRecord for PostComment {
    open spec fn json_spec(&self) -> SpecJson {
        SpecJson::Obj(
            seq![
                (("media_list_data")@, SpecJson::Arr(jsons_of(self.media_list_data@))),
                (("string_map_data")@, self.string_map_data.json_spec()),
            ],
        )
    }

    open spec fn spec_parse(v: SpecJson) -> Result<SpecJson, SpecDeserError> {
        match v {
            SpecJson::Obj(fields) => match spec_check_keys(fields, seq![("media_list_data")@, ("string_map_data")@]) {
                Err(e) => Err(e),
                Ok(_) => match sf_rec_arr::<MediaUri>(fields, ("media_list_data")@) {
                    Err(e) => Err(e),
                    Ok(media_list_data) => match sf_rec::<CommentData>(fields, ("string_map_data")@) {
                        Err(e) => Err(e),
                        Ok(string_map_data) => Ok(
                            SpecJson::Obj(
                                seq![
                                    (("media_list_data")@, SpecJson::Arr(media_list_data)),
                                    (("string_map_data")@, string_map_data),
                                ],
                            ),
                        ),
                    },
                },
            },
            _ => Err(SpecDeserError::NotAnObject),
        }
    }

    fn from_json(v: &JsonValue) -> (r: Result<Self, DeserError>) {
        match v {
            JsonValue::Obj(fields) => {
                let allowed: Vec<&str> = vec!["media_list_data", "string_map_data"];
                proof {
                    assert(allowed.deep_view() =~= seq![("media_list_data")@, ("string_map_data")@]);
                }
                match check_keys(fields, &allowed) {
                    Err(e) => {
                        return Err(e);
                    },
                    Ok(_) => {},
                }
                let media_list_data = match gf_rec_arr::<MediaUri>(fields, "media_list_data") {
                    Ok(x) => x,
                    Err(e) => {
                        return Err(e);
                    },
                };
                let string_map_data = match gf_rec::<CommentData>(fields, "string_map_data") {
                    Ok(x) => x,
                    Err(e) => {
                        return Err(e);
                    },
                };
                let rec = PostComment { media_list_data, string_map_data };
                proof {
                    let lhs = Self::spec_parse(v@)->Ok_0->Obj_0;
                    let rhs = rec.json_spec()->Obj_0;
                    assert(lhs =~= rhs);
                }
                Ok(rec)
            },
            _ => Err(DeserError::NotAnObject),
        }
    }

    fn to_json(&self) -> (r: JsonValue) {
        let mut fields: Vec<(String, JsonValue)> = Vec::new();
        fields.push((String::from_str("media_list_data"), JsonValue::Arr(items_to_json(&self.media_list_data))));
        fields.push((String::from_str("string_map_data"), self.string_map_data.to_json()));
        let r = JsonValue::Obj(fields);
        proof {
            crate::json::lemma_view_fields(r->Obj_0@);
            assert(r@->Obj_0 =~= self.json_spec()->Obj_0);
        }
        r
    }
}

/// The post-comments leaf file: a bare array of comments.
#[derive(Debug, PartialEq, Eq, Clone)]
pub struct PostComments(pub Vec<PostComment>);

impl JsonRecord for PostComments {
    open spec fn json_spec(&self) -> SpecJson {
        SpecJson::Arr(jsons_of(self.0@))
    }

    open spec fn spec_parse(v: SpecJson) -> Result<SpecJson, SpecDeserError> {
        match v {
            SpecJson::Arr(items) => match sp_items::<PostComment>(items) {
                Err(e) => Err(e),
                Ok(js) => Ok(SpecJson::Arr(js)),
            },
            _ => Err(SpecDeserError::NotAnArray),
        }
    }

    fn from_json(v: &JsonValue) -> (r: Result<Self, DeserError>) {
        match v {
            JsonValue::Arr(items) => {
                proof {
                    assert(view_items(items@).skip(0) =~= view_items(items@));
                }
                match parse_items_from::<PostComment>(items, 0) {
                    Ok(xs) => Ok(PostComments(xs)),
                    Err(e) => Err(e),
                }
            },
            _ => Err(DeserError::NotAnArray),
        }
    }

    fn to_json(&self) -> (r: JsonValue) {
        JsonValue::Arr(items_to_json(&self.0))
    }
}

/// One comment left on a reel.
#[derive(Debug, PartialEq, Eq, Clone)]
pub struct ReelComment {
    pub string_map_data: CommentData,
}

impl JsonRecord for ReelComment {
    open spec fn json_spec(&self) -> SpecJson {
        SpecJson::Obj(
            seq![
                (("string_map_data")@, self.string_map_data.json_spec()),
            ],
        )
    }

    open spec fn spec_parse(v: SpecJson) -> Result<SpecJson, SpecDeserError> {
        match v {
            SpecJson::Obj(fields) => match spec_check_keys(fields, seq![("string_map_data")@]) {
                Err(e) => Err(e),
                Ok(_) => match sf_rec::<CommentData>(fields, ("string_map_data")@) {
                    Err(e) => Err(e),
                    Ok(string_map_data) => Ok(
                        SpecJson::Obj(
                            seq![
                                (("string_map_data")@, string_map_data),
                            ],
                        ),
                    ),
                },
            },
            _ => Err(SpecDeserError::NotAnObject),
        }
    }

    fn from_json(v: &JsonValue) -> (r: Result<Self, DeserError>) {
        match v {
            JsonValue::Obj(fields) => {
                let allowed: Vec<&str> = vec!["string_map_data"];
                proof {
                    assert(allowed.deep_view() =~= seq![("string_map_data")@]);
                }
                match check_keys(fields, &allowed) {
                    Err(e) => {
                        return Err(e);
                    },
                    Ok(_) => {},
                }
                let string_map_data = match gf_rec::<CommentData>(fields, "string_map_data") {
                    Ok(x) => x,
                    Err(e) => {
                        return Err(e);
                    },
                };
                let rec = ReelComment { string_map_data };
                proof {
                    let lhs = Self::spec_parse(v@)->Ok_0->Obj_0;
                    let rhs = rec.json_spec()->Obj_0;
                    assert(lhs =~= rhs);
                }
                Ok(rec)
            },
            _ => Err(DeserError::NotAnObject),
        }
    }

    fn to_json(&self) -> (r: JsonValue) {
        let mut fields: Vec<(String, JsonValue)> = Vec::new();
        fields.push((String::from_str("string_map_data"), self.string_map_data.to_json()));
        let r = JsonValue::Obj(fields);
        proof {
            crate::json::lemma_view_fields(r->Obj_0@);
            assert(r@->Obj_0 =~= self.json_spec()->Obj_0);
        }
        r
    }
}

/// The reel-comments leaf file.
#[derive(Debug, PartialEq, Eq, Clone)]
pub struct ReelComments {
    pub comments_reels_comments: Vec<ReelComment>,
}

impl JsonRecord for ReelComments {
    open spec fn json_spec(&self) -> SpecJson {
        SpecJson::Obj(
            seq![
                (("comments_reels_comments")@, SpecJson::Arr(jsons_of(self.comments_reels_comments@))),
            ],
        )
    }

    open spec fn spec_parse(v: SpecJson) -> Result<SpecJson, SpecDeserError> {
        match v {
            SpecJson::Obj(fields) => match spec_check_keys(fields, seq![("comments_reels_comments")@]) {
                Err(e) => Err(e),
                Ok(_) => match sf_rec_arr::<ReelComment>(fields, ("comments_reels_comments")@) {
                    Err(e) => Err(e),
                    Ok(comments_reels_comments) => Ok(
                        SpecJson::Obj(
                            seq![
                                (("comments_reels_comments")@, SpecJson::Arr(comments_reels_comments)),
                            ],
                        ),
                    ),
                },
            },
            _ => Err(SpecDeserError::NotAnObject),
        }
    }

    fn from_json(v: &JsonValue) -> (r: Result<Self, DeserError>) {
        match v {
            JsonValue::Obj(fields) => {
                let allowed: Vec<&str> = vec!["comments_reels_comments"];
                proof {
                    assert(allowed.deep_view() =~= seq![("comments_reels_comments")@]);
                }
                match check_keys(fields, &allowed) {
                    Err(e) => {
                        return Err(e);
                    },
                    Ok(_) => {},
                }
                let comments_reels_comments = match gf_rec_arr::<ReelComment>(fields, "comments_reels_comments") {
                    Ok(x) => x,
                    Err(e) => {
                        return Err(e);
                    },
                };
                let rec = ReelComments { comments_reels_comments };
                proof {
                    let lhs = Self::spec_parse(v@)->Ok_0->Obj_0;
                    let rhs = rec.json_spec()->Obj_0;
                    assert(lhs =~= rhs);
                }
                Ok(rec)
            },
            _ => Err(DeserError::NotAnObject),
        }
    }

    fn to_json(&self) -> (r: JsonValue) {
        let mut fields: Vec<(String, JsonValue)> = Vec::new();
        fields.push((String::from_str("comments_reels_comments"), JsonValue::Arr(items_to_json(&self.comments_reels_comments))));
        let r = JsonValue::Obj(fields);
        proof {
            crate::json::lemma_view_fields(r->Obj_0@);
            assert(r@->Obj_0 =~= self.json_spec()->Obj_0);
        }
        r
    }
}

/// What is wrong with one entry of the The comments section. folder, if anything.
pub open spec fn sp_comments_entry(name: Seq<char>, node: SpecNode, at: Seq<Seq<char>>) -> Option<
    SpecParseError,
> {
    let path = at.push(name);
    match node {
        SpecNode::Dir(_) => Some(
            SpecParseError::UnexpectedFormat { path, issue: StructuralIssue::ExpectedFile },
        ),
        SpecNode::File(text) => {
            if name == ("post_comments_1.json")@ {
                match sp_leaf::<PostComments>(text, path) {
                    Ok(_) => None,
                    Err(e) => Some(e),
                }
            } else if name == ("reels_comments.json")@ {
                match sp_leaf::<ReelComments>(text, path) {
                    Ok(_) => None,
                    Err(e) => Some(e),
                }
            } else {
                Some(
                    SpecParseError::UnexpectedFormat {
                        path,
                        issue: StructuralIssue::UnexpectedEntry,
                    },
                )
            }
        },
    }
}

/// The first failing entry, in directory order.
pub open spec fn sp_comments_first_bad(
    entries: Seq<(Seq<char>, SpecNode)>,
    at: Seq<Seq<char>>,
) -> Option<SpecParseError>
    decreases entries.len(),
{
    if entries.len() == 0 {
        None
    } else {
        match sp_comments_entry(entries[0].0, entries[0].1, at) {
            Some(e) => Some(e),
            None => sp_comments_first_bad(entries.drop_first(), at),
        }
    }
}

/// Loads the folder: the aggregate's canonical JSON, or the first error.
#[verifier::opaque]
pub open spec fn sp_load_comments(
    entries: Seq<(Seq<char>, SpecNode)>,
    at: Seq<Seq<char>>,
) -> Result<SpecJson, SpecParseError> {
    match sp_comments_first_bad(entries, at) {
        Some(e) => Err(e),
        None => Ok(
            SpecJson::Obj(
                seq![
                    (("post_comments")@, opt_json(sp_field::<PostComments>(entries, ("post_comments_1.json")@, at))),
                    (("reel_comments")@, opt_json(sp_field::<ReelComments>(entries, ("reels_comments.json")@, at))),
                ],
            ),
        ),
    }
}

/// The comments section.
#[derive(Debug, PartialEq, Eq, Clone)]
pub struct Comments {
    pub post_comments: Option<PostComments>,
    pub reel_comments: Option<ReelComments>,
}

impl Comments {
    /// The canonical JSON of this section.
    pub open spec fn json_spec(&self) -> SpecJson {
        SpecJson::Obj(
            seq![
                (("post_comments")@, opt_rec_json(self.post_comments)),
                (("reel_comments")@, opt_rec_json(self.reel_comments)),
            ],
        )
    }

    /// Rebuilds the canonical JSON value of this section.
    pub fn to_json(&self) -> (r: JsonValue)
        ensures
            r@ == self.json_spec(),
    {
        let mut fields: Vec<(String, JsonValue)> = Vec::new();
        fields.push((String::from_str("post_comments"), match &self.post_comments { Some(x) => x.to_json(), None => JsonValue::Null }));
        fields.push((String::from_str("reel_comments"), match &self.reel_comments { Some(x) => x.to_json(), None => JsonValue::Null }));
        let r = JsonValue::Obj(fields);
        proof {
            crate::json::lemma_view_fields(r->Obj_0@);
            assert(r@->Obj_0 =~= self.json_spec()->Obj_0);
        }
        r
    }

    /// Loads this section from its folder, `at` naming the folder from the
    /// archive root.  Every entry must be a recognized leaf file; the first
    /// unexplained entry or bad file aborts the load.
    #[verifier::rlimit(100)]
    pub fn from_folder(dir: &Folder, at: &Vec<String>) -> (r: Result<Self, ParseError>)
        ensures
            match r {
                Ok(s) => sp_load_comments(dir@, at.deep_view()) == Ok::<
                    SpecJson,
                    SpecParseError,
                >(s.json_spec()),
                Err(e) => sp_load_comments(dir@, at.deep_view()) == Err::<
                    SpecJson,
                    SpecParseError,
                >(e@),
            },
    {
        proof {
                reveal(sp_load_comments);
            reveal_strlit("post_comments_1.json");
            reveal_strlit("reels_comments.json");
        }
        let ghost ev = dir@;
        let ghost pv = at.deep_view();
        let entries = &dir.entries;
        proof {
                reveal(sp_load_comments);
            lemma_view_entries(entries@);
            assert(ev.skip(0) =~= ev);
            assert(ev.take(0) =~= Seq::<(Seq<char>, SpecNode)>::empty());
        }
        let mut post_comments: Option<PostComments> = None;
        let mut reel_comments: Option<ReelComments> = None;
        let mut i: usize = 0;
        while i < entries.len()
            invariant
                i <= entries@.len(),
                ev == dir@,
                ev == view_entries(entries@),
                ev.len() == entries@.len(),
                pv == at.deep_view(),
                sp_comments_first_bad(ev, pv) == sp_comments_first_bad(ev.skip(i as int), pv),
                opt_rec_json(post_comments) == opt_json(sp_field::<PostComments>(ev.take(i as int), ("post_comments_1.json")@, pv)),
                opt_rec_json(reel_comments) == opt_json(sp_field::<ReelComments>(ev.take(i as int), ("reels_comments.json")@, pv)),
            decreases entries@.len() - i,
        {
            proof {
                reveal(sp_load_comments);
                reveal_strlit("post_comments_1.json");
                reveal_strlit("reels_comments.json");
                lemma_view_entries(entries@);
                assert(ev[i as int] == (entries@[i as int].name@, entries@[i as int].node@));
                assert(ev.skip(i as int)[0] == ev[i as int]);
                assert(ev.skip(i as int).drop_first() =~= ev.skip(i as int + 1));
                assert(ev.take(i as int + 1).drop_last() =~= ev.take(i as int));
                assert(ev.take(i as int + 1).last() == ev[i as int]);
            }
            let entry = &entries[i];
            proof {
                reveal(sp_load_comments);
                assert(entry.name@ == ev[i as int].0);
                assert(entry.node@ == ev[i as int].1);
            }
            let child = path_push(at, &entry.name);
            match &entry.node {
                Node::Dir(_) => {
                    proof {
                reveal(sp_load_comments);
                        let ee = SpecParseError::UnexpectedFormat {
                            path: pv.push(ev[i as int].0),
                            issue: StructuralIssue::ExpectedFile,
                        };
                        assert(sp_comments_entry(ev[i as int].0, ev[i as int].1, pv) == Some(ee));
                        assert(sp_comments_first_bad(ev.skip(i as int), pv) == Some(ee));
                    }
                    return Err(
                        ParseError::UnexpectedFormat {
                            path: child,
                            issue: StructuralIssue::ExpectedFile,
                        },
                    );
                },
                Node::File(text) => {
                    if str_eq(entry.name.as_str(), "post_comments_1.json") {
                        match parse_leaf::<PostComments>(text.as_str(), child) {
                            Ok(x) => {
                                proof {
                reveal(sp_load_comments);
                                    assert(sp_comments_entry(ev[i as int].0, ev[i as int].1, pv) is None);
                                    assert(sp_comments_first_bad(ev.skip(i as int), pv) == sp_comments_first_bad(ev.skip(i as int + 1), pv));
                                    assert(sp_field::<PostComments>(ev.take(i as int + 1), ("post_comments_1.json")@, pv) == Some(x.json_spec()));
                                    assert(sp_field::<ReelComments>(ev.take(i as int + 1), ("reels_comments.json")@, pv) == sp_field::<ReelComments>(ev.take(i as int), ("reels_comments.json")@, pv));
                                }
                                post_comments = Some(x);
                            },
                            Err(e) => {
                                proof {
                reveal(sp_load_comments);
                                    assert(sp_comments_entry(ev[i as int].0, ev[i as int].1, pv) == Some(e@));
                                    assert(sp_comments_first_bad(ev.skip(i as int), pv) == Some(e@));
                                }
                                return Err(e);
                            },
                        }
                    } else if str_eq(entry.name.as_str(), "reels_comments.json") {
                        match parse_leaf::<ReelComments>(text.as_str(), child) {
                            Ok(x) => {
                                proof {
                reveal(sp_load_comments);
                                    assert(sp_comments_entry(ev[i as int].0, ev[i as int].1, pv) is None);
                                    assert(sp_comments_first_bad(ev.skip(i as int), pv) == sp_comments_first_bad(ev.skip(i as int + 1), pv));
                                    assert(sp_field::<ReelComments>(ev.take(i as int + 1), ("reels_comments.json")@, pv) == Some(x.json_spec()));
                                    assert(sp_field::<PostComments>(ev.take(i as int + 1), ("post_comments_1.json")@, pv) == sp_field::<PostComments>(ev.take(i as int), ("post_comments_1.json")@, pv));
                                }
                                reel_comments = Some(x);
                            },
                            Err(e) => {
                                proof {
                reveal(sp_load_comments);
                                    assert(sp_comments_entry(ev[i as int].0, ev[i as int].1, pv) == Some(e@));
                                    assert(sp_comments_first_bad(ev.skip(i as int), pv) == Some(e@));
                                }
                                return Err(e);
                            },
                        }
                    } else {
                        proof {
                reveal(sp_load_comments);
                            let ee = SpecParseError::UnexpectedFormat {
                                path: pv.push(ev[i as int].0),
                                issue: StructuralIssue::UnexpectedEntry,
                            };
                            assert(sp_comments_entry(ev[i as int].0, ev[i as int].1, pv) == Some(ee));
                            assert(sp_comments_first_bad(ev.skip(i as int), pv) == Some(ee));
                        }
                        return Err(
                            ParseError::UnexpectedFormat {
                                path: child,
                                issue: StructuralIssue::UnexpectedEntry,
                            },
                        );
                    }
                },
            }
            i = i + 1;
        }
        proof {
                reveal(sp_load_comments);
            assert(ev.take(i as int) =~= ev);
            assert(ev.skip(i as int) =~= Seq::<(Seq<char>, SpecNode)>::empty());
        }
        let s = Comments { post_comments, reel_comments };
        proof {
                reveal(sp_load_comments);
            let lhs = sp_load_comments(ev, pv)->Ok_0->Obj_0;
            let rhs = s.json_spec()->Obj_0;
            assert(lhs =~= rhs);
        }
        Ok(s)
    }
}

} // verus!
