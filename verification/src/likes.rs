//! The likes section: the liked-posts and liked-comments leaf files and
//! their records.
use vstd::prelude::*;

use crate::common::{DeserError, SpecDeserError};
use crate::json::{JsonValue, SpecJson, view_items, lemma_view_items_push};
use crate::record::{JsonRecord, jsons_of, sp_items, parse_items_from, items_to_json, gf_rec,
    gf_opt_rec, gf_rec_arr, gf_opt_rec_arr, sf_rec, sf_opt_rec, sf_rec_arr, sf_opt_rec_arr,
    opt_rec_json};
use crate::schema::{check_keys, spec_check_keys, gf_string, gf_opt_string, gf_u64, gf_opt_u64,
    gf_u32, gf_opt_u32, gf_i32, gf_bool, gf_opt_bool, gf_null_arr, sf_string, sf_opt_string,
    sf_int, sf_opt_int, sf_bool, sf_opt_bool, sf_null_arr, opt_str_json, opt_int_json,
    opt_bool_json, opt_json, nulls};
use crate::shared::LinkTimeValueData;
use crate::common::{ParseError, SpecParseError, StructuralIssue};
use crate::loader::{parse_leaf, path_push, sp_field, sp_leaf};
use crate::json::str_eq;
use crate::tree::{Folder, Node, SpecNode, lemma_view_entries, view_entries};

verus! {

/// One liked post or comment.
#[derive(Debug, PartialEq, Eq, Clone)]
pub struct LikedContent {
    pub title: Option<String>,
    pub string_list_data: Vec<LinkTimeValueData>,
}

impl JsonRecord for LikedContent {
    open spec fn json_spec(&self) -> SpecJson {
        SpecJson::Obj(
            seq![
                (("title")@, opt_str_json(self.title.deep_view())),
                (("string_list_data")@, SpecJson::Arr(jsons_of(self.string_list_data@))),
            ],
        )
    }

    open spec fn spec_parse(v: SpecJson) -> Result<SpecJson, SpecDeserError> {
        match v {
            SpecJson::Obj(fields) => match spec_check_keys(fields, seq![("title")@, ("string_list_data")@]) {
                Err(e) => Err(e),
                Ok(_) => match sf_opt_string(fields, ("title")@) {
                    Err(e) => Err(e),
                    Ok(title) => match sf_rec_arr::<LinkTimeValueData>(fields, ("string_list_data")@) {
                        Err(e) => Err(e),
                        Ok(string_list_data) => Ok(
                            SpecJson::Obj(
                                seq![
                                    (("title")@, opt_str_json(title)),
                                    (("string_list_data")@, SpecJson::Arr(string_list_data)),
                                ],
                            ),
                        ),
                    },
                },
            },
            _ => Err(SpecDeserError::NotAnObject),
        }
    }

    fn from_json(v: &JsonValue) -> (r: Result<Self, DeserError>) {
        match v {
            JsonValue::Obj(fields) => {
                let allowed: Vec<&str> = vec!["title", "string_list_data"];
                proof {
                    assert(allowed.deep_view() =~= seq![("title")@, ("string_list_data")@]);
                }
                match check_keys(fields, &allowed) {
                    Err(e) => {
                        return Err(e);
                    },
                    Ok(_) => {},
                }
                let title = match gf_opt_string(fields, "title") {
                    Ok(x) => x,
                    Err(e) => {
                        return Err(e);
                    },
                };
                let string_list_data = match gf_rec_arr::<LinkTimeValueData>(fields, "string_list_data") {
                    Ok(x) => x,
                    Err(e) => {
                        return Err(e);
                    },
                };
                let rec = LikedContent { title, string_list_data };
                proof {
                    let lhs = Self::spec_parse(v@)->Ok_0->Obj_0;
                    let rhs = rec.json_spec()->Obj_0;
                    assert(lhs =~= rhs);
                }
                Ok(rec)
            },
            _ => Err(DeserError::NotAnObject),
        }
    }

    fn to_json(&self) -> (r: JsonValue) {
        let mut fields: Vec<(String, JsonValue)> = Vec::new();
        fields.push((String::from_str("title"), match &self.title { Some(s) => JsonValue::Str(s.clone()), None => JsonValue::Null }));
        fields.push((String::from_str("string_list_data"), JsonValue::Arr(items_to_json(&self.string_list_data))));
        let r = JsonValue::Obj(fields);
        proof {
            crate::json::lemma_view_fields(r->Obj_0@);
            assert(r@->Obj_0 =~= self.json_spec()->Obj_0);
        }
        r
    }
}

/// The liked-comments leaf file.
#[derive(Debug, PartialEq, Eq, Clone)]
pub struct LikedComments {
    pub likes_comment_likes: Vec<LikedContent>,
}

impl JsonRecord for LikedComments {
    open spec fn json_spec(&self) -> SpecJson {
        SpecJson::Obj(
            seq![
                (("likes_comment_likes")@, SpecJson::Arr(jsons_of(self.likes_comment_likes@))),
            ],
        )
    }

    open spec fn spec_parse(v: SpecJson) -> Result<SpecJson, SpecDeserError> {
        match v {
            SpecJson::Obj(fields) => match spec_check_keys(fields, seq![("likes_comment_likes")@]) {
                Err(e) => Err(e),
                Ok(_) => match sf_rec_arr::<LikedContent>(fields, ("likes_comment_likes")@) {
                    Err(e) => Err(e),
                    Ok(likes_comment_likes) => Ok(
                        SpecJson::Obj(
                            seq![
                                (("likes_comment_likes")@, SpecJson::Arr(likes_comment_likes)),
                            ],
                        ),
                    ),
                },
            },
            _ => Err(SpecDeserError::NotAnObject),
        }
    }

    fn from_json(v: &JsonValue) -> (r: Result<Self, DeserError>) {
        match v {
            JsonValue::Obj(fields) => {
                let allowed: Vec<&str> = vec!["likes_comment_likes"];
                proof {
                    assert(allowed.deep_view() =~= seq![("likes_comment_likes")@]);
                }
                match check_keys(fields, &allowed) {
                    Err(e) => {
                        return Err(e);
                    },
                    Ok(_) => {},
                }
                let likes_comment_likes = match gf_rec_arr::<LikedContent>(fields, "likes_comment_likes") {
                    Ok(x) => x,
                    Err(e) => {
                        return Err(e);
                    },
                };
                let rec = LikedComments { likes_comment_likes };
                proof {
                    let lhs = Self::spec_parse(v@)->Ok_0->Obj_0;
                    let rhs = rec.json_spec()->Obj_0;
                    assert(lhs =~= rhs);
                }
                Ok(rec)
            },
            _ => Err(DeserError::NotAnObject),
        }
    }

    fn to_json(&self) -> (r: JsonValue) {
        let mut fields: Vec<(String, JsonValue)> = Vec::new();
        fields.push((String::from_str("likes_comment_likes"), JsonValue::Arr(items_to_json(&self.likes_comment_likes))));
        let r = JsonValue::Obj(fields);
        proof {
            crate::json::lemma_view_fields(r->Obj_0@);
            assert(r@->Obj_0 =~= self.json_spec()->Obj_0);
        }
        r
    }
}

/// The liked-posts leaf file.
#[derive(Debug, PartialEq, Eq, Clone)]
pub struct LikedPosts {
    pub likes_media_likes: Vec<LikedContent>,
}

impl JsonRecord for LikedPosts {
    open spec fn json_spec(&self) -> SpecJson {
        SpecJson::Obj(
            seq![
                (("likes_media_likes")@, SpecJson::Arr(jsons_of(self.likes_media_likes@))),
            ],
        )
    }

    open spec fn spec_parse(v: SpecJson) -> Result<SpecJson, SpecDeserError> {
        match v {
            SpecJson::Obj(fields) => match spec_check_keys(fields, seq![("likes_media_likes")@]) {
                Err(e) => Err(e),
                Ok(_) => match sf_rec_arr::<LikedContent>(fields, ("likes_media_likes")@) {
                    Err(e) => Err(e),
                    Ok(likes_media_likes) => Ok(
                        SpecJson::Obj(
                            seq![
                                (("likes_media_likes")@, SpecJson::Arr(likes_media_likes)),
                            ],
                        ),
                    ),
                },
            },
            _ => Err(SpecDeserError::NotAnObject),
        }
    }

    fn from_json(v: &JsonValue) -> (r: Result<Self, DeserError>) {
        match v {
            JsonValue::Obj(fields) => {
                let allowed: Vec<&str> = vec!["likes_media_likes"];
                proof {
                    assert(allowed.deep_view() =~= seq![("likes_media_likes")@]);
                }
                match check_keys(fields, &allowed) {
                    Err(e) => {
                        return Err(e);
                    },
                    Ok(_) => {},
                }
                let likes_media_likes = match gf_rec_arr::<LikedContent>(fields, "likes_media_likes") {
                    Ok(x) => x,
                    Err(e) => {
                        return Err(e);
                    },
                };
                let rec = LikedPosts { likes_media_likes };
                proof {
                    let lhs = Self::spec_parse(v@)->Ok_0->Obj_0;
                    let rhs = rec.json_spec()->Obj_0;
                    assert(lhs =~= rhs);
                }
                Ok(rec)
            },
            _ => Err(DeserError::NotAnObject),
        }
    }

    fn to_json(&self) -> (r: JsonValue) {
        let mut fields: Vec<(String, JsonValue)> = Vec::new();
        fields.push((String::from_str("likes_media_likes"), JsonValue::Arr(items_to_json(&self.likes_media_likes))));
        let r = JsonValue::Obj(fields);
        proof {
            crate::json::lemma_view_fields(r->Obj_0@);
            assert(r@->Obj_0 =~= self.json_spec()->Obj_0);
        }
        r
    }
}

/// What is wrong with one entry of the The likes section. folder, if anything.
pub open spec fn sp_likes_entry(name: Seq<char>, node: SpecNode, at: Seq<Seq<char>>) -> Option<
    SpecParseError,
> {
    let path = at.push(name);
    match node {
        SpecNode::Dir(_) => Some(
            SpecParseError::UnexpectedFormat { path, issue: StructuralIssue::ExpectedFile },
        ),
        SpecNode::File(text) => {
            if name == ("liked_comments.json")@ {
                match sp_leaf::<LikedComments>(text, path) {
                    Ok(_) => None,
                    Err(e) => Some(e),
                }
            } else if name == ("liked_posts.json")@ {
                match sp_leaf::<LikedPosts>(text, path) {
                    Ok(_) => None,
                    Err(e) => Some(e),
                }
            } else {
                Some(
                    SpecParseError::UnexpectedFormat {
                        path,
                        issue: StructuralIssue::UnexpectedEntry,
                    },
                )
            }
        },
    }
}

/// The first failing entry, in directory order.
pub open spec fn sp_likes_first_bad(
    entries: Seq<(Seq<char>, SpecNode)>,
    at: Seq<Seq<char>>,
) -> Option<SpecParseError>
    decreases entries.len(),
{
    if entries.len() == 0 {
        None
    } else {
        match sp_likes_entry(entries[0].0, entries[0].1, at) {
            Some(e) => Some(e),
            None => sp_likes_first_bad(entries.drop_first(), at),
        }
    }
}

/// Loads the folder: the aggregate's canonical JSON, or the first error.
#[verifier::opaque]
pub open spec fn sp_load_likes(
    entries: Seq<(Seq<char>, SpecNode)>,
    at: Seq<Seq<char>>,
) -> Result<SpecJson, SpecParseError> {
    match sp_likes_first_bad(entries, at) {
        Some(e) => Err(e),
        None => Ok(
            SpecJson::Obj(
                seq![
                    (("liked_comments")@, opt_json(sp_field::<LikedComments>(entries, ("liked_comments.json")@, at))),
                    (("liked_posts")@, opt_json(sp_field::<LikedPosts>(entries, ("liked_posts.json")@, at))),
                ],
            ),
        ),
    }
}

/// The likes section.
#[derive(Debug, PartialEq, Eq, Clone)]
pub struct Likes {
    pub liked_comments: Option<LikedComments>,
    pub liked_posts: Option<LikedPosts>,
}

impl Likes {
    /// The canonical JSON of this section.
    pub open spec fn json_spec(&self) -> SpecJson {
        SpecJson::Obj(
            seq![
                (("liked_comments")@, opt_rec_json(self.liked_comments)),
                (("liked_posts")@, opt_rec_json(self.liked_posts)),
            ],
        )
    }

    /// Rebuilds the canonical JSON value of this section.
    pub fn to_json(&self) -> (r: JsonValue)
        ensures
            r@ == self.json_spec(),
    {
        let mut fields: Vec<(String, JsonValue)> = Vec::new();
        fields.push((String::from_str("liked_comments"), match &self.liked_comments { Some(x) => x.to_json(), None => JsonValue::Null }));
        fields.push((String::from_str("liked_posts"), match &self.liked_posts { Some(x) => x.to_json(), None => JsonValue::Null }));
        let r = JsonValue::Obj(fields);
        proof {
            crate::json::lemma_view_fields(r->Obj_0@);
            assert(r@->Obj_0 =~= self.json_spec()->Obj_0);
        }
        r
    }

    /// Loads this section from its folder, `at` naming the folder from the
    /// archive root.  Every entry must be a recognized leaf file; the first
    /// unexplained entry or bad file aborts the load.
    #[verifier::rlimit(100)]
    pub fn from_folder(dir: &Folder, at: &Vec<String>) -> (r: Result<Self, ParseError>)
        ensures
            match r {
                Ok(s) => sp_load_likes(dir@, at.deep_view()) == Ok::<
                    SpecJson,
                    SpecParseError,
                >(s.json_spec()),
                Err(e) => sp_load_likes(dir@, at.deep_view()) == Err::<
                    SpecJson,
                    SpecParseError,
                >(e@),
            },
    {
        proof {
                reveal(sp_load_likes);
            reveal_strlit("liked_comments.json");
            reveal_strlit("liked_posts.json");
        }
        let ghost ev = dir@;
        let ghost pv = at.deep_view();
        let entries = &dir.entries;
        proof {
                reveal(sp_load_likes);
            lemma_view_entries(entries@);
            assert(ev.skip(0) =~= ev);
            assert(ev.take(0) =~= Seq::<(Seq<char>, SpecNode)>::empty());
        }
        let mut liked_comments: Option<LikedComments> = None;
        let mut liked_posts: Option<LikedPosts> = None;
        let mut i: usize = 0;
        while i < entries.len()
            invariant
                i <= entries@.len(),
                ev == dir@,
                ev == view_entries(entries@),
                ev.len() == entries@.len(),
                pv == at.deep_view(),
                sp_likes_first_bad(ev, pv) == sp_likes_first_bad(ev.skip(i as int), pv),
                opt_rec_json(liked_comments) == opt_json(sp_field::<LikedComments>(ev.take(i as int), ("liked_comments.json")@, pv)),
                opt_rec_json(liked_posts) == opt_json(sp_field::<LikedPosts>(ev.take(i as int), ("liked_posts.json")@, pv)),
            decreases entries@.len() - i,
        {
            proof {
                reveal(sp_load_likes);
                reveal_strlit("liked_comments.json");
                reveal_strlit("liked_posts.json");
                lemma_view_entries(entries@);
                assert(ev[i as int] == (entries@[i as int].name@, entries@[i as int].node@));
                assert(ev.skip(i as int)[0] == ev[i as int]);
                assert(ev.skip(i as int).drop_first() =~= ev.skip(i as int + 1));
                assert(ev.take(i as int + 1).drop_last() =~= ev.take(i as int));
                assert(ev.take(i as int + 1).last() == ev[i as int]);
            }
            let entry = &entries[i];
            proof {
                reveal(sp_load_likes);
                assert(entry.name@ == ev[i as int].0);
                assert(entry.node@ == ev[i as int].1);
            }
            let child = path_push(at, &entry.name);
            match &entry.node {
                Node::Dir(_) => {
                    proof {
                reveal(sp_load_likes);
                        let ee = SpecParseError::UnexpectedFormat {
                            path: pv.push(ev[i as int].0),
                            issue: StructuralIssue::ExpectedFile,
                        };
                        assert(sp_likes_entry(ev[i as int].0, ev[i as int].1, pv) == Some(ee));
                        assert(sp_likes_first_bad(ev.skip(i as int), pv) == Some(ee));
                    }
                    return Err(
                        ParseError::UnexpectedFormat {
                            path: child,
                            issue: StructuralIssue::ExpectedFile,
                        },
                    );
                },
                Node::File(text) => {
                    if str_eq(entry.name.as_str(), "liked_comments.json") {
                        match parse_leaf::<LikedComments>(text.as_str(), child) {
                            Ok(x) => {
                                proof {
                reveal(sp_load_likes);
                                    assert(sp_likes_entry(ev[i as int].0, ev[i as int].1, pv) is None);
                                    assert(sp_likes_first_bad(ev.skip(i as int), pv) == sp_likes_first_bad(ev.skip(i as int + 1), pv));
                                    assert(sp_field::<LikedComments>(ev.take(i as int + 1), ("liked_comments.json")@, pv) == Some(x.json_spec()));
                                    assert(sp_field::<LikedPosts>(ev.take(i as int + 1), ("liked_posts.json")@, pv) == sp_field::<LikedPosts>(ev.take(i as int), ("liked_posts.json")@, pv));
                                }
                                liked_comments = Some(x);
                            },
                            Err(e) => {
                                proof {
                reveal(sp_load_likes);
                                    assert(sp_likes_entry(ev[i as int].0, ev[i as int].1, pv) == Some(e@));
                                    assert(sp_likes_first_bad(ev.skip(i as int), pv) == Some(e@));
                                }
                                return Err(e);
                            },
                        }
                    } else if str_eq(entry.name.as_str(), "liked_posts.json") {
                        match parse_leaf::<LikedPosts>(text.as_str(), child) {
                            Ok(x) => {
                                proof {
                reveal(sp_load_likes);
                                    assert(sp_likes_entry(ev[i as int].0, ev[i as int].1, pv) is None);
                                    assert(sp_likes_first_bad(ev.skip(i as int), pv) == sp_likes_first_bad(ev.skip(i as int + 1), pv));
                                    assert(sp_field::<LikedPosts>(ev.take(i as int + 1), ("liked_posts.json")@, pv) == Some(x.json_spec()));
                                    assert(sp_field::<LikedComments>(ev.take(i as int + 1), ("liked_comments.json")@, pv) == sp_field::<LikedComments>(ev.take(i as int), ("liked_comments.json")@, pv));
                                }
                                liked_posts = Some(x);
                            },
                            Err(e) => {
                                proof {
                reveal(sp_load_likes);
                                    assert(sp_likes_entry(ev[i as int].0, ev[i as int].1, pv) == Some(e@));
                                    assert(sp_likes_first_bad(ev.skip(i as int), pv) == Some(e@));
                                }
                                return Err(e);
                            },
                        }
                    } else {
                        proof {
                reveal(sp_load_likes);
                            let ee = SpecParseError::UnexpectedFormat {
                                path: pv.push(ev[i as int].0),
                                issue: StructuralIssue::UnexpectedEntry,
                            };
                            assert(sp_likes_entry(ev[i as int].0, ev[i as int].1, pv) == Some(ee));
                            assert(sp_likes_first_bad(ev.skip(i as int), pv) == Some(ee));
                        }
                        return Err(
                            ParseError::UnexpectedFormat {
                                path: child,
                                issue: StructuralIssue::UnexpectedEntry,
                            },
                        );
                    }
                },
            }
            i = i + 1;
        }
        proof {
                reveal(sp_load_likes);
            assert(ev.take(i as int) =~= ev);
            assert(ev.skip(i as int) =~= Seq::<(Seq<char>, SpecNode)>::empty());
        }
        let s = Likes { liked_comments, liked_posts };
        proof {
                reveal(sp_load_likes);
            let lhs = sp_load_likes(ev, pv)->Ok_0->Obj_0;
            let rhs = s.json_spec()->Obj_0;
            assert(lhs =~= rhs);
        }
        Ok(s)
    }
}

} // verus!
