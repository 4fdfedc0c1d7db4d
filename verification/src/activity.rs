//! The activity section: everything the account did, one subject area per
//! subdirectory; several areas are placeholders that are checked but not
//! read.

use vstd::prelude::*;

use crate::comments::{Comments, sp_load_comments};
use crate::common::{ParseError, SpecParseError, StructuralIssue};
use crate::json::{JsonValue, SpecJson, str_eq};
use crate::likes::{Likes, sp_load_likes};
use crate::loader::path_push;
use crate::messages::{Messages, sp_load_msgs};
use crate::saved::{Saved, sp_load_saved};
use crate::schema::opt_json;
use crate::sections::Threads;
use crate::tree::{Folder, Node, SpecNode, lemma_view_entries, view_entries};

verus! {

/// What is wrong with one entry of this folder, if anything.
pub open spec fn sp_act_entry(name: Seq<char>, node: SpecNode, at: Seq<Seq<char>>) -> Option<
    SpecParseError,
> {
    let path = at.push(name);
    match node {
        SpecNode::File(_) => Some(
            SpecParseError::UnexpectedFormat { path, issue: StructuralIssue::ExpectedFolder },
        ),
        SpecNode::Dir(sub) => {
            if name == ("comments")@ {
                match sp_load_comments(sub, path) {
                    Ok(_) => None,
                    Err(e) => Some(e),
                }
            } else if name == ("likes")@ {
                match sp_load_likes(sub, path) {
                    Ok(_) => None,
                    Err(e) => Some(e),
                }
            } else if name == ("messages")@ {
                match sp_load_msgs(sub, path) {
                    Ok(_) => None,
                    Err(e) => Some(e),
                }
            } else if name == ("saved")@ {
                match sp_load_saved(sub, path) {
                    Ok(_) => None,
                    Err(e) => Some(e),
                }
            } else if name == ("content")@ {
                None
            } else if name == ("events")@ {
                None
            } else if name == ("fundraisers")@ {
                None
            } else if name == ("gifts")@ {
                None
            } else if name == ("instagram_live")@ {
                None
            } else if name == ("media")@ {
                None
            } else if name == ("meta_spark")@ {
                None
            } else if name == ("monetization")@ {
                None
            } else if name == ("other_activity")@ {
                None
            } else if name == ("reports")@ {
                None
            } else if name == ("shopping")@ {
                None
            } else if name == ("story_sticker_interactions")@ {
                None
            } else if name == ("subscriptions")@ {
                None
            } else if name == ("threads")@ {
                None
            } else if name == ("avatars_store")@ {
                None
            } else if name == ("story_interactions")@ {
                None
            } else {
                Some(
                    SpecParseError::UnexpectedFormat {
                        path,
                        issue: StructuralIssue::UnexpectedEntry,
                    },
                )
            }
        },
    }
}

/// The first failing entry, in directory order.
pub open spec fn sp_act_first_bad(
    entries: Seq<(Seq<char>, SpecNode)>,
    at: Seq<Seq<char>>,
) -> Option<SpecParseError>
    decreases entries.len(),
{
    if entries.len() == 0 {
        None
    } else {
        match sp_act_entry(entries[0].0, entries[0].1, at) {
            Some(e) => Some(e),
            None => sp_act_first_bad(entries.drop_first(), at),
        }
    }
}

/// The loaded `comments` field, from the last entry named for it.
pub open spec fn sp_act_field_comments(
    entries: Seq<(Seq<char>, SpecNode)>,
    at: Seq<Seq<char>>,
) -> Option<SpecJson>
    decreases entries.len(),
{
    if entries.len() == 0 {
        None
    } else if entries.last().0 == ("comments")@ {
        match entries.last().1 {
            SpecNode::Dir(sub) => match sp_load_comments(sub, at.push(("comments")@)) {
                Ok(j) => Some(j),
                Err(_) => None,
            },
            SpecNode::File(_) => None,
        }
    } else {
        sp_act_field_comments(entries.drop_last(), at)
    }
}

/// The loaded `likes` field, from the last entry named for it.
pub open spec fn sp_act_field_likes(
    entries: Seq<(Seq<char>, SpecNode)>,
    at: Seq<Seq<char>>,
) -> Option<SpecJson>
    decreases entries.len(),
{
    if entries.len() == 0 {
        None
    } else if entries.last().0 == ("likes")@ {
        match entries.last().1 {
            SpecNode::Dir(sub) => match sp_load_likes(sub, at.push(("likes")@)) {
                Ok(j) => Some(j),
                Err(_) => None,
            },
            SpecNode::File(_) => None,
        }
    } else {
        sp_act_field_likes(entries.drop_last(), at)
    }
}

/// The loaded `messages` field, from the last entry named for it.
pub open spec fn sp_act_field_messages(
    entries: Seq<(Seq<char>, SpecNode)>,
    at: Seq<Seq<char>>,
) -> Option<SpecJson>
    decreases entries.len(),
{
    if entries.len() == 0 {
        None
    } else if entries.last().0 == ("messages")@ {
        match entries.last().1 {
            SpecNode::Dir(sub) => match sp_load_msgs(sub, at.push(("messages")@)) {
                Ok(j) => Some(j),
                Err(_) => None,
            },
            SpecNode::File(_) => None,
        }
    } else {
        sp_act_field_messages(entries.drop_last(), at)
    }
}

/// The loaded `saved` field, from the last entry named for it.
pub open spec fn sp_act_field_saved(
    entries: Seq<(Seq<char>, SpecNode)>,
    at: Seq<Seq<char>>,
) -> Option<SpecJson>
    decreases entries.len(),
{
    if entries.len() == 0 {
        None
    } else if entries.last().0 == ("saved")@ {
        match entries.last().1 {
            SpecNode::Dir(sub) => match sp_load_saved(sub, at.push(("saved")@)) {
                Ok(j) => Some(j),
                Err(_) => None,
            },
            SpecNode::File(_) => None,
        }
    } else {
        sp_act_field_saved(entries.drop_last(), at)
    }
}

/// Loads the folder: the aggregate's canonical JSON, or the first error.
#[verifier::opaque]
pub open spec fn sp_load_act(
    entries: Seq<(Seq<char>, SpecNode)>,
    at: Seq<Seq<char>>,
) -> Result<SpecJson, SpecParseError> {
    match sp_act_first_bad(entries, at) {
        Some(e) => Err(e),
        None => Ok(
            SpecJson::Obj(
                seq![
                    (("comments")@, opt_json(sp_act_field_comments(entries, at))),
                    (("likes")@, opt_json(sp_act_field_likes(entries, at))),
                    (("messages")@, opt_json(sp_act_field_messages(entries, at))),
                    (("saved")@, opt_json(sp_act_field_saved(entries, at))),
                    (("threads")@, SpecJson::Null),
                ],
            ),
        ),
    }
}

/// The activity section: comments, likes, messages and saved items.
#[derive(Debug, PartialEq, Eq, Clone)]
pub struct Activity {
    pub comments: Option<Comments>,
    pub likes: Option<Likes>,
    pub messages: Option<Messages>,
    pub saved: Option<Saved>,
    pub threads: Option<Threads>,
}

impl Activity {
    /// The canonical JSON of this section.
    pub open spec fn json_spec(&self) -> SpecJson {
        SpecJson::Obj(
            seq![
                (("comments")@, (match self.comments {
                    Option::None => SpecJson::Null,
                    Option::Some(x) => x.json_spec(),
                })),
                (("likes")@, (match self.likes {
                    Option::None => SpecJson::Null,
                    Option::Some(x) => x.json_spec(),
                })),
                (("messages")@, (match self.messages {
                    Option::None => SpecJson::Null,
                    Option::Some(x) => x.json_spec(),
                })),
                (("saved")@, (match self.saved {
                    Option::None => SpecJson::Null,
                    Option::Some(x) => x.json_spec(),
                })),
                (("threads")@, SpecJson::Null),
            ],
        )
    }

    /// Rebuilds the canonical JSON value of this section.
    pub fn to_json(&self) -> (r: JsonValue)
        ensures
            r@ == self.json_spec(),
    {
        let mut fields: Vec<(String, JsonValue)> = Vec::new();
        fields.push((String::from_str("comments"), match &self.comments { Some(x) => x.to_json(), None => JsonValue::Null }));
        fields.push((String::from_str("likes"), match &self.likes { Some(x) => x.to_json(), None => JsonValue::Null }));
        fields.push((String::from_str("messages"), match &self.messages { Some(x) => x.to_json(), None => JsonValue::Null }));
        fields.push((String::from_str("saved"), match &self.saved { Some(x) => x.to_json(), None => JsonValue::Null }));
        fields.push((String::from_str("threads"), JsonValue::Null));
        let r = JsonValue::Obj(fields);
        proof {
            crate::json::lemma_view_fields(r->Obj_0@);
            assert(r@->Obj_0 =~= self.json_spec()->Obj_0);
        }
        r
    }

    /// Loads this section from its folder, `at` naming the folder from
    /// the archive root.  Every entry must be a directory the table
    /// explains; the first unexplained or failing one aborts the load.
    #[verifier::rlimit(100)]
    pub fn from_folder(dir: &Folder, at: &Vec<String>) -> (r: Result<Self, ParseError>)
        ensures
            match r {
                Ok(s) => sp_load_act(dir@, at.deep_view()) == Ok::<
                    SpecJson,
                    SpecParseError,
                >(s.json_spec()),
                Err(e) => sp_load_act(dir@, at.deep_view()) == Err::<
                    SpecJson,
                    SpecParseError,
                >(e@),
            },
    {
        let ghost ev = dir@;
        let ghost pv = at.deep_view();
        let entries = &dir.entries;
        proof {
                reveal(sp_load_act);
            lemma_view_entries(entries@);
            assert(ev.skip(0) =~= ev);
            assert(ev.take(0) =~= Seq::<(Seq<char>, SpecNode)>::empty());
        }
        let mut comments: Option<Comments> = None;
        let mut likes: Option<Likes> = None;
        let mut messages: Option<Messages> = None;
        let mut saved: Option<Saved> = None;
        let mut i: usize = 0;
        while i < entries.len()
            invariant
                i <= entries@.len(),
                ev == dir@,
                ev == view_entries(entries@),
                ev.len() == entries@.len(),
                pv == at.deep_view(),
                sp_act_first_bad(ev, pv) == sp_act_first_bad(ev.skip(i as int), pv),
                (match comments {
                    Option::None => SpecJson::Null,
                    Option::Some(x) => x.json_spec(),
                }) == opt_json(sp_act_field_comments(ev.take(i as int), pv)),
                (match likes {
                    Option::None => SpecJson::Null,
                    Option::Some(x) => x.json_spec(),
                }) == opt_json(sp_act_field_likes(ev.take(i as int), pv)),
                (match messages {
                    Option::None => SpecJson::Null,
                    Option::Some(x) => x.json_spec(),
                }) == opt_json(sp_act_field_messages(ev.take(i as int), pv)),
                (match saved {
                    Option::None => SpecJson::Null,
                    Option::Some(x) => x.json_spec(),
                }) == opt_json(sp_act_field_saved(ev.take(i as int), pv)),
            decreases entries@.len() - i,
        {
            proof {
                reveal(sp_load_act);
                reveal_strlit("comments");
                reveal_strlit("likes");
                reveal_strlit("messages");
                reveal_strlit("saved");
                reveal_strlit("content");
                reveal_strlit("events");
                reveal_strlit("fundraisers");
                reveal_strlit("gifts");
                reveal_strlit("instagram_live");
                reveal_strlit("media");
                reveal_strlit("meta_spark");
                reveal_strlit("monetization");
                reveal_strlit("other_activity");
                reveal_strlit("reports");
                reveal_strlit("shopping");
                reveal_strlit("story_sticker_interactions");
                reveal_strlit("subscriptions");
                reveal_strlit("threads");
                reveal_strlit("avatars_store");
                reveal_strlit("story_interactions");
                assert(("comments")@[0] == 'c');
                assert(("likes")@[0] == 'l');
                assert(("messages")@[0] == 'm');
                assert(("saved")@[0] == 's');
                assert(("content")@[0] == 'c');
                assert(("events")@[0] == 'e');
                assert(("fundraisers")@[0] == 'f');
                assert(("gifts")@[0] == 'g');
                assert(("instagram_live")@[0] == 'i');
                assert(("media")@[0] == 'm');
                assert(("meta_spark")@[0] == 'm');
                assert(("monetization")@[0] == 'm');
                assert(("other_activity")@[0] == 'o');
                assert(("reports")@[0] == 'r');
                assert(("shopping")@[0] == 's');
                assert(("story_sticker_interactions")@[0] == 's');
                assert(("subscriptions")@[0] == 's');
                assert(("threads")@[0] == 't');
                assert(("avatars_store")@[0] == 'a');
                assert(("story_interactions")@[0] == 's');
                lemma_view_entries(entries@);
                assert(ev[i as int] == (entries@[i as int].name@, entries@[i as int].node@));
                assert(ev.skip(i as int)[0] == ev[i as int]);
                assert(ev.skip(i as int).drop_first() =~= ev.skip(i as int + 1));
                assert(ev.take(i as int + 1).drop_last() =~= ev.take(i as int));
                assert(ev.take(i as int + 1).last() == ev[i as int]);
            }
            let entry = &entries[i];
            proof {
                reveal(sp_load_act);
                assert(entry.name@ == ev[i as int].0);
                assert(entry.node@ == ev[i as int].1);
            }
            let child = path_push(at, &entry.name);
            match &entry.node {
                Node::File(_) => {
                    proof {
                reveal(sp_load_act);
                        let ee = SpecParseError::UnexpectedFormat {
                            path: pv.push(ev[i as int].0),
                            issue: StructuralIssue::ExpectedFolder,
                        };
                        assert(sp_act_entry(ev[i as int].0, ev[i as int].1, pv) == Some(ee));
                        assert(sp_act_first_bad(ev.skip(i as int), pv) == Some(ee));
                    }
                    return Err(
                        ParseError::UnexpectedFormat {
                            path: child,
                            issue: StructuralIssue::ExpectedFolder,
                        },
                    );
                },
                Node::Dir(sub) => {
                    proof {
                reveal(sp_load_act);
                        assert(entry.node@ == SpecNode::Dir(sub@));
                    }
                    if str_eq(entry.name.as_str(), "comments") {
                        match Comments::from_folder(sub, &child) {
                            Ok(x) => {
                                proof {
                reveal(sp_load_act);
                                    assert(sp_act_entry(ev[i as int].0, ev[i as int].1, pv) is None);
                                    assert(sp_act_first_bad(ev.skip(i as int), pv) == sp_act_first_bad(ev.skip(i as int + 1), pv));
                                    assert(sp_act_field_comments(ev.take(i as int + 1), pv) == Some(x.json_spec()));
                                    assert(sp_act_field_likes(ev.take(i as int + 1), pv) == sp_act_field_likes(ev.take(i as int), pv));
                                    assert(sp_act_field_messages(ev.take(i as int + 1), pv) == sp_act_field_messages(ev.take(i as int), pv));
                                    assert(sp_act_field_saved(ev.take(i as int + 1), pv) == sp_act_field_saved(ev.take(i as int), pv));
                                }
                                comments = Some(x);
                            },
                            Err(e) => {
                                proof {
                reveal(sp_load_act);
                                    assert(sp_act_entry(ev[i as int].0, ev[i as int].1, pv) == Some(e@));
                                    assert(sp_act_first_bad(ev.skip(i as int), pv) == Some(e@));
                                }
                                return Err(e);
                            },
                        }
                    } else if str_eq(entry.name.as_str(), "likes") {
                        match Likes::from_folder(sub, &child) {
                            Ok(x) => {
                                proof {
                reveal(sp_load_act);
                                    assert(sp_act_entry(ev[i as int].0, ev[i as int].1, pv) is None);
                                    assert(sp_act_first_bad(ev.skip(i as int), pv) == sp_act_first_bad(ev.skip(i as int + 1), pv));
                                    assert(sp_act_field_likes(ev.take(i as int + 1), pv) == Some(x.json_spec()));
                                    assert(sp_act_field_comments(ev.take(i as int + 1), pv) == sp_act_field_comments(ev.take(i as int), pv));
                                    assert(sp_act_field_messages(ev.take(i as int + 1), pv) == sp_act_field_messages(ev.take(i as int), pv));
                                    assert(sp_act_field_saved(ev.take(i as int + 1), pv) == sp_act_field_saved(ev.take(i as int), pv));
                                }
                                likes = Some(x);
                            },
                            Err(e) => {
                                proof {
                reveal(sp_load_act);
                                    assert(sp_act_entry(ev[i as int].0, ev[i as int].1, pv) == Some(e@));
                                    assert(sp_act_first_bad(ev.skip(i as int), pv) == Some(e@));
                                }
                                return Err(e);
                            },
                        }
                    } else if str_eq(entry.name.as_str(), "messages") {
                        match Messages::from_folder(sub, &child) {
                            Ok(x) => {
                                proof {
                reveal(sp_load_act);
                                    assert(sp_act_entry(ev[i as int].0, ev[i as int].1, pv) is None);
                                    assert(sp_act_first_bad(ev.skip(i as int), pv) == sp_act_first_bad(ev.skip(i as int + 1), pv));
                                    assert(sp_act_field_messages(ev.take(i as int + 1), pv) == Some(x.json_spec()));
                                    assert(sp_act_field_comments(ev.take(i as int + 1), pv) == sp_act_field_comments(ev.take(i as int), pv));
                                    assert(sp_act_field_likes(ev.take(i as int + 1), pv) == sp_act_field_likes(ev.take(i as int), pv));
                                    assert(sp_act_field_saved(ev.take(i as int + 1), pv) == sp_act_field_saved(ev.take(i as int), pv));
                                }
                                messages = Some(x);
                            },
                            Err(e) => {
                                proof {
                reveal(sp_load_act);
                                    assert(sp_act_entry(ev[i as int].0, ev[i as int].1, pv) == Some(e@));
                                    assert(sp_act_first_bad(ev.skip(i as int), pv) == Some(e@));
                                }
                                return Err(e);
                            },
                        }
                    } else if str_eq(entry.name.as_str(), "saved") {
                        match Saved::from_folder(sub, &child) {
                            Ok(x) => {
                                proof {
                reveal(sp_load_act);
                                    assert(sp_act_entry(ev[i as int].0, ev[i as int].1, pv) is None);
                                    assert(sp_act_first_bad(ev.skip(i as int), pv) == sp_act_first_bad(ev.skip(i as int + 1), pv));
                                    assert(sp_act_field_saved(ev.take(i as int + 1), pv) == Some(x.json_spec()));
                                    assert(sp_act_field_comments(ev.take(i as int + 1), pv) == sp_act_field_comments(ev.take(i as int), pv));
                                    assert(sp_act_field_likes(ev.take(i as int + 1), pv) == sp_act_field_likes(ev.take(i as int), pv));
                                    assert(sp_act_field_messages(ev.take(i as int + 1), pv) == sp_act_field_messages(ev.take(i as int), pv));
                                }
                                saved = Some(x);
                            },
                            Err(e) => {
                                proof {
                reveal(sp_load_act);
                                    assert(sp_act_entry(ev[i as int].0, ev[i as int].1, pv) == Some(e@));
                                    assert(sp_act_first_bad(ev.skip(i as int), pv) == Some(e@));
                                }
                                return Err(e);
                            },
                        }
                    } else if str_eq(entry.name.as_str(), "content") {
                        proof {
                reveal(sp_load_act);
                            assert(sp_act_entry(ev[i as int].0, ev[i as int].1, pv) is None);
                            assert(sp_act_first_bad(ev.skip(i as int), pv) == sp_act_first_bad(ev.skip(i as int + 1), pv));
                            assert(sp_act_field_comments(ev.take(i as int + 1), pv) == sp_act_field_comments(ev.take(i as int), pv));
                            assert(sp_act_field_likes(ev.take(i as int + 1), pv) == sp_act_field_likes(ev.take(i as int), pv));
                            assert(sp_act_field_messages(ev.take(i as int + 1), pv) == sp_act_field_messages(ev.take(i as int), pv));
                            assert(sp_act_field_saved(ev.take(i as int + 1), pv) == sp_act_field_saved(ev.take(i as int), pv));
                        }
                    } else if str_eq(entry.name.as_str(), "events") {
                        proof {
                reveal(sp_load_act);
                            assert(sp_act_entry(ev[i as int].0, ev[i as int].1, pv) is None);
                            assert(sp_act_first_bad(ev.skip(i as int), pv) == sp_act_first_bad(ev.skip(i as int + 1), pv));
                            assert(sp_act_field_comments(ev.take(i as int + 1), pv) == sp_act_field_comments(ev.take(i as int), pv));
                            assert(sp_act_field_likes(ev.take(i as int + 1), pv) == sp_act_field_likes(ev.take(i as int), pv));
                            assert(sp_act_field_messages(ev.take(i as int + 1), pv) == sp_act_field_messages(ev.take(i as int), pv));
                            assert(sp_act_field_saved(ev.take(i as int + 1), pv) == sp_act_field_saved(ev.take(i as int), pv));
                        }
                    } else if str_eq(entry.name.as_str(), "fundraisers") {
                        proof {
                reveal(sp_load_act);
                            assert(sp_act_entry(ev[i as int].0, ev[i as int].1, pv) is None);
                            assert(sp_act_first_bad(ev.skip(i as int), pv) == sp_act_first_bad(ev.skip(i as int + 1), pv));
                            assert(sp_act_field_comments(ev.take(i as int + 1), pv) == sp_act_field_comments(ev.take(i as int), pv));
                            assert(sp_act_field_likes(ev.take(i as int + 1), pv) == sp_act_field_likes(ev.take(i as int), pv));
                            assert(sp_act_field_messages(ev.take(i as int + 1), pv) == sp_act_field_messages(ev.take(i as int), pv));
                            assert(sp_act_field_saved(ev.take(i as int + 1), pv) == sp_act_field_saved(ev.take(i as int), pv));
                        }
                    } else if str_eq(entry.name.as_str(), "gifts") {
                        proof {
                reveal(sp_load_act);
                            assert(sp_act_entry(ev[i as int].0, ev[i as int].1, pv) is None);
                            assert(sp_act_first_bad(ev.skip(i as int), pv) == sp_act_first_bad(ev.skip(i as int + 1), pv));
                            assert(sp_act_field_comments(ev.take(i as int + 1), pv) == sp_act_field_comments(ev.take(i as int), pv));
                            assert(sp_act_field_likes(ev.take(i as int + 1), pv) == sp_act_field_likes(ev.take(i as int), pv));
                            assert(sp_act_field_messages(ev.take(i as int + 1), pv) == sp_act_field_messages(ev.take(i as int), pv));
                            assert(sp_act_field_saved(ev.take(i as int + 1), pv) == sp_act_field_saved(ev.take(i as int), pv));
                        }
                    } else if str_eq(entry.name.as_str(), "instagram_live") {
                        proof {
                reveal(sp_load_act);
                            assert(sp_act_entry(ev[i as int].0, ev[i as int].1, pv) is None);
                            assert(sp_act_first_bad(ev.skip(i as int), pv) == sp_act_first_bad(ev.skip(i as int + 1), pv));
                            assert(sp_act_field_comments(ev.take(i as int + 1), pv) == sp_act_field_comments(ev.take(i as int), pv));
                            assert(sp_act_field_likes(ev.take(i as int + 1), pv) == sp_act_field_likes(ev.take(i as int), pv));
                            assert(sp_act_field_messages(ev.take(i as int + 1), pv) == sp_act_field_messages(ev.take(i as int), pv));
                            assert(sp_act_field_saved(ev.take(i as int + 1), pv) == sp_act_field_saved(ev.take(i as int), pv));
                        }
                    } else if str_eq(entry.name.as_str(), "media") {
                        proof {
                reveal(sp_load_act);
                            assert(sp_act_entry(ev[i as int].0, ev[i as int].1, pv) is None);
                            assert(sp_act_first_bad(ev.skip(i as int), pv) == sp_act_first_bad(ev.skip(i as int + 1), pv));
                            assert(sp_act_field_comments(ev.take(i as int + 1), pv) == sp_act_field_comments(ev.take(i as int), pv));
                            assert(sp_act_field_likes(ev.take(i as int + 1), pv) == sp_act_field_likes(ev.take(i as int), pv));
                            assert(sp_act_field_messages(ev.take(i as int + 1), pv) == sp_act_field_messages(ev.take(i as int), pv));
                            assert(sp_act_field_saved(ev.take(i as int + 1), pv) == sp_act_field_saved(ev.take(i as int), pv));
                        }
                    } else if str_eq(entry.name.as_str(), "meta_spark") {
                        proof {
                reveal(sp_load_act);
                            assert(sp_act_entry(ev[i as int].0, ev[i as int].1, pv) is None);
                            assert(sp_act_first_bad(ev.skip(i as int), pv) == sp_act_first_bad(ev.skip(i as int + 1), pv));
                            assert(sp_act_field_comments(ev.take(i as int + 1), pv) == sp_act_field_comments(ev.take(i as int), pv));
                            assert(sp_act_field_likes(ev.take(i as int + 1), pv) == sp_act_field_likes(ev.take(i as int), pv));
                            assert(sp_act_field_messages(ev.take(i as int + 1), pv) == sp_act_field_messages(ev.take(i as int), pv));
                            assert(sp_act_field_saved(ev.take(i as int + 1), pv) == sp_act_field_saved(ev.take(i as int), pv));
                        }
                    } else if str_eq(entry.name.as_str(), "monetization") {
                        proof {
                reveal(sp_load_act);
                            assert(sp_act_entry(ev[i as int].0, ev[i as int].1, pv) is None);
                            assert(sp_act_first_bad(ev.skip(i as int), pv) == sp_act_first_bad(ev.skip(i as int + 1), pv));
                            assert(sp_act_field_comments(ev.take(i as int + 1), pv) == sp_act_field_comments(ev.take(i as int), pv));
                            assert(sp_act_field_likes(ev.take(i as int + 1), pv) == sp_act_field_likes(ev.take(i as int), pv));
                            assert(sp_act_field_messages(ev.take(i as int + 1), pv) == sp_act_field_messages(ev.take(i as int), pv));
                            assert(sp_act_field_saved(ev.take(i as int + 1), pv) == sp_act_field_saved(ev.take(i as int), pv));
                        }
                    } else if str_eq(entry.name.as_str(), "other_activity") {
                        proof {
                reveal(sp_load_act);
                            assert(sp_act_entry(ev[i as int].0, ev[i as int].1, pv) is None);
                            assert(sp_act_first_bad(ev.skip(i as int), pv) == sp_act_first_bad(ev.skip(i as int + 1), pv));
                            assert(sp_act_field_comments(ev.take(i as int + 1), pv) == sp_act_field_comments(ev.take(i as int), pv));
                            assert(sp_act_field_likes(ev.take(i as int + 1), pv) == sp_act_field_likes(ev.take(i as int), pv));
                            assert(sp_act_field_messages(ev.take(i as int + 1), pv) == sp_act_field_messages(ev.take(i as int), pv));
                            assert(sp_act_field_saved(ev.take(i as int + 1), pv) == sp_act_field_saved(ev.take(i as int), pv));
                        }
                    } else if str_eq(entry.name.as_str(), "reports") {
                        proof {
                reveal(sp_load_act);
                            assert(sp_act_entry(ev[i as int].0, ev[i as int].1, pv) is None);
                            assert(sp_act_first_bad(ev.skip(i as int), pv) == sp_act_first_bad(ev.skip(i as int + 1), pv));
                            assert(sp_act_field_comments(ev.take(i as int + 1), pv) == sp_act_field_comments(ev.take(i as int), pv));
                            assert(sp_act_field_likes(ev.take(i as int + 1), pv) == sp_act_field_likes(ev.take(i as int), pv));
                            assert(sp_act_field_messages(ev.take(i as int + 1), pv) == sp_act_field_messages(ev.take(i as int), pv));
                            assert(sp_act_field_saved(ev.take(i as int + 1), pv) == sp_act_field_saved(ev.take(i as int), pv));
                        }
                    } else if str_eq(entry.name.as_str(), "shopping") {
                        proof {
                reveal(sp_load_act);
                            assert(sp_act_entry(ev[i as int].0, ev[i as int].1, pv) is None);
                            assert(sp_act_first_bad(ev.skip(i as int), pv) == sp_act_first_bad(ev.skip(i as int + 1), pv));
                            assert(sp_act_field_comments(ev.take(i as int + 1), pv) == sp_act_field_comments(ev.take(i as int), pv));
                            assert(sp_act_field_likes(ev.take(i as int + 1), pv) == sp_act_field_likes(ev.take(i as int), pv));
                            assert(sp_act_field_messages(ev.take(i as int + 1), pv) == sp_act_field_messages(ev.take(i as int), pv));
                            assert(sp_act_field_saved(ev.take(i as int + 1), pv) == sp_act_field_saved(ev.take(i as int), pv));
                        }
                    } else if str_eq(entry.name.as_str(), "story_sticker_interactions") {
                        proof {
                reveal(sp_load_act);
                            assert(sp_act_entry(ev[i as int].0, ev[i as int].1, pv) is None);
                            assert(sp_act_first_bad(ev.skip(i as int), pv) == sp_act_first_bad(ev.skip(i as int + 1), pv));
                            assert(sp_act_field_comments(ev.take(i as int + 1), pv) == sp_act_field_comments(ev.take(i as int), pv));
                            assert(sp_act_field_likes(ev.take(i as int + 1), pv) == sp_act_field_likes(ev.take(i as int), pv));
                            assert(sp_act_field_messages(ev.take(i as int + 1), pv) == sp_act_field_messages(ev.take(i as int), pv));
                            assert(sp_act_field_saved(ev.take(i as int + 1), pv) == sp_act_field_saved(ev.take(i as int), pv));
                        }
                    } else if str_eq(entry.name.as_str(), "subscriptions") {
                        proof {
                reveal(sp_load_act);
                            assert(sp_act_entry(ev[i as int].0, ev[i as int].1, pv) is None);
                            assert(sp_act_first_bad(ev.skip(i as int), pv) == sp_act_first_bad(ev.skip(i as int + 1), pv));
                            assert(sp_act_field_comments(ev.take(i as int + 1), pv) == sp_act_field_comments(ev.take(i as int), pv));
                            assert(sp_act_field_likes(ev.take(i as int + 1), pv) == sp_act_field_likes(ev.take(i as int), pv));
                            assert(sp_act_field_messages(ev.take(i as int + 1), pv) == sp_act_field_messages(ev.take(i as int), pv));
                            assert(sp_act_field_saved(ev.take(i as int + 1), pv) == sp_act_field_saved(ev.take(i as int), pv));
                        }
                    } else if str_eq(entry.name.as_str(), "threads") {
                        proof {
                reveal(sp_load_act);
                            assert(sp_act_entry(ev[i as int].0, ev[i as int].1, pv) is None);
                            assert(sp_act_first_bad(ev.skip(i as int), pv) == sp_act_first_bad(ev.skip(i as int + 1), pv));
                            assert(sp_act_field_comments(ev.take(i as int + 1), pv) == sp_act_field_comments(ev.take(i as int), pv));
                            assert(sp_act_field_likes(ev.take(i as int + 1), pv) == sp_act_field_likes(ev.take(i as int), pv));
                            assert(sp_act_field_messages(ev.take(i as int + 1), pv) == sp_act_field_messages(ev.take(i as int), pv));
                            assert(sp_act_field_saved(ev.take(i as int + 1), pv) == sp_act_field_saved(ev.take(i as int), pv));
                        }
                    } else if str_eq(entry.name.as_str(), "avatars_store") {
                        proof {
                reveal(sp_load_act);
                            assert(sp_act_entry(ev[i as int].0, ev[i as int].1, pv) is None);
                            assert(sp_act_first_bad(ev.skip(i as int), pv) == sp_act_first_bad(ev.skip(i as int + 1), pv));
                            assert(sp_act_field_comments(ev.take(i as int + 1), pv) == sp_act_field_comments(ev.take(i as int), pv));
                            assert(sp_act_field_likes(ev.take(i as int + 1), pv) == sp_act_field_likes(ev.take(i as int), pv));
                            assert(sp_act_field_messages(ev.take(i as int + 1), pv) == sp_act_field_messages(ev.take(i as int), pv));
                            assert(sp_act_field_saved(ev.take(i as int + 1), pv) == sp_act_field_saved(ev.take(i as int), pv));
                        }
                    } else if str_eq(entry.name.as_str(), "story_interactions") {
                        proof {
                reveal(sp_load_act);
                            assert(sp_act_entry(ev[i as int].0, ev[i as int].1, pv) is None);
                            assert(sp_act_first_bad(ev.skip(i as int), pv) == sp_act_first_bad(ev.skip(i as int + 1), pv));
                            assert(sp_act_field_comments(ev.take(i as int + 1), pv) == sp_act_field_comments(ev.take(i as int), pv));
                            assert(sp_act_field_likes(ev.take(i as int + 1), pv) == sp_act_field_likes(ev.take(i as int), pv));
                            assert(sp_act_field_messages(ev.take(i as int + 1), pv) == sp_act_field_messages(ev.take(i as int), pv));
                            assert(sp_act_field_saved(ev.take(i as int + 1), pv) == sp_act_field_saved(ev.take(i as int), pv));
                        }
                    } else {
                        proof {
                reveal(sp_load_act);
                            let ee = SpecParseError::UnexpectedFormat {
                                path: pv.push(ev[i as int].0),
                                issue: StructuralIssue::UnexpectedEntry,
                            };
                            assert(sp_act_entry(ev[i as int].0, ev[i as int].1, pv) == Some(ee));
                            assert(sp_act_first_bad(ev.skip(i as int), pv) == Some(ee));
                        }
                        return Err(
                            ParseError::UnexpectedFormat {
                                path: child,
                                issue: StructuralIssue::UnexpectedEntry,
                            },
                        );
                    }
                },
            }
            i = i + 1;
        }
        proof {
                reveal(sp_load_act);
            assert(ev.take(i as int) =~= ev);
            assert(ev.skip(i as int) =~= Seq::<(Seq<char>, SpecNode)>::empty());
        }
        let threads: Option<Threads> = None;
        let s = Activity { comments, likes, messages, saved, threads };
        proof {
                reveal(sp_load_act);
            let lhs = sp_load_act(ev, pv)->Ok_0->Obj_0;
            let rhs = s.json_spec()->Obj_0;
            assert(lhs =~= rhs);
        }
        Ok(s)
    }
}


} // verus!
