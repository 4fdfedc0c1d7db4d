//! The connections section: the contact book and the follow graph.

use vstd::prelude::*;

use crate::common::{ParseError, SpecParseError, StructuralIssue};
use crate::contacts::{Contacts, sp_load_contacts};
use crate::followersnfollowing::{FollowersNFollowing, sp_load_ffn};
use crate::json::{JsonValue, SpecJson, str_eq};
use crate::loader::path_push;
use crate::schema::opt_json;
use crate::tree::{Folder, Node, SpecNode, lemma_view_entries, view_entries};

verus! {

/// What is wrong with one entry of this folder, if anything.
pub open spec fn sp_conn_entry(name: Seq<char>, node: SpecNode, at: Seq<Seq<char>>) -> Option<
    SpecParseError,
> {
    let path = at.push(name);
    match node {
        SpecNode::File(_) => Some(
            SpecParseError::UnexpectedFormat { path, issue: StructuralIssue::ExpectedFolder },
        ),
        SpecNode::Dir(sub) => {
            if name == ("contacts")@ {
                match sp_load_contacts(sub, path) {
                    Ok(_) => None,
                    Err(e) => Some(e),
                }
            } else if name == ("followers_and_following")@ {
                match sp_load_ffn(sub, path) {
                    Ok(_) => None,
                    Err(e) => Some(e),
                }
            } else {
                Some(
                    SpecParseError::UnexpectedFormat {
                        path,
                        issue: StructuralIssue::UnexpectedEntry,
                    },
                )
            }
        },
    }
}

/// The first failing entry, in directory order.
pub open spec fn sp_conn_first_bad(
    entries: Seq<(Seq<char>, SpecNode)>,
    at: Seq<Seq<char>>,
) -> Option<SpecParseError>
    decreases entries.len(),
{
    if entries.len() == 0 {
        None
    } else {
        match sp_conn_entry(entries[0].0, entries[0].1, at) {
            Some(e) => Some(e),
            None => sp_conn_first_bad(entries.drop_first(), at),
        }
    }
}

/// The loaded `contacts` field, from the last entry named for it.
pub open spec fn sp_conn_field_contacts(
    entries: Seq<(Seq<char>, SpecNode)>,
    at: Seq<Seq<char>>,
) -> Option<SpecJson>
    decreases entries.len(),
{
    if entries.len() == 0 {
        None
    } else if entries.last().0 == ("contacts")@ {
        match entries.last().1 {
            SpecNode::Dir(sub) => match sp_load_contacts(sub, at.push(("contacts")@)) {
                Ok(j) => Some(j),
                Err(_) => None,
            },
            SpecNode::File(_) => None,
        }
    } else {
        sp_conn_field_contacts(entries.drop_last(), at)
    }
}

/// The loaded `followers_n_following` field, from the last entry named for it.
pub open spec fn sp_conn_field_followers_n_following(
    entries: Seq<(Seq<char>, SpecNode)>,
    at: Seq<Seq<char>>,
) -> Option<SpecJson>
    decreases entries.len(),
{
    if entries.len() == 0 {
        None
    } else if entries.last().0 == ("followers_and_following")@ {
        match entries.last().1 {
            SpecNode::Dir(sub) => match sp_load_ffn(sub, at.push(("followers_and_following")@)) {
                Ok(j) => Some(j),
                Err(_) => None,
            },
            SpecNode::File(_) => None,
        }
    } else {
        sp_conn_field_followers_n_following(entries.drop_last(), at)
    }
}

/// Loads the folder: the aggregate's canonical JSON, or the first error.
#[verifier::opaque]
pub open spec fn sp_load_conn(
    entries: Seq<(Seq<char>, SpecNode)>,
    at: Seq<Seq<char>>,
) -> Result<SpecJson, SpecParseError> {
    match sp_conn_first_bad(entries, at) {
        Some(e) => Err(e),
        None => Ok(
            SpecJson::Obj(
                seq![
                    (("contacts")@, opt_json(sp_conn_field_contacts(entries, at))),
                    (("followers_n_following")@, opt_json(sp_conn_field_followers_n_following(entries, at))),
                ],
            ),
        ),
    }
}

/// The connections section: contacts and the follow graph.
#[derive(Debug, PartialEq, Eq, Clone)]
pub struct Connections {
    pub contacts: Option<Contacts>,
    pub followers_n_following: Option<FollowersNFollowing>,
}

impl Connections {
    /// The canonical JSON of this section.
    pub open spec fn json_spec(&self) -> SpecJson {
        SpecJson::Obj(
            seq![
                (("contacts")@, (match self.contacts {
                    Option::None => SpecJson::Null,
                    Option::Some(x) => x.json_spec(),
                })),
                (("followers_n_following")@, (match self.followers_n_following {
                    Option::None => SpecJson::Null,
                    Option::Some(x) => x.json_spec(),
                })),
            ],
        )
    }

    /// Rebuilds the canonical JSON value of this section.
    pub fn to_json(&self) -> (r: JsonValue)
        ensures
            r@ == self.json_spec(),
    {
        let mut fields: Vec<(String, JsonValue)> = Vec::new();
        fields.push((String::from_str("contacts"), match &self.contacts { Some(x) => x.to_json(), None => JsonValue::Null }));
        fields.push((String::from_str("followers_n_following"), match &self.followers_n_following { Some(x) => x.to_json(), None => JsonValue::Null }));
        let r = JsonValue::Obj(fields);
        proof {
            crate::json::lemma_view_fields(r->Obj_0@);
            assert(r@->Obj_0 =~= self.json_spec()->Obj_0);
        }
        r
    }

    /// Loads this section from its folder, `at` naming the folder from
    /// the archive root.  Every entry must be a directory the table
    /// explains; the first unexplained or failing one aborts the load.
    #[verifier::rlimit(100)]
    pub fn from_folder(dir: &Folder, at: &Vec<String>) -> (r: Result<Self, ParseError>)
        ensures
            match r {
                Ok(s) => sp_load_conn(dir@, at.deep_view()) == Ok::<
                    SpecJson,
                    SpecParseError,
                >(s.json_spec()),
                Err(e) => sp_load_conn(dir@, at.deep_view()) == Err::<
                    SpecJson,
                    SpecParseError,
                >(e@),
            },
    {
        let ghost ev = dir@;
        let ghost pv = at.deep_view();
        let entries = &dir.entries;
        proof {
                reveal(sp_load_conn);
            lemma_view_entries(entries@);
            assert(ev.skip(0) =~= ev);
            assert(ev.take(0) =~= Seq::<(Seq<char>, SpecNode)>::empty());
        }
        let mut contacts: Option<Contacts> = None;
        let mut followers_n_following: Option<FollowersNFollowing> = None;
        let mut i: usize = 0;
        while i < entries.len()
            invariant
                i <= entries@.len(),
                ev == dir@,
                ev == view_entries(entries@),
                ev.len() == entries@.len(),
                pv == at.deep_view(),
                sp_conn_first_bad(ev, pv) == sp_conn_first_bad(ev.skip(i as int), pv),
                (match contacts {
                    Option::None => SpecJson::Null,
                    Option::Some(x) => x.json_spec(),
                }) == opt_json(sp_conn_field_contacts(ev.take(i as int), pv)),
                (match followers_n_following {
                    Option::None => SpecJson::Null,
                    Option::Some(x) => x.json_spec(),
                }) == opt_json(sp_conn_field_followers_n_following(ev.take(i as int), pv)),
            decreases entries@.len() - i,
        {
            proof {
                reveal(sp_load_conn);
                reveal_strlit("contacts");
                reveal_strlit("followers_and_following");
                lemma_view_entries(entries@);
                assert(ev[i as int] == (entries@[i as int].name@, entries@[i as int].node@));
                assert(ev.skip(i as int)[0] == ev[i as int]);
                assert(ev.skip(i as int).drop_first() =~= ev.skip(i as int + 1));
                assert(ev.take(i as int + 1).drop_last() =~= ev.take(i as int));
                assert(ev.take(i as int + 1).last() == ev[i as int]);
            }
            let entry = &entries[i];
            proof {
                reveal(sp_load_conn);
                assert(entry.name@ == ev[i as int].0);
                assert(entry.node@ == ev[i as int].1);
            }
            let child = path_push(at, &entry.name);
            match &entry.node {
                Node::File(_) => {
                    proof {
                reveal(sp_load_conn);
                        let ee = SpecParseError::UnexpectedFormat {
                            path: pv.push(ev[i as int].0),
                            issue: StructuralIssue::ExpectedFolder,
                        };
                        assert(sp_conn_entry(ev[i as int].0, ev[i as int].1, pv) == Some(ee));
                        assert(sp_conn_first_bad(ev.skip(i as int), pv) == Some(ee));
                    }
                    return Err(
                        ParseError::UnexpectedFormat {
                            path: child,
                            issue: StructuralIssue::ExpectedFolder,
                        },
                    );
                },
                Node::Dir(sub) => {
                    proof {
                reveal(sp_load_conn);
                        assert(entry.node@ == SpecNode::Dir(sub@));
                    }
                    if str_eq(entry.name.as_str(), "contacts") {
                        match Contacts::from_folder(sub, &child) {
                            Ok(x) => {
                                proof {
                reveal(sp_load_conn);
                                    assert(sp_conn_entry(ev[i as int].0, ev[i as int].1, pv) is None);
                                    assert(sp_conn_first_bad(ev.skip(i as int), pv) == sp_conn_first_bad(ev.skip(i as int + 1), pv));
                                    assert(sp_conn_field_contacts(ev.take(i as int + 1), pv) == Some(x.json_spec()));
                                    assert(sp_conn_field_followers_n_following(ev.take(i as int + 1), pv) == sp_conn_field_followers_n_following(ev.take(i as int), pv));
                                }
                                contacts = Some(x);
                            },
                            Err(e) => {
                                proof {
                reveal(sp_load_conn);
                                    assert(sp_conn_entry(ev[i as int].0, ev[i as int].1, pv) == Some(e@));
                                    assert(sp_conn_first_bad(ev.skip(i as int), pv) == Some(e@));
                                }
                                return Err(e);
                            },
                        }
                    } else if str_eq(entry.name.as_str(), "followers_and_following") {
                        match FollowersNFollowing::from_folder(sub, &child) {
                            Ok(x) => {
                                proof {
                reveal(sp_load_conn);
                                    assert(sp_conn_entry(ev[i as int].0, ev[i as int].1, pv) is None);
                                    assert(sp_conn_first_bad(ev.skip(i as int), pv) == sp_conn_first_bad(ev.skip(i as int + 1), pv));
                                    assert(sp_conn_field_followers_n_following(ev.take(i as int + 1), pv) == Some(x.json_spec()));
                                    assert(sp_conn_field_contacts(ev.take(i as int + 1), pv) == sp_conn_field_contacts(ev.take(i as int), pv));
                                }
                                followers_n_following = Some(x);
                            },
                            Err(e) => {
                                proof {
                reveal(sp_load_conn);
                                    assert(sp_conn_entry(ev[i as int].0, ev[i as int].1, pv) == Some(e@));
                                    assert(sp_conn_first_bad(ev.skip(i as int), pv) == Some(e@));
                                }
                                return Err(e);
                            },
                        }
                    } else {
                        proof {
                reveal(sp_load_conn);
                            let ee = SpecParseError::UnexpectedFormat {
                                path: pv.push(ev[i as int].0),
                                issue: StructuralIssue::UnexpectedEntry,
                            };
                            assert(sp_conn_entry(ev[i as int].0, ev[i as int].1, pv) == Some(ee));
                            assert(sp_conn_first_bad(ev.skip(i as int), pv) == Some(ee));
                        }
                        return Err(
                            ParseError::UnexpectedFormat {
                                path: child,
                                issue: StructuralIssue::UnexpectedEntry,
                            },
                        );
                    }
                },
            }
            i = i + 1;
        }
        proof {
                reveal(sp_load_conn);
            assert(ev.take(i as int) =~= ev);
            assert(ev.skip(i as int) =~= Seq::<(Seq<char>, SpecNode)>::empty());
        }
        let s = Connections { contacts, followers_n_following };
        proof {
                reveal(sp_load_conn);
            let lhs = sp_load_conn(ev, pv)->Ok_0->Obj_0;
            let rhs = s.json_spec()->Obj_0;
            assert(lhs =~= rhs);
        }
        Ok(s)
    }
}


} // verus!
