//! The archive root: the top-level walker that assembles the whole
//! document, and the document writer that serializes it back to JSON text.

use vstd::prelude::*;

use crate::activity::{Activity, sp_load_act};
use crate::common::{ParseError, SpecParseError, StructuralIssue};
use crate::connections::{Connections, sp_load_conn};
use crate::json::{JsonValue, SpecJson, str_eq};
use crate::json_text::{spec_write, write_json};
use crate::loader::path_push;
use crate::schema::opt_json;
use crate::sections::Media;
use crate::tree::{Folder, Node, SpecNode, lemma_view_entries, view_entries};

verus! {

/// What is wrong with one entry of this folder, if anything.
pub open spec fn sp_arch_entry(name: Seq<char>, node: SpecNode, at: Seq<Seq<char>>) -> Option<
    SpecParseError,
> {
    let path = at.push(name);
    match node {
        SpecNode::File(_) => Some(
            SpecParseError::UnexpectedFormat { path, issue: StructuralIssue::ExpectedFolder },
        ),
        SpecNode::Dir(sub) => {
            if name == ("connections")@ {
                match sp_load_conn(sub, path) {
                    Ok(_) => None,
                    Err(e) => Some(e),
                }
            } else if name == ("media")@ {
                None
            } else if name == ("your_instagram_activity")@ {
                match sp_load_act(sub, path) {
                    Ok(_) => None,
                    Err(e) => Some(e),
                }
            } else if name == ("ads_information")@ {
                None
            } else if name == ("apps_and_websites_off_of_instagram")@ {
                None
            } else if name == ("logged_information")@ {
                None
            } else if name == ("personal_information")@ {
                None
            } else if name == ("preferences")@ {
                None
            } else if name == ("security_and_login_information")@ {
                None
            } else {
                Some(
                    SpecParseError::UnexpectedFormat {
                        path,
                        issue: StructuralIssue::UnexpectedEntry,
                    },
                )
            }
        },
    }
}

/// The first failing entry, in directory order.
pub open spec fn sp_arch_first_bad(
    entries: Seq<(Seq<char>, SpecNode)>,
    at: Seq<Seq<char>>,
) -> Option<SpecParseError>
    decreases entries.len(),
{
    if entries.len() == 0 {
        None
    } else {
        match sp_arch_entry(entries[0].0, entries[0].1, at) {
            Some(e) => Some(e),
            None => sp_arch_first_bad(entries.drop_first(), at),
        }
    }
}

/// The loaded `connections` field, from the last entry named for it.
pub open spec fn sp_arch_field_connections(
    entries: Seq<(Seq<char>, SpecNode)>,
    at: Seq<Seq<char>>,
) -> Option<SpecJson>
    decreases entries.len(),
{
    if entries.len() == 0 {
        None
    } else if entries.last().0 == ("connections")@ {
        match entries.last().1 {
            SpecNode::Dir(sub) => match sp_load_conn(sub, at.push(("connections")@)) {
                Ok(j) => Some(j),
                Err(_) => None,
            },
            SpecNode::File(_) => None,
        }
    } else {
        sp_arch_field_connections(entries.drop_last(), at)
    }
}

/// The loaded `media` field, from the last entry named for it.
pub open spec fn sp_arch_field_media(
    entries: Seq<(Seq<char>, SpecNode)>,
    at: Seq<Seq<char>>,
) -> Option<SpecJson>
    decreases entries.len(),
{
    if entries.len() == 0 {
        None
    } else if entries.last().0 == ("media")@ {
        match entries.last().1 {
            SpecNode::Dir(_) => Some(SpecJson::Null),
            SpecNode::File(_) => None,
        }
    } else {
        sp_arch_field_media(entries.drop_last(), at)
    }
}

/// The loaded `activity` field, from the last entry named for it.
pub open spec fn sp_arch_field_activity(
    entries: Seq<(Seq<char>, SpecNode)>,
    at: Seq<Seq<char>>,
) -> Option<SpecJson>
    decreases entries.len(),
{
    if entries.len() == 0 {
        None
    } else if entries.last().0 == ("your_instagram_activity")@ {
        match entries.last().1 {
            SpecNode::Dir(sub) => match sp_load_act(sub, at.push(("your_instagram_activity")@)) {
                Ok(j) => Some(j),
                Err(_) => None,
            },
            SpecNode::File(_) => None,
        }
    } else {
        sp_arch_field_activity(entries.drop_last(), at)
    }
}

/// Loads the folder: the aggregate's canonical JSON, or the first error.
#[verifier::opaque]
pub open spec fn sp_load_arch(
    entries: Seq<(Seq<char>, SpecNode)>,
    at: Seq<Seq<char>>,
) -> Result<SpecJson, SpecParseError> {
    match sp_arch_first_bad(entries, at) {
        Some(e) => Err(e),
        None => Ok(
            SpecJson::Obj(
                seq![
                    (("connections")@, opt_json(sp_arch_field_connections(entries, at))),
                    (("media")@, opt_json(sp_arch_field_media(entries, at))),
                    (("activity")@, opt_json(sp_arch_field_activity(entries, at))),
                ],
            ),
        ),
    }
}

/// The archive document: every subject area of one export.
#[derive(Debug, PartialEq, Eq, Clone)]
pub struct InstagramArchive {
    pub connections: Option<Connections>,
    pub media: Option<Media>,
    pub activity: Option<Activity>,
}

impl InstagramArchive {
    /// The canonical JSON of this section.
    pub open spec fn json_spec(&self) -> SpecJson {
        SpecJson::Obj(
            seq![
                (("connections")@, (match self.connections {
                    Option::None => SpecJson::Null,
                    Option::Some(x) => x.json_spec(),
                })),
                (("media")@, (match self.media {
                    Option::None => SpecJson::Null,
                    Option::Some(x) => x.json_spec(),
                })),
                (("activity")@, (match self.activity {
                    Option::None => SpecJson::Null,
                    Option::Some(x) => x.json_spec(),
                })),
            ],
        )
    }

    /// Rebuilds the canonical JSON value of this section.
    pub fn to_json(&self) -> (r: JsonValue)
        ensures
            r@ == self.json_spec(),
    {
        let mut fields: Vec<(String, JsonValue)> = Vec::new();
        fields.push((String::from_str("connections"), match &self.connections { Some(x) => x.to_json(), None => JsonValue::Null }));
        fields.push((String::from_str("media"), match &self.media { Some(x) => x.to_json(), None => JsonValue::Null }));
        fields.push((String::from_str("activity"), match &self.activity { Some(x) => x.to_json(), None => JsonValue::Null }));
        let r = JsonValue::Obj(fields);
        proof {
            crate::json::lemma_view_fields(r->Obj_0@);
            assert(r@->Obj_0 =~= self.json_spec()->Obj_0);
        }
        r
    }

    /// Loads this section from its folder, `at` naming the folder from
    /// the archive root.  Every entry must be a directory the table
    /// explains; the first unexplained or failing one aborts the load.
    #[verifier::rlimit(100)]
    pub fn from_folder(dir: &Folder, at: &Vec<String>) -> (r: Result<Self, ParseError>)
        ensures
            match r {
                Ok(s) => sp_load_arch(dir@, at.deep_view()) == Ok::<
                    SpecJson,
                    SpecParseError,
                >(s.json_spec()),
                Err(e) => sp_load_arch(dir@, at.deep_view()) == Err::<
                    SpecJson,
                    SpecParseError,
                >(e@),
            },
    {
        let ghost ev = dir@;
        let ghost pv = at.deep_view();
        let entries = &dir.entries;
        proof {
                reveal(sp_load_arch);
            lemma_view_entries(entries@);
            assert(ev.skip(0) =~= ev);
            assert(ev.take(0) =~= Seq::<(Seq<char>, SpecNode)>::empty());
        }
        let mut connections: Option<Connections> = None;
        let mut media: Option<Media> = None;
        let mut activity: Option<Activity> = None;
        let mut i: usize = 0;
        while i < entries.len()
            invariant
                i <= entries@.len(),
                ev == dir@,
                ev == view_entries(entries@),
                ev.len() == entries@.len(),
                pv == at.deep_view(),
                sp_arch_first_bad(ev, pv) == sp_arch_first_bad(ev.skip(i as int), pv),
                (match connections {
                    Option::None => SpecJson::Null,
                    Option::Some(x) => x.json_spec(),
                }) == opt_json(sp_arch_field_connections(ev.take(i as int), pv)),
                (match media {
                    Option::None => SpecJson::Null,
                    Option::Some(x) => x.json_spec(),
                }) == opt_json(sp_arch_field_media(ev.take(i as int), pv)),
                (match activity {
                    Option::None => SpecJson::Null,
                    Option::Some(x) => x.json_spec(),
                }) == opt_json(sp_arch_field_activity(ev.take(i as int), pv)),
            decreases entries@.len() - i,
        {
            proof {
                reveal(sp_load_arch);
                reveal_strlit("connections");
                reveal_strlit("media");
                reveal_strlit("your_instagram_activity");
                reveal_strlit("ads_information");
                reveal_strlit("apps_and_websites_off_of_instagram");
                reveal_strlit("logged_information");
                reveal_strlit("personal_information");
                reveal_strlit("preferences");
                reveal_strlit("security_and_login_information");
                assert(("connections")@[0] == 'c');
                assert(("media")@[0] == 'm');
                assert(("your_instagram_activity")@[0] == 'y');
                assert(("ads_information")@[0] == 'a');
                assert(("apps_and_websites_off_of_instagram")@[0] == 'a');
                assert(("logged_information")@[0] == 'l');
                assert(("personal_information")@[0] == 'p');
                assert(("preferences")@[0] == 'p');
                assert(("security_and_login_information")@[0] == 's');
                lemma_view_entries(entries@);
                assert(ev[i as int] == (entries@[i as int].name@, entries@[i as int].node@));
                assert(ev.skip(i as int)[0] == ev[i as int]);
                assert(ev.skip(i as int).drop_first() =~= ev.skip(i as int + 1));
                assert(ev.take(i as int + 1).drop_last() =~= ev.take(i as int));
                assert(ev.take(i as int + 1).last() == ev[i as int]);
            }
            let entry = &entries[i];
            proof {
                reveal(sp_load_arch);
                assert(entry.name@ == ev[i as int].0);
                assert(entry.node@ == ev[i as int].1);
            }
            let child = path_push(at, &entry.name);
            match &entry.node {
                Node::File(_) => {
                    proof {
                reveal(sp_load_arch);
                        let ee = SpecParseError::UnexpectedFormat {
                            path: pv.push(ev[i as int].0),
                            issue: StructuralIssue::ExpectedFolder,
                        };
                        assert(sp_arch_entry(ev[i as int].0, ev[i as int].1, pv) == Some(ee));
                        assert(sp_arch_first_bad(ev.skip(i as int), pv) == Some(ee));
                    }
                    return Err(
                        ParseError::UnexpectedFormat {
                            path: child,
                            issue: StructuralIssue::ExpectedFolder,
                        },
                    );
                },
                Node::Dir(sub) => {
                    proof {
                reveal(sp_load_arch);
                        assert(entry.node@ == SpecNode::Dir(sub@));
                    }
                    if str_eq(entry.name.as_str(), "connections") {
                        match Connections::from_folder(sub, &child) {
                            Ok(x) => {
                                proof {
                reveal(sp_load_arch);
                                    assert(sp_arch_entry(ev[i as int].0, ev[i as int].1, pv) is None);
                                    assert(sp_arch_first_bad(ev.skip(i as int), pv) == sp_arch_first_bad(ev.skip(i as int + 1), pv));
                                    assert(sp_arch_field_connections(ev.take(i as int + 1), pv) == Some(x.json_spec()));
                                    assert(sp_arch_field_media(ev.take(i as int + 1), pv) == sp_arch_field_media(ev.take(i as int), pv));
                                    assert(sp_arch_field_activity(ev.take(i as int + 1), pv) == sp_arch_field_activity(ev.take(i as int), pv));
                                }
                                connections = Some(x);
                            },
                            Err(e) => {
                                proof {
                reveal(sp_load_arch);
                                    assert(sp_arch_entry(ev[i as int].0, ev[i as int].1, pv) == Some(e@));
                                    assert(sp_arch_first_bad(ev.skip(i as int), pv) == Some(e@));
                                }
                                return Err(e);
                            },
                        }
                    } else if str_eq(entry.name.as_str(), "media") {
                        match Media::from_folder(sub) {
                            Ok(x) => {
                                proof {
                reveal(sp_load_arch);
                                    assert(sp_arch_entry(ev[i as int].0, ev[i as int].1, pv) is None);
                                    assert(sp_arch_first_bad(ev.skip(i as int), pv) == sp_arch_first_bad(ev.skip(i as int + 1), pv));
                                    assert(sp_arch_field_media(ev.take(i as int + 1), pv) == Some(SpecJson::Null));
                                    assert(x.json_spec() == SpecJson::Null);
                                    assert(sp_arch_field_connections(ev.take(i as int + 1), pv) == sp_arch_field_connections(ev.take(i as int), pv));
                                    assert(sp_arch_field_activity(ev.take(i as int + 1), pv) == sp_arch_field_activity(ev.take(i as int), pv));
                                }
                                media = Some(x);
                            },
                            Err(e) => {
                                proof {
                reveal(sp_load_arch);
                                    assert(false);
                                }
                                return Err(e);
                            },
                        }
                    } else if str_eq(entry.name.as_str(), "your_instagram_activity") {
                        match Activity::from_folder(sub, &child) {
                            Ok(x) => {
                                proof {
                reveal(sp_load_arch);
                                    assert(sp_arch_entry(ev[i as int].0, ev[i as int].1, pv) is None);
                                    assert(sp_arch_first_bad(ev.skip(i as int), pv) == sp_arch_first_bad(ev.skip(i as int + 1), pv));
                                    assert(sp_arch_field_activity(ev.take(i as int + 1), pv) == Some(x.json_spec()));
                                    assert(sp_arch_field_connections(ev.take(i as int + 1), pv) == sp_arch_field_connections(ev.take(i as int), pv));
                                    assert(sp_arch_field_media(ev.take(i as int + 1), pv) == sp_arch_field_media(ev.take(i as int), pv));
                                }
                                activity = Some(x);
                            },
                            Err(e) => {
                                proof {
                reveal(sp_load_arch);
                                    assert(sp_arch_entry(ev[i as int].0, ev[i as int].1, pv) == Some(e@));
                                    assert(sp_arch_first_bad(ev.skip(i as int), pv) == Some(e@));
                                }
                                return Err(e);
                            },
                        }
                    } else if str_eq(entry.name.as_str(), "ads_information") {
                        proof {
                reveal(sp_load_arch);
                            assert(sp_arch_entry(ev[i as int].0, ev[i as int].1, pv) is None);
                            assert(sp_arch_first_bad(ev.skip(i as int), pv) == sp_arch_first_bad(ev.skip(i as int + 1), pv));
                            assert(sp_arch_field_connections(ev.take(i as int + 1), pv) == sp_arch_field_connections(ev.take(i as int), pv));
                            assert(sp_arch_field_media(ev.take(i as int + 1), pv) == sp_arch_field_media(ev.take(i as int), pv));
                            assert(sp_arch_field_activity(ev.take(i as int + 1), pv) == sp_arch_field_activity(ev.take(i as int), pv));
                        }
                    } else if str_eq(entry.name.as_str(), "apps_and_websites_off_of_instagram") {
                        proof {
                reveal(sp_load_arch);
                            assert(sp_arch_entry(ev[i as int].0, ev[i as int].1, pv) is None);
                            assert(sp_arch_first_bad(ev.skip(i as int), pv) == sp_arch_first_bad(ev.skip(i as int + 1), pv));
                            assert(sp_arch_field_connections(ev.take(i as int + 1), pv) == sp_arch_field_connections(ev.take(i as int), pv));
                            assert(sp_arch_field_media(ev.take(i as int + 1), pv) == sp_arch_field_media(ev.take(i as int), pv));
                            assert(sp_arch_field_activity(ev.take(i as int + 1), pv) == sp_arch_field_activity(ev.take(i as int), pv));
                        }
                    } else if str_eq(entry.name.as_str(), "logged_information") {
                        proof {
                reveal(sp_load_arch);
                            assert(sp_arch_entry(ev[i as int].0, ev[i as int].1, pv) is None);
                            assert(sp_arch_first_bad(ev.skip(i as int), pv) == sp_arch_first_bad(ev.skip(i as int + 1), pv));
                            assert(sp_arch_field_connections(ev.take(i as int + 1), pv) == sp_arch_field_connections(ev.take(i as int), pv));
                            assert(sp_arch_field_media(ev.take(i as int + 1), pv) == sp_arch_field_media(ev.take(i as int), pv));
                            assert(sp_arch_field_activity(ev.take(i as int + 1), pv) == sp_arch_field_activity(ev.take(i as int), pv));
                        }
                    } else if str_eq(entry.name.as_str(), "personal_information") {
                        proof {
                reveal(sp_load_arch);
                            assert(sp_arch_entry(ev[i as int].0, ev[i as int].1, pv) is None);
                            assert(sp_arch_first_bad(ev.skip(i as int), pv) == sp_arch_first_bad(ev.skip(i as int + 1), pv));
                            assert(sp_arch_field_connections(ev.take(i as int + 1), pv) == sp_arch_field_connections(ev.take(i as int), pv));
                            assert(sp_arch_field_media(ev.take(i as int + 1), pv) == sp_arch_field_media(ev.take(i as int), pv));
                            assert(sp_arch_field_activity(ev.take(i as int + 1), pv) == sp_arch_field_activity(ev.take(i as int), pv));
                        }
                    } else if str_eq(entry.name.as_str(), "preferences") {
                        proof {
                reveal(sp_load_arch);
                            assert(sp_arch_entry(ev[i as int].0, ev[i as int].1, pv) is None);
                            assert(sp_arch_first_bad(ev.skip(i as int), pv) == sp_arch_first_bad(ev.skip(i as int + 1), pv));
                            assert(sp_arch_field_connections(ev.take(i as int + 1), pv) == sp_arch_field_connections(ev.take(i as int), pv));
                            assert(sp_arch_field_media(ev.take(i as int + 1), pv) == sp_arch_field_media(ev.take(i as int), pv));
                            assert(sp_arch_field_activity(ev.take(i as int + 1), pv) == sp_arch_field_activity(ev.take(i as int), pv));
                        }
                    } else if str_eq(entry.name.as_str(), "security_and_login_information") {
                        proof {
                reveal(sp_load_arch);
                            assert(sp_arch_entry(ev[i as int].0, ev[i as int].1, pv) is None);
                            assert(sp_arch_first_bad(ev.skip(i as int), pv) == sp_arch_first_bad(ev.skip(i as int + 1), pv));
                            assert(sp_arch_field_connections(ev.take(i as int + 1), pv) == sp_arch_field_connections(ev.take(i as int), pv));
                            assert(sp_arch_field_media(ev.take(i as int + 1), pv) == sp_arch_field_media(ev.take(i as int), pv));
                            assert(sp_arch_field_activity(ev.take(i as int + 1), pv) == sp_arch_field_activity(ev.take(i as int), pv));
                        }
                    } else {
                        proof {
                reveal(sp_load_arch);
                            let ee = SpecParseError::UnexpectedFormat {
                                path: pv.push(ev[i as int].0),
                                issue: StructuralIssue::UnexpectedEntry,
                            };
                            assert(sp_arch_entry(ev[i as int].0, ev[i as int].1, pv) == Some(ee));
                            assert(sp_arch_first_bad(ev.skip(i as int), pv) == Some(ee));
                        }
                        return Err(
                            ParseError::UnexpectedFormat {
                                path: child,
                                issue: StructuralIssue::UnexpectedEntry,
                            },
                        );
                    }
                },
            }
            i = i + 1;
        }
        proof {
                reveal(sp_load_arch);
            assert(ev.take(i as int) =~= ev);
            assert(ev.skip(i as int) =~= Seq::<(Seq<char>, SpecNode)>::empty());
        }
        let s = InstagramArchive { connections, media, activity };
        proof {
                reveal(sp_load_arch);
            let lhs = sp_load_arch(ev, pv)->Ok_0->Obj_0;
            let rhs = s.json_spec()->Obj_0;
            assert(lhs =~= rhs);
        }
        Ok(s)
    }
}


/// A name the archive root's expected-entries table explains.
pub open spec fn arch_known_name(name: Seq<char>) -> bool {
    name == ("connections")@ || name == ("media")@ || name == ("your_instagram_activity")@
        || name == ("ads_information")@ || name == ("apps_and_websites_off_of_instagram")@
        || name == ("logged_information")@ || name == ("personal_information")@
        || name == ("preferences")@ || name == ("security_and_login_information")@
}

/// Scanning a clean prefix does not change the first failure found.
pub proof fn lemma_arch_first_bad_split(
    entries: Seq<(Seq<char>, SpecNode)>,
    at: Seq<Seq<char>>,
    i: int,
)
    requires
        0 <= i <= entries.len(),
        sp_arch_first_bad(entries.take(i), at) is None,
    ensures
        sp_arch_first_bad(entries, at) == sp_arch_first_bad(entries.skip(i), at),
    decreases i,
{
    if i == 0 {
        assert(entries.skip(0) =~= entries);
    } else {
        assert(entries.take(i)[0] == entries[0]);
        assert(sp_arch_entry(entries[0].0, entries[0].1, at) is None);
        assert(entries.drop_first().take(i - 1) =~= entries.take(i).drop_first());
        lemma_arch_first_bad_split(entries.drop_first(), at, i - 1);
        assert(entries.drop_first().skip(i - 1) =~= entries.skip(i));
    }
}

/// The closed-world law of the archive root: an entry whose name the
/// expected-entries table does not explain makes the whole load fail with a
/// structural error naming exactly that entry's path, provided no earlier
/// entry already failed; no document is produced.
pub proof fn lemma_unknown_root_entry_fails(
    entries: Seq<(Seq<char>, SpecNode)>,
    at: Seq<Seq<char>>,
    i: int,
)
    requires
        0 <= i < entries.len(),
        sp_arch_first_bad(entries.take(i), at) is None,
        entries[i].1 is Dir,
        !arch_known_name(entries[i].0),
    ensures
        sp_load_arch(entries, at) == Err::<SpecJson, SpecParseError>(
            SpecParseError::UnexpectedFormat {
                path: at.push(entries[i].0),
                issue: StructuralIssue::UnexpectedEntry,
            },
        ),
{
    reveal(sp_load_arch);
    lemma_arch_first_bad_split(entries, at, i);
    assert(entries.skip(i)[0] == entries[i]);
    assert(sp_arch_entry(entries[i].0, entries[i].1, at) == Some(
        SpecParseError::UnexpectedFormat {
            path: at.push(entries[i].0),
            issue: StructuralIssue::UnexpectedEntry,
        },
    ));
}

impl InstagramArchive {
    /// Serializes the whole document to one JSON text: pretty-printed,
    /// two-space indentation, keys in declaration order, absent sections as
    /// `null`.  Nothing is written anywhere until this full text exists.
    pub fn write_document(&self) -> (r: String)
        ensures
            r@ == spec_write(self.json_spec(), 0),
    {
        let v = self.to_json();
        write_json(&v)
    }
}

/// The absence law: a root with no entries loads to the empty document,
/// every optional section absent.
pub proof fn lemma_empty_root_loads_empty(at: Seq<Seq<char>>)
    ensures
        sp_load_arch(Seq::empty(), at) == Ok::<SpecJson, SpecParseError>(
            SpecJson::Obj(
                seq![
                    (("connections")@, SpecJson::Null),
                    (("media")@, SpecJson::Null),
                    (("activity")@, SpecJson::Null),
                ],
            ),
        ),
{
    reveal(sp_load_arch);
    let entries = Seq::<(Seq<char>, SpecNode)>::empty();
    assert(sp_arch_first_bad(entries, at) is None);
    assert(sp_arch_field_connections(entries, at) is None);
    assert(sp_arch_field_media(entries, at) is None);
    assert(sp_arch_field_activity(entries, at) is None);
    assert(sp_load_arch(entries, at)->Ok_0->Obj_0 =~= seq![
        (("connections")@, SpecJson::Null),
        (("media")@, SpecJson::Null),
        (("activity")@, SpecJson::Null),
    ]);
}

/// The presence law: a root holding exactly one well-formed connections
/// directory loads to a document whose connections field carries that
/// directory's aggregate and whose other sections are absent.
pub proof fn lemma_present_section_populates(
    sub: Seq<(Seq<char>, SpecNode)>,
    at: Seq<Seq<char>>,
    j: SpecJson,
)
    requires
        sp_load_conn(sub, at.push(("connections")@)) == Ok::<SpecJson, SpecParseError>(j),
    ensures
        sp_load_arch(seq![(("connections")@, SpecNode::Dir(sub))], at) == Ok::<
            SpecJson,
            SpecParseError,
        >(
            SpecJson::Obj(
                seq![
                    (("connections")@, j),
                    (("media")@, SpecJson::Null),
                    (("activity")@, SpecJson::Null),
                ],
            ),
        ),
{
    reveal(sp_load_arch);
    reveal_strlit("connections");
    reveal_strlit("media");
    reveal_strlit("your_instagram_activity");
    assert(("connections")@[0] == 'c');
    assert(("media")@[0] == 'm');
    assert(("your_instagram_activity")@[0] == 'y');
    let entries = seq![(("connections")@, SpecNode::Dir(sub))];
    assert(entries[0] == (("connections")@, SpecNode::Dir(sub)));
    assert(entries.drop_first() =~= Seq::<(Seq<char>, SpecNode)>::empty());
    assert(entries.drop_last() =~= Seq::<(Seq<char>, SpecNode)>::empty());
    assert(entries.last() == entries[0]);
    let empty = Seq::<(Seq<char>, SpecNode)>::empty();
    assert(sp_arch_first_bad(empty, at) is None);
    assert(sp_arch_field_connections(empty, at) is None);
    assert(sp_arch_field_media(empty, at) is None);
    assert(sp_arch_field_activity(empty, at) is None);
    assert(sp_arch_entry(entries[0].0, entries[0].1, at) is None);
    assert(sp_arch_first_bad(entries, at) is None);
    assert(sp_arch_field_connections(entries, at) == Some(j));
    assert(sp_arch_field_media(entries, at) is None);
    assert(sp_arch_field_activity(entries, at) is None);
    assert(sp_load_arch(entries, at)->Ok_0->Obj_0 =~= seq![
        (("connections")@, j),
        (("media")@, SpecJson::Null),
        (("activity")@, SpecJson::Null),
    ]);
}

} // verus!
