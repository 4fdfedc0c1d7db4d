//! The contacts section: the synced-contacts leaf file and its records.
use vstd::prelude::*;

use crate::common::{DeserError, SpecDeserError};
use crate::json::{JsonValue, SpecJson, view_items, lemma_view_items_push};
use crate::record::{JsonRecord, jsons_of, sp_items, parse_items_from, items_to_json, gf_rec,
    gf_opt_rec, gf_rec_arr, gf_opt_rec_arr, sf_rec, sf_opt_rec, sf_rec_arr, sf_opt_rec_arr,
    opt_rec_json};
use crate::schema::{check_keys, spec_check_keys, gf_string, gf_opt_string, gf_u64, gf_opt_u64,
    gf_u32, gf_opt_u32, gf_i32, gf_bool, gf_opt_bool, gf_null_arr, sf_string, sf_opt_string,
    sf_int, sf_opt_int, sf_bool, sf_opt_bool, sf_null_arr, opt_str_json, opt_int_json,
    opt_bool_json, opt_json, nulls};
use crate::shared::StringData;
use crate::common::{ParseError, SpecParseError, StructuralIssue};
use crate::loader::{parse_leaf, path_push, sp_field, sp_leaf};
use crate::json::str_eq;
use crate::tree::{Folder, Node, SpecNode, lemma_view_entries, view_entries};

verus! {

/// An always-empty media map.
#[derive(Debug, PartialEq, Eq, Clone)]
pub struct MediaMapData {
}

impl JsonRecord for MediaMapData {
    open spec fn json_spec(&self) -> SpecJson {
        SpecJson::Obj(
            seq![
            ],
        )
    }

    open spec fn spec_parse(v: SpecJson) -> Result<SpecJson, SpecDeserError> {
        match v {
            SpecJson::Obj(fields) => match spec_check_keys(fields, seq![]) {
                Err(e) => Err(e),
                Ok(_) => Ok(
                    SpecJson::Obj(
                        seq![
                        ],
                    ),
                ),
            },
            _ => Err(SpecDeserError::NotAnObject),
        }
    }

    fn from_json(v: &JsonValue) -> (r: Result<Self, DeserError>) {
        match v {
            JsonValue::Obj(fields) => {
                let allowed: Vec<&str> = vec![];
                proof {
                    assert(allowed.deep_view() =~= Seq::<Seq<char>>::empty());
                }
                match check_keys(fields, &allowed) {
                    Err(e) => {
                        return Err(e);
                    },
                    Ok(_) => {},
                }
                let rec = MediaMapData {  };
                proof {
                    let lhs = Self::spec_parse(v@)->Ok_0->Obj_0;
                    let rhs = rec.json_spec()->Obj_0;
                    assert(lhs =~= rhs);
                }
                Ok(rec)
            },
            _ => Err(DeserError::NotAnObject),
        }
    }

    fn to_json(&self) -> (r: JsonValue) {
        let mut fields: Vec<(String, JsonValue)> = Vec::new();
        let r = JsonValue::Obj(fields);
        proof {
            crate::json::lemma_view_fields(r->Obj_0@);
            assert(r@->Obj_0 =~= self.json_spec()->Obj_0);
        }
        r
    }
}

/// The named fields of one synced contact.
#[derive(Debug, PartialEq, Eq, Clone)]
pub struct ContactStringMapData {
    pub first_name: StringData,
    pub last_name: StringData,
    pub contact_inform: StringData,
    pub imported_time: StringData,
}

impl JsonRecord for ContactStringMapData {
    open spec fn json_spec(&self) -> SpecJson {
        SpecJson::Obj(
            seq![
                (("First Name")@, self.first_name.json_spec()),
                (("Last Name")@, self.last_name.json_spec()),
                (("Contact Information")@, self.contact_inform.json_spec()),
                (("Imported Time")@, self.imported_time.json_spec()),
            ],
        )
    }

    open spec fn spec_parse(v: SpecJson) -> Result<SpecJson, SpecDeserError> {
        match v {
            SpecJson::Obj(fields) => match spec_check_keys(fields, seq![("First Name")@, ("Last Name")@, ("Contact Information")@, ("Imported Time")@]) {
                Err(e) => Err(e),
                Ok(_) => match sf_rec::<StringData>(fields, ("First Name")@) {
                    Err(e) => Err(e),
                    Ok(first_name) => match sf_rec::<StringData>(fields, ("Last Name")@) {
                        Err(e) => Err(e),
                        Ok(last_name) => match sf_rec::<StringData>(fields, ("Contact Information")@) {
                            Err(e) => Err(e),
                            Ok(contact_inform) => match sf_rec::<StringData>(fields, ("Imported Time")@) {
                                Err(e) => Err(e),
                                Ok(imported_time) => Ok(
                                    SpecJson::Obj(
                                        seq![
                                            (("First Name")@, first_name),
                                            (("Last Name")@, last_name),
                                            (("Contact Information")@, contact_inform),
                                            (("Imported Time")@, imported_time),
                                        ],
                                    ),
                                ),
                            },
                        },
                    },
                },
            },
            _ => Err(SpecDeserError::NotAnObject),
        }
    }

    fn from_json(v: &JsonValue) -> (r: Result<Self, DeserError>) {
        match v {
            JsonValue::Obj(fields) => {
                let allowed: Vec<&str> = vec!["First Name", "Last Name", "Contact Information", "Imported Time"];
                proof {
                    assert(allowed.deep_view() =~= seq![("First Name")@, ("Last Name")@, ("Contact Information")@, ("Imported Time")@]);
                }
                match check_keys(fields, &allowed) {
                    Err(e) => {
                        return Err(e);
                    },
                    Ok(_) => {},
                }
                let first_name = match gf_rec::<StringData>(fields, "First Name") {
                    Ok(x) => x,
                    Err(e) => {
                        return Err(e);
                    },
                };
                let last_name = match gf_rec::<StringData>(fields, "Last Name") {
                    Ok(x) => x,
                    Err(e) => {
                        return Err(e);
                    },
                };
                let contact_inform = match gf_rec::<StringData>(fields, "Contact Information") {
                    Ok(x) => x,
                    Err(e) => {
                        return Err(e);
                    },
                };
                let imported_time = match gf_rec::<StringData>(fields, "Imported Time") {
                    Ok(x) => x,
                    Err(e) => {
                        return Err(e);
                    },
                };
                let rec = ContactStringMapData { first_name, last_name, contact_inform, imported_time };
                proof {
                    let lhs = Self::spec_parse(v@)->Ok_0->Obj_0;
                    let rhs = rec.json_spec()->Obj_0;
                    assert(lhs =~= rhs);
                }
                Ok(rec)
            },
            _ => Err(DeserError::NotAnObject),
        }
    }

    fn to_json(&self) -> (r: JsonValue) {
        let mut fields: Vec<(String, JsonValue)> = Vec::new();
        fields.push((String::from_str("First Name"), self.first_name.to_json()));
        fields.push((String::from_str("Last Name"), self.last_name.to_json()));
        fields.push((String::from_str("Contact Information"), self.contact_inform.to_json()));
        fields.push((String::from_str("Imported Time"), self.imported_time.to_json()));
        let r = JsonValue::Obj(fields);
        proof {
            crate::json::lemma_view_fields(r->Obj_0@);
            assert(r@->Obj_0 =~= self.json_spec()->Obj_0);
        }
        r
    }
}

/// One synced contact.
#[derive(Debug, PartialEq, Eq, Clone)]
pub struct ContactInfo {
    pub title: String,
    pub media_map_data: MediaMapData,
    pub string_map_data: ContactStringMapData,
}

impl JsonRecord for ContactInfo {
    open spec fn json_spec(&self) -> SpecJson {
        SpecJson::Obj(
            seq![
                (("title")@, SpecJson::Str(self.title@)),
                (("media_map_data")@, self.media_map_data.json_spec()),
                (("string_map_data")@, self.string_map_data.json_spec()),
            ],
        )
    }

    open spec fn spec_parse(v: SpecJson) -> Result<SpecJson, SpecDeserError> {
        match v {
            SpecJson::Obj(fields) => match spec_check_keys(fields, seq![("title")@, ("media_map_data")@, ("string_map_data")@]) {
                Err(e) => Err(e),
                Ok(_) => match sf_string(fields, ("title")@) {
                    Err(e) => Err(e),
                    Ok(title) => match sf_rec::<MediaMapData>(fields, ("media_map_data")@) {
                        Err(e) => Err(e),
                        Ok(media_map_data) => match sf_rec::<ContactStringMapData>(fields, ("string_map_data")@) {
                            Err(e) => Err(e),
                            Ok(string_map_data) => Ok(
                                SpecJson::Obj(
                                    seq![
                                        (("title")@, SpecJson::Str(title)),
                                        (("media_map_data")@, media_map_data),
                                        (("string_map_data")@, string_map_data),
                                    ],
                                ),
                            ),
                        },
                    },
                },
            },
            _ => Err(SpecDeserError::NotAnObject),
        }
    }

    fn from_json(v: &JsonValue) -> (r: Result<Self, DeserError>) {
        match v {
            JsonValue::Obj(fields) => {
                let allowed: Vec<&str> = vec!["title", "media_map_data", "string_map_data"];
                proof {
                    assert(allowed.deep_view() =~= seq![("title")@, ("media_map_data")@, ("string_map_data")@]);
                }
                match check_keys(fields, &allowed) {
                    Err(e) => {
                        return Err(e);
                    },
                    Ok(_) => {},
                }
                let title = match gf_string(fields, "title") {
                    Ok(x) => x,
                    Err(e) => {
                        return Err(e);
                    },
                };
                let media_map_data = match gf_rec::<MediaMapData>(fields, "media_map_data") {
                    Ok(x) => x,
                    Err(e) => {
                        return Err(e);
                    },
                };
                let string_map_data = match gf_rec::<ContactStringMapData>(fields, "string_map_data") {
                    Ok(x) => x,
                    Err(e) => {
                        return Err(e);
                    },
                };
                let rec = ContactInfo { title, media_map_data, string_map_data };
                proof {
                    let lhs = Self::spec_parse(v@)->Ok_0->Obj_0;
                    let rhs = rec.json_spec()->Obj_0;
                    assert(lhs =~= rhs);
                }
                Ok(rec)
            },
            _ => Err(DeserError::NotAnObject),
        }
    }

    fn to_json(&self) -> (r: JsonValue) {
        let mut fields: Vec<(String, JsonValue)> = Vec::new();
        fields.push((String::from_str("title"), JsonValue::Str(self.title.clone())));
        fields.push((String::from_str("media_map_data"), self.media_map_data.to_json()));
        fields.push((String::from_str("string_map_data"), self.string_map_data.to_json()));
        let r = JsonValue::Obj(fields);
        proof {
            crate::json::lemma_view_fields(r->Obj_0@);
            assert(r@->Obj_0 =~= self.json_spec()->Obj_0);
        }
        r
    }
}

/// The synced-contacts leaf file.
#[derive(Debug, PartialEq, Eq, Clone)]
pub struct SyncedContacts {
    pub contacts_contact_info: Vec<ContactInfo>,
}

impl JsonRecord for SyncedContacts {
    open spec fn json_spec(&self) -> SpecJson {
        SpecJson::Obj(
            seq![
                (("contacts_contact_info")@, SpecJson::Arr(jsons_of(self.contacts_contact_info@))),
            ],
        )
    }

    open spec fn spec_parse(v: SpecJson) -> Result<SpecJson, SpecDeserError> {
        match v {
            SpecJson::Obj(fields) => match spec_check_keys(fields, seq![("contacts_contact_info")@]) {
                Err(e) => Err(e),
                Ok(_) => match sf_rec_arr::<ContactInfo>(fields, ("contacts_contact_info")@) {
                    Err(e) => Err(e),
                    Ok(contacts_contact_info) => Ok(
                        SpecJson::Obj(
                            seq![
                                (("contacts_contact_info")@, SpecJson::Arr(contacts_contact_info)),
                            ],
                        ),
                    ),
                },
            },
            _ => Err(SpecDeserError::NotAnObject),
        }
    }

    fn from_json(v: &JsonValue) -> (r: Result<Self, DeserError>) {
        match v {
            JsonValue::Obj(fields) => {
                let allowed: Vec<&str> = vec!["contacts_contact_info"];
                proof {
                    assert(allowed.deep_view() =~= seq![("contacts_contact_info")@]);
                }
                match check_keys(fields, &allowed) {
                    Err(e) => {
                        return Err(e);
                    },
                    Ok(_) => {},
                }
                let contacts_contact_info = match gf_rec_arr::<ContactInfo>(fields, "contacts_contact_info") {
                    Ok(x) => x,
                    Err(e) => {
                        return Err(e);
                    },
                };
                let rec = SyncedContacts { contacts_contact_info };
                proof {
                    let lhs = Self::spec_parse(v@)->Ok_0->Obj_0;
                    let rhs = rec.json_spec()->Obj_0;
                    assert(lhs =~= rhs);
                }
                Ok(rec)
            },
            _ => Err(DeserError::NotAnObject),
        }
    }

    fn to_json(&self) -> (r: JsonValue) {
        let mut fields: Vec<(String, JsonValue)> = Vec::new();
        fields.push((String::from_str("contacts_contact_info"), JsonValue::Arr(items_to_json(&self.contacts_contact_info))));
        let r = JsonValue::Obj(fields);
        proof {
            crate::json::lemma_view_fields(r->Obj_0@);
            assert(r@->Obj_0 =~= self.json_spec()->Obj_0);
        }
        r
    }
}

/// What is wrong with one entry of the The contacts section. folder, if anything.
pub open spec fn sp_contacts_entry(name: Seq<char>, node: SpecNode, at: Seq<Seq<char>>) -> Option<
    SpecParseError,
> {
    let path = at.push(name);
    match node {
        SpecNode::Dir(_) => Some(
            SpecParseError::UnexpectedFormat { path, issue: StructuralIssue::ExpectedFile },
        ),
        SpecNode::File(text) => {
            if name == ("synced_contacts.json")@ {
                match sp_leaf::<SyncedContacts>(text, path) {
                    Ok(_) => None,
                    Err(e) => Some(e),
                }
            } else {
                Some(
                    SpecParseError::UnexpectedFormat {
                        path,
                        issue: StructuralIssue::UnexpectedEntry,
                    },
                )
            }
        },
    }
}

/// The first failing entry, in directory order.
pub open spec fn sp_contacts_first_bad(
    entries: Seq<(Seq<char>, SpecNode)>,
    at: Seq<Seq<char>>,
) -> Option<SpecParseError>
    decreases entries.len(),
{
    if entries.len() == 0 {
        None
    } else {
        match sp_contacts_entry(entries[0].0, entries[0].1, at) {
            Some(e) => Some(e),
            None => sp_contacts_first_bad(entries.drop_first(), at),
        }
    }
}

/// Loads the folder: the aggregate's canonical JSON, or the first error.
#[verifier::opaque]
pub open spec fn sp_load_contacts(
    entries: Seq<(Seq<char>, SpecNode)>,
    at: Seq<Seq<char>>,
) -> Result<SpecJson, SpecParseError> {
    match sp_contacts_first_bad(entries, at) {
        Some(e) => Err(e),
        None => Ok(
            SpecJson::Obj(
                seq![
                    (("synced_contacts")@, opt_json(sp_field::<SyncedContacts>(entries, ("synced_contacts.json")@, at))),
                ],
            ),
        ),
    }
}

/// The contacts section.
#[derive(Debug, PartialEq, Eq, Clone)]
pub struct Contacts {
    pub synced_contacts: Option<SyncedContacts>,
}

impl Contacts {
    /// The canonical JSON of this section.
    pub open spec fn json_spec(&self) -> SpecJson {
        SpecJson::Obj(
            seq![
                (("synced_contacts")@, opt_rec_json(self.synced_contacts)),
            ],
        )
    }

    /// Rebuilds the canonical JSON value of this section.
    pub fn to_json(&self) -> (r: JsonValue)
        ensures
            r@ == self.json_spec(),
    {
        let mut fields: Vec<(String, JsonValue)> = Vec::new();
        fields.push((String::from_str("synced_contacts"), match &self.synced_contacts { Some(x) => x.to_json(), None => JsonValue::Null }));
        let r = JsonValue::Obj(fields);
        proof {
            crate::json::lemma_view_fields(r->Obj_0@);
            assert(r@->Obj_0 =~= self.json_spec()->Obj_0);
        }
        r
    }

    /// Loads this section from its folder, `at` naming the folder from the
    /// archive root.  Every entry must be a recognized leaf file; the first
    /// unexplained entry or bad file aborts the load.
    #[verifier::rlimit(100)]
    pub fn from_folder(dir: &Folder, at: &Vec<String>) -> (r: Result<Self, ParseError>)
        ensures
            match r {
                Ok(s) => sp_load_contacts(dir@, at.deep_view()) == Ok::<
                    SpecJson,
                    SpecParseError,
                >(s.json_spec()),
                Err(e) => sp_load_contacts(dir@, at.deep_view()) == Err::<
                    SpecJson,
                    SpecParseError,
                >(e@),
            },
    {
        proof {
                reveal(sp_load_contacts);
            reveal_strlit("synced_contacts.json");
        }
        let ghost ev = dir@;
        let ghost pv = at.deep_view();
        let entries = &dir.entries;
        proof {
                reveal(sp_load_contacts);
            lemma_view_entries(entries@);
            assert(ev.skip(0) =~= ev);
            assert(ev.take(0) =~= Seq::<(Seq<char>, SpecNode)>::empty());
        }
        let mut synced_contacts: Option<SyncedContacts> = None;
        let mut i: usize = 0;
        while i < entries.len()
            invariant
                i <= entries@.len(),
                ev == dir@,
                ev == view_entries(entries@),
                ev.len() == entries@.len(),
                pv == at.deep_view(),
                sp_contacts_first_bad(ev, pv) == sp_contacts_first_bad(ev.skip(i as int), pv),
                opt_rec_json(synced_contacts) == opt_json(sp_field::<SyncedContacts>(ev.take(i as int), ("synced_contacts.json")@, pv)),
            decreases entries@.len() - i,
        {
            proof {
                reveal(sp_load_contacts);
                reveal_strlit("synced_contacts.json");
                lemma_view_entries(entries@);
                assert(ev[i as int] == (entries@[i as int].name@, entries@[i as int].node@));
                assert(ev.skip(i as int)[0] == ev[i as int]);
                assert(ev.skip(i as int).drop_first() =~= ev.skip(i as int + 1));
                assert(ev.take(i as int + 1).drop_last() =~= ev.take(i as int));
                assert(ev.take(i as int + 1).last() == ev[i as int]);
            }
            let entry = &entries[i];
            proof {
                reveal(sp_load_contacts);
                assert(entry.name@ == ev[i as int].0);
                assert(entry.node@ == ev[i as int].1);
            }
            let child = path_push(at, &entry.name);
            match &entry.node {
                Node::Dir(_) => {
                    proof {
                reveal(sp_load_contacts);
                        let ee = SpecParseError::UnexpectedFormat {
                            path: pv.push(ev[i as int].0),
                            issue: StructuralIssue::ExpectedFile,
                        };
                        assert(sp_contacts_entry(ev[i as int].0, ev[i as int].1, pv) == Some(ee));
                        assert(sp_contacts_first_bad(ev.skip(i as int), pv) == Some(ee));
                    }
                    return Err(
                        ParseError::UnexpectedFormat {
                            path: child,
                            issue: StructuralIssue::ExpectedFile,
                        },
                    );
                },
                Node::File(text) => {
                    if str_eq(entry.name.as_str(), "synced_contacts.json") {
                        match parse_leaf::<SyncedContacts>(text.as_str(), child) {
                            Ok(x) => {
                                proof {
                reveal(sp_load_contacts);
                                    assert(sp_contacts_entry(ev[i as int].0, ev[i as int].1, pv) is None);
                                    assert(sp_contacts_first_bad(ev.skip(i as int), pv) == sp_contacts_first_bad(ev.skip(i as int + 1), pv));
                                    assert(sp_field::<SyncedContacts>(ev.take(i as int + 1), ("synced_contacts.json")@, pv) == Some(x.json_spec()));
                                }
                                synced_contacts = Some(x);
                            },
                            Err(e) => {
                                proof {
                reveal(sp_load_contacts);
                                    assert(sp_contacts_entry(ev[i as int].0, ev[i as int].1, pv) == Some(e@));
                                    assert(sp_contacts_first_bad(ev.skip(i as int), pv) == Some(e@));
                                }
                                return Err(e);
                            },
                        }
                    } else {
                        proof {
                reveal(sp_load_contacts);
                            let ee = SpecParseError::UnexpectedFormat {
                                path: pv.push(ev[i as int].0),
                                issue: StructuralIssue::UnexpectedEntry,
                            };
                            assert(sp_contacts_entry(ev[i as int].0, ev[i as int].1, pv) == Some(ee));
                            assert(sp_contacts_first_bad(ev.skip(i as int), pv) == Some(ee));
                        }
                        return Err(
                            ParseError::UnexpectedFormat {
                                path: child,
                                issue: StructuralIssue::UnexpectedEntry,
                            },
                        );
                    }
                },
            }
            i = i + 1;
        }
        proof {
                reveal(sp_load_contacts);
            assert(ev.take(i as int) =~= ev);
            assert(ev.skip(i as int) =~= Seq::<(Seq<char>, SpecNode)>::empty());
        }
        let s = Contacts { synced_contacts };
        proof {
                reveal(sp_load_contacts);
            let lhs = sp_load_contacts(ev, pv)->Ok_0->Obj_0;
            let rhs = s.json_spec()->Obj_0;
            assert(lhs =~= rhs);
        }
        Ok(s)
    }
}

} // verus!
