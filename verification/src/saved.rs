//! The saved section: saved posts and saved collections, the latter a
//! sum-typed leaf disambiguated by shape.
use vstd::prelude::*;

use crate::common::{DeserError, SpecDeserError};
use crate::json::{JsonValue, SpecJson, view_items, lemma_view_items_push};
use crate::record::{JsonRecord, jsons_of, sp_items, parse_items_from, items_to_json, gf_rec,
    gf_opt_rec, gf_rec_arr, gf_opt_rec_arr, sf_rec, sf_opt_rec, sf_rec_arr, sf_opt_rec_arr,
    opt_rec_json};
use crate::schema::{check_keys, spec_check_keys, gf_string, gf_opt_string, gf_u64, gf_opt_u64,
    gf_u32, gf_opt_u32, gf_i32, gf_bool, gf_opt_bool, gf_null_arr, sf_string, sf_opt_string,
    sf_int, sf_opt_int, sf_bool, sf_opt_bool, sf_null_arr, opt_str_json, opt_int_json,
    opt_bool_json, opt_json, nulls};
use crate::shared::{LinkData, LinkTimeData, Timestamp, Value};
use crate::common::{ParseError, SpecParseError, StructuralIssue};
use crate::loader::{parse_leaf, path_push, sp_field, sp_leaf};
use crate::json::str_eq;
use crate::tree::{Folder, Node, SpecNode, lemma_view_entries, view_entries};

verus! {

/// The named fields of a saved-collection album.
#[derive(Debug, PartialEq, Eq, Clone)]
pub struct SavedCollectionAlbumData {
    pub name: Value,
    pub creation_time: Timestamp,
    pub update_time: Timestamp,
}

impl JsonRecord for SavedCollectionAlbumData {
    open spec fn json_spec(&self) -> SpecJson {
        SpecJson::Obj(
            seq![
                (("Name")@, self.name.json_spec()),
                (("Creation Time")@, self.creation_time.json_spec()),
                (("Update Time")@, self.update_time.json_spec()),
            ],
        )
    }

    open spec fn spec_parse(v: SpecJson) -> Result<SpecJson, SpecDeserError> {
        match v {
            SpecJson::Obj(fields) => match spec_check_keys(fields, seq![("Name")@, ("Creation Time")@, ("Update Time")@]) {
                Err(e) => Err(e),
                Ok(_) => match sf_rec::<Value>(fields, ("Name")@) {
                    Err(e) => Err(e),
                    Ok(name) => match sf_rec::<Timestamp>(fields, ("Creation Time")@) {
                        Err(e) => Err(e),
                        Ok(creation_time) => match sf_rec::<Timestamp>(fields, ("Update Time")@) {
                            Err(e) => Err(e),
                            Ok(update_time) => Ok(
                                SpecJson::Obj(
                                    seq![
                                        (("Name")@, name),
                                        (("Creation Time")@, creation_time),
                                        (("Update Time")@, update_time),
                                    ],
                                ),
                            ),
                        },
                    },
                },
            },
            _ => Err(SpecDeserError::NotAnObject),
        }
    }

    fn from_json(v: &JsonValue) -> (r: Result<Self, DeserError>) {
        match v {
            JsonValue::Obj(fields) => {
                let allowed: Vec<&str> = vec!["Name", "Creation Time", "Update Time"];
                proof {
                    assert(allowed.deep_view() =~= seq![("Name")@, ("Creation Time")@, ("Update Time")@]);
                }
                match check_keys(fields, &allowed) {
                    Err(e) => {
                        return Err(e);
                    },
                    Ok(_) => {},
                }
                let name = match gf_rec::<Value>(fields, "Name") {
                    Ok(x) => x,
                    Err(e) => {
                        return Err(e);
                    },
                };
                let creation_time = match gf_rec::<Timestamp>(fields, "Creation Time") {
                    Ok(x) => x,
                    Err(e) => {
                        return Err(e);
                    },
                };
                let update_time = match gf_rec::<Timestamp>(fields, "Update Time") {
                    Ok(x) => x,
                    Err(e) => {
                        return Err(e);
                    },
                };
                let rec = SavedCollectionAlbumData { name, creation_time, update_time };
                proof {
                    let lhs = Self::spec_parse(v@)->Ok_0->Obj_0;
                    let rhs = rec.json_spec()->Obj_0;
                    assert(lhs =~= rhs);
                }
                Ok(rec)
            },
            _ => Err(DeserError::NotAnObject),
        }
    }

    fn to_json(&self) -> (r: JsonValue) {
        let mut fields: Vec<(String, JsonValue)> = Vec::new();
        fields.push((String::from_str("Name"), self.name.to_json()));
        fields.push((String::from_str("Creation Time"), self.creation_time.to_json()));
        fields.push((String::from_str("Update Time"), self.update_time.to_json()));
        let r = JsonValue::Obj(fields);
        proof {
            crate::json::lemma_view_fields(r->Obj_0@);
            assert(r@->Obj_0 =~= self.json_spec()->Obj_0);
        }
        r
    }
}

/// A saved collection in its album shape.
#[derive(Debug, PartialEq, Eq, Clone)]
pub struct SavedCollectionAlbum {
    pub title: String,
    pub string_map_data: SavedCollectionAlbumData,
}

impl JsonRecord for SavedCollectionAlbum {
    open spec fn json_spec(&self) -> SpecJson {
        SpecJson::Obj(
            seq![
                (("title")@, SpecJson::Str(self.title@)),
                (("string_map_data")@, self.string_map_data.json_spec()),
            ],
        )
    }

    open spec fn spec_parse(v: SpecJson) -> Result<SpecJson, SpecDeserError> {
        match v {
            SpecJson::Obj(fields) => match spec_check_keys(fields, seq![("title")@, ("string_map_data")@]) {
                Err(e) => Err(e),
                Ok(_) => match sf_string(fields, ("title")@) {
                    Err(e) => Err(e),
                    Ok(title) => match sf_rec::<SavedCollectionAlbumData>(fields, ("string_map_data")@) {
                        Err(e) => Err(e),
                        Ok(string_map_data) => Ok(
                            SpecJson::Obj(
                                seq![
                                    (("title")@, SpecJson::Str(title)),
                                    (("string_map_data")@, string_map_data),
                                ],
                            ),
                        ),
                    },
                },
            },
            _ => Err(SpecDeserError::NotAnObject),
        }
    }

    fn from_json(v: &JsonValue) -> (r: Result<Self, DeserError>) {
        match v {
            JsonValue::Obj(fields) => {
                let allowed: Vec<&str> = vec!["title", "string_map_data"];
                proof {
                    assert(allowed.deep_view() =~= seq![("title")@, ("string_map_data")@]);
                }
                match check_keys(fields, &allowed) {
                    Err(e) => {
                        return Err(e);
                    },
                    Ok(_) => {},
                }
                let title = match gf_string(fields, "title") {
                    Ok(x) => x,
                    Err(e) => {
                        return Err(e);
                    },
                };
                let string_map_data = match gf_rec::<SavedCollectionAlbumData>(fields, "string_map_data") {
                    Ok(x) => x,
                    Err(e) => {
                        return Err(e);
                    },
                };
                let rec = SavedCollectionAlbum { title, string_map_data };
                proof {
                    let lhs = Self::spec_parse(v@)->Ok_0->Obj_0;
                    let rhs = rec.json_spec()->Obj_0;
                    assert(lhs =~= rhs);
                }
                Ok(rec)
            },
            _ => Err(DeserError::NotAnObject),
        }
    }

    fn to_json(&self) -> (r: JsonValue) {
        let mut fields: Vec<(String, JsonValue)> = Vec::new();
        fields.push((String::from_str("title"), JsonValue::Str(self.title.clone())));
        fields.push((String::from_str("string_map_data"), self.string_map_data.to_json()));
        let r = JsonValue::Obj(fields);
        proof {
            crate::json::lemma_view_fields(r->Obj_0@);
            assert(r@->Obj_0 =~= self.json_spec()->Obj_0);
        }
        r
    }
}

/// The named fields of a plain saved-collection entry.
#[derive(Debug, PartialEq, Eq, Clone)]
pub struct SavedCollectionEntryData {
    pub name: LinkData,
    pub added_time: Timestamp,
}

impl JsonRecord for SavedCollectionEntryData {
    open spec fn json_spec(&self) -> SpecJson {
        SpecJson::Obj(
            seq![
                (("Name")@, self.name.json_spec()),
                (("Added Time")@, self.added_time.json_spec()),
            ],
        )
    }

    open spec fn spec_parse(v: SpecJson) -> Result<SpecJson, SpecDeserError> {
        match v {
            SpecJson::Obj(fields) => match spec_check_keys(fields, seq![("Name")@, ("Added Time")@]) {
                Err(e) => Err(e),
                Ok(_) => match sf_rec::<LinkData>(fields, ("Name")@) {
                    Err(e) => Err(e),
                    Ok(name) => match sf_rec::<Timestamp>(fields, ("Added Time")@) {
                        Err(e) => Err(e),
                        Ok(added_time) => Ok(
                            SpecJson::Obj(
                                seq![
                                    (("Name")@, name),
                                    (("Added Time")@, added_time),
                                ],
                            ),
                        ),
                    },
                },
            },
            _ => Err(SpecDeserError::NotAnObject),
        }
    }

    fn from_json(v: &JsonValue) -> (r: Result<Self, DeserError>) {
        match v {
            JsonValue::Obj(fields) => {
                let allowed: Vec<&str> = vec!["Name", "Added Time"];
                proof {
                    assert(allowed.deep_view() =~= seq![("Name")@, ("Added Time")@]);
                }
                match check_keys(fields, &allowed) {
                    Err(e) => {
                        return Err(e);
                    },
                    Ok(_) => {},
                }
                let name = match gf_rec::<LinkData>(fields, "Name") {
                    Ok(x) => x,
                    Err(e) => {
                        return Err(e);
                    },
                };
                let added_time = match gf_rec::<Timestamp>(fields, "Added Time") {
                    Ok(x) => x,
                    Err(e) => {
                        return Err(e);
                    },
                };
                let rec = SavedCollectionEntryData { name, added_time };
                proof {
                    let lhs = Self::spec_parse(v@)->Ok_0->Obj_0;
                    let rhs = rec.json_spec()->Obj_0;
                    assert(lhs =~= rhs);
                }
                Ok(rec)
            },
            _ => Err(DeserError::NotAnObject),
        }
    }

    fn to_json(&self) -> (r: JsonValue) {
        let mut fields: Vec<(String, JsonValue)> = Vec::new();
        fields.push((String::from_str("Name"), self.name.to_json()));
        fields.push((String::from_str("Added Time"), self.added_time.to_json()));
        let r = JsonValue::Obj(fields);
        proof {
            crate::json::lemma_view_fields(r->Obj_0@);
            assert(r@->Obj_0 =~= self.json_spec()->Obj_0);
        }
        r
    }
}

/// A saved collection in its plain-entry shape.
#[derive(Debug, PartialEq, Eq, Clone)]
pub struct SavedCollectionEntry {
    pub string_map_data: SavedCollectionEntryData,
}

impl JsonRecord for SavedCollectionEntry {
    open spec fn json_spec(&self) -> SpecJson {
        SpecJson::Obj(
            seq![
                (("string_map_data")@, self.string_map_data.json_spec()),
            ],
        )
    }

    open spec fn spec_parse(v: SpecJson) -> Result<SpecJson, SpecDeserError> {
        match v {
            SpecJson::Obj(fields) => match spec_check_keys(fields, seq![("string_map_data")@]) {
                Err(e) => Err(e),
                Ok(_) => match sf_rec::<SavedCollectionEntryData>(fields, ("string_map_data")@) {
                    Err(e) => Err(e),
                    Ok(string_map_data) => Ok(
                        SpecJson::Obj(
                            seq![
                                (("string_map_data")@, string_map_data),
                            ],
                        ),
                    ),
                },
            },
            _ => Err(SpecDeserError::NotAnObject),
        }
    }

    fn from_json(v: &JsonValue) -> (r: Result<Self, DeserError>) {
        match v {
            JsonValue::Obj(fields) => {
                let allowed: Vec<&str> = vec!["string_map_data"];
                proof {
                    assert(allowed.deep_view() =~= seq![("string_map_data")@]);
                }
                match check_keys(fields, &allowed) {
                    Err(e) => {
                        return Err(e);
                    },
                    Ok(_) => {},
                }
                let string_map_data = match gf_rec::<SavedCollectionEntryData>(fields, "string_map_data") {
                    Ok(x) => x,
                    Err(e) => {
                        return Err(e);
                    },
                };
                let rec = SavedCollectionEntry { string_map_data };
                proof {
                    let lhs = Self::spec_parse(v@)->Ok_0->Obj_0;
                    let rhs = rec.json_spec()->Obj_0;
                    assert(lhs =~= rhs);
                }
                Ok(rec)
            },
            _ => Err(DeserError::NotAnObject),
        }
    }

    fn to_json(&self) -> (r: JsonValue) {
        let mut fields: Vec<(String, JsonValue)> = Vec::new();
        fields.push((String::from_str("string_map_data"), self.string_map_data.to_json()));
        let r = JsonValue::Obj(fields);
        proof {
            crate::json::lemma_view_fields(r->Obj_0@);
            assert(r@->Obj_0 =~= self.json_spec()->Obj_0);
        }
        r
    }
}

/// A saved collection, structurally disambiguated: the album shape is tried
/// first, then the plain-entry shape; an object matching neither is rejected
/// with both attempted variant names.
#[derive(Debug, PartialEq, Eq, Clone)]
pub enum SavedCollectionData {
    Album(SavedCollectionAlbum),
    Entry(SavedCollectionEntry),
}

impl JsonRecord for SavedCollectionData {
    open spec fn json_spec(&self) -> SpecJson {
        match self {
            SavedCollectionData::Album(a) => a.json_spec(),
            SavedCollectionData::Entry(e) => e.json_spec(),
        }
    }

    open spec fn spec_parse(v: SpecJson) -> Result<SpecJson, SpecDeserError> {
        match SavedCollectionAlbum::spec_parse(v) {
            Ok(j) => Ok(j),
            Err(_) => match SavedCollectionEntry::spec_parse(v) {
                Ok(j) => Ok(j),
                Err(_) => Err(
                    SpecDeserError::NoVariantMatched(seq![("Album")@, ("Entry")@]),
                ),
            },
        }
    }

    fn from_json(v: &JsonValue) -> (r: Result<Self, DeserError>) {
        match SavedCollectionAlbum::from_json(v) {
            Ok(a) => Ok(SavedCollectionData::Album(a)),
            Err(_) => match SavedCollectionEntry::from_json(v) {
                Ok(e) => Ok(SavedCollectionData::Entry(e)),
                Err(_) => {
                    let names = vec![String::from_str("Album"), String::from_str("Entry")];
                    proof {
                        assert(names.deep_view() =~= seq![("Album")@, ("Entry")@]);
                    }
                    Err(DeserError::NoVariantMatched(names))
                },
            },
        }
    }

    fn to_json(&self) -> (r: JsonValue) {
        match self {
            SavedCollectionData::Album(a) => a.to_json(),
            SavedCollectionData::Entry(e) => e.to_json(),
        }
    }
}

/// The named fields of one saved post.
#[derive(Debug, PartialEq, Eq, Clone)]
pub struct SavedContentData {
    pub saved_on: LinkTimeData,
}

impl JsonRecord for SavedContentData {
    open spec fn json_spec(&self) -> SpecJson {
        SpecJson::Obj(
            seq![
                (("Saved on")@, self.saved_on.json_spec()),
            ],
        )
    }

    open spec fn spec_parse(v: SpecJson) -> Result<SpecJson, SpecDeserError> {
        match v {
            SpecJson::Obj(fields) => match spec_check_keys(fields, seq![("Saved on")@]) {
                Err(e) => Err(e),
                Ok(_) => match sf_rec::<LinkTimeData>(fields, ("Saved on")@) {
                    Err(e) => Err(e),
                    Ok(saved_on) => Ok(
                        SpecJson::Obj(
                            seq![
                                (("Saved on")@, saved_on),
                            ],
                        ),
                    ),
                },
            },
            _ => Err(SpecDeserError::NotAnObject),
        }
    }

    fn from_json(v: &JsonValue) -> (r: Result<Self, DeserError>) {
        match v {
            JsonValue::Obj(fields) => {
                let allowed: Vec<&str> = vec!["Saved on"];
                proof {
                    assert(allowed.deep_view() =~= seq![("Saved on")@]);
                }
                match check_keys(fields, &allowed) {
                    Err(e) => {
                        return Err(e);
                    },
                    Ok(_) => {},
                }
                let saved_on = match gf_rec::<LinkTimeData>(fields, "Saved on") {
                    Ok(x) => x,
                    Err(e) => {
                        return Err(e);
                    },
                };
                let rec = SavedContentData { saved_on };
                proof {
                    let lhs = Self::spec_parse(v@)->Ok_0->Obj_0;
                    let rhs = rec.json_spec()->Obj_0;
                    assert(lhs =~= rhs);
                }
                Ok(rec)
            },
            _ => Err(DeserError::NotAnObject),
        }
    }

    fn to_json(&self) -> (r: JsonValue) {
        let mut fields: Vec<(String, JsonValue)> = Vec::new();
        fields.push((String::from_str("Saved on"), self.saved_on.to_json()));
        let r = JsonValue::Obj(fields);
        proof {
            crate::json::lemma_view_fields(r->Obj_0@);
            assert(r@->Obj_0 =~= self.json_spec()->Obj_0);
        }
        r
    }
}

/// One saved post.
#[derive(Debug, PartialEq, Eq, Clone)]
pub struct SavedContent {
    pub title: String,
    pub string_map_data: SavedContentData,
}

impl JsonRecord for SavedContent {
    open spec fn json_spec(&self) -> SpecJson {
        SpecJson::Obj(
            seq![
                (("title")@, SpecJson::Str(self.title@)),
                (("string_map_data")@, self.string_map_data.json_spec()),
            ],
        )
    }

    open spec fn spec_parse(v: SpecJson) -> Result<SpecJson, SpecDeserError> {
        match v {
            SpecJson::Obj(fields) => match spec_check_keys(fields, seq![("title")@, ("string_map_data")@]) {
                Err(e) => Err(e),
                Ok(_) => match sf_string(fields, ("title")@) {
                    Err(e) => Err(e),
                    Ok(title) => match sf_rec::<SavedContentData>(fields, ("string_map_data")@) {
                        Err(e) => Err(e),
                        Ok(string_map_data) => Ok(
                            SpecJson::Obj(
                                seq![
                                    (("title")@, SpecJson::Str(title)),
                                    (("string_map_data")@, string_map_data),
                                ],
                            ),
                        ),
                    },
                },
            },
            _ => Err(SpecDeserError::NotAnObject),
        }
    }

    fn from_json(v: &JsonValue) -> (r: Result<Self, DeserError>) {
        match v {
            JsonValue::Obj(fields) => {
                let allowed: Vec<&str> = vec!["title", "string_map_data"];
                proof {
                    assert(allowed.deep_view() =~= seq![("title")@, ("string_map_data")@]);
                }
                match check_keys(fields, &allowed) {
                    Err(e) => {
                        return Err(e);
                    },
                    Ok(_) => {},
                }
                let title = match gf_string(fields, "title") {
                    Ok(x) => x,
                    Err(e) => {
                        return Err(e);
                    },
                };
                let string_map_data = match gf_rec::<SavedContentData>(fields, "string_map_data") {
                    Ok(x) => x,
                    Err(e) => {
                        return Err(e);
                    },
                };
                let rec = SavedContent { title, string_map_data };
                proof {
                    let lhs = Self::spec_parse(v@)->Ok_0->Obj_0;
                    let rhs = rec.json_spec()->Obj_0;
                    assert(lhs =~= rhs);
                }
                Ok(rec)
            },
            _ => Err(DeserError::NotAnObject),
        }
    }

    fn to_json(&self) -> (r: JsonValue) {
        let mut fields: Vec<(String, JsonValue)> = Vec::new();
        fields.push((String::from_str("title"), JsonValue::Str(self.title.clone())));
        fields.push((String::from_str("string_map_data"), self.string_map_data.to_json()));
        let r = JsonValue::Obj(fields);
        proof {
            crate::json::lemma_view_fields(r->Obj_0@);
            assert(r@->Obj_0 =~= self.json_spec()->Obj_0);
        }
        r
    }
}

/// The saved-collections leaf file.
#[derive(Debug, PartialEq, Eq, Clone)]
pub struct SavedCollections {
    pub saved_saved_collections: Vec<SavedCollectionData>,
}

impl JsonRecord for SavedCollections {
    open spec fn json_spec(&self) -> SpecJson {
        SpecJson::Obj(
            seq![
                (("saved_saved_collections")@, SpecJson::Arr(jsons_of(self.saved_saved_collections@))),
            ],
        )
    }

    open spec fn spec_parse(v: SpecJson) -> Result<SpecJson, SpecDeserError> {
        match v {
            SpecJson::Obj(fields) => match spec_check_keys(fields, seq![("saved_saved_collections")@]) {
                Err(e) => Err(e),
                Ok(_) => match sf_rec_arr::<SavedCollectionData>(fields, ("saved_saved_collections")@) {
                    Err(e) => Err(e),
                    Ok(saved_saved_collections) => Ok(
                        SpecJson::Obj(
                            seq![
                                (("saved_saved_collections")@, SpecJson::Arr(saved_saved_collections)),
                            ],
                        ),
                    ),
                },
            },
            _ => Err(SpecDeserError::NotAnObject),
        }
    }

    fn from_json(v: &JsonValue) -> (r: Result<Self, DeserError>) {
        match v {
            JsonValue::Obj(fields) => {
                let allowed: Vec<&str> = vec!["saved_saved_collections"];
                proof {
                    assert(allowed.deep_view() =~= seq![("saved_saved_collections")@]);
                }
                match check_keys(fields, &allowed) {
                    Err(e) => {
                        return Err(e);
                    },
                    Ok(_) => {},
                }
                let saved_saved_collections = match gf_rec_arr::<SavedCollectionData>(fields, "saved_saved_collections") {
                    Ok(x) => x,
                    Err(e) => {
                        return Err(e);
                    },
                };
                let rec = SavedCollections { saved_saved_collections };
                proof {
                    let lhs = Self::spec_parse(v@)->Ok_0->Obj_0;
                    let rhs = rec.json_spec()->Obj_0;
                    assert(lhs =~= rhs);
                }
                Ok(rec)
            },
            _ => Err(DeserError::NotAnObject),
        }
    }

    fn to_json(&self) -> (r: JsonValue) {
        let mut fields: Vec<(String, JsonValue)> = Vec::new();
        fields.push((String::from_str("saved_saved_collections"), JsonValue::Arr(items_to_json(&self.saved_saved_collections))));
        let r = JsonValue::Obj(fields);
        proof {
            crate::json::lemma_view_fields(r->Obj_0@);
            assert(r@->Obj_0 =~= self.json_spec()->Obj_0);
        }
        r
    }
}

/// The saved-posts leaf file.
#[derive(Debug, PartialEq, Eq, Clone)]
pub struct SavedPosts {
    pub saved_saved_media: Vec<SavedContent>,
}

impl JsonRecord for SavedPosts {
    open spec fn json_spec(&self) -> SpecJson {
        SpecJson::Obj(
            seq![
                (("saved_saved_media")@, SpecJson::Arr(jsons_of(self.saved_saved_media@))),
            ],
        )
    }

    open spec fn spec_parse(v: SpecJson) -> Result<SpecJson, SpecDeserError> {
        match v {
            SpecJson::Obj(fields) => match spec_check_keys(fields, seq![("saved_saved_media")@]) {
                Err(e) => Err(e),
                Ok(_) => match sf_rec_arr::<SavedContent>(fields, ("saved_saved_media")@) {
                    Err(e) => Err(e),
                    Ok(saved_saved_media) => Ok(
                        SpecJson::Obj(
                            seq![
                                (("saved_saved_media")@, SpecJson::Arr(saved_saved_media)),
                            ],
                        ),
                    ),
                },
            },
            _ => Err(SpecDeserError::NotAnObject),
        }
    }

    fn from_json(v: &JsonValue) -> (r: Result<Self, DeserError>) {
        match v {
            JsonValue::Obj(fields) => {
                let allowed: Vec<&str> = vec!["saved_saved_media"];
                proof {
                    assert(allowed.deep_view() =~= seq![("saved_saved_media")@]);
                }
                match check_keys(fields, &allowed) {
                    Err(e) => {
                        return Err(e);
                    },
                    Ok(_) => {},
                }
                let saved_saved_media = match gf_rec_arr::<SavedContent>(fields, "saved_saved_media") {
                    Ok(x) => x,
                    Err(e) => {
                        return Err(e);
                    },
                };
                let rec = SavedPosts { saved_saved_media };
                proof {
                    let lhs = Self::spec_parse(v@)->Ok_0->Obj_0;
                    let rhs = rec.json_spec()->Obj_0;
                    assert(lhs =~= rhs);
                }
                Ok(rec)
            },
            _ => Err(DeserError::NotAnObject),
        }
    }

    fn to_json(&self) -> (r: JsonValue) {
        let mut fields: Vec<(String, JsonValue)> = Vec::new();
        fields.push((String::from_str("saved_saved_media"), JsonValue::Arr(items_to_json(&self.saved_saved_media))));
        let r = JsonValue::Obj(fields);
        proof {
            crate::json::lemma_view_fields(r->Obj_0@);
            assert(r@->Obj_0 =~= self.json_spec()->Obj_0);
        }
        r
    }
}

/// What is wrong with one entry of the The saved section. folder, if anything.
pub open spec fn sp_saved_entry(name: Seq<char>, node: SpecNode, at: Seq<Seq<char>>) -> Option<
    SpecParseError,
> {
    let path = at.push(name);
    match node {
        SpecNode::Dir(_) => Some(
            SpecParseError::UnexpectedFormat { path, issue: StructuralIssue::ExpectedFile },
        ),
        SpecNode::File(text) => {
            if name == ("saved_collections.json")@ {
                match sp_leaf::<SavedCollections>(text, path) {
                    Ok(_) => None,
                    Err(e) => Some(e),
                }
            } else if name == ("saved_posts.json")@ {
                match sp_leaf::<SavedPosts>(text, path) {
                    Ok(_) => None,
                    Err(e) => Some(e),
                }
            } else {
                Some(
                    SpecParseError::UnexpectedFormat {
                        path,
                        issue: StructuralIssue::UnexpectedEntry,
                    },
                )
            }
        },
    }
}

/// The first failing entry, in directory order.
pub open spec fn sp_saved_first_bad(
    entries: Seq<(Seq<char>, SpecNode)>,
    at: Seq<Seq<char>>,
) -> Option<SpecParseError>
    decreases entries.len(),
{
    if entries.len() == 0 {
        None
    } else {
        match sp_saved_entry(entries[0].0, entries[0].1, at) {
            Some(e) => Some(e),
            None => sp_saved_first_bad(entries.drop_first(), at),
        }
    }
}

/// Loads the folder: the aggregate's canonical JSON, or the first error.
#[verifier::opaque]
pub open spec fn sp_load_saved(
    entries: Seq<(Seq<char>, SpecNode)>,
    at: Seq<Seq<char>>,
) -> Result<SpecJson, SpecParseError> {
    match sp_saved_first_bad(entries, at) {
        Some(e) => Err(e),
        None => Ok(
            SpecJson::Obj(
                seq![
                    (("saved_collections")@, opt_json(sp_field::<SavedCollections>(entries, ("saved_collections.json")@, at))),
                    (("saved_posts")@, opt_json(sp_field::<SavedPosts>(entries, ("saved_posts.json")@, at))),
                ],
            ),
        ),
    }
}

/// The saved section.
#[derive(Debug, PartialEq, Eq, Clone)]
pub struct Saved {
    pub saved_collections: Option<SavedCollections>,
    pub saved_posts: Option<SavedPosts>,
}

impl Saved {
    /// The canonical JSON of this section.
    pub open spec fn json_spec(&self) -> SpecJson {
        SpecJson::Obj(
            seq![
                (("saved_collections")@, opt_rec_json(self.saved_collections)),
                (("saved_posts")@, opt_rec_json(self.saved_posts)),
            ],
        )
    }

    /// Rebuilds the canonical JSON value of this section.
    pub fn to_json(&self) -> (r: JsonValue)
        ensures
            r@ == self.json_spec(),
    {
        let mut fields: Vec<(String, JsonValue)> = Vec::new();
        fields.push((String::from_str("saved_collections"), match &self.saved_collections { Some(x) => x.to_json(), None => JsonValue::Null }));
        fields.push((String::from_str("saved_posts"), match &self.saved_posts { Some(x) => x.to_json(), None => JsonValue::Null }));
        let r = JsonValue::Obj(fields);
        proof {
            crate::json::lemma_view_fields(r->Obj_0@);
            assert(r@->Obj_0 =~= self.json_spec()->Obj_0);
        }
        r
    }

    /// Loads this section from its folder, `at` naming the folder from the
    /// archive root.  Every entry must be a recognized leaf file; the first
    /// unexplained entry or bad file aborts the load.
    #[verifier::rlimit(100)]
    pub fn from_folder(dir: &Folder, at: &Vec<String>) -> (r: Result<Self, ParseError>)
        ensures
            match r {
                Ok(s) => sp_load_saved(dir@, at.deep_view()) == Ok::<
                    SpecJson,
                    SpecParseError,
                >(s.json_spec()),
                Err(e) => sp_load_saved(dir@, at.deep_view()) == Err::<
                    SpecJson,
                    SpecParseError,
                >(e@),
            },
    {
        proof {
                reveal(sp_load_saved);
            reveal_strlit("saved_collections.json");
            reveal_strlit("saved_posts.json");
        }
        let ghost ev = dir@;
        let ghost pv = at.deep_view();
        let entries = &dir.entries;
        proof {
                reveal(sp_load_saved);
            lemma_view_entries(entries@);
            assert(ev.skip(0) =~= ev);
            assert(ev.take(0) =~= Seq::<(Seq<char>, SpecNode)>::empty());
        }
        let mut saved_collections: Option<SavedCollections> = None;
        let mut saved_posts: Option<SavedPosts> = None;
        let mut i: usize = 0;
        while i < entries.len()
            invariant
                i <= entries@.len(),
                ev == dir@,
                ev == view_entries(entries@),
                ev.len() == entries@.len(),
                pv == at.deep_view(),
                sp_saved_first_bad(ev, pv) == sp_saved_first_bad(ev.skip(i as int), pv),
                opt_rec_json(saved_collections) == opt_json(sp_field::<SavedCollections>(ev.take(i as int), ("saved_collections.json")@, pv)),
                opt_rec_json(saved_posts) == opt_json(sp_field::<SavedPosts>(ev.take(i as int), ("saved_posts.json")@, pv)),
            decreases entries@.len() - i,
        {
            proof {
                reveal(sp_load_saved);
                reveal_strlit("saved_collections.json");
                reveal_strlit("saved_posts.json");
                lemma_view_entries(entries@);
                assert(ev[i as int] == (entries@[i as int].name@, entries@[i as int].node@));
                assert(ev.skip(i as int)[0] == ev[i as int]);
                assert(ev.skip(i as int).drop_first() =~= ev.skip(i as int + 1));
                assert(ev.take(i as int + 1).drop_last() =~= ev.take(i as int));
                assert(ev.take(i as int + 1).last() == ev[i as int]);
            }
            let entry = &entries[i];
            proof {
                reveal(sp_load_saved);
                assert(entry.name@ == ev[i as int].0);
                assert(entry.node@ == ev[i as int].1);
            }
            let child = path_push(at, &entry.name);
            match &entry.node {
                Node::Dir(_) => {
                    proof {
                reveal(sp_load_saved);
                        let ee = SpecParseError::UnexpectedFormat {
                            path: pv.push(ev[i as int].0),
                            issue: StructuralIssue::ExpectedFile,
                        };
                        assert(sp_saved_entry(ev[i as int].0, ev[i as int].1, pv) == Some(ee));
                        assert(sp_saved_first_bad(ev.skip(i as int), pv) == Some(ee));
                    }
                    return Err(
                        ParseError::UnexpectedFormat {
                            path: child,
                            issue: StructuralIssue::ExpectedFile,
                        },
                    );
                },
                Node::File(text) => {
                    if str_eq(entry.name.as_str(), "saved_collections.json") {
                        match parse_leaf::<SavedCollections>(text.as_str(), child) {
                            Ok(x) => {
                                proof {
                reveal(sp_load_saved);
                                    assert(sp_saved_entry(ev[i as int].0, ev[i as int].1, pv) is None);
                                    assert(sp_saved_first_bad(ev.skip(i as int), pv) == sp_saved_first_bad(ev.skip(i as int + 1), pv));
                                    assert(sp_field::<SavedCollections>(ev.take(i as int + 1), ("saved_collections.json")@, pv) == Some(x.json_spec()));
                                    assert(sp_field::<SavedPosts>(ev.take(i as int + 1), ("saved_posts.json")@, pv) == sp_field::<SavedPosts>(ev.take(i as int), ("saved_posts.json")@, pv));
                                }
                                saved_collections = Some(x);
                            },
                            Err(e) => {
                                proof {
                reveal(sp_load_saved);
                                    assert(sp_saved_entry(ev[i as int].0, ev[i as int].1, pv) == Some(e@));
                                    assert(sp_saved_first_bad(ev.skip(i as int), pv) == Some(e@));
                                }
                                return Err(e);
                            },
                        }
                    } else if str_eq(entry.name.as_str(), "saved_posts.json") {
                        match parse_leaf::<SavedPosts>(text.as_str(), child) {
                            Ok(x) => {
                                proof {
                reveal(sp_load_saved);
                                    assert(sp_saved_entry(ev[i as int].0, ev[i as int].1, pv) is None);
                                    assert(sp_saved_first_bad(ev.skip(i as int), pv) == sp_saved_first_bad(ev.skip(i as int + 1), pv));
                                    assert(sp_field::<SavedPosts>(ev.take(i as int + 1), ("saved_posts.json")@, pv) == Some(x.json_spec()));
                                    assert(sp_field::<SavedCollections>(ev.take(i as int + 1), ("saved_collections.json")@, pv) == sp_field::<SavedCollections>(ev.take(i as int), ("saved_collections.json")@, pv));
                                }
                                saved_posts = Some(x);
                            },
                            Err(e) => {
                                proof {
                reveal(sp_load_saved);
                                    assert(sp_saved_entry(ev[i as int].0, ev[i as int].1, pv) == Some(e@));
                                    assert(sp_saved_first_bad(ev.skip(i as int), pv) == Some(e@));
                                }
                                return Err(e);
                            },
                        }
                    } else {
                        proof {
                reveal(sp_load_saved);
                            let ee = SpecParseError::UnexpectedFormat {
                                path: pv.push(ev[i as int].0),
                                issue: StructuralIssue::UnexpectedEntry,
                            };
                            assert(sp_saved_entry(ev[i as int].0, ev[i as int].1, pv) == Some(ee));
                            assert(sp_saved_first_bad(ev.skip(i as int), pv) == Some(ee));
                        }
                        return Err(
                            ParseError::UnexpectedFormat {
                                path: child,
                                issue: StructuralIssue::UnexpectedEntry,
                            },
                        );
                    }
                },
            }
            i = i + 1;
        }
        proof {
                reveal(sp_load_saved);
            assert(ev.take(i as int) =~= ev);
            assert(ev.skip(i as int) =~= Seq::<(Seq<char>, SpecNode)>::empty());
        }
        let s = Saved { saved_collections, saved_posts };
        proof {
                reveal(sp_load_saved);
            let lhs = sp_load_saved(ev, pv)->Ok_0->Obj_0;
            let rhs = s.json_spec()->Obj_0;
            assert(lhs =~= rhs);
        }
        Ok(s)
    }
}

} // verus!
