//! The followers-and-following section: its leaf files and their records.
use vstd::prelude::*;

use crate::common::{DeserError, SpecDeserError};
use crate::json::{JsonValue, SpecJson, view_items, lemma_view_items_push};
use crate::record::{JsonRecord, jsons_of, sp_items, parse_items_from, items_to_json, gf_rec,
    gf_opt_rec, gf_rec_arr, gf_opt_rec_arr, sf_rec, sf_opt_rec, sf_rec_arr, sf_opt_rec_arr,
    opt_rec_json};
use crate::schema::{check_keys, spec_check_keys, gf_string, gf_opt_string, gf_u64, gf_opt_u64,
    gf_u32, gf_opt_u32, gf_i32, gf_bool, gf_opt_bool, gf_null_arr, sf_string, sf_opt_string,
    sf_int, sf_opt_int, sf_bool, sf_opt_bool, sf_null_arr, opt_str_json, opt_int_json,
    opt_bool_json, opt_json, nulls};
use crate::shared::StringData;
use crate::common::{ParseError, SpecParseError, StructuralIssue};
use crate::loader::{parse_leaf, path_push, sp_field, sp_leaf};
use crate::json::{spec_obj_get, spec_obj_has, str_eq};
use crate::tree::{Folder, Node, SpecNode, lemma_view_entries, view_entries};

verus! {

/// One account relationship: a title and its link records.
#[derive(Debug, PartialEq, Eq, Clone)]
pub struct Relationship {
    pub title: String,
    pub media_list_data: Vec<()>,
    pub string_list_data: Vec<StringData>,
}

impl JsonRecord for Relationship {
    open spec fn json_spec(&self) -> SpecJson {
        SpecJson::Obj(
            seq![
                (("title")@, SpecJson::Str(self.title@)),
                (("media_list_data")@, SpecJson::Arr(nulls(self.media_list_data@.len() as nat))),
                (("string_list_data")@, SpecJson::Arr(jsons_of(self.string_list_data@))),
            ],
        )
    }

    open spec fn spec_parse(v: SpecJson) -> Result<SpecJson, SpecDeserError> {
        match v {
            SpecJson::Obj(fields) => match spec_check_keys(fields, seq![("title")@, ("media_list_data")@, ("string_list_data")@]) {
                Err(e) => Err(e),
                Ok(_) => match sf_string(fields, ("title")@) {
                    Err(e) => Err(e),
                    Ok(title) => match sf_null_arr(fields, ("media_list_data")@) {
                        Err(e) => Err(e),
                        Ok(media_list_data) => match sf_rec_arr::<StringData>(fields, ("string_list_data")@) {
                            Err(e) => Err(e),
                            Ok(string_list_data) => Ok(
                                SpecJson::Obj(
                                    seq![
                                        (("title")@, SpecJson::Str(title)),
                                        (("media_list_data")@, SpecJson::Arr(nulls(media_list_data))),
                                        (("string_list_data")@, SpecJson::Arr(string_list_data)),
                                    ],
                                ),
                            ),
                        },
                    },
                },
            },
            _ => Err(SpecDeserError::NotAnObject),
        }
    }

    fn from_json(v: &JsonValue) -> (r: Result<Self, DeserError>) {
        match v {
            JsonValue::Obj(fields) => {
                let allowed: Vec<&str> = vec!["title", "media_list_data", "string_list_data"];
                proof {
                    assert(allowed.deep_view() =~= seq![("title")@, ("media_list_data")@, ("string_list_data")@]);
                }
                match check_keys(fields, &allowed) {
                    Err(e) => {
                        return Err(e);
                    },
                    Ok(_) => {},
                }
                let title = match gf_string(fields, "title") {
                    Ok(x) => x,
                    Err(e) => {
                        return Err(e);
                    },
                };
                let n_media_list_data = match gf_null_arr(fields, "media_list_data") {
                    Ok(n) => n,
                    Err(e) => {
                        return Err(e);
                    },
                };
                let mut media_list_data: Vec<()> = Vec::new();
                while media_list_data.len() < n_media_list_data
                    invariant
                        media_list_data@.len() <= n_media_list_data,
                    decreases n_media_list_data - media_list_data@.len(),
                {
                    media_list_data.push(());
                }
                let string_list_data = match gf_rec_arr::<StringData>(fields, "string_list_data") {
                    Ok(x) => x,
                    Err(e) => {
                        return Err(e);
                    },
                };
                let rec = Relationship { title, media_list_data, string_list_data };
                proof {
                    let lhs = Self::spec_parse(v@)->Ok_0->Obj_0;
                    let rhs = rec.json_spec()->Obj_0;
                    assert(lhs =~= rhs);
                }
                Ok(rec)
            },
            _ => Err(DeserError::NotAnObject),
        }
    }

    fn to_json(&self) -> (r: JsonValue) {
        let mut fields: Vec<(String, JsonValue)> = Vec::new();
        fields.push((String::from_str("title"), JsonValue::Str(self.title.clone())));
        let mut media_list_data_js: Vec<JsonValue> = Vec::new();
        proof {
            assert(view_items(media_list_data_js@) =~= nulls(0));
        }
        while media_list_data_js.len() < self.media_list_data.len()
            invariant
                media_list_data_js@.len() <= self.media_list_data@.len(),
                view_items(media_list_data_js@) == nulls(media_list_data_js@.len() as nat),
            decreases self.media_list_data@.len() - media_list_data_js@.len(),
        {
            proof {
                lemma_view_items_push(media_list_data_js@, JsonValue::Null);
            }
            media_list_data_js.push(JsonValue::Null);
            proof {
                assert(view_items(media_list_data_js@) =~= nulls(media_list_data_js@.len() as nat));
            }
        }
        fields.push((String::from_str("media_list_data"), JsonValue::Arr(media_list_data_js)));
        fields.push((String::from_str("string_list_data"), JsonValue::Arr(items_to_json(&self.string_list_data))));
        let r = JsonValue::Obj(fields);
        proof {
            crate::json::lemma_view_fields(r->Obj_0@);
            assert(r@->Obj_0 =~= self.json_spec()->Obj_0);
        }
        r
    }
}

/// One favourited account.
#[derive(Debug, PartialEq, Eq, Clone)]
pub struct FavouriteAccount {
    pub title: String,
    pub media_list_data: Vec<()>,
    pub string_list_data: Vec<StringData>,
}

impl JsonRecord for FavouriteAccount {
    open spec fn json_spec(&self) -> SpecJson {
        SpecJson::Obj(
            seq![
                (("title")@, SpecJson::Str(self.title@)),
                (("media_list_data")@, SpecJson::Arr(nulls(self.media_list_data@.len() as nat))),
                (("string_list_data")@, SpecJson::Arr(jsons_of(self.string_list_data@))),
            ],
        )
    }

    open spec fn spec_parse(v: SpecJson) -> Result<SpecJson, SpecDeserError> {
        match v {
            SpecJson::Obj(fields) => match spec_check_keys(fields, seq![("title")@, ("media_list_data")@, ("string_list_data")@]) {
                Err(e) => Err(e),
                Ok(_) => match sf_string(fields, ("title")@) {
                    Err(e) => Err(e),
                    Ok(title) => match sf_null_arr(fields, ("media_list_data")@) {
                        Err(e) => Err(e),
                        Ok(media_list_data) => match sf_rec_arr::<StringData>(fields, ("string_list_data")@) {
                            Err(e) => Err(e),
                            Ok(string_list_data) => Ok(
                                SpecJson::Obj(
                                    seq![
                                        (("title")@, SpecJson::Str(title)),
                                        (("media_list_data")@, SpecJson::Arr(nulls(media_list_data))),
                                        (("string_list_data")@, SpecJson::Arr(string_list_data)),
                                    ],
                                ),
                            ),
                        },
                    },
                },
            },
            _ => Err(SpecDeserError::NotAnObject),
        }
    }

    fn from_json(v: &JsonValue) -> (r: Result<Self, DeserError>) {
        match v {
            JsonValue::Obj(fields) => {
                let allowed: Vec<&str> = vec!["title", "media_list_data", "string_list_data"];
                proof {
                    assert(allowed.deep_view() =~= seq![("title")@, ("media_list_data")@, ("string_list_data")@]);
                }
                match check_keys(fields, &allowed) {
                    Err(e) => {
                        return Err(e);
                    },
                    Ok(_) => {},
                }
                let title = match gf_string(fields, "title") {
                    Ok(x) => x,
                    Err(e) => {
                        return Err(e);
                    },
                };
                let n_media_list_data = match gf_null_arr(fields, "media_list_data") {
                    Ok(n) => n,
                    Err(e) => {
                        return Err(e);
                    },
                };
                let mut media_list_data: Vec<()> = Vec::new();
                while media_list_data.len() < n_media_list_data
                    invariant
                        media_list_data@.len() <= n_media_list_data,
                    decreases n_media_list_data - media_list_data@.len(),
                {
                    media_list_data.push(());
                }
                let string_list_data = match gf_rec_arr::<StringData>(fields, "string_list_data") {
                    Ok(x) => x,
                    Err(e) => {
                        return Err(e);
                    },
                };
                let rec = FavouriteAccount { title, media_list_data, string_list_data };
                proof {
                    let lhs = Self::spec_parse(v@)->Ok_0->Obj_0;
                    let rhs = rec.json_spec()->Obj_0;
                    assert(lhs =~= rhs);
                }
                Ok(rec)
            },
            _ => Err(DeserError::NotAnObject),
        }
    }

    fn to_json(&self) -> (r: JsonValue) {
        let mut fields: Vec<(String, JsonValue)> = Vec::new();
        fields.push((String::from_str("title"), JsonValue::Str(self.title.clone())));
        let mut media_list_data_js: Vec<JsonValue> = Vec::new();
        proof {
            assert(view_items(media_list_data_js@) =~= nulls(0));
        }
        while media_list_data_js.len() < self.media_list_data.len()
            invariant
                media_list_data_js@.len() <= self.media_list_data@.len(),
                view_items(media_list_data_js@) == nulls(media_list_data_js@.len() as nat),
            decreases self.media_list_data@.len() - media_list_data_js@.len(),
        {
            proof {
                lemma_view_items_push(media_list_data_js@, JsonValue::Null);
            }
            media_list_data_js.push(JsonValue::Null);
            proof {
                assert(view_items(media_list_data_js@) =~= nulls(media_list_data_js@.len() as nat));
            }
        }
        fields.push((String::from_str("media_list_data"), JsonValue::Arr(media_list_data_js)));
        fields.push((String::from_str("string_list_data"), JsonValue::Arr(items_to_json(&self.string_list_data))));
        let r = JsonValue::Obj(fields);
        proof {
            crate::json::lemma_view_fields(r->Obj_0@);
            assert(r@->Obj_0 =~= self.json_spec()->Obj_0);
        }
        r
    }
}

/// One blocked account.
#[derive(Debug, PartialEq, Eq, Clone)]
pub struct BlockedAccount {
    pub title: String,
    pub string_list_data: Vec<StringData>,
}

impl JsonRecord for BlockedAccount {
    open spec fn json_spec(&self) -> SpecJson {
        SpecJson::Obj(
            seq![
                (("title")@, SpecJson::Str(self.title@)),
                (("string_list_data")@, SpecJson::Arr(jsons_of(self.string_list_data@))),
            ],
        )
    }

    open spec fn spec_parse(v: SpecJson) -> Result<SpecJson, SpecDeserError> {
        match v {
            SpecJson::Obj(fields) => match spec_check_keys(fields, seq![("title")@, ("string_list_data")@]) {
                Err(e) => Err(e),
                Ok(_) => match sf_string(fields, ("title")@) {
                    Err(e) => Err(e),
                    Ok(title) => match sf_rec_arr::<StringData>(fields, ("string_list_data")@) {
                        Err(e) => Err(e),
                        Ok(string_list_data) => Ok(
                            SpecJson::Obj(
                                seq![
                                    (("title")@, SpecJson::Str(title)),
                                    (("string_list_data")@, SpecJson::Arr(string_list_data)),
                                ],
                            ),
                        ),
                    },
                },
            },
            _ => Err(SpecDeserError::NotAnObject),
        }
    }

    fn from_json(v: &JsonValue) -> (r: Result<Self, DeserError>) {
        match v {
            JsonValue::Obj(fields) => {
                let allowed: Vec<&str> = vec!["title", "string_list_data"];
                proof {
                    assert(allowed.deep_view() =~= seq![("title")@, ("string_list_data")@]);
                }
                match check_keys(fields, &allowed) {
                    Err(e) => {
                        return Err(e);
                    },
                    Ok(_) => {},
                }
                let title = match gf_string(fields, "title") {
                    Ok(x) => x,
                    Err(e) => {
                        return Err(e);
                    },
                };
                let string_list_data = match gf_rec_arr::<StringData>(fields, "string_list_data") {
                    Ok(x) => x,
                    Err(e) => {
                        return Err(e);
                    },
                };
                let rec = BlockedAccount { title, string_list_data };
                proof {
                    let lhs = Self::spec_parse(v@)->Ok_0->Obj_0;
                    let rhs = rec.json_spec()->Obj_0;
                    assert(lhs =~= rhs);
                }
                Ok(rec)
            },
            _ => Err(DeserError::NotAnObject),
        }
    }

    fn to_json(&self) -> (r: JsonValue) {
        let mut fields: Vec<(String, JsonValue)> = Vec::new();
        fields.push((String::from_str("title"), JsonValue::Str(self.title.clone())));
        fields.push((String::from_str("string_list_data"), JsonValue::Arr(items_to_json(&self.string_list_data))));
        let r = JsonValue::Obj(fields);
        proof {
            crate::json::lemma_view_fields(r->Obj_0@);
            assert(r@->Obj_0 =~= self.json_spec()->Obj_0);
        }
        r
    }
}

/// The favourited-accounts leaf file.
#[derive(Debug, PartialEq, Eq, Clone)]
pub struct FavouriteAccounts {
    pub relationships_feed_favorites: Vec<FavouriteAccount>,
}

impl JsonRecord for FavouriteAccounts {
    open spec fn json_spec(&self) -> SpecJson {
        SpecJson::Obj(
            seq![
                (("relationships_feed_favorites")@, SpecJson::Arr(jsons_of(self.relationships_feed_favorites@))),
            ],
        )
    }

    open spec fn spec_parse(v: SpecJson) -> Result<SpecJson, SpecDeserError> {
        match v {
            SpecJson::Obj(fields) => match spec_check_keys(fields, seq![("relationships_feed_favorites")@]) {
                Err(e) => Err(e),
                Ok(_) => match sf_rec_arr::<FavouriteAccount>(fields, ("relationships_feed_favorites")@) {
                    Err(e) => Err(e),
                    Ok(relationships_feed_favorites) => Ok(
                        SpecJson::Obj(
                            seq![
                                (("relationships_feed_favorites")@, SpecJson::Arr(relationships_feed_favorites)),
                            ],
                        ),
                    ),
                },
            },
            _ => Err(SpecDeserError::NotAnObject),
        }
    }

    fn from_json(v: &JsonValue) -> (r: Result<Self, DeserError>) {
        match v {
            JsonValue::Obj(fields) => {
                let allowed: Vec<&str> = vec!["relationships_feed_favorites"];
                proof {
                    assert(allowed.deep_view() =~= seq![("relationships_feed_favorites")@]);
                }
                match check_keys(fields, &allowed) {
                    Err(e) => {
                        return Err(e);
                    },
                    Ok(_) => {},
                }
                let relationships_feed_favorites = match gf_rec_arr::<FavouriteAccount>(fields, "relationships_feed_favorites") {
                    Ok(x) => x,
                    Err(e) => {
                        return Err(e);
                    },
                };
                let rec = FavouriteAccounts { relationships_feed_favorites };
                proof {
                    let lhs = Self::spec_parse(v@)->Ok_0->Obj_0;
                    let rhs = rec.json_spec()->Obj_0;
                    assert(lhs =~= rhs);
                }
                Ok(rec)
            },
            _ => Err(DeserError::NotAnObject),
        }
    }

    fn to_json(&self) -> (r: JsonValue) {
        let mut fields: Vec<(String, JsonValue)> = Vec::new();
        fields.push((String::from_str("relationships_feed_favorites"), JsonValue::Arr(items_to_json(&self.relationships_feed_favorites))));
        let r = JsonValue::Obj(fields);
        proof {
            crate::json::lemma_view_fields(r->Obj_0@);
            assert(r@->Obj_0 =~= self.json_spec()->Obj_0);
        }
        r
    }
}

/// The blocked-accounts leaf file.
#[derive(Debug, PartialEq, Eq, Clone)]
pub struct BlockedAccounts {
    pub relationships_blocked_users: Vec<BlockedAccount>,
}

impl JsonRecord for BlockedAccounts {
    open spec fn json_spec(&self) -> SpecJson {
        SpecJson::Obj(
            seq![
                (("relationships_blocked_users")@, SpecJson::Arr(jsons_of(self.relationships_blocked_users@))),
            ],
        )
    }

    open spec fn spec_parse(v: SpecJson) -> Result<SpecJson, SpecDeserError> {
        match v {
            SpecJson::Obj(fields) => match spec_check_keys(fields, seq![("relationships_blocked_users")@]) {
                Err(e) => Err(e),
                Ok(_) => match sf_rec_arr::<BlockedAccount>(fields, ("relationships_blocked_users")@) {
                    Err(e) => Err(e),
                    Ok(relationships_blocked_users) => Ok(
                        SpecJson::Obj(
                            seq![
                                (("relationships_blocked_users")@, SpecJson::Arr(relationships_blocked_users)),
                            ],
                        ),
                    ),
                },
            },
            _ => Err(SpecDeserError::NotAnObject),
        }
    }

    fn from_json(v: &JsonValue) -> (r: Result<Self, DeserError>) {
        match v {
            JsonValue::Obj(fields) => {
                let allowed: Vec<&str> = vec!["relationships_blocked_users"];
                proof {
                    assert(allowed.deep_view() =~= seq![("relationships_blocked_users")@]);
                }
                match check_keys(fields, &allowed) {
                    Err(e) => {
                        return Err(e);
                    },
                    Ok(_) => {},
                }
                let relationships_blocked_users = match gf_rec_arr::<BlockedAccount>(fields, "relationships_blocked_users") {
                    Ok(x) => x,
                    Err(e) => {
                        return Err(e);
                    },
                };
                let rec = BlockedAccounts { relationships_blocked_users };
                proof {
                    let lhs = Self::spec_parse(v@)->Ok_0->Obj_0;
                    let rhs = rec.json_spec()->Obj_0;
                    assert(lhs =~= rhs);
                }
                Ok(rec)
            },
            _ => Err(DeserError::NotAnObject),
        }
    }

    fn to_json(&self) -> (r: JsonValue) {
        let mut fields: Vec<(String, JsonValue)> = Vec::new();
        fields.push((String::from_str("relationships_blocked_users"), JsonValue::Arr(items_to_json(&self.relationships_blocked_users))));
        let r = JsonValue::Obj(fields);
        proof {
            crate::json::lemma_view_fields(r->Obj_0@);
            assert(r@->Obj_0 =~= self.json_spec()->Obj_0);
        }
        r
    }
}

/// The close-friends leaf file.
#[derive(Debug, PartialEq, Eq, Clone)]
pub struct CloseFriends {
    pub relationships_close_friends: Vec<Relationship>,
}

impl JsonRecord for CloseFriends {
    open spec fn json_spec(&self) -> SpecJson {
        SpecJson::Obj(
            seq![
                (("relationships_close_friends")@, SpecJson::Arr(jsons_of(self.relationships_close_friends@))),
            ],
        )
    }

    open spec fn spec_parse(v: SpecJson) -> Result<SpecJson, SpecDeserError> {
        match v {
            SpecJson::Obj(fields) => match spec_check_keys(fields, seq![("relationships_close_friends")@]) {
                Err(e) => Err(e),
                Ok(_) => match sf_rec_arr::<Relationship>(fields, ("relationships_close_friends")@) {
                    Err(e) => Err(e),
                    Ok(relationships_close_friends) => Ok(
                        SpecJson::Obj(
                            seq![
                                (("relationships_close_friends")@, SpecJson::Arr(relationships_close_friends)),
                            ],
                        ),
                    ),
                },
            },
            _ => Err(SpecDeserError::NotAnObject),
        }
    }

    fn from_json(v: &JsonValue) -> (r: Result<Self, DeserError>) {
        match v {
            JsonValue::Obj(fields) => {
                let allowed: Vec<&str> = vec!["relationships_close_friends"];
                proof {
                    assert(allowed.deep_view() =~= seq![("relationships_close_friends")@]);
                }
                match check_keys(fields, &allowed) {
                    Err(e) => {
                        return Err(e);
                    },
                    Ok(_) => {},
                }
                let relationships_close_friends = match gf_rec_arr::<Relationship>(fields, "relationships_close_friends") {
                    Ok(x) => x,
                    Err(e) => {
                        return Err(e);
                    },
                };
                let rec = CloseFriends { relationships_close_friends };
                proof {
                    let lhs = Self::spec_parse(v@)->Ok_0->Obj_0;
                    let rhs = rec.json_spec()->Obj_0;
                    assert(lhs =~= rhs);
                }
                Ok(rec)
            },
            _ => Err(DeserError::NotAnObject),
        }
    }

    fn to_json(&self) -> (r: JsonValue) {
        let mut fields: Vec<(String, JsonValue)> = Vec::new();
        fields.push((String::from_str("relationships_close_friends"), JsonValue::Arr(items_to_json(&self.relationships_close_friends))));
        let r = JsonValue::Obj(fields);
        proof {
            crate::json::lemma_view_fields(r->Obj_0@);
            assert(r@->Obj_0 =~= self.json_spec()->Obj_0);
        }
        r
    }
}

/// The followers leaf file: a bare array of relationships.
#[derive(Debug, PartialEq, Eq, Clone)]
pub struct Followers(pub Vec<Relationship>);

impl JsonRecord for Followers {
    open spec fn json_spec(&self) -> SpecJson {
        SpecJson::Arr(jsons_of(self.0@))
    }

    open spec fn spec_parse(v: SpecJson) -> Result<SpecJson, SpecDeserError> {
        match v {
            SpecJson::Arr(items) => match sp_items::<Relationship>(items) {
                Err(e) => Err(e),
                Ok(js) => Ok(SpecJson::Arr(js)),
            },
            _ => Err(SpecDeserError::NotAnArray),
        }
    }

    fn from_json(v: &JsonValue) -> (r: Result<Self, DeserError>) {
        match v {
            JsonValue::Arr(items) => {
                proof {
                    assert(view_items(items@).skip(0) =~= view_items(items@));
                }
                match parse_items_from::<Relationship>(items, 0) {
                    Ok(xs) => Ok(Followers(xs)),
                    Err(e) => Err(e),
                }
            },
            _ => Err(DeserError::NotAnArray),
        }
    }

    fn to_json(&self) -> (r: JsonValue) {
        JsonValue::Arr(items_to_json(&self.0))
    }
}

/// The following leaf file.
#[derive(Debug, PartialEq, Eq, Clone)]
pub struct Following {
    pub relationships_following: Vec<Relationship>,
}

impl JsonRecord for Following {
    open spec fn json_spec(&self) -> SpecJson {
        SpecJson::Obj(
            seq![
                (("relationships_following")@, SpecJson::Arr(jsons_of(self.relationships_following@))),
            ],
        )
    }

    open spec fn spec_parse(v: SpecJson) -> Result<SpecJson, SpecDeserError> {
        match v {
            SpecJson::Obj(fields) => match spec_check_keys(fields, seq![("relationships_following")@]) {
                Err(e) => Err(e),
                Ok(_) => match sf_rec_arr::<Relationship>(fields, ("relationships_following")@) {
                    Err(e) => Err(e),
                    Ok(relationships_following) => Ok(
                        SpecJson::Obj(
                            seq![
                                (("relationships_following")@, SpecJson::Arr(relationships_following)),
                            ],
                        ),
                    ),
                },
            },
            _ => Err(SpecDeserError::NotAnObject),
        }
    }

    fn from_json(v: &JsonValue) -> (r: Result<Self, DeserError>) {
        match v {
            JsonValue::Obj(fields) => {
                let allowed: Vec<&str> = vec!["relationships_following"];
                proof {
                    assert(allowed.deep_view() =~= seq![("relationships_following")@]);
                }
                match check_keys(fields, &allowed) {
                    Err(e) => {
                        return Err(e);
                    },
                    Ok(_) => {},
                }
                let relationships_following = match gf_rec_arr::<Relationship>(fields, "relationships_following") {
                    Ok(x) => x,
                    Err(e) => {
                        return Err(e);
                    },
                };
                let rec = Following { relationships_following };
                proof {
                    let lhs = Self::spec_parse(v@)->Ok_0->Obj_0;
                    let rhs = rec.json_spec()->Obj_0;
                    assert(lhs =~= rhs);
                }
                Ok(rec)
            },
            _ => Err(DeserError::NotAnObject),
        }
    }

    fn to_json(&self) -> (r: JsonValue) {
        let mut fields: Vec<(String, JsonValue)> = Vec::new();
        fields.push((String::from_str("relationships_following"), JsonValue::Arr(items_to_json(&self.relationships_following))));
        let r = JsonValue::Obj(fields);
        proof {
            crate::json::lemma_view_fields(r->Obj_0@);
            assert(r@->Obj_0 =~= self.json_spec()->Obj_0);
        }
        r
    }
}

/// The hide-story-from leaf file.
#[derive(Debug, PartialEq, Eq, Clone)]
pub struct HideStoryFrom {
    pub relationships_hide_stories_from: Vec<Relationship>,
}

impl JsonRecord for HideStoryFrom {
    open spec fn json_spec(&self) -> SpecJson {
        SpecJson::Obj(
            seq![
                (("relationships_hide_stories_from")@, SpecJson::Arr(jsons_of(self.relationships_hide_stories_from@))),
            ],
        )
    }

    open spec fn spec_parse(v: SpecJson) -> Result<SpecJson, SpecDeserError> {
        match v {
            SpecJson::Obj(fields) => match spec_check_keys(fields, seq![("relationships_hide_stories_from")@]) {
                Err(e) => Err(e),
                Ok(_) => match sf_rec_arr::<Relationship>(fields, ("relationships_hide_stories_from")@) {
                    Err(e) => Err(e),
                    Ok(relationships_hide_stories_from) => Ok(
                        SpecJson::Obj(
                            seq![
                                (("relationships_hide_stories_from")@, SpecJson::Arr(relationships_hide_stories_from)),
                            ],
                        ),
                    ),
                },
            },
            _ => Err(SpecDeserError::NotAnObject),
        }
    }

    fn from_json(v: &JsonValue) -> (r: Result<Self, DeserError>) {
        match v {
            JsonValue::Obj(fields) => {
                let allowed: Vec<&str> = vec!["relationships_hide_stories_from"];
                proof {
                    assert(allowed.deep_view() =~= seq![("relationships_hide_stories_from")@]);
                }
                match check_keys(fields, &allowed) {
                    Err(e) => {
                        return Err(e);
                    },
                    Ok(_) => {},
                }
                let relationships_hide_stories_from = match gf_rec_arr::<Relationship>(fields, "relationships_hide_stories_from") {
                    Ok(x) => x,
                    Err(e) => {
                        return Err(e);
                    },
                };
                let rec = HideStoryFrom { relationships_hide_stories_from };
                proof {
                    let lhs = Self::spec_parse(v@)->Ok_0->Obj_0;
                    let rhs = rec.json_spec()->Obj_0;
                    assert(lhs =~= rhs);
                }
                Ok(rec)
            },
            _ => Err(DeserError::NotAnObject),
        }
    }

    fn to_json(&self) -> (r: JsonValue) {
        let mut fields: Vec<(String, JsonValue)> = Vec::new();
        fields.push((String::from_str("relationships_hide_stories_from"), JsonValue::Arr(items_to_json(&self.relationships_hide_stories_from))));
        let r = JsonValue::Obj(fields);
        proof {
            crate::json::lemma_view_fields(r->Obj_0@);
            assert(r@->Obj_0 =~= self.json_spec()->Obj_0);
        }
        r
    }
}

/// The pending-follow-requests leaf file.
#[derive(Debug, PartialEq, Eq, Clone)]
pub struct PendingFollowRequests {
    pub relationships_follow_requests_sent: Vec<Relationship>,
}

impl JsonRecord for PendingFollowRequests {
    open spec fn json_spec(&self) -> SpecJson {
        SpecJson::Obj(
            seq![
                (("relationships_follow_requests_sent")@, SpecJson::Arr(jsons_of(self.relationships_follow_requests_sent@))),
            ],
        )
    }

    open spec fn spec_parse(v: SpecJson) -> Result<SpecJson, SpecDeserError> {
        match v {
            SpecJson::Obj(fields) => match spec_check_keys(fields, seq![("relationships_follow_requests_sent")@]) {
                Err(e) => Err(e),
                Ok(_) => match sf_rec_arr::<Relationship>(fields, ("relationships_follow_requests_sent")@) {
                    Err(e) => Err(e),
                    Ok(relationships_follow_requests_sent) => Ok(
                        SpecJson::Obj(
                            seq![
                                (("relationships_follow_requests_sent")@, SpecJson::Arr(relationships_follow_requests_sent)),
                            ],
                        ),
                    ),
                },
            },
            _ => Err(SpecDeserError::NotAnObject),
        }
    }

    fn from_json(v: &JsonValue) -> (r: Result<Self, DeserError>) {
        match v {
            JsonValue::Obj(fields) => {
                let allowed: Vec<&str> = vec!["relationships_follow_requests_sent"];
                proof {
                    assert(allowed.deep_view() =~= seq![("relationships_follow_requests_sent")@]);
                }
                match check_keys(fields, &allowed) {
                    Err(e) => {
                        return Err(e);
                    },
                    Ok(_) => {},
                }
                let relationships_follow_requests_sent = match gf_rec_arr::<Relationship>(fields, "relationships_follow_requests_sent") {
                    Ok(x) => x,
                    Err(e) => {
                        return Err(e);
                    },
                };
                let rec = PendingFollowRequests { relationships_follow_requests_sent };
                proof {
                    let lhs = Self::spec_parse(v@)->Ok_0->Obj_0;
                    let rhs = rec.json_spec()->Obj_0;
                    assert(lhs =~= rhs);
                }
                Ok(rec)
            },
            _ => Err(DeserError::NotAnObject),
        }
    }

    fn to_json(&self) -> (r: JsonValue) {
        let mut fields: Vec<(String, JsonValue)> = Vec::new();
        fields.push((String::from_str("relationships_follow_requests_sent"), JsonValue::Arr(items_to_json(&self.relationships_follow_requests_sent))));
        let r = JsonValue::Obj(fields);
        proof {
            crate::json::lemma_view_fields(r->Obj_0@);
            assert(r@->Obj_0 =~= self.json_spec()->Obj_0);
        }
        r
    }
}

/// The recent-follow-requests leaf file.
#[derive(Debug, PartialEq, Eq, Clone)]
pub struct RecentFollowRequests {
    pub relationships_permanent_follow_requests: Vec<Relationship>,
}

impl JsonRecord for RecentFollowRequests {
    open spec fn json_spec(&self) -> SpecJson {
        SpecJson::Obj(
            seq![
                (("relationships_permanent_follow_requests")@, SpecJson::Arr(jsons_of(self.relationships_permanent_follow_requests@))),
            ],
        )
    }

    open spec fn spec_parse(v: SpecJson) -> Result<SpecJson, SpecDeserError> {
        match v {
            SpecJson::Obj(fields) => match spec_check_keys(fields, seq![("relationships_permanent_follow_requests")@]) {
                Err(e) => Err(e),
                Ok(_) => match sf_rec_arr::<Relationship>(fields, ("relationships_permanent_follow_requests")@) {
                    Err(e) => Err(e),
                    Ok(relationships_permanent_follow_requests) => Ok(
                        SpecJson::Obj(
                            seq![
                                (("relationships_permanent_follow_requests")@, SpecJson::Arr(relationships_permanent_follow_requests)),
                            ],
                        ),
                    ),
                },
            },
            _ => Err(SpecDeserError::NotAnObject),
        }
    }

    fn from_json(v: &JsonValue) -> (r: Result<Self, DeserError>) {
        match v {
            JsonValue::Obj(fields) => {
                let allowed: Vec<&str> = vec!["relationships_permanent_follow_requests"];
                proof {
                    assert(allowed.deep_view() =~= seq![("relationships_permanent_follow_requests")@]);
                }
                match check_keys(fields, &allowed) {
                    Err(e) => {
                        return Err(e);
                    },
                    Ok(_) => {},
                }
                let relationships_permanent_follow_requests = match gf_rec_arr::<Relationship>(fields, "relationships_permanent_follow_requests") {
                    Ok(x) => x,
                    Err(e) => {
                        return Err(e);
                    },
                };
                let rec = RecentFollowRequests { relationships_permanent_follow_requests };
                proof {
                    let lhs = Self::spec_parse(v@)->Ok_0->Obj_0;
                    let rhs = rec.json_spec()->Obj_0;
                    assert(lhs =~= rhs);
                }
                Ok(rec)
            },
            _ => Err(DeserError::NotAnObject),
        }
    }

    fn to_json(&self) -> (r: JsonValue) {
        let mut fields: Vec<(String, JsonValue)> = Vec::new();
        fields.push((String::from_str("relationships_permanent_follow_requests"), JsonValue::Arr(items_to_json(&self.relationships_permanent_follow_requests))));
        let r = JsonValue::Obj(fields);
        proof {
            crate::json::lemma_view_fields(r->Obj_0@);
            assert(r@->Obj_0 =~= self.json_spec()->Obj_0);
        }
        r
    }
}

/// The recently-unfollowed leaf file.
#[derive(Debug, PartialEq, Eq, Clone)]
pub struct RecentlyUnfollowed {
    pub relationships_unfollowed_users: Vec<Relationship>,
}

impl JsonRecord for RecentlyUnfollowed {
    open spec fn json_spec(&self) -> SpecJson {
        SpecJson::Obj(
            seq![
                (("relationships_unfollowed_users")@, SpecJson::Arr(jsons_of(self.relationships_unfollowed_users@))),
            ],
        )
    }

    open spec fn spec_parse(v: SpecJson) -> Result<SpecJson, SpecDeserError> {
        match v {
            SpecJson::Obj(fields) => match spec_check_keys(fields, seq![("relationships_unfollowed_users")@]) {
                Err(e) => Err(e),
                Ok(_) => match sf_rec_arr::<Relationship>(fields, ("relationships_unfollowed_users")@) {
                    Err(e) => Err(e),
                    Ok(relationships_unfollowed_users) => Ok(
                        SpecJson::Obj(
                            seq![
                                (("relationships_unfollowed_users")@, SpecJson::Arr(relationships_unfollowed_users)),
                            ],
                        ),
                    ),
                },
            },
            _ => Err(SpecDeserError::NotAnObject),
        }
    }

    fn from_json(v: &JsonValue) -> (r: Result<Self, DeserError>) {
        match v {
            JsonValue::Obj(fields) => {
                let allowed: Vec<&str> = vec!["relationships_unfollowed_users"];
                proof {
                    assert(allowed.deep_view() =~= seq![("relationships_unfollowed_users")@]);
                }
                match check_keys(fields, &allowed) {
                    Err(e) => {
                        return Err(e);
                    },
                    Ok(_) => {},
                }
                let relationships_unfollowed_users = match gf_rec_arr::<Relationship>(fields, "relationships_unfollowed_users") {
                    Ok(x) => x,
                    Err(e) => {
                        return Err(e);
                    },
                };
                let rec = RecentlyUnfollowed { relationships_unfollowed_users };
                proof {
                    let lhs = Self::spec_parse(v@)->Ok_0->Obj_0;
                    let rhs = rec.json_spec()->Obj_0;
                    assert(lhs =~= rhs);
                }
                Ok(rec)
            },
            _ => Err(DeserError::NotAnObject),
        }
    }

    fn to_json(&self) -> (r: JsonValue) {
        let mut fields: Vec<(String, JsonValue)> = Vec::new();
        fields.push((String::from_str("relationships_unfollowed_users"), JsonValue::Arr(items_to_json(&self.relationships_unfollowed_users))));
        let r = JsonValue::Obj(fields);
        proof {
            crate::json::lemma_view_fields(r->Obj_0@);
            assert(r@->Obj_0 =~= self.json_spec()->Obj_0);
        }
        r
    }
}

/// The removed-suggestions leaf file.
#[derive(Debug, PartialEq, Eq, Clone)]
pub struct RemovedSuggestions {
    pub relationships_dismissed_suggested_users: Vec<Relationship>,
}

impl JsonRecord for RemovedSuggestions {
    open spec fn json_spec(&self) -> SpecJson {
        SpecJson::Obj(
            seq![
                (("relationships_dismissed_suggested_users")@, SpecJson::Arr(jsons_of(self.relationships_dismissed_suggested_users@))),
            ],
        )
    }

    open spec fn spec_parse(v: SpecJson) -> Result<SpecJson, SpecDeserError> {
        match v {
            SpecJson::Obj(fields) => match spec_check_keys(fields, seq![("relationships_dismissed_suggested_users")@]) {
                Err(e) => Err(e),
                Ok(_) => match sf_rec_arr::<Relationship>(fields, ("relationships_dismissed_suggested_users")@) {
                    Err(e) => Err(e),
                    Ok(relationships_dismissed_suggested_users) => Ok(
                        SpecJson::Obj(
                            seq![
                                (("relationships_dismissed_suggested_users")@, SpecJson::Arr(relationships_dismissed_suggested_users)),
                            ],
                        ),
                    ),
                },
            },
            _ => Err(SpecDeserError::NotAnObject),
        }
    }

    fn from_json(v: &JsonValue) -> (r: Result<Self, DeserError>) {
        match v {
            JsonValue::Obj(fields) => {
                let allowed: Vec<&str> = vec!["relationships_dismissed_suggested_users"];
                proof {
                    assert(allowed.deep_view() =~= seq![("relationships_dismissed_suggested_users")@]);
                }
                match check_keys(fields, &allowed) {
                    Err(e) => {
                        return Err(e);
                    },
                    Ok(_) => {},
                }
                let relationships_dismissed_suggested_users = match gf_rec_arr::<Relationship>(fields, "relationships_dismissed_suggested_users") {
                    Ok(x) => x,
                    Err(e) => {
                        return Err(e);
                    },
                };
                let rec = RemovedSuggestions { relationships_dismissed_suggested_users };
                proof {
                    let lhs = Self::spec_parse(v@)->Ok_0->Obj_0;
                    let rhs = rec.json_spec()->Obj_0;
                    assert(lhs =~= rhs);
                }
                Ok(rec)
            },
            _ => Err(DeserError::NotAnObject),
        }
    }

    fn to_json(&self) -> (r: JsonValue) {
        let mut fields: Vec<(String, JsonValue)> = Vec::new();
        fields.push((String::from_str("relationships_dismissed_suggested_users"), JsonValue::Arr(items_to_json(&self.relationships_dismissed_suggested_users))));
        let r = JsonValue::Obj(fields);
        proof {
            crate::json::lemma_view_fields(r->Obj_0@);
            assert(r@->Obj_0 =~= self.json_spec()->Obj_0);
        }
        r
    }
}

/// The restricted-accounts leaf file.
#[derive(Debug, PartialEq, Eq, Clone)]
pub struct RestrictedAccounts {
    pub relationships_restricted_users: Vec<Relationship>,
}

impl JsonRecord for RestrictedAccounts {
    open spec fn json_spec(&self) -> SpecJson {
        SpecJson::Obj(
            seq![
                (("relationships_restricted_users")@, SpecJson::Arr(jsons_of(self.relationships_restricted_users@))),
            ],
        )
    }

    open spec fn spec_parse(v: SpecJson) -> Result<SpecJson, SpecDeserError> {
        match v {
            SpecJson::Obj(fields) => match spec_check_keys(fields, seq![("relationships_restricted_users")@]) {
                Err(e) => Err(e),
                Ok(_) => match sf_rec_arr::<Relationship>(fields, ("relationships_restricted_users")@) {
                    Err(e) => Err(e),
                    Ok(relationships_restricted_users) => Ok(
                        SpecJson::Obj(
                            seq![
                                (("relationships_restricted_users")@, SpecJson::Arr(relationships_restricted_users)),
                            ],
                        ),
                    ),
                },
            },
            _ => Err(SpecDeserError::NotAnObject),
        }
    }

    fn from_json(v: &JsonValue) -> (r: Result<Self, DeserError>) {
        match v {
            JsonValue::Obj(fields) => {
                let allowed: Vec<&str> = vec!["relationships_restricted_users"];
                proof {
                    assert(allowed.deep_view() =~= seq![("relationships_restricted_users")@]);
                }
                match check_keys(fields, &allowed) {
                    Err(e) => {
                        return Err(e);
                    },
                    Ok(_) => {},
                }
                let relationships_restricted_users = match gf_rec_arr::<Relationship>(fields, "relationships_restricted_users") {
                    Ok(x) => x,
                    Err(e) => {
                        return Err(e);
                    },
                };
                let rec = RestrictedAccounts { relationships_restricted_users };
                proof {
                    let lhs = Self::spec_parse(v@)->Ok_0->Obj_0;
                    let rhs = rec.json_spec()->Obj_0;
                    assert(lhs =~= rhs);
                }
                Ok(rec)
            },
            _ => Err(DeserError::NotAnObject),
        }
    }

    fn to_json(&self) -> (r: JsonValue) {
        let mut fields: Vec<(String, JsonValue)> = Vec::new();
        fields.push((String::from_str("relationships_restricted_users"), JsonValue::Arr(items_to_json(&self.relationships_restricted_users))));
        let r = JsonValue::Obj(fields);
        proof {
            crate::json::lemma_view_fields(r->Obj_0@);
            assert(r@->Obj_0 =~= self.json_spec()->Obj_0);
        }
        r
    }
}

/// What is wrong with one entry of the The followers-and-following section. folder, if anything.
pub open spec fn sp_ffn_entry(name: Seq<char>, node: SpecNode, at: Seq<Seq<char>>) -> Option<
    SpecParseError,
> {
    let path = at.push(name);
    match node {
        SpecNode::Dir(_) => Some(
            SpecParseError::UnexpectedFormat { path, issue: StructuralIssue::ExpectedFile },
        ),
        SpecNode::File(text) => {
            if name == ("accounts_you've_favorited.json")@ {
                match sp_leaf::<FavouriteAccounts>(text, path) {
                    Ok(_) => None,
                    Err(e) => Some(e),
                }
            } else if name == ("blocked_accounts.json")@ {
                match sp_leaf::<BlockedAccounts>(text, path) {
                    Ok(_) => None,
                    Err(e) => Some(e),
                }
            } else if name == ("close_friends.json")@ {
                match sp_leaf::<CloseFriends>(text, path) {
                    Ok(_) => None,
                    Err(e) => Some(e),
                }
            } else if name == ("followers_1.json")@ {
                match sp_leaf::<Followers>(text, path) {
                    Ok(_) => None,
                    Err(e) => Some(e),
                }
            } else if name == ("following.json")@ {
                match sp_leaf::<Following>(text, path) {
                    Ok(_) => None,
                    Err(e) => Some(e),
                }
            } else if name == ("hide_story_from.json")@ {
                match sp_leaf::<HideStoryFrom>(text, path) {
                    Ok(_) => None,
                    Err(e) => Some(e),
                }
            } else if name == ("pending_follow_requests.json")@ {
                match sp_leaf::<PendingFollowRequests>(text, path) {
                    Ok(_) => None,
                    Err(e) => Some(e),
                }
            } else if name == ("recent_follow_requests.json")@ {
                match sp_leaf::<RecentFollowRequests>(text, path) {
                    Ok(_) => None,
                    Err(e) => Some(e),
                }
            } else if name == ("recently_unfollowed_accounts.json")@ {
                match sp_leaf::<RecentlyUnfollowed>(text, path) {
                    Ok(_) => None,
                    Err(e) => Some(e),
                }
            } else if name == ("removed_suggestions.json")@ {
                match sp_leaf::<RemovedSuggestions>(text, path) {
                    Ok(_) => None,
                    Err(e) => Some(e),
                }
            } else if name == ("restricted_accounts.json")@ {
                match sp_leaf::<RestrictedAccounts>(text, path) {
                    Ok(_) => None,
                    Err(e) => Some(e),
                }
            } else {
                Some(
                    SpecParseError::UnexpectedFormat {
                        path,
                        issue: StructuralIssue::UnexpectedEntry,
                    },
                )
            }
        },
    }
}

/// The first failing entry, in directory order.
pub open spec fn sp_ffn_first_bad(
    entries: Seq<(Seq<char>, SpecNode)>,
    at: Seq<Seq<char>>,
) -> Option<SpecParseError>
    decreases entries.len(),
{
    if entries.len() == 0 {
        None
    } else {
        match sp_ffn_entry(entries[0].0, entries[0].1, at) {
            Some(e) => Some(e),
            None => sp_ffn_first_bad(entries.drop_first(), at),
        }
    }
}

/// Loads the folder: the aggregate's canonical JSON, or the first error.
#[verifier::opaque]
pub open spec fn sp_load_ffn(
    entries: Seq<(Seq<char>, SpecNode)>,
    at: Seq<Seq<char>>,
) -> Result<SpecJson, SpecParseError> {
    match sp_ffn_first_bad(entries, at) {
        Some(e) => Err(e),
        None => Ok(
            SpecJson::Obj(
                seq![
                    (("favourite_accounts")@, opt_json(sp_field::<FavouriteAccounts>(entries, ("accounts_you've_favorited.json")@, at))),
                    (("blocked_accounts")@, opt_json(sp_field::<BlockedAccounts>(entries, ("blocked_accounts.json")@, at))),
                    (("close_friends")@, opt_json(sp_field::<CloseFriends>(entries, ("close_friends.json")@, at))),
                    (("followers")@, opt_json(sp_field::<Followers>(entries, ("followers_1.json")@, at))),
                    (("following")@, opt_json(sp_field::<Following>(entries, ("following.json")@, at))),
                    (("hide_story_from")@, opt_json(sp_field::<HideStoryFrom>(entries, ("hide_story_from.json")@, at))),
                    (("pending_follow_requests")@, opt_json(sp_field::<PendingFollowRequests>(entries, ("pending_follow_requests.json")@, at))),
                    (("recent_follow_requests")@, opt_json(sp_field::<RecentFollowRequests>(entries, ("recent_follow_requests.json")@, at))),
                    (("recently_unfollowed")@, opt_json(sp_field::<RecentlyUnfollowed>(entries, ("recently_unfollowed_accounts.json")@, at))),
                    (("removed_suggestions")@, opt_json(sp_field::<RemovedSuggestions>(entries, ("removed_suggestions.json")@, at))),
                    (("restricted_accounts")@, opt_json(sp_field::<RestrictedAccounts>(entries, ("restricted_accounts.json")@, at))),
                ],
            ),
        ),
    }
}

/// The followers-and-following section.
#[derive(Debug, PartialEq, Eq, Clone)]
pub struct FollowersNFollowing {
    pub favourite_accounts: Option<FavouriteAccounts>,
    pub blocked_accounts: Option<BlockedAccounts>,
    pub close_friends: Option<CloseFriends>,
    pub followers: Option<Followers>,
    pub following: Option<Following>,
    pub hide_story_from: Option<HideStoryFrom>,
    pub pending_follow_requests: Option<PendingFollowRequests>,
    pub recent_follow_requests: Option<RecentFollowRequests>,
    pub recently_unfollowed: Option<RecentlyUnfollowed>,
    pub removed_suggestions: Option<RemovedSuggestions>,
    pub restricted_accounts: Option<RestrictedAccounts>,
}

impl FollowersNFollowing {
    /// The canonical JSON of this section.
    pub open spec fn json_spec(&self) -> SpecJson {
        SpecJson::Obj(
            seq![
                (("favourite_accounts")@, opt_rec_json(self.favourite_accounts)),
                (("blocked_accounts")@, opt_rec_json(self.blocked_accounts)),
                (("close_friends")@, opt_rec_json(self.close_friends)),
                (("followers")@, opt_rec_json(self.followers)),
                (("following")@, opt_rec_json(self.following)),
                (("hide_story_from")@, opt_rec_json(self.hide_story_from)),
                (("pending_follow_requests")@, opt_rec_json(self.pending_follow_requests)),
                (("recent_follow_requests")@, opt_rec_json(self.recent_follow_requests)),
                (("recently_unfollowed")@, opt_rec_json(self.recently_unfollowed)),
                (("removed_suggestions")@, opt_rec_json(self.removed_suggestions)),
                (("restricted_accounts")@, opt_rec_json(self.restricted_accounts)),
            ],
        )
    }

    /// Rebuilds the canonical JSON value of this section.
    pub fn to_json(&self) -> (r: JsonValue)
        ensures
            r@ == self.json_spec(),
    {
        let mut fields: Vec<(String, JsonValue)> = Vec::new();
        fields.push((String::from_str("favourite_accounts"), match &self.favourite_accounts { Some(x) => x.to_json(), None => JsonValue::Null }));
        fields.push((String::from_str("blocked_accounts"), match &self.blocked_accounts { Some(x) => x.to_json(), None => JsonValue::Null }));
        fields.push((String::from_str("close_friends"), match &self.close_friends { Some(x) => x.to_json(), None => JsonValue::Null }));
        fields.push((String::from_str("followers"), match &self.followers { Some(x) => x.to_json(), None => JsonValue::Null }));
        fields.push((String::from_str("following"), match &self.following { Some(x) => x.to_json(), None => JsonValue::Null }));
        fields.push((String::from_str("hide_story_from"), match &self.hide_story_from { Some(x) => x.to_json(), None => JsonValue::Null }));
        fields.push((String::from_str("pending_follow_requests"), match &self.pending_follow_requests { Some(x) => x.to_json(), None => JsonValue::Null }));
        fields.push((String::from_str("recent_follow_requests"), match &self.recent_follow_requests { Some(x) => x.to_json(), None => JsonValue::Null }));
        fields.push((String::from_str("recently_unfollowed"), match &self.recently_unfollowed { Some(x) => x.to_json(), None => JsonValue::Null }));
        fields.push((String::from_str("removed_suggestions"), match &self.removed_suggestions { Some(x) => x.to_json(), None => JsonValue::Null }));
        fields.push((String::from_str("restricted_accounts"), match &self.restricted_accounts { Some(x) => x.to_json(), None => JsonValue::Null }));
        let r = JsonValue::Obj(fields);
        proof {
            crate::json::lemma_view_fields(r->Obj_0@);
            assert(r@->Obj_0 =~= self.json_spec()->Obj_0);
        }
        r
    }

    /// Loads this section from its folder, `at` naming the folder from the
    /// archive root.  Every entry must be a recognized leaf file; the first
    /// unexplained entry or bad file aborts the load.
    #[verifier::rlimit(100)]
    pub fn from_folder(dir: &Folder, at: &Vec<String>) -> (r: Result<Self, ParseError>)
        ensures
            match r {
                Ok(s) => sp_load_ffn(dir@, at.deep_view()) == Ok::<
                    SpecJson,
                    SpecParseError,
                >(s.json_spec()),
                Err(e) => sp_load_ffn(dir@, at.deep_view()) == Err::<
                    SpecJson,
                    SpecParseError,
                >(e@),
            },
    {
        proof {
                reveal(sp_load_ffn);
            reveal_strlit("accounts_you've_favorited.json");
            reveal_strlit("blocked_accounts.json");
            reveal_strlit("close_friends.json");
            reveal_strlit("followers_1.json");
            reveal_strlit("following.json");
            reveal_strlit("hide_story_from.json");
            reveal_strlit("pending_follow_requests.json");
            reveal_strlit("recent_follow_requests.json");
            reveal_strlit("recently_unfollowed_accounts.json");
            reveal_strlit("removed_suggestions.json");
            reveal_strlit("restricted_accounts.json");
        }
        let ghost ev = dir@;
        let ghost pv = at.deep_view();
        let entries = &dir.entries;
        proof {
                reveal(sp_load_ffn);
            lemma_view_entries(entries@);
            assert(ev.skip(0) =~= ev);
            assert(ev.take(0) =~= Seq::<(Seq<char>, SpecNode)>::empty());
        }
        let mut favourite_accounts: Option<FavouriteAccounts> = None;
        let mut blocked_accounts: Option<BlockedAccounts> = None;
        let mut close_friends: Option<CloseFriends> = None;
        let mut followers: Option<Followers> = None;
        let mut following: Option<Following> = None;
        let mut hide_story_from: Option<HideStoryFrom> = None;
        let mut pending_follow_requests: Option<PendingFollowRequests> = None;
        let mut recent_follow_requests: Option<RecentFollowRequests> = None;
        let mut recently_unfollowed: Option<RecentlyUnfollowed> = None;
        let mut removed_suggestions: Option<RemovedSuggestions> = None;
        let mut restricted_accounts: Option<RestrictedAccounts> = None;
        let mut i: usize = 0;
        while i < entries.len()
            invariant
                i <= entries@.len(),
                ev == dir@,
                ev == view_entries(entries@),
                ev.len() == entries@.len(),
                pv == at.deep_view(),
                sp_ffn_first_bad(ev, pv) == sp_ffn_first_bad(ev.skip(i as int), pv),
                opt_rec_json(favourite_accounts) == opt_json(sp_field::<FavouriteAccounts>(ev.take(i as int), ("accounts_you've_favorited.json")@, pv)),
                opt_rec_json(blocked_accounts) == opt_json(sp_field::<BlockedAccounts>(ev.take(i as int), ("blocked_accounts.json")@, pv)),
                opt_rec_json(close_friends) == opt_json(sp_field::<CloseFriends>(ev.take(i as int), ("close_friends.json")@, pv)),
                opt_rec_json(followers) == opt_json(sp_field::<Followers>(ev.take(i as int), ("followers_1.json")@, pv)),
                opt_rec_json(following) == opt_json(sp_field::<Following>(ev.take(i as int), ("following.json")@, pv)),
                opt_rec_json(hide_story_from) == opt_json(sp_field::<HideStoryFrom>(ev.take(i as int), ("hide_story_from.json")@, pv)),
                opt_rec_json(pending_follow_requests) == opt_json(sp_field::<PendingFollowRequests>(ev.take(i as int), ("pending_follow_requests.json")@, pv)),
                opt_rec_json(recent_follow_requests) == opt_json(sp_field::<RecentFollowRequests>(ev.take(i as int), ("recent_follow_requests.json")@, pv)),
                opt_rec_json(recently_unfollowed) == opt_json(sp_field::<RecentlyUnfollowed>(ev.take(i as int), ("recently_unfollowed_accounts.json")@, pv)),
                opt_rec_json(removed_suggestions) == opt_json(sp_field::<RemovedSuggestions>(ev.take(i as int), ("removed_suggestions.json")@, pv)),
                opt_rec_json(restricted_accounts) == opt_json(sp_field::<RestrictedAccounts>(ev.take(i as int), ("restricted_accounts.json")@, pv)),
            decreases entries@.len() - i,
        {
            proof {
                reveal(sp_load_ffn);
                reveal_strlit("accounts_you've_favorited.json");
                reveal_strlit("blocked_accounts.json");
                reveal_strlit("close_friends.json");
                reveal_strlit("followers_1.json");
                reveal_strlit("following.json");
                reveal_strlit("hide_story_from.json");
                reveal_strlit("pending_follow_requests.json");
                reveal_strlit("recent_follow_requests.json");
                reveal_strlit("recently_unfollowed_accounts.json");
                reveal_strlit("removed_suggestions.json");
                reveal_strlit("restricted_accounts.json");
                lemma_view_entries(entries@);
                assert(ev[i as int] == (entries@[i as int].name@, entries@[i as int].node@));
                assert(ev.skip(i as int)[0] == ev[i as int]);
                assert(ev.skip(i as int).drop_first() =~= ev.skip(i as int + 1));
                assert(ev.take(i as int + 1).drop_last() =~= ev.take(i as int));
                assert(ev.take(i as int + 1).last() == ev[i as int]);
            }
            let entry = &entries[i];
            proof {
                reveal(sp_load_ffn);
                assert(entry.name@ == ev[i as int].0);
                assert(entry.node@ == ev[i as int].1);
            }
            let child = path_push(at, &entry.name);
            match &entry.node {
                Node::Dir(_) => {
                    proof {
                reveal(sp_load_ffn);
                        let ee = SpecParseError::UnexpectedFormat {
                            path: pv.push(ev[i as int].0),
                            issue: StructuralIssue::ExpectedFile,
                        };
                        assert(sp_ffn_entry(ev[i as int].0, ev[i as int].1, pv) == Some(ee));
                        assert(sp_ffn_first_bad(ev.skip(i as int), pv) == Some(ee));
                    }
                    return Err(
                        ParseError::UnexpectedFormat {
                            path: child,
                            issue: StructuralIssue::ExpectedFile,
                        },
                    );
                },
                Node::File(text) => {
                    if str_eq(entry.name.as_str(), "accounts_you've_favorited.json") {
                        match parse_leaf::<FavouriteAccounts>(text.as_str(), child) {
                            Ok(x) => {
                                proof {
                reveal(sp_load_ffn);
                                    assert(sp_ffn_entry(ev[i as int].0, ev[i as int].1, pv) is None);
                                    assert(sp_ffn_first_bad(ev.skip(i as int), pv) == sp_ffn_first_bad(ev.skip(i as int + 1), pv));
                                    assert(sp_field::<FavouriteAccounts>(ev.take(i as int + 1), ("accounts_you've_favorited.json")@, pv) == Some(x.json_spec()));
                                    assert(sp_field::<BlockedAccounts>(ev.take(i as int + 1), ("blocked_accounts.json")@, pv) == sp_field::<BlockedAccounts>(ev.take(i as int), ("blocked_accounts.json")@, pv));
                                    assert(sp_field::<CloseFriends>(ev.take(i as int + 1), ("close_friends.json")@, pv) == sp_field::<CloseFriends>(ev.take(i as int), ("close_friends.json")@, pv));
                                    assert(sp_field::<Followers>(ev.take(i as int + 1), ("followers_1.json")@, pv) == sp_field::<Followers>(ev.take(i as int), ("followers_1.json")@, pv));
                                    assert(sp_field::<Following>(ev.take(i as int + 1), ("following.json")@, pv) == sp_field::<Following>(ev.take(i as int), ("following.json")@, pv));
                                    assert(sp_field::<HideStoryFrom>(ev.take(i as int + 1), ("hide_story_from.json")@, pv) == sp_field::<HideStoryFrom>(ev.take(i as int), ("hide_story_from.json")@, pv));
                                    assert(sp_field::<PendingFollowRequests>(ev.take(i as int + 1), ("pending_follow_requests.json")@, pv) == sp_field::<PendingFollowRequests>(ev.take(i as int), ("pending_follow_requests.json")@, pv));
                                    assert(sp_field::<RecentFollowRequests>(ev.take(i as int + 1), ("recent_follow_requests.json")@, pv) == sp_field::<RecentFollowRequests>(ev.take(i as int), ("recent_follow_requests.json")@, pv));
                                    assert(sp_field::<RecentlyUnfollowed>(ev.take(i as int + 1), ("recently_unfollowed_accounts.json")@, pv) == sp_field::<RecentlyUnfollowed>(ev.take(i as int), ("recently_unfollowed_accounts.json")@, pv));
                                    assert(sp_field::<RemovedSuggestions>(ev.take(i as int + 1), ("removed_suggestions.json")@, pv) == sp_field::<RemovedSuggestions>(ev.take(i as int), ("removed_suggestions.json")@, pv));
                                    assert(sp_field::<RestrictedAccounts>(ev.take(i as int + 1), ("restricted_accounts.json")@, pv) == sp_field::<RestrictedAccounts>(ev.take(i as int), ("restricted_accounts.json")@, pv));
                                }
                                favourite_accounts = Some(x);
                            },
                            Err(e) => {
                                proof {
                reveal(sp_load_ffn);
                                    assert(sp_ffn_entry(ev[i as int].0, ev[i as int].1, pv) == Some(e@));
                                    assert(sp_ffn_first_bad(ev.skip(i as int), pv) == Some(e@));
                                }
                                return Err(e);
                            },
                        }
                    } else if str_eq(entry.name.as_str(), "blocked_accounts.json") {
                        match parse_leaf::<BlockedAccounts>(text.as_str(), child) {
                            Ok(x) => {
                                proof {
                reveal(sp_load_ffn);
                                    assert(sp_ffn_entry(ev[i as int].0, ev[i as int].1, pv) is None);
                                    assert(sp_ffn_first_bad(ev.skip(i as int), pv) == sp_ffn_first_bad(ev.skip(i as int + 1), pv));
                                    assert(sp_field::<BlockedAccounts>(ev.take(i as int + 1), ("blocked_accounts.json")@, pv) == Some(x.json_spec()));
                                    assert(sp_field::<FavouriteAccounts>(ev.take(i as int + 1), ("accounts_you've_favorited.json")@, pv) == sp_field::<FavouriteAccounts>(ev.take(i as int), ("accounts_you've_favorited.json")@, pv));
                                    assert(sp_field::<CloseFriends>(ev.take(i as int + 1), ("close_friends.json")@, pv) == sp_field::<CloseFriends>(ev.take(i as int), ("close_friends.json")@, pv));
                                    assert(sp_field::<Followers>(ev.take(i as int + 1), ("followers_1.json")@, pv) == sp_field::<Followers>(ev.take(i as int), ("followers_1.json")@, pv));
                                    assert(sp_field::<Following>(ev.take(i as int + 1), ("following.json")@, pv) == sp_field::<Following>(ev.take(i as int), ("following.json")@, pv));
                                    assert(sp_field::<HideStoryFrom>(ev.take(i as int + 1), ("hide_story_from.json")@, pv) == sp_field::<HideStoryFrom>(ev.take(i as int), ("hide_story_from.json")@, pv));
                                    assert(sp_field::<PendingFollowRequests>(ev.take(i as int + 1), ("pending_follow_requests.json")@, pv) == sp_field::<PendingFollowRequests>(ev.take(i as int), ("pending_follow_requests.json")@, pv));
                                    assert(sp_field::<RecentFollowRequests>(ev.take(i as int + 1), ("recent_follow_requests.json")@, pv) == sp_field::<RecentFollowRequests>(ev.take(i as int), ("recent_follow_requests.json")@, pv));
                                    assert(sp_field::<RecentlyUnfollowed>(ev.take(i as int + 1), ("recently_unfollowed_accounts.json")@, pv) == sp_field::<RecentlyUnfollowed>(ev.take(i as int), ("recently_unfollowed_accounts.json")@, pv));
                                    assert(sp_field::<RemovedSuggestions>(ev.take(i as int + 1), ("removed_suggestions.json")@, pv) == sp_field::<RemovedSuggestions>(ev.take(i as int), ("removed_suggestions.json")@, pv));
                                    assert(sp_field::<RestrictedAccounts>(ev.take(i as int + 1), ("restricted_accounts.json")@, pv) == sp_field::<RestrictedAccounts>(ev.take(i as int), ("restricted_accounts.json")@, pv));
                                }
                                blocked_accounts = Some(x);
                            },
                            Err(e) => {
                                proof {
                reveal(sp_load_ffn);
                                    assert(sp_ffn_entry(ev[i as int].0, ev[i as int].1, pv) == Some(e@));
                                    assert(sp_ffn_first_bad(ev.skip(i as int), pv) == Some(e@));
                                }
                                return Err(e);
                            },
                        }
                    } else if str_eq(entry.name.as_str(), "close_friends.json") {
                        match parse_leaf::<CloseFriends>(text.as_str(), child) {
                            Ok(x) => {
                                proof {
                reveal(sp_load_ffn);
                                    assert(sp_ffn_entry(ev[i as int].0, ev[i as int].1, pv) is None);
                                    assert(sp_ffn_first_bad(ev.skip(i as int), pv) == sp_ffn_first_bad(ev.skip(i as int + 1), pv));
                                    assert(sp_field::<CloseFriends>(ev.take(i as int + 1), ("close_friends.json")@, pv) == Some(x.json_spec()));
                                    assert(sp_field::<FavouriteAccounts>(ev.take(i as int + 1), ("accounts_you've_favorited.json")@, pv) == sp_field::<FavouriteAccounts>(ev.take(i as int), ("accounts_you've_favorited.json")@, pv));
                                    assert(sp_field::<BlockedAccounts>(ev.take(i as int + 1), ("blocked_accounts.json")@, pv) == sp_field::<BlockedAccounts>(ev.take(i as int), ("blocked_accounts.json")@, pv));
                                    assert(sp_field::<Followers>(ev.take(i as int + 1), ("followers_1.json")@, pv) == sp_field::<Followers>(ev.take(i as int), ("followers_1.json")@, pv));
                                    assert(sp_field::<Following>(ev.take(i as int + 1), ("following.json")@, pv) == sp_field::<Following>(ev.take(i as int), ("following.json")@, pv));
                                    assert(sp_field::<HideStoryFrom>(ev.take(i as int + 1), ("hide_story_from.json")@, pv) == sp_field::<HideStoryFrom>(ev.take(i as int), ("hide_story_from.json")@, pv));
                                    assert(sp_field::<PendingFollowRequests>(ev.take(i as int + 1), ("pending_follow_requests.json")@, pv) == sp_field::<PendingFollowRequests>(ev.take(i as int), ("pending_follow_requests.json")@, pv));
                                    assert(sp_field::<RecentFollowRequests>(ev.take(i as int + 1), ("recent_follow_requests.json")@, pv) == sp_field::<RecentFollowRequests>(ev.take(i as int), ("recent_follow_requests.json")@, pv));
                                    assert(sp_field::<RecentlyUnfollowed>(ev.take(i as int + 1), ("recently_unfollowed_accounts.json")@, pv) == sp_field::<RecentlyUnfollowed>(ev.take(i as int), ("recently_unfollowed_accounts.json")@, pv));
                                    assert(sp_field::<RemovedSuggestions>(ev.take(i as int + 1), ("removed_suggestions.json")@, pv) == sp_field::<RemovedSuggestions>(ev.take(i as int), ("removed_suggestions.json")@, pv));
                                    assert(sp_field::<RestrictedAccounts>(ev.take(i as int + 1), ("restricted_accounts.json")@, pv) == sp_field::<RestrictedAccounts>(ev.take(i as int), ("restricted_accounts.json")@, pv));
                                }
                                close_friends = Some(x);
                            },
                            Err(e) => {
                                proof {
                reveal(sp_load_ffn);
                                    assert(sp_ffn_entry(ev[i as int].0, ev[i as int].1, pv) == Some(e@));
                                    assert(sp_ffn_first_bad(ev.skip(i as int), pv) == Some(e@));
                                }
                                return Err(e);
                            },
                        }
                    } else if str_eq(entry.name.as_str(), "followers_1.json") {
                        match parse_leaf::<Followers>(text.as_str(), child) {
                            Ok(x) => {
                                proof {
                reveal(sp_load_ffn);
                                    assert(sp_ffn_entry(ev[i as int].0, ev[i as int].1, pv) is None);
                                    assert(sp_ffn_first_bad(ev.skip(i as int), pv) == sp_ffn_first_bad(ev.skip(i as int + 1), pv));
                                    assert(sp_field::<Followers>(ev.take(i as int + 1), ("followers_1.json")@, pv) == Some(x.json_spec()));
                                    assert(sp_field::<FavouriteAccounts>(ev.take(i as int + 1), ("accounts_you've_favorited.json")@, pv) == sp_field::<FavouriteAccounts>(ev.take(i as int), ("accounts_you've_favorited.json")@, pv));
                                    assert(sp_field::<BlockedAccounts>(ev.take(i as int + 1), ("blocked_accounts.json")@, pv) == sp_field::<BlockedAccounts>(ev.take(i as int), ("blocked_accounts.json")@, pv));
                                    assert(sp_field::<CloseFriends>(ev.take(i as int + 1), ("close_friends.json")@, pv) == sp_field::<CloseFriends>(ev.take(i as int), ("close_friends.json")@, pv));
                                    assert(sp_field::<Following>(ev.take(i as int + 1), ("following.json")@, pv) == sp_field::<Following>(ev.take(i as int), ("following.json")@, pv));
                                    assert(sp_field::<HideStoryFrom>(ev.take(i as int + 1), ("hide_story_from.json")@, pv) == sp_field::<HideStoryFrom>(ev.take(i as int), ("hide_story_from.json")@, pv));
                                    assert(sp_field::<PendingFollowRequests>(ev.take(i as int + 1), ("pending_follow_requests.json")@, pv) == sp_field::<PendingFollowRequests>(ev.take(i as int), ("pending_follow_requests.json")@, pv));
                                    assert(sp_field::<RecentFollowRequests>(ev.take(i as int + 1), ("recent_follow_requests.json")@, pv) == sp_field::<RecentFollowRequests>(ev.take(i as int), ("recent_follow_requests.json")@, pv));
                                    assert(sp_field::<RecentlyUnfollowed>(ev.take(i as int + 1), ("recently_unfollowed_accounts.json")@, pv) == sp_field::<RecentlyUnfollowed>(ev.take(i as int), ("recently_unfollowed_accounts.json")@, pv));
                                    assert(sp_field::<RemovedSuggestions>(ev.take(i as int + 1), ("removed_suggestions.json")@, pv) == sp_field::<RemovedSuggestions>(ev.take(i as int), ("removed_suggestions.json")@, pv));
                                    assert(sp_field::<RestrictedAccounts>(ev.take(i as int + 1), ("restricted_accounts.json")@, pv) == sp_field::<RestrictedAccounts>(ev.take(i as int), ("restricted_accounts.json")@, pv));
                                }
                                followers = Some(x);
                            },
                            Err(e) => {
                                proof {
                reveal(sp_load_ffn);
                                    assert(sp_ffn_entry(ev[i as int].0, ev[i as int].1, pv) == Some(e@));
                                    assert(sp_ffn_first_bad(ev.skip(i as int), pv) == Some(e@));
                                }
                                return Err(e);
                            },
                        }
                    } else if str_eq(entry.name.as_str(), "following.json") {
                        match parse_leaf::<Following>(text.as_str(), child) {
                            Ok(x) => {
                                proof {
                reveal(sp_load_ffn);
                                    assert(sp_ffn_entry(ev[i as int].0, ev[i as int].1, pv) is None);
                                    assert(sp_ffn_first_bad(ev.skip(i as int), pv) == sp_ffn_first_bad(ev.skip(i as int + 1), pv));
                                    assert(sp_field::<Following>(ev.take(i as int + 1), ("following.json")@, pv) == Some(x.json_spec()));
                                    assert(sp_field::<FavouriteAccounts>(ev.take(i as int + 1), ("accounts_you've_favorited.json")@, pv) == sp_field::<FavouriteAccounts>(ev.take(i as int), ("accounts_you've_favorited.json")@, pv));
                                    assert(sp_field::<BlockedAccounts>(ev.take(i as int + 1), ("blocked_accounts.json")@, pv) == sp_field::<BlockedAccounts>(ev.take(i as int), ("blocked_accounts.json")@, pv));
                                    assert(sp_field::<CloseFriends>(ev.take(i as int + 1), ("close_friends.json")@, pv) == sp_field::<CloseFriends>(ev.take(i as int), ("close_friends.json")@, pv));
                                    assert(sp_field::<Followers>(ev.take(i as int + 1), ("followers_1.json")@, pv) == sp_field::<Followers>(ev.take(i as int), ("followers_1.json")@, pv));
                                    assert(sp_field::<HideStoryFrom>(ev.take(i as int + 1), ("hide_story_from.json")@, pv) == sp_field::<HideStoryFrom>(ev.take(i as int), ("hide_story_from.json")@, pv));
                                    assert(sp_field::<PendingFollowRequests>(ev.take(i as int + 1), ("pending_follow_requests.json")@, pv) == sp_field::<PendingFollowRequests>(ev.take(i as int), ("pending_follow_requests.json")@, pv));
                                    assert(sp_field::<RecentFollowRequests>(ev.take(i as int + 1), ("recent_follow_requests.json")@, pv) == sp_field::<RecentFollowRequests>(ev.take(i as int), ("recent_follow_requests.json")@, pv));
                                    assert(sp_field::<RecentlyUnfollowed>(ev.take(i as int + 1), ("recently_unfollowed_accounts.json")@, pv) == sp_field::<RecentlyUnfollowed>(ev.take(i as int), ("recently_unfollowed_accounts.json")@, pv));
                                    assert(sp_field::<RemovedSuggestions>(ev.take(i as int + 1), ("removed_suggestions.json")@, pv) == sp_field::<RemovedSuggestions>(ev.take(i as int), ("removed_suggestions.json")@, pv));
                                    assert(sp_field::<RestrictedAccounts>(ev.take(i as int + 1), ("restricted_accounts.json")@, pv) == sp_field::<RestrictedAccounts>(ev.take(i as int), ("restricted_accounts.json")@, pv));
                                }
                                following = Some(x);
                            },
                            Err(e) => {
                                proof {
                reveal(sp_load_ffn);
                                    assert(sp_ffn_entry(ev[i as int].0, ev[i as int].1, pv) == Some(e@));
                                    assert(sp_ffn_first_bad(ev.skip(i as int), pv) == Some(e@));
                                }
                                return Err(e);
                            },
                        }
                    } else if str_eq(entry.name.as_str(), "hide_story_from.json") {
                        match parse_leaf::<HideStoryFrom>(text.as_str(), child) {
                            Ok(x) => {
                                proof {
                reveal(sp_load_ffn);
                                    assert(sp_ffn_entry(ev[i as int].0, ev[i as int].1, pv) is None);
                                    assert(sp_ffn_first_bad(ev.skip(i as int), pv) == sp_ffn_first_bad(ev.skip(i as int + 1), pv));
                                    assert(sp_field::<HideStoryFrom>(ev.take(i as int + 1), ("hide_story_from.json")@, pv) == Some(x.json_spec()));
                                    assert(sp_field::<FavouriteAccounts>(ev.take(i as int + 1), ("accounts_you've_favorited.json")@, pv) == sp_field::<FavouriteAccounts>(ev.take(i as int), ("accounts_you've_favorited.json")@, pv));
                                    assert(sp_field::<BlockedAccounts>(ev.take(i as int + 1), ("blocked_accounts.json")@, pv) == sp_field::<BlockedAccounts>(ev.take(i as int), ("blocked_accounts.json")@, pv));
                                    assert(sp_field::<CloseFriends>(ev.take(i as int + 1), ("close_friends.json")@, pv) == sp_field::<CloseFriends>(ev.take(i as int), ("close_friends.json")@, pv));
                                    assert(sp_field::<Followers>(ev.take(i as int + 1), ("followers_1.json")@, pv) == sp_field::<Followers>(ev.take(i as int), ("followers_1.json")@, pv));
                                    assert(sp_field::<Following>(ev.take(i as int + 1), ("following.json")@, pv) == sp_field::<Following>(ev.take(i as int), ("following.json")@, pv));
                                    assert(sp_field::<PendingFollowRequests>(ev.take(i as int + 1), ("pending_follow_requests.json")@, pv) == sp_field::<PendingFollowRequests>(ev.take(i as int), ("pending_follow_requests.json")@, pv));
                                    assert(sp_field::<RecentFollowRequests>(ev.take(i as int + 1), ("recent_follow_requests.json")@, pv) == sp_field::<RecentFollowRequests>(ev.take(i as int), ("recent_follow_requests.json")@, pv));
                                    assert(sp_field::<RecentlyUnfollowed>(ev.take(i as int + 1), ("recently_unfollowed_accounts.json")@, pv) == sp_field::<RecentlyUnfollowed>(ev.take(i as int), ("recently_unfollowed_accounts.json")@, pv));
                                    assert(sp_field::<RemovedSuggestions>(ev.take(i as int + 1), ("removed_suggestions.json")@, pv) == sp_field::<RemovedSuggestions>(ev.take(i as int), ("removed_suggestions.json")@, pv));
                                    assert(sp_field::<RestrictedAccounts>(ev.take(i as int + 1), ("restricted_accounts.json")@, pv) == sp_field::<RestrictedAccounts>(ev.take(i as int), ("restricted_accounts.json")@, pv));
                                }
                                hide_story_from = Some(x);
                            },
                            Err(e) => {
                                proof {
                reveal(sp_load_ffn);
                                    assert(sp_ffn_entry(ev[i as int].0, ev[i as int].1, pv) == Some(e@));
                                    assert(sp_ffn_first_bad(ev.skip(i as int), pv) == Some(e@));
                                }
                                return Err(e);
                            },
                        }
                    } else if str_eq(entry.name.as_str(), "pending_follow_requests.json") {
                        match parse_leaf::<PendingFollowRequests>(text.as_str(), child) {
                            Ok(x) => {
                                proof {
                reveal(sp_load_ffn);
                                    assert(sp_ffn_entry(ev[i as int].0, ev[i as int].1, pv) is None);
                                    assert(sp_ffn_first_bad(ev.skip(i as int), pv) == sp_ffn_first_bad(ev.skip(i as int + 1), pv));
                                    assert(sp_field::<PendingFollowRequests>(ev.take(i as int + 1), ("pending_follow_requests.json")@, pv) == Some(x.json_spec()));
                                    assert(sp_field::<FavouriteAccounts>(ev.take(i as int + 1), ("accounts_you've_favorited.json")@, pv) == sp_field::<FavouriteAccounts>(ev.take(i as int), ("accounts_you've_favorited.json")@, pv));
                                    assert(sp_field::<BlockedAccounts>(ev.take(i as int + 1), ("blocked_accounts.json")@, pv) == sp_field::<BlockedAccounts>(ev.take(i as int), ("blocked_accounts.json")@, pv));
                                    assert(sp_field::<CloseFriends>(ev.take(i as int + 1), ("close_friends.json")@, pv) == sp_field::<CloseFriends>(ev.take(i as int), ("close_friends.json")@, pv));
                                    assert(sp_field::<Followers>(ev.take(i as int + 1), ("followers_1.json")@, pv) == sp_field::<Followers>(ev.take(i as int), ("followers_1.json")@, pv));
                                    assert(sp_field::<Following>(ev.take(i as int + 1), ("following.json")@, pv) == sp_field::<Following>(ev.take(i as int), ("following.json")@, pv));
                                    assert(sp_field::<HideStoryFrom>(ev.take(i as int + 1), ("hide_story_from.json")@, pv) == sp_field::<HideStoryFrom>(ev.take(i as int), ("hide_story_from.json")@, pv));
                                    assert(sp_field::<RecentFollowRequests>(ev.take(i as int + 1), ("recent_follow_requests.json")@, pv) == sp_field::<RecentFollowRequests>(ev.take(i as int), ("recent_follow_requests.json")@, pv));
                                    assert(sp_field::<RecentlyUnfollowed>(ev.take(i as int + 1), ("recently_unfollowed_accounts.json")@, pv) == sp_field::<RecentlyUnfollowed>(ev.take(i as int), ("recently_unfollowed_accounts.json")@, pv));
                                    assert(sp_field::<RemovedSuggestions>(ev.take(i as int + 1), ("removed_suggestions.json")@, pv) == sp_field::<RemovedSuggestions>(ev.take(i as int), ("removed_suggestions.json")@, pv));
                                    assert(sp_field::<RestrictedAccounts>(ev.take(i as int + 1), ("restricted_accounts.json")@, pv) == sp_field::<RestrictedAccounts>(ev.take(i as int), ("restricted_accounts.json")@, pv));
                                }
                                pending_follow_requests = Some(x);
                            },
                            Err(e) => {
                                proof {
                reveal(sp_load_ffn);
                                    assert(sp_ffn_entry(ev[i as int].0, ev[i as int].1, pv) == Some(e@));
                                    assert(sp_ffn_first_bad(ev.skip(i as int), pv) == Some(e@));
                                }
                                return Err(e);
                            },
                        }
                    } else if str_eq(entry.name.as_str(), "recent_follow_requests.json") {
                        match parse_leaf::<RecentFollowRequests>(text.as_str(), child) {
                            Ok(x) => {
                                proof {
                reveal(sp_load_ffn);
                                    assert(sp_ffn_entry(ev[i as int].0, ev[i as int].1, pv) is None);
                                    assert(sp_ffn_first_bad(ev.skip(i as int), pv) == sp_ffn_first_bad(ev.skip(i as int + 1), pv));
                                    assert(sp_field::<RecentFollowRequests>(ev.take(i as int + 1), ("recent_follow_requests.json")@, pv) == Some(x.json_spec()));
                                    assert(sp_field::<FavouriteAccounts>(ev.take(i as int + 1), ("accounts_you've_favorited.json")@, pv) == sp_field::<FavouriteAccounts>(ev.take(i as int), ("accounts_you've_favorited.json")@, pv));
                                    assert(sp_field::<BlockedAccounts>(ev.take(i as int + 1), ("blocked_accounts.json")@, pv) == sp_field::<BlockedAccounts>(ev.take(i as int), ("blocked_accounts.json")@, pv));
                                    assert(sp_field::<CloseFriends>(ev.take(i as int + 1), ("close_friends.json")@, pv) == sp_field::<CloseFriends>(ev.take(i as int), ("close_friends.json")@, pv));
                                    assert(sp_field::<Followers>(ev.take(i as int + 1), ("followers_1.json")@, pv) == sp_field::<Followers>(ev.take(i as int), ("followers_1.json")@, pv));
                                    assert(sp_field::<Following>(ev.take(i as int + 1), ("following.json")@, pv) == sp_field::<Following>(ev.take(i as int), ("following.json")@, pv));
                                    assert(sp_field::<HideStoryFrom>(ev.take(i as int + 1), ("hide_story_from.json")@, pv) == sp_field::<HideStoryFrom>(ev.take(i as int), ("hide_story_from.json")@, pv));
                                    assert(sp_field::<PendingFollowRequests>(ev.take(i as int + 1), ("pending_follow_requests.json")@, pv) == sp_field::<PendingFollowRequests>(ev.take(i as int), ("pending_follow_requests.json")@, pv));
                                    assert(sp_field::<RecentlyUnfollowed>(ev.take(i as int + 1), ("recently_unfollowed_accounts.json")@, pv) == sp_field::<RecentlyUnfollowed>(ev.take(i as int), ("recently_unfollowed_accounts.json")@, pv));
                                    assert(sp_field::<RemovedSuggestions>(ev.take(i as int + 1), ("removed_suggestions.json")@, pv) == sp_field::<RemovedSuggestions>(ev.take(i as int), ("removed_suggestions.json")@, pv));
                                    assert(sp_field::<RestrictedAccounts>(ev.take(i as int + 1), ("restricted_accounts.json")@, pv) == sp_field::<RestrictedAccounts>(ev.take(i as int), ("restricted_accounts.json")@, pv));
                                }
                                recent_follow_requests = Some(x);
                            },
                            Err(e) => {
                                proof {
                reveal(sp_load_ffn);
                                    assert(sp_ffn_entry(ev[i as int].0, ev[i as int].1, pv) == Some(e@));
                                    assert(sp_ffn_first_bad(ev.skip(i as int), pv) == Some(e@));
                                }
                                return Err(e);
                            },
                        }
                    } else if str_eq(entry.name.as_str(), "recently_unfollowed_accounts.json") {
                        match parse_leaf::<RecentlyUnfollowed>(text.as_str(), child) {
                            Ok(x) => {
                                proof {
                reveal(sp_load_ffn);
                                    assert(sp_ffn_entry(ev[i as int].0, ev[i as int].1, pv) is None);
                                    assert(sp_ffn_first_bad(ev.skip(i as int), pv) == sp_ffn_first_bad(ev.skip(i as int + 1), pv));
                                    assert(sp_field::<RecentlyUnfollowed>(ev.take(i as int + 1), ("recently_unfollowed_accounts.json")@, pv) == Some(x.json_spec()));
                                    assert(sp_field::<FavouriteAccounts>(ev.take(i as int + 1), ("accounts_you've_favorited.json")@, pv) == sp_field::<FavouriteAccounts>(ev.take(i as int), ("accounts_you've_favorited.json")@, pv));
                                    assert(sp_field::<BlockedAccounts>(ev.take(i as int + 1), ("blocked_accounts.json")@, pv) == sp_field::<BlockedAccounts>(ev.take(i as int), ("blocked_accounts.json")@, pv));
                                    assert(sp_field::<CloseFriends>(ev.take(i as int + 1), ("close_friends.json")@, pv) == sp_field::<CloseFriends>(ev.take(i as int), ("close_friends.json")@, pv));
                                    assert(sp_field::<Followers>(ev.take(i as int + 1), ("followers_1.json")@, pv) == sp_field::<Followers>(ev.take(i as int), ("followers_1.json")@, pv));
                                    assert(sp_field::<Following>(ev.take(i as int + 1), ("following.json")@, pv) == sp_field::<Following>(ev.take(i as int), ("following.json")@, pv));
                                    assert(sp_field::<HideStoryFrom>(ev.take(i as int + 1), ("hide_story_from.json")@, pv) == sp_field::<HideStoryFrom>(ev.take(i as int), ("hide_story_from.json")@, pv));
                                    assert(sp_field::<PendingFollowRequests>(ev.take(i as int + 1), ("pending_follow_requests.json")@, pv) == sp_field::<PendingFollowRequests>(ev.take(i as int), ("pending_follow_requests.json")@, pv));
                                    assert(sp_field::<RecentFollowRequests>(ev.take(i as int + 1), ("recent_follow_requests.json")@, pv) == sp_field::<RecentFollowRequests>(ev.take(i as int), ("recent_follow_requests.json")@, pv));
                                    assert(sp_field::<RemovedSuggestions>(ev.take(i as int + 1), ("removed_suggestions.json")@, pv) == sp_field::<RemovedSuggestions>(ev.take(i as int), ("removed_suggestions.json")@, pv));
                                    assert(sp_field::<RestrictedAccounts>(ev.take(i as int + 1), ("restricted_accounts.json")@, pv) == sp_field::<RestrictedAccounts>(ev.take(i as int), ("restricted_accounts.json")@, pv));
                                }
                                recently_unfollowed = Some(x);
                            },
                            Err(e) => {
                                proof {
                reveal(sp_load_ffn);
                                    assert(sp_ffn_entry(ev[i as int].0, ev[i as int].1, pv) == Some(e@));
                                    assert(sp_ffn_first_bad(ev.skip(i as int), pv) == Some(e@));
                                }
                                return Err(e);
                            },
                        }
                    } else if str_eq(entry.name.as_str(), "removed_suggestions.json") {
                        match parse_leaf::<RemovedSuggestions>(text.as_str(), child) {
                            Ok(x) => {
                                proof {
                reveal(sp_load_ffn);
                                    assert(("removed_suggestions.json")@[2] == 'm');
                                    assert(("restricted_accounts.json")@[2] == 's');
                                    assert(sp_ffn_entry(ev[i as int].0, ev[i as int].1, pv) is None);
                                    assert(sp_ffn_first_bad(ev.skip(i as int), pv) == sp_ffn_first_bad(ev.skip(i as int + 1), pv));
                                    assert(sp_field::<RemovedSuggestions>(ev.take(i as int + 1), ("removed_suggestions.json")@, pv) == Some(x.json_spec()));
                                    assert(sp_field::<FavouriteAccounts>(ev.take(i as int + 1), ("accounts_you've_favorited.json")@, pv) == sp_field::<FavouriteAccounts>(ev.take(i as int), ("accounts_you've_favorited.json")@, pv));
                                    assert(sp_field::<BlockedAccounts>(ev.take(i as int + 1), ("blocked_accounts.json")@, pv) == sp_field::<BlockedAccounts>(ev.take(i as int), ("blocked_accounts.json")@, pv));
                                    assert(sp_field::<CloseFriends>(ev.take(i as int + 1), ("close_friends.json")@, pv) == sp_field::<CloseFriends>(ev.take(i as int), ("close_friends.json")@, pv));
                                    assert(sp_field::<Followers>(ev.take(i as int + 1), ("followers_1.json")@, pv) == sp_field::<Followers>(ev.take(i as int), ("followers_1.json")@, pv));
                                    assert(sp_field::<Following>(ev.take(i as int + 1), ("following.json")@, pv) == sp_field::<Following>(ev.take(i as int), ("following.json")@, pv));
                                    assert(sp_field::<HideStoryFrom>(ev.take(i as int + 1), ("hide_story_from.json")@, pv) == sp_field::<HideStoryFrom>(ev.take(i as int), ("hide_story_from.json")@, pv));
                                    assert(sp_field::<PendingFollowRequests>(ev.take(i as int + 1), ("pending_follow_requests.json")@, pv) == sp_field::<PendingFollowRequests>(ev.take(i as int), ("pending_follow_requests.json")@, pv));
                                    assert(sp_field::<RecentFollowRequests>(ev.take(i as int + 1), ("recent_follow_requests.json")@, pv) == sp_field::<RecentFollowRequests>(ev.take(i as int), ("recent_follow_requests.json")@, pv));
                                    assert(sp_field::<RecentlyUnfollowed>(ev.take(i as int + 1), ("recently_unfollowed_accounts.json")@, pv) == sp_field::<RecentlyUnfollowed>(ev.take(i as int), ("recently_unfollowed_accounts.json")@, pv));
                                    assert(sp_field::<RestrictedAccounts>(ev.take(i as int + 1), ("restricted_accounts.json")@, pv) == sp_field::<RestrictedAccounts>(ev.take(i as int), ("restricted_accounts.json")@, pv));
                                }
                                removed_suggestions = Some(x);
                            },
                            Err(e) => {
                                proof {
                reveal(sp_load_ffn);
                                    assert(sp_ffn_entry(ev[i as int].0, ev[i as int].1, pv) == Some(e@));
                                    assert(sp_ffn_first_bad(ev.skip(i as int), pv) == Some(e@));
                                }
                                return Err(e);
                            },
                        }
                    } else if str_eq(entry.name.as_str(), "restricted_accounts.json") {
                        match parse_leaf::<RestrictedAccounts>(text.as_str(), child) {
                            Ok(x) => {
                                proof {
                reveal(sp_load_ffn);
                                    assert(sp_ffn_entry(ev[i as int].0, ev[i as int].1, pv) is None);
                                    assert(sp_ffn_first_bad(ev.skip(i as int), pv) == sp_ffn_first_bad(ev.skip(i as int + 1), pv));
                                    assert(sp_field::<RestrictedAccounts>(ev.take(i as int + 1), ("restricted_accounts.json")@, pv) == Some(x.json_spec()));
                                    assert(sp_field::<FavouriteAccounts>(ev.take(i as int + 1), ("accounts_you've_favorited.json")@, pv) == sp_field::<FavouriteAccounts>(ev.take(i as int), ("accounts_you've_favorited.json")@, pv));
                                    assert(sp_field::<BlockedAccounts>(ev.take(i as int + 1), ("blocked_accounts.json")@, pv) == sp_field::<BlockedAccounts>(ev.take(i as int), ("blocked_accounts.json")@, pv));
                                    assert(sp_field::<CloseFriends>(ev.take(i as int + 1), ("close_friends.json")@, pv) == sp_field::<CloseFriends>(ev.take(i as int), ("close_friends.json")@, pv));
                                    assert(sp_field::<Followers>(ev.take(i as int + 1), ("followers_1.json")@, pv) == sp_field::<Followers>(ev.take(i as int), ("followers_1.json")@, pv));
                                    assert(sp_field::<Following>(ev.take(i as int + 1), ("following.json")@, pv) == sp_field::<Following>(ev.take(i as int), ("following.json")@, pv));
                                    assert(sp_field::<HideStoryFrom>(ev.take(i as int + 1), ("hide_story_from.json")@, pv) == sp_field::<HideStoryFrom>(ev.take(i as int), ("hide_story_from.json")@, pv));
                                    assert(sp_field::<PendingFollowRequests>(ev.take(i as int + 1), ("pending_follow_requests.json")@, pv) == sp_field::<PendingFollowRequests>(ev.take(i as int), ("pending_follow_requests.json")@, pv));
                                    assert(sp_field::<RecentFollowRequests>(ev.take(i as int + 1), ("recent_follow_requests.json")@, pv) == sp_field::<RecentFollowRequests>(ev.take(i as int), ("recent_follow_requests.json")@, pv));
                                    assert(sp_field::<RecentlyUnfollowed>(ev.take(i as int + 1), ("recently_unfollowed_accounts.json")@, pv) == sp_field::<RecentlyUnfollowed>(ev.take(i as int), ("recently_unfollowed_accounts.json")@, pv));
                                    assert(sp_field::<RemovedSuggestions>(ev.take(i as int + 1), ("removed_suggestions.json")@, pv) == sp_field::<RemovedSuggestions>(ev.take(i as int), ("removed_suggestions.json")@, pv));
                                }
                                restricted_accounts = Some(x);
                            },
                            Err(e) => {
                                proof {
                reveal(sp_load_ffn);
                                    assert(sp_ffn_entry(ev[i as int].0, ev[i as int].1, pv) == Some(e@));
                                    assert(sp_ffn_first_bad(ev.skip(i as int), pv) == Some(e@));
                                }
                                return Err(e);
                            },
                        }
                    } else {
                        proof {
                reveal(sp_load_ffn);
                            let ee = SpecParseError::UnexpectedFormat {
                                path: pv.push(ev[i as int].0),
                                issue: StructuralIssue::UnexpectedEntry,
                            };
                            assert(sp_ffn_entry(ev[i as int].0, ev[i as int].1, pv) == Some(ee));
                            assert(sp_ffn_first_bad(ev.skip(i as int), pv) == Some(ee));
                        }
                        return Err(
                            ParseError::UnexpectedFormat {
                                path: child,
                                issue: StructuralIssue::UnexpectedEntry,
                            },
                        );
                    }
                },
            }
            i = i + 1;
        }
        proof {
                reveal(sp_load_ffn);
            assert(ev.take(i as int) =~= ev);
            assert(ev.skip(i as int) =~= Seq::<(Seq<char>, SpecNode)>::empty());
        }
        let s = FollowersNFollowing { favourite_accounts, blocked_accounts, close_friends, followers, following, hide_story_from, pending_follow_requests, recent_follow_requests, recently_unfollowed, removed_suggestions, restricted_accounts };
        proof {
                reveal(sp_load_ffn);
            let lhs = sp_load_ffn(ev, pv)->Ok_0->Obj_0;
            let rhs = s.json_spec()->Obj_0;
            assert(lhs =~= rhs);
        }
        Ok(s)
    }
}

/// The missing-required-key law, shown on the relationship schema: an object
/// whose keys the schema allows but which lacks the required `title` key is
/// rejected with a deserialization error naming exactly that key.
pub proof fn lemma_missing_title_rejected(fields: Seq<(Seq<char>, SpecJson)>)
    requires
        spec_check_keys(
            fields,
            seq![("title")@, ("media_list_data")@, ("string_list_data")@],
        ) is Ok,
        !spec_obj_has(fields, ("title")@),
    ensures
        Relationship::spec_parse(SpecJson::Obj(fields)) == Err::<SpecJson, SpecDeserError>(
            SpecDeserError::MissingField(("title")@),
        ),
{
}

/// The corrected-file law, shown on the relationship schema: adding the
/// missing `title` key with a string value to an object whose other fields
/// already satisfy the schema makes the same object parse successfully.
pub proof fn lemma_title_added_loads(fields: Seq<(Seq<char>, SpecJson)>, s: Seq<char>)
    requires
        spec_check_keys(
            fields,
            seq![("title")@, ("media_list_data")@, ("string_list_data")@],
        ) is Ok,
        !spec_obj_has(fields, ("title")@),
        sf_null_arr(fields, ("media_list_data")@) is Ok,
        sf_rec_arr::<StringData>(fields, ("string_list_data")@) is Ok,
    ensures
        Relationship::spec_parse(
            SpecJson::Obj(fields.push((("title")@, SpecJson::Str(s)))),
        ) is Ok,
{
    let p = (("title")@, SpecJson::Str(s));
    let pushed = fields.push(p);
    let allowed = seq![("title")@, ("media_list_data")@, ("string_list_data")@];
    crate::schema::lemma_first_dup_push(fields, p);
    assert(allowed.contains(("title")@)) by {
        assert(allowed[0] == ("title")@);
    }
    crate::schema::lemma_first_unknown_push(fields, p, allowed);
    crate::schema::lemma_obj_get_push(fields, p, ("title")@);
    reveal_strlit("title");
    reveal_strlit("media_list_data");
    reveal_strlit("string_list_data");
    crate::schema::lemma_obj_get_push(fields, p, ("media_list_data")@);
    crate::schema::lemma_obj_get_push(fields, p, ("string_list_data")@);
    assert(sf_string(pushed, ("title")@) == Ok::<Seq<char>, SpecDeserError>(s));
    assert(sf_null_arr(pushed, ("media_list_data")@) == sf_null_arr(
        fields,
        ("media_list_data")@,
    ));
    assert(sf_rec_arr::<StringData>(pushed, ("string_list_data")@) == sf_rec_arr::<StringData>(
        fields,
        ("string_list_data")@,
    ));
}

} // verus!
