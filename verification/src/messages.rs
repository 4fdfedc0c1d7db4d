//! The messages section: conversations, their fragments, messages and the
//! shapes attached to them.
use vstd::prelude::*;

use crate::common::{DeserError, SpecDeserError};
use crate::json::{JsonValue, SpecJson, view_items, lemma_view_items_push};
use crate::record::{JsonRecord, jsons_of, sp_items, parse_items_from, items_to_json, gf_rec,
    gf_opt_rec, gf_rec_arr, gf_opt_rec_arr, sf_rec, sf_opt_rec, sf_rec_arr, sf_opt_rec_arr,
    opt_rec_json};
use crate::schema::{check_keys, spec_check_keys, gf_string, gf_opt_string, gf_u64, gf_opt_u64,
    gf_u32, gf_opt_u32, gf_i32, gf_bool, gf_opt_bool, gf_null_arr, sf_string, sf_opt_string,
    sf_int, sf_opt_int, sf_bool, sf_opt_bool, sf_null_arr, opt_str_json, opt_int_json,
    opt_bool_json, opt_json, nulls};
use crate::shared::MediaUri;
use crate::common::{ParseError, SpecParseError, StructuralIssue};
use crate::json::{str_eq, chars_of};
use crate::loader::{parse_leaf, path_push, sp_leaf};
use crate::tree::{Folder, Node, SpecNode, lemma_view_entries, view_entries};

verus! {

broadcast use vstd::string::group_string_axioms, vstd::std_specs::vec::group_vec_axioms, vstd::seq::group_seq_axioms;

/// One conversation participant.
#[derive(Debug, PartialEq, Eq, Clone)]
pub struct Participant {
    pub name: String,
}

impl JsonRecord for Participant {
    open spec fn json_spec(&self) -> SpecJson {
        SpecJson::Obj(
            seq![
                (("name")@, SpecJson::Str(self.name@)),
            ],
        )
    }

    open spec fn spec_parse(v: SpecJson) -> Result<SpecJson, SpecDeserError> {
        match v {
            SpecJson::Obj(fields) => match spec_check_keys(fields, seq![("name")@]) {
                Err(e) => Err(e),
                Ok(_) => match sf_string(fields, ("name")@) {
                    Err(e) => Err(e),
                    Ok(name) => Ok(
                        SpecJson::Obj(
                            seq![
                                (("name")@, SpecJson::Str(name)),
                            ],
                        ),
                    ),
                },
            },
            _ => Err(SpecDeserError::NotAnObject),
        }
    }

    fn from_json(v: &JsonValue) -> (r: Result<Self, DeserError>) {
        match v {
            JsonValue::Obj(fields) => {
                let allowed: Vec<&str> = vec!["name"];
                proof {
                    assert(allowed.deep_view() =~= seq![("name")@]);
                }
                match check_keys(fields, &allowed) {
                    Err(e) => {
                        return Err(e);
                    },
                    Ok(_) => {},
                }
                let name = match gf_string(fields, "name") {
                    Ok(x) => x,
                    Err(e) => {
                        return Err(e);
                    },
                };
                let rec = Participant { name };
                proof {
                    let lhs = Self::spec_parse(v@)->Ok_0->Obj_0;
                    let rhs = rec.json_spec()->Obj_0;
                    assert(lhs =~= rhs);
                }
                Ok(rec)
            },
            _ => Err(DeserError::NotAnObject),
        }
    }

    fn to_json(&self) -> (r: JsonValue) {
        let mut fields: Vec<(String, JsonValue)> = Vec::new();
        fields.push((String::from_str("name"), JsonValue::Str(self.name.clone())));
        let r = JsonValue::Obj(fields);
        proof {
            crate::json::lemma_view_fields(r->Obj_0@);
            assert(r@->Obj_0 =~= self.json_spec()->Obj_0);
        }
        r
    }
}

/// One reaction to a message.
#[derive(Debug, PartialEq, Eq, Clone)]
pub struct Reaction {
    pub reaction: String,
    pub actor: String,
}

impl JsonRecord for Reaction {
    open spec fn json_spec(&self) -> SpecJson {
        SpecJson::Obj(
            seq![
                (("reaction")@, SpecJson::Str(self.reaction@)),
                (("actor")@, SpecJson::Str(self.actor@)),
            ],
        )
    }

    open spec fn spec_parse(v: SpecJson) -> Result<SpecJson, SpecDeserError> {
        match v {
            SpecJson::Obj(fields) => match spec_check_keys(fields, seq![("reaction")@, ("actor")@]) {
                Err(e) => Err(e),
                Ok(_) => match sf_string(fields, ("reaction")@) {
                    Err(e) => Err(e),
                    Ok(reaction) => match sf_string(fields, ("actor")@) {
                        Err(e) => Err(e),
                        Ok(actor) => Ok(
                            SpecJson::Obj(
                                seq![
                                    (("reaction")@, SpecJson::Str(reaction)),
                                    (("actor")@, SpecJson::Str(actor)),
                                ],
                            ),
                        ),
                    },
                },
            },
            _ => Err(SpecDeserError::NotAnObject),
        }
    }

    fn from_json(v: &JsonValue) -> (r: Result<Self, DeserError>) {
        match v {
            JsonValue::Obj(fields) => {
                let allowed: Vec<&str> = vec!["reaction", "actor"];
                proof {
                    assert(allowed.deep_view() =~= seq![("reaction")@, ("actor")@]);
                }
                match check_keys(fields, &allowed) {
                    Err(e) => {
                        return Err(e);
                    },
                    Ok(_) => {},
                }
                let reaction = match gf_string(fields, "reaction") {
                    Ok(x) => x,
                    Err(e) => {
                        return Err(e);
                    },
                };
                let actor = match gf_string(fields, "actor") {
                    Ok(x) => x,
                    Err(e) => {
                        return Err(e);
                    },
                };
                let rec = Reaction { reaction, actor };
                proof {
                    let lhs = Self::spec_parse(v@)->Ok_0->Obj_0;
                    let rhs = rec.json_spec()->Obj_0;
                    assert(lhs =~= rhs);
                }
                Ok(rec)
            },
            _ => Err(DeserError::NotAnObject),
        }
    }

    fn to_json(&self) -> (r: JsonValue) {
        let mut fields: Vec<(String, JsonValue)> = Vec::new();
        fields.push((String::from_str("reaction"), JsonValue::Str(self.reaction.clone())));
        fields.push((String::from_str("actor"), JsonValue::Str(self.actor.clone())));
        let r = JsonValue::Obj(fields);
        proof {
            crate::json::lemma_view_fields(r->Obj_0@);
            assert(r@->Obj_0 =~= self.json_spec()->Obj_0);
        }
        r
    }
}

/// Shared content attached to a message.
#[derive(Debug, PartialEq, Eq, Clone)]
pub struct Share {
    pub link: Option<String>,
    pub share_text: Option<String>,
    pub original_content_owner: Option<String>,
    pub profile_share_username: Option<String>,
    pub profile_share_name: Option<String>,
}

impl JsonRecord for Share {
    open spec fn json_spec(&self) -> SpecJson {
        SpecJson::Obj(
            seq![
                (("link")@, opt_str_json(self.link.deep_view())),
                (("share_text")@, opt_str_json(self.share_text.deep_view())),
                (("original_content_owner")@, opt_str_json(self.original_content_owner.deep_view())),
                (("profile_share_username")@, opt_str_json(self.profile_share_username.deep_view())),
                (("profile_share_name")@, opt_str_json(self.profile_share_name.deep_view())),
            ],
        )
    }

    open spec fn spec_parse(v: SpecJson) -> Result<SpecJson, SpecDeserError> {
        match v {
            SpecJson::Obj(fields) => match spec_check_keys(fields, seq![("link")@, ("share_text")@, ("original_content_owner")@, ("profile_share_username")@, ("profile_share_name")@]) {
                Err(e) => Err(e),
                Ok(_) => match sf_opt_string(fields, ("link")@) {
                    Err(e) => Err(e),
                    Ok(link) => match sf_opt_string(fields, ("share_text")@) {
                        Err(e) => Err(e),
                        Ok(share_text) => match sf_opt_string(fields, ("original_content_owner")@) {
                            Err(e) => Err(e),
                            Ok(original_content_owner) => match sf_opt_string(fields, ("profile_share_username")@) {
                                Err(e) => Err(e),
                                Ok(profile_share_username) => match sf_opt_string(fields, ("profile_share_name")@) {
                                    Err(e) => Err(e),
                                    Ok(profile_share_name) => Ok(
                                        SpecJson::Obj(
                                            seq![
                                                (("link")@, opt_str_json(link)),
                                                (("share_text")@, opt_str_json(share_text)),
                                                (("original_content_owner")@, opt_str_json(original_content_owner)),
                                                (("profile_share_username")@, opt_str_json(profile_share_username)),
                                                (("profile_share_name")@, opt_str_json(profile_share_name)),
                                            ],
                                        ),
                                    ),
                                },
                            },
                        },
                    },
                },
            },
            _ => Err(SpecDeserError::NotAnObject),
        }
    }

    fn from_json(v: &JsonValue) -> (r: Result<Self, DeserError>) {
        match v {
            JsonValue::Obj(fields) => {
                let allowed: Vec<&str> = vec!["link", "share_text", "original_content_owner", "profile_share_username", "profile_share_name"];
                proof {
                    assert(allowed.deep_view() =~= seq![("link")@, ("share_text")@, ("original_content_owner")@, ("profile_share_username")@, ("profile_share_name")@]);
                }
                match check_keys(fields, &allowed) {
                    Err(e) => {
                        return Err(e);
                    },
                    Ok(_) => {},
                }
                let link = match gf_opt_string(fields, "link") {
                    Ok(x) => x,
                    Err(e) => {
                        return Err(e);
                    },
                };
                let share_text = match gf_opt_string(fields, "share_text") {
                    Ok(x) => x,
                    Err(e) => {
                        return Err(e);
                    },
                };
                let original_content_owner = match gf_opt_string(fields, "original_content_owner") {
                    Ok(x) => x,
                    Err(e) => {
                        return Err(e);
                    },
                };
                let profile_share_username = match gf_opt_string(fields, "profile_share_username") {
                    Ok(x) => x,
                    Err(e) => {
                        return Err(e);
                    },
                };
                let profile_share_name = match gf_opt_string(fields, "profile_share_name") {
                    Ok(x) => x,
                    Err(e) => {
                        return Err(e);
                    },
                };
                let rec = Share { link, share_text, original_content_owner, profile_share_username, profile_share_name };
                proof {
                    let lhs = Self::spec_parse(v@)->Ok_0->Obj_0;
                    let rhs = rec.json_spec()->Obj_0;
                    assert(lhs =~= rhs);
                }
                Ok(rec)
            },
            _ => Err(DeserError::NotAnObject),
        }
    }

    fn to_json(&self) -> (r: JsonValue) {
        let mut fields: Vec<(String, JsonValue)> = Vec::new();
        fields.push((String::from_str("link"), match &self.link { Some(s) => JsonValue::Str(s.clone()), None => JsonValue::Null }));
        fields.push((String::from_str("share_text"), match &self.share_text { Some(s) => JsonValue::Str(s.clone()), None => JsonValue::Null }));
        fields.push((String::from_str("original_content_owner"), match &self.original_content_owner { Some(s) => JsonValue::Str(s.clone()), None => JsonValue::Null }));
        fields.push((String::from_str("profile_share_username"), match &self.profile_share_username { Some(s) => JsonValue::Str(s.clone()), None => JsonValue::Null }));
        fields.push((String::from_str("profile_share_name"), match &self.profile_share_name { Some(s) => JsonValue::Str(s.clone()), None => JsonValue::Null }));
        let r = JsonValue::Obj(fields);
        proof {
            crate::json::lemma_view_fields(r->Obj_0@);
            assert(r@->Obj_0 =~= self.json_spec()->Obj_0);
        }
        r
    }
}

/// The joinable mode of a group conversation.
#[derive(Debug, PartialEq, Eq, Clone)]
pub struct JoinableMode {
    pub mode: u32,
    pub link: String,
}

impl JsonRecord for JoinableMode {
    open spec fn json_spec(&self) -> SpecJson {
        SpecJson::Obj(
            seq![
                (("mode")@, SpecJson::Int(self.mode as int)),
                (("link")@, SpecJson::Str(self.link@)),
            ],
        )
    }

    open spec fn spec_parse(v: SpecJson) -> Result<SpecJson, SpecDeserError> {
        match v {
            SpecJson::Obj(fields) => match spec_check_keys(fields, seq![("mode")@, ("link")@]) {
                Err(e) => Err(e),
                Ok(_) => match sf_int(fields, ("mode")@, 0, 0xffff_ffff) {
                    Err(e) => Err(e),
                    Ok(mode) => match sf_string(fields, ("link")@) {
                        Err(e) => Err(e),
                        Ok(link) => Ok(
                            SpecJson::Obj(
                                seq![
                                    (("mode")@, SpecJson::Int(mode)),
                                    (("link")@, SpecJson::Str(link)),
                                ],
                            ),
                        ),
                    },
                },
            },
            _ => Err(SpecDeserError::NotAnObject),
        }
    }

    fn from_json(v: &JsonValue) -> (r: Result<Self, DeserError>) {
        match v {
            JsonValue::Obj(fields) => {
                let allowed: Vec<&str> = vec!["mode", "link"];
                proof {
                    assert(allowed.deep_view() =~= seq![("mode")@, ("link")@]);
                }
                match check_keys(fields, &allowed) {
                    Err(e) => {
                        return Err(e);
                    },
                    Ok(_) => {},
                }
                let mode = match gf_u32(fields, "mode") {
                    Ok(x) => x,
                    Err(e) => {
                        return Err(e);
                    },
                };
                let link = match gf_string(fields, "link") {
                    Ok(x) => x,
                    Err(e) => {
                        return Err(e);
                    },
                };
                let rec = JoinableMode { mode, link };
                proof {
                    let lhs = Self::spec_parse(v@)->Ok_0->Obj_0;
                    let rhs = rec.json_spec()->Obj_0;
                    assert(lhs =~= rhs);
                }
                Ok(rec)
            },
            _ => Err(DeserError::NotAnObject),
        }
    }

    fn to_json(&self) -> (r: JsonValue) {
        let mut fields: Vec<(String, JsonValue)> = Vec::new();
        fields.push((String::from_str("mode"), JsonValue::UInt(self.mode as u64)));
        fields.push((String::from_str("link"), JsonValue::Str(self.link.clone())));
        let r = JsonValue::Obj(fields);
        proof {
            crate::json::lemma_view_fields(r->Obj_0@);
            assert(r@->Obj_0 =~= self.json_spec()->Obj_0);
        }
        r
    }
}

/// One message of a conversation.
#[derive(Debug, PartialEq, Eq, Clone)]
pub struct Message {
    pub sender_name: String,
    pub timestamp_ms: u64,
    pub content: Option<String>,
    pub photos: Option<Vec<MediaUri>>,
    pub videos: Option<Vec<MediaUri>>,
    pub audio_files: Option<Vec<MediaUri>>,
    pub share: Option<Share>,
    pub call_duration: Option<u32>,
    pub is_unsent: Option<bool>,
    pub is_geoblocked_for_viewer: bool,
    pub reactions: Option<Vec<Reaction>>,
}

impl JsonRecord for Message {
    open spec fn json_spec(&self) -> SpecJson {
        SpecJson::Obj(
            seq![
                (("sender_name")@, SpecJson::Str(self.sender_name@)),
                (("timestamp_ms")@, SpecJson::Int(self.timestamp_ms as int)),
                (("content")@, opt_str_json(self.content.deep_view())),
                (("photos")@, match self.photos { Option::None => SpecJson::Null, Option::Some(v) => SpecJson::Arr(jsons_of(v@)) }),
                (("videos")@, match self.videos { Option::None => SpecJson::Null, Option::Some(v) => SpecJson::Arr(jsons_of(v@)) }),
                (("audio_files")@, match self.audio_files { Option::None => SpecJson::Null, Option::Some(v) => SpecJson::Arr(jsons_of(v@)) }),
                (("share")@, opt_rec_json(self.share)),
                (("call_duration")@, opt_int_json(match self.call_duration { Option::None => None, Option::Some(n) => Some(n as int) })),
                (("is_unsent")@, opt_bool_json(self.is_unsent)),
                (("is_geoblocked_for_viewer")@, SpecJson::Bool(self.is_geoblocked_for_viewer)),
                (("reactions")@, match self.reactions { Option::None => SpecJson::Null, Option::Some(v) => SpecJson::Arr(jsons_of(v@)) }),
            ],
        )
    }

    open spec fn spec_parse(v: SpecJson) -> Result<SpecJson, SpecDeserError> {
        match v {
            SpecJson::Obj(fields) => match spec_check_keys(fields, seq![("sender_name")@, ("timestamp_ms")@, ("content")@, ("photos")@, ("videos")@, ("audio_files")@, ("share")@, ("call_duration")@, ("is_unsent")@, ("is_geoblocked_for_viewer")@, ("reactions")@]) {
                Err(e) => Err(e),
                Ok(_) => match sf_string(fields, ("sender_name")@) {
                    Err(e) => Err(e),
                    Ok(sender_name) => match sf_int(fields, ("timestamp_ms")@, 0, 0xffff_ffff_ffff_ffff) {
                        Err(e) => Err(e),
                        Ok(timestamp_ms) => match sf_opt_string(fields, ("content")@) {
                            Err(e) => Err(e),
                            Ok(content) => match sf_opt_rec_arr::<MediaUri>(fields, ("photos")@) {
                                Err(e) => Err(e),
                                Ok(photos) => match sf_opt_rec_arr::<MediaUri>(fields, ("videos")@) {
                                    Err(e) => Err(e),
                                    Ok(videos) => match sf_opt_rec_arr::<MediaUri>(fields, ("audio_files")@) {
                                        Err(e) => Err(e),
                                        Ok(audio_files) => match sf_opt_rec::<Share>(fields, ("share")@) {
                                            Err(e) => Err(e),
                                            Ok(share) => match sf_opt_int(fields, ("call_duration")@, 0, 0xffff_ffff) {
                                                Err(e) => Err(e),
                                                Ok(call_duration) => match sf_opt_bool(fields, ("is_unsent")@) {
                                                    Err(e) => Err(e),
                                                    Ok(is_unsent) => match sf_bool(fields, ("is_geoblocked_for_viewer")@) {
                                                        Err(e) => Err(e),
                                                        Ok(is_geoblocked_for_viewer) => match sf_opt_rec_arr::<Reaction>(fields, ("reactions")@) {
                                                            Err(e) => Err(e),
                                                            Ok(reactions) => Ok(
                                                                SpecJson::Obj(
                                                                    seq![
                                                                        (("sender_name")@, SpecJson::Str(sender_name)),
                                                                        (("timestamp_ms")@, SpecJson::Int(timestamp_ms)),
                                                                        (("content")@, opt_str_json(content)),
                                                                        (("photos")@, match photos { Option::None => SpecJson::Null, Option::Some(js) => SpecJson::Arr(js) }),
                                                                        (("videos")@, match videos { Option::None => SpecJson::Null, Option::Some(js) => SpecJson::Arr(js) }),
                                                                        (("audio_files")@, match audio_files { Option::None => SpecJson::Null, Option::Some(js) => SpecJson::Arr(js) }),
                                                                        (("share")@, opt_json(share)),
                                                                        (("call_duration")@, opt_int_json(call_duration)),
                                                                        (("is_unsent")@, opt_bool_json(is_unsent)),
                                                                        (("is_geoblocked_for_viewer")@, SpecJson::Bool(is_geoblocked_for_viewer)),
                                                                        (("reactions")@, match reactions { Option::None => SpecJson::Null, Option::Some(js) => SpecJson::Arr(js) }),
                                                                    ],
                                                                ),
                                                            ),
                                                        },
                                                    },
                                                },
                                            },
                                        },
                                    },
                                },
                            },
                        },
                    },
                },
            },
            _ => Err(SpecDeserError::NotAnObject),
        }
    }

    #[verifier::rlimit(100)]
    fn from_json(v: &JsonValue) -> (r: Result<Self, DeserError>) {
        match v {
            JsonValue::Obj(fields) => {
                let allowed: Vec<&str> = vec!["sender_name", "timestamp_ms", "content", "photos", "videos", "audio_files", "share", "call_duration", "is_unsent", "is_geoblocked_for_viewer", "reactions"];
                proof {
                    assert(allowed.deep_view() =~= seq![("sender_name")@, ("timestamp_ms")@, ("content")@, ("photos")@, ("videos")@, ("audio_files")@, ("share")@, ("call_duration")@, ("is_unsent")@, ("is_geoblocked_for_viewer")@, ("reactions")@]);
                }
                match check_keys(fields, &allowed) {
                    Err(e) => {
                        return Err(e);
                    },
                    Ok(_) => {},
                }
                let sender_name = match gf_string(fields, "sender_name") {
                    Ok(x) => x,
                    Err(e) => {
                        return Err(e);
                    },
                };
                let timestamp_ms = match gf_u64(fields, "timestamp_ms") {
                    Ok(x) => x,
                    Err(e) => {
                        return Err(e);
                    },
                };
                let content = match gf_opt_string(fields, "content") {
                    Ok(x) => x,
                    Err(e) => {
                        return Err(e);
                    },
                };
                let photos = match gf_opt_rec_arr::<MediaUri>(fields, "photos") {
                    Ok(x) => x,
                    Err(e) => {
                        return Err(e);
                    },
                };
                let videos = match gf_opt_rec_arr::<MediaUri>(fields, "videos") {
                    Ok(x) => x,
                    Err(e) => {
                        return Err(e);
                    },
                };
                let audio_files = match gf_opt_rec_arr::<MediaUri>(fields, "audio_files") {
                    Ok(x) => x,
                    Err(e) => {
                        return Err(e);
                    },
                };
                let share = match gf_opt_rec::<Share>(fields, "share") {
                    Ok(x) => x,
                    Err(e) => {
                        return Err(e);
                    },
                };
                let call_duration = match gf_opt_u32(fields, "call_duration") {
                    Ok(x) => x,
                    Err(e) => {
                        return Err(e);
                    },
                };
                let is_unsent = match gf_opt_bool(fields, "is_unsent") {
                    Ok(x) => x,
                    Err(e) => {
                        return Err(e);
                    },
                };
                let is_geoblocked_for_viewer = match gf_bool(fields, "is_geoblocked_for_viewer") {
                    Ok(x) => x,
                    Err(e) => {
                        return Err(e);
                    },
                };
                let reactions = match gf_opt_rec_arr::<Reaction>(fields, "reactions") {
                    Ok(x) => x,
                    Err(e) => {
                        return Err(e);
                    },
                };
                let rec = Message { sender_name, timestamp_ms, content, photos, videos, audio_files, share, call_duration, is_unsent, is_geoblocked_for_viewer, reactions };
                proof {
                    let lhs = Self::spec_parse(v@)->Ok_0->Obj_0;
                    let rhs = rec.json_spec()->Obj_0;
                    assert(lhs =~= rhs);
                }
                Ok(rec)
            },
            _ => Err(DeserError::NotAnObject),
        }
    }

    #[verifier::rlimit(100)]
    fn to_json(&self) -> (r: JsonValue) {
        let mut fields: Vec<(String, JsonValue)> = Vec::new();
        fields.push((String::from_str("sender_name"), JsonValue::Str(self.sender_name.clone())));
        fields.push((String::from_str("timestamp_ms"), JsonValue::UInt(self.timestamp_ms)));
        fields.push((String::from_str("content"), match &self.content { Some(s) => JsonValue::Str(s.clone()), None => JsonValue::Null }));
        fields.push((String::from_str("photos"), match &self.photos { Some(v) => JsonValue::Arr(items_to_json(v)), None => JsonValue::Null }));
        fields.push((String::from_str("videos"), match &self.videos { Some(v) => JsonValue::Arr(items_to_json(v)), None => JsonValue::Null }));
        fields.push((String::from_str("audio_files"), match &self.audio_files { Some(v) => JsonValue::Arr(items_to_json(v)), None => JsonValue::Null }));
        fields.push((String::from_str("share"), match &self.share { Some(x) => x.to_json(), None => JsonValue::Null }));
        fields.push((String::from_str("call_duration"), match self.call_duration { Some(n) => JsonValue::UInt(n as u64), None => JsonValue::Null }));
        fields.push((String::from_str("is_unsent"), match self.is_unsent { Some(b) => JsonValue::Bool(b), None => JsonValue::Null }));
        fields.push((String::from_str("is_geoblocked_for_viewer"), JsonValue::Bool(self.is_geoblocked_for_viewer)));
        fields.push((String::from_str("reactions"), match &self.reactions { Some(v) => JsonValue::Arr(items_to_json(v)), None => JsonValue::Null }));
        let r = JsonValue::Obj(fields);
        proof {
            crate::json::lemma_view_fields(r->Obj_0@);
            assert(r@->Obj_0 =~= self.json_spec()->Obj_0);
        }
        r
    }
}

/// One conversation fragment: a numbered message file.
#[derive(Debug, PartialEq, Eq, Clone)]
pub struct InboxData {
    pub participants: Vec<Participant>,
    pub messages: Vec<Message>,
    pub title: String,
    pub is_still_participant: bool,
    pub thread_path: String,
    pub magic_words: Vec<()>,
    pub image: Option<MediaUri>,
    pub joinable_mode: Option<JoinableMode>,
}

impl JsonRecord for InboxData {
    open spec fn json_spec(&self) -> SpecJson {
        SpecJson::Obj(
            seq![
                (("participants")@, SpecJson::Arr(jsons_of(self.participants@))),
                (("messages")@, SpecJson::Arr(jsons_of(self.messages@))),
                (("title")@, SpecJson::Str(self.title@)),
                (("is_still_participant")@, SpecJson::Bool(self.is_still_participant)),
                (("thread_path")@, SpecJson::Str(self.thread_path@)),
                (("magic_words")@, SpecJson::Arr(nulls(self.magic_words@.len() as nat))),
                (("image")@, opt_rec_json(self.image)),
                (("joinable_mode")@, opt_rec_json(self.joinable_mode)),
            ],
        )
    }

    open spec fn spec_parse(v: SpecJson) -> Result<SpecJson, SpecDeserError> {
        match v {
            SpecJson::Obj(fields) => match spec_check_keys(fields, seq![("participants")@, ("messages")@, ("title")@, ("is_still_participant")@, ("thread_path")@, ("magic_words")@, ("image")@, ("joinable_mode")@]) {
                Err(e) => Err(e),
                Ok(_) => match sf_rec_arr::<Participant>(fields, ("participants")@) {
                    Err(e) => Err(e),
                    Ok(participants) => match sf_rec_arr::<Message>(fields, ("messages")@) {
                        Err(e) => Err(e),
                        Ok(messages) => match sf_string(fields, ("title")@) {
                            Err(e) => Err(e),
                            Ok(title) => match sf_bool(fields, ("is_still_participant")@) {
                                Err(e) => Err(e),
                                Ok(is_still_participant) => match sf_string(fields, ("thread_path")@) {
                                    Err(e) => Err(e),
                                    Ok(thread_path) => match sf_null_arr(fields, ("magic_words")@) {
                                        Err(e) => Err(e),
                                        Ok(magic_words) => match sf_opt_rec::<MediaUri>(fields, ("image")@) {
                                            Err(e) => Err(e),
                                            Ok(image) => match sf_opt_rec::<JoinableMode>(fields, ("joinable_mode")@) {
                                                Err(e) => Err(e),
                                                Ok(joinable_mode) => Ok(
                                                    SpecJson::Obj(
                                                        seq![
                                                            (("participants")@, SpecJson::Arr(participants)),
                                                            (("messages")@, SpecJson::Arr(messages)),
                                                            (("title")@, SpecJson::Str(title)),
                                                            (("is_still_participant")@, SpecJson::Bool(is_still_participant)),
                                                            (("thread_path")@, SpecJson::Str(thread_path)),
                                                            (("magic_words")@, SpecJson::Arr(nulls(magic_words))),
                                                            (("image")@, opt_json(image)),
                                                            (("joinable_mode")@, opt_json(joinable_mode)),
                                                        ],
                                                    ),
                                                ),
                                            },
                                        },
                                    },
                                },
                            },
                        },
                    },
                },
            },
            _ => Err(SpecDeserError::NotAnObject),
        }
    }

    #[verifier::rlimit(100)]
    fn from_json(v: &JsonValue) -> (r: Result<Self, DeserError>) {
        match v {
            JsonValue::Obj(fields) => {
                let allowed: Vec<&str> = vec!["participants", "messages", "title", "is_still_participant", "thread_path", "magic_words", "image", "joinable_mode"];
                proof {
                    assert(allowed.deep_view() =~= seq![("participants")@, ("messages")@, ("title")@, ("is_still_participant")@, ("thread_path")@, ("magic_words")@, ("image")@, ("joinable_mode")@]);
                }
                match check_keys(fields, &allowed) {
                    Err(e) => {
                        return Err(e);
                    },
                    Ok(_) => {},
                }
                let participants = match gf_rec_arr::<Participant>(fields, "participants") {
                    Ok(x) => x,
                    Err(e) => {
                        return Err(e);
                    },
                };
                let messages = match gf_rec_arr::<Message>(fields, "messages") {
                    Ok(x) => x,
                    Err(e) => {
                        return Err(e);
                    },
                };
                let title = match gf_string(fields, "title") {
                    Ok(x) => x,
                    Err(e) => {
                        return Err(e);
                    },
                };
                let is_still_participant = match gf_bool(fields, "is_still_participant") {
                    Ok(x) => x,
                    Err(e) => {
                        return Err(e);
                    },
                };
                let thread_path = match gf_string(fields, "thread_path") {
                    Ok(x) => x,
                    Err(e) => {
                        return Err(e);
                    },
                };
                let n_magic_words = match gf_null_arr(fields, "magic_words") {
                    Ok(n) => n,
                    Err(e) => {
                        return Err(e);
                    },
                };
                let mut magic_words: Vec<()> = Vec::new();
                while magic_words.len() < n_magic_words
                    invariant
                        magic_words@.len() <= n_magic_words,
                    decreases n_magic_words - magic_words@.len(),
                {
                    magic_words.push(());
                }
                let image = match gf_opt_rec::<MediaUri>(fields, "image") {
                    Ok(x) => x,
                    Err(e) => {
                        return Err(e);
                    },
                };
                let joinable_mode = match gf_opt_rec::<JoinableMode>(fields, "joinable_mode") {
                    Ok(x) => x,
                    Err(e) => {
                        return Err(e);
                    },
                };
                let rec = InboxData { participants, messages, title, is_still_participant, thread_path, magic_words, image, joinable_mode };
                proof {
                    let lhs = Self::spec_parse(v@)->Ok_0->Obj_0;
                    let rhs = rec.json_spec()->Obj_0;
                    assert(lhs =~= rhs);
                }
                Ok(rec)
            },
            _ => Err(DeserError::NotAnObject),
        }
    }

    #[verifier::rlimit(100)]
    fn to_json(&self) -> (r: JsonValue) {
        let mut fields: Vec<(String, JsonValue)> = Vec::new();
        fields.push((String::from_str("participants"), JsonValue::Arr(items_to_json(&self.participants))));
        fields.push((String::from_str("messages"), JsonValue::Arr(items_to_json(&self.messages))));
        fields.push((String::from_str("title"), JsonValue::Str(self.title.clone())));
        fields.push((String::from_str("is_still_participant"), JsonValue::Bool(self.is_still_participant)));
        fields.push((String::from_str("thread_path"), JsonValue::Str(self.thread_path.clone())));
        let mut magic_words_js: Vec<JsonValue> = Vec::new();
        proof {
            assert(view_items(magic_words_js@) =~= nulls(0));
        }
        while magic_words_js.len() < self.magic_words.len()
            invariant
                magic_words_js@.len() <= self.magic_words@.len(),
                view_items(magic_words_js@) == nulls(magic_words_js@.len() as nat),
            decreases self.magic_words@.len() - magic_words_js@.len(),
        {
            proof {
                lemma_view_items_push(magic_words_js@, JsonValue::Null);
            }
            magic_words_js.push(JsonValue::Null);
            proof {
                assert(view_items(magic_words_js@) =~= nulls(magic_words_js@.len() as nat));
            }
        }
        fields.push((String::from_str("magic_words"), JsonValue::Arr(magic_words_js)));
        fields.push((String::from_str("image"), match &self.image { Some(x) => x.to_json(), None => JsonValue::Null }));
        fields.push((String::from_str("joinable_mode"), match &self.joinable_mode { Some(x) => x.to_json(), None => JsonValue::Null }));
        let r = JsonValue::Obj(fields);
        proof {
            crate::json::lemma_view_fields(r->Obj_0@);
            assert(r@->Obj_0 =~= self.json_spec()->Obj_0);
        }
        r
    }
}

/// Matches the numbered message-fragment file names: `message_` at the
/// start, anything in the middle, `.json` at the end.
pub open spec fn is_frag(name: Seq<char>) -> bool {
    name.len() >= 13 && name.take(8) == ("message_")@ && name.skip(name.len() - 5) == (".json")@
}

/// Whether a file name is a message-fragment name.
pub fn is_frag_name(s: &str) -> (r: bool)
    ensures
        r == is_frag(s@),
{
    let n = s.unicode_len();
    if n < 13 {
        return false;
    }
    let pre = s.substring_char(0, 8);
    let suf = s.substring_char(n - 5, n);
    let r = str_eq(pre, "message_") && str_eq(suf, ".json");
    proof {
        assert(s@.subrange(0, 8) =~= s@.take(8));
        assert(s@.subrange(n as int - 5, n as int) =~= s@.skip(n as int - 5));
    }
    r
}

/// An entry name of a conversation folder whose contents are not read.
pub open spec fn conv_ignored(name: Seq<char>) -> bool {
    name == ("photos")@ || name == ("videos")@ || name == ("audio")@
}

/// What is structurally wrong with one entry of a conversation folder, if
/// anything: fragment names must be files, media folders are passed over,
/// and nothing else is allowed.
pub open spec fn sp_conv_entry(name: Seq<char>, node: SpecNode, at: Seq<Seq<char>>) -> Option<
    SpecParseError,
> {
    if is_frag(name) {
        match node {
            SpecNode::Dir(_) => Some(
                SpecParseError::UnexpectedFormat {
                    path: at.push(name),
                    issue: StructuralIssue::ExpectedFile,
                },
            ),
            SpecNode::File(_) => None,
        }
    } else if conv_ignored(name) {
        None
    } else {
        Some(
            SpecParseError::UnexpectedFormat {
                path: at.push(name),
                issue: StructuralIssue::UnexpectedEntry,
            },
        )
    }
}

/// The first structurally failing entry of a conversation folder.
pub open spec fn sp_conv_first_bad(
    entries: Seq<(Seq<char>, SpecNode)>,
    at: Seq<Seq<char>>,
) -> Option<SpecParseError>
    decreases entries.len(),
{
    if entries.len() == 0 {
        None
    } else {
        match sp_conv_entry(entries[0].0, entries[0].1, at) {
            Some(e) => Some(e),
            None => sp_conv_first_bad(entries.drop_first(), at),
        }
    }
}

/// How many fragment files the folder holds.
pub open spec fn sp_frag_count(entries: Seq<(Seq<char>, SpecNode)>) -> nat
    decreases entries.len(),
{
    if entries.len() == 0 {
        0
    } else {
        sp_frag_count(entries.drop_last()) + (if is_frag(entries.last().0) && entries.last().1
            is File {
            1nat
        } else {
            0nat
        })
    }
}

/// The parsed fragments of a conversation folder, in directory order; the
/// structural pass has already accepted every entry.
pub open spec fn sp_conv_frags(entries: Seq<(Seq<char>, SpecNode)>, at: Seq<Seq<char>>) -> Result<
    Seq<SpecJson>,
    SpecParseError,
>
    decreases entries.len(),
{
    if entries.len() == 0 {
        Ok(Seq::empty())
    } else {
        let name = entries[0].0;
        match entries[0].1 {
            SpecNode::File(text) => if is_frag(name) {
                match sp_leaf::<InboxData>(text, at.push(name)) {
                    Err(e) => Err(e),
                    Ok(j) => match sp_conv_frags(entries.drop_first(), at) {
                        Err(e) => Err(e),
                        Ok(js) => Ok(seq![j] + js),
                    },
                }
            } else {
                sp_conv_frags(entries.drop_first(), at)
            },
            SpecNode::Dir(_) => sp_conv_frags(entries.drop_first(), at),
        }
    }
}

/// Loads one conversation folder: its fragments in directory order.  A
/// conversation without a single fragment file is a structural error charged
/// to the folder itself.
#[verifier::opaque]
pub open spec fn sp_load_conv(entries: Seq<(Seq<char>, SpecNode)>, at: Seq<Seq<char>>) -> Result<
    Seq<SpecJson>,
    SpecParseError,
> {
    match sp_conv_first_bad(entries, at) {
        Some(e) => Err(e),
        None => if sp_frag_count(entries) == 0 {
            Err(SpecParseError::UnexpectedFormat { path: at, issue: StructuralIssue::NoMessageFiles })
        } else {
            sp_conv_frags(entries, at)
        },
    }
}

/// Loads one conversation folder, `at` naming it from the archive root.
#[verifier::rlimit(100)]
fn load_conversation(dir: &Folder, at: &Vec<String>) -> (r: Result<Vec<InboxData>, ParseError>)
    ensures
        match r {
            Ok(v) => sp_load_conv(dir@, at.deep_view()) == Ok::<Seq<SpecJson>, SpecParseError>(
                jsons_of(v@),
            ),
            Err(e) => sp_load_conv(dir@, at.deep_view()) == Err::<Seq<SpecJson>, SpecParseError>(
                e@,
            ),
        },
{
    let ghost ev = dir@;
    let ghost pv = at.deep_view();
    let entries = &dir.entries;
    proof {
                reveal(sp_load_conv);
        lemma_view_entries(entries@);
        assert(ev.skip(0) =~= ev);
        assert(ev.take(0) =~= Seq::<(Seq<char>, SpecNode)>::empty());
    }
    let mut count: usize = 0;
    let mut i: usize = 0;
    while i < entries.len()
        invariant
            i <= entries@.len(),
            ev == dir@,
            ev == view_entries(entries@),
            ev.len() == entries@.len(),
            pv == at.deep_view(),
            sp_conv_first_bad(ev, pv) == sp_conv_first_bad(ev.skip(i as int), pv),
            count as nat == sp_frag_count(ev.take(i as int)),
            count <= i,
        decreases entries@.len() - i,
    {
        proof {
                reveal(sp_load_conv);
            lemma_view_entries(entries@);
            assert(ev[i as int] == (entries@[i as int].name@, entries@[i as int].node@));
            assert(ev.skip(i as int)[0] == ev[i as int]);
            assert(ev.skip(i as int).drop_first() =~= ev.skip(i as int + 1));
            assert(ev.take(i as int + 1).drop_last() =~= ev.take(i as int));
            assert(ev.take(i as int + 1).last() == ev[i as int]);
        }
        let entry = &entries[i];
        proof {
                reveal(sp_load_conv);
            assert(entry.name@ == ev[i as int].0);
            assert(entry.node@ == ev[i as int].1);
        }
        if is_frag_name(entry.name.as_str()) {
            match &entry.node {
                Node::Dir(_) => {
                    let child = path_push(at, &entry.name);
                    proof {
                reveal(sp_load_conv);
                        let ee = SpecParseError::UnexpectedFormat {
                            path: pv.push(ev[i as int].0),
                            issue: StructuralIssue::ExpectedFile,
                        };
                        assert(sp_conv_entry(ev[i as int].0, ev[i as int].1, pv) == Some(ee));
                        assert(sp_conv_first_bad(ev.skip(i as int), pv) == Some(ee));
                    }
                    return Err(
                        ParseError::UnexpectedFormat {
                            path: child,
                            issue: StructuralIssue::ExpectedFile,
                        },
                    );
                },
                Node::File(_) => {
                    count = count + 1;
                },
            }
        } else {
            let ignored = str_eq(entry.name.as_str(), "photos") || str_eq(
                entry.name.as_str(),
                "videos",
            ) || str_eq(entry.name.as_str(), "audio");
            if !ignored {
                let child = path_push(at, &entry.name);
                proof {
                reveal(sp_load_conv);
                    let ee = SpecParseError::UnexpectedFormat {
                        path: pv.push(ev[i as int].0),
                        issue: StructuralIssue::UnexpectedEntry,
                    };
                    assert(sp_conv_entry(ev[i as int].0, ev[i as int].1, pv) == Some(ee));
                    assert(sp_conv_first_bad(ev.skip(i as int), pv) == Some(ee));
                }
                return Err(
                    ParseError::UnexpectedFormat {
                        path: child,
                        issue: StructuralIssue::UnexpectedEntry,
                    },
                );
            }
        }
        i = i + 1;
    }
    proof {
                reveal(sp_load_conv);
        assert(ev.take(i as int) =~= ev);
        assert(ev.skip(i as int) =~= Seq::<(Seq<char>, SpecNode)>::empty());
    }
    if count == 0 {
        let mut own: Vec<String> = Vec::new();
        let mut k: usize = 0;
        proof {
                reveal(sp_load_conv);
            assert(own.deep_view() =~= pv.take(0));
        }
        while k < at.len()
            invariant
                k <= at@.len(),
                pv == at.deep_view(),
                own.deep_view() == pv.take(k as int),
            decreases at@.len() - k,
        {
            let ghost old_own = own@;
            proof {
                reveal(sp_load_conv);
                assert(own.deep_view().len() == own@.len());
                assert(at.deep_view().len() == at@.len());
            }
            own.push(at[k].clone());
            k = k + 1;
            proof {
                reveal(sp_load_conv);
                assert(own.deep_view() =~= pv.take(k as int));
            }
        }
        proof {
                reveal(sp_load_conv);
            assert(own.deep_view() =~= pv);
        }
        return Err(
            ParseError::UnexpectedFormat { path: own, issue: StructuralIssue::NoMessageFiles },
        );
    }
    let mut out: Vec<InboxData> = Vec::new();
    let mut j: usize = 0;
    proof {
                reveal(sp_load_conv);
        assert(jsons_of(out@) =~= Seq::<SpecJson>::empty());
    }
    while j < entries.len()
        invariant
            j <= entries@.len(),
            ev == dir@,
            ev == view_entries(entries@),
            ev.len() == entries@.len(),
            pv == at.deep_view(),
            sp_conv_first_bad(ev, pv) is None,
            sp_frag_count(ev) > 0,
            match sp_conv_frags(ev.skip(j as int), pv) {
                Ok(js) => sp_conv_frags(ev, pv) == Ok::<Seq<SpecJson>, SpecParseError>(
                    jsons_of(out@) + js,
                ),
                Err(e) => sp_conv_frags(ev, pv) == Err::<Seq<SpecJson>, SpecParseError>(e),
            },
        decreases entries@.len() - j,
    {
        proof {
                reveal(sp_load_conv);
            lemma_view_entries(entries@);
            assert(ev[j as int] == (entries@[j as int].name@, entries@[j as int].node@));
            assert(ev.skip(j as int)[0] == ev[j as int]);
            assert(ev.skip(j as int).drop_first() =~= ev.skip(j as int + 1));
        }
        let entry = &entries[j];
        proof {
                reveal(sp_load_conv);
            assert(entry.name@ == ev[j as int].0);
            assert(entry.node@ == ev[j as int].1);
        }
        if is_frag_name(entry.name.as_str()) {
            match &entry.node {
                Node::File(text) => {
                    let child = path_push(at, &entry.name);
                    match parse_leaf::<InboxData>(text.as_str(), child) {
                        Ok(x) => {
                            proof {
                reveal(sp_load_conv);
                                assert(jsons_of(out@.push(x)) =~= jsons_of(out@).push(
                                    x.json_spec(),
                                ));
                                match sp_conv_frags(ev.skip(j as int + 1), pv) {
                                    Ok(js) => {
                                        assert(jsons_of(out@) + (seq![x.json_spec()] + js)
                                            =~= jsons_of(out@.push(x)) + js);
                                    },
                                    Err(_) => {},
                                }
                            }
                            out.push(x);
                        },
                        Err(e) => {
                            proof {
                reveal(sp_load_conv);
                                assert(sp_conv_frags(ev.skip(j as int), pv) == Err::<
                                    Seq<SpecJson>,
                                    SpecParseError,
                                >(e@));
                            }
                            return Err(e);
                        },
                    }
                },
                Node::Dir(_) => {},
            }
        }
        j = j + 1;
    }
    proof {
                reveal(sp_load_conv);
        assert(ev.skip(j as int) =~= Seq::<(Seq<char>, SpecNode)>::empty());
        assert(jsons_of(out@) + Seq::<SpecJson>::empty() =~= jsons_of(out@));
    }
    Ok(out)
}

/// The canonical JSON fields of the conversation index: one per conversation
/// folder, in directory order.
pub open spec fn inbox_fields_json(convs: Seq<(String, Vec<InboxData>)>) -> Seq<
    (Seq<char>, SpecJson),
> {
    Seq::new(convs.len(), |i: int| (convs[i].0@, SpecJson::Arr(jsons_of(convs[i].1@))))
}

/// The conversation index: each conversation folder's identifier mapped to
/// its ordered message fragments, kept as read, never merged.
#[derive(Debug, PartialEq, Eq, Clone)]
pub struct Inbox(pub Vec<(String, Vec<InboxData>)>);

/// The loaded fields of an inbox folder, in directory order.
pub open spec fn sp_inbox_fields(entries: Seq<(Seq<char>, SpecNode)>, at: Seq<Seq<char>>) -> Result<
    Seq<(Seq<char>, SpecJson)>,
    SpecParseError,
>
    decreases entries.len(),
{
    if entries.len() == 0 {
        Ok(Seq::empty())
    } else {
        let name = entries[0].0;
        match entries[0].1 {
            SpecNode::File(_) => Err(
                SpecParseError::UnexpectedFormat {
                    path: at.push(name),
                    issue: StructuralIssue::ExpectedFolder,
                },
            ),
            SpecNode::Dir(sub) => match sp_load_conv(sub, at.push(name)) {
                Err(e) => Err(e),
                Ok(js) => match sp_inbox_fields(entries.drop_first(), at) {
                    Err(e) => Err(e),
                    Ok(fs) => Ok(seq![(name, SpecJson::Arr(js))] + fs),
                },
            },
        }
    }
}

/// Loads the whole inbox folder.
#[verifier::opaque]
pub open spec fn sp_load_inbox(entries: Seq<(Seq<char>, SpecNode)>, at: Seq<Seq<char>>) -> Result<
    SpecJson,
    SpecParseError,
> {
    match sp_inbox_fields(entries, at) {
        Err(e) => Err(e),
        Ok(fs) => Ok(SpecJson::Obj(fs)),
    }
}

impl Inbox {
    /// The canonical JSON of the conversation index.
    pub open spec fn json_spec(&self) -> SpecJson {
        SpecJson::Obj(inbox_fields_json(self.0@))
    }

    /// Rebuilds the canonical JSON value of the conversation index.
    pub fn to_json(&self) -> (r: JsonValue)
        ensures
            r@ == self.json_spec(),
    {
        let mut fields: Vec<(String, JsonValue)> = Vec::new();
        let mut i: usize = 0;
        proof {
            assert(crate::json::view_fields(fields@) =~= inbox_fields_json(self.0@).take(0));
        }
        while i < self.0.len()
            invariant
                i <= self.0@.len(),
                crate::json::view_fields(fields@) == inbox_fields_json(self.0@).take(i as int),
            decreases self.0@.len() - i,
        {
            let pair = &self.0[i];
            let arr = JsonValue::Arr(items_to_json(&pair.1));
            let key = pair.0.clone();
            proof {
                crate::json::lemma_view_fields_push(fields@, key, arr);
            }
            fields.push((key, arr));
            i = i + 1;
            proof {
                assert(crate::json::view_fields(fields@) =~= inbox_fields_json(self.0@).take(
                    i as int,
                ));
            }
        }
        let r = JsonValue::Obj(fields);
        proof {
            assert(inbox_fields_json(self.0@).take(self.0@.len() as int) =~= inbox_fields_json(
                self.0@,
            ));
            assert(r@->Obj_0 =~= self.json_spec()->Obj_0);
        }
        r
    }

    /// Loads the inbox folder: every entry is one conversation folder.
    #[verifier::rlimit(100)]
    pub fn from_folder(dir: &Folder, at: &Vec<String>) -> (r: Result<Self, ParseError>)
        ensures
            match r {
                Ok(s) => sp_load_inbox(dir@, at.deep_view()) == Ok::<SpecJson, SpecParseError>(
                    s.json_spec(),
                ),
                Err(e) => sp_load_inbox(dir@, at.deep_view()) == Err::<SpecJson, SpecParseError>(
                    e@,
                ),
            },
    {
        let ghost ev = dir@;
        let ghost pv = at.deep_view();
        let entries = &dir.entries;
        proof {
                reveal(sp_load_inbox);
            lemma_view_entries(entries@);
            assert(ev.skip(0) =~= ev);
        }
        let mut out: Vec<(String, Vec<InboxData>)> = Vec::new();
        let mut i: usize = 0;
        proof {
                reveal(sp_load_inbox);
            assert(inbox_fields_json(out@) =~= Seq::<(Seq<char>, SpecJson)>::empty());
        }
        while i < entries.len()
            invariant
                i <= entries@.len(),
                ev == dir@,
                ev == view_entries(entries@),
                ev.len() == entries@.len(),
                pv == at.deep_view(),
                match sp_inbox_fields(ev.skip(i as int), pv) {
                    Ok(fs) => sp_inbox_fields(ev, pv) == Ok::<
                        Seq<(Seq<char>, SpecJson)>,
                        SpecParseError,
                    >(inbox_fields_json(out@) + fs),
                    Err(e) => sp_inbox_fields(ev, pv) == Err::<
                        Seq<(Seq<char>, SpecJson)>,
                        SpecParseError,
                    >(e),
                },
            decreases entries@.len() - i,
        {
            proof {
                reveal(sp_load_inbox);
                lemma_view_entries(entries@);
                assert(ev[i as int] == (entries@[i as int].name@, entries@[i as int].node@));
                assert(ev.skip(i as int)[0] == ev[i as int]);
                assert(ev.skip(i as int).drop_first() =~= ev.skip(i as int + 1));
            }
            let entry = &entries[i];
            proof {
                reveal(sp_load_inbox);
                assert(entry.name@ == ev[i as int].0);
                assert(entry.node@ == ev[i as int].1);
            }
            let child = path_push(at, &entry.name);
            match &entry.node {
                Node::File(_) => {
                    proof {
                reveal(sp_load_inbox);
                        assert(sp_inbox_fields(ev.skip(i as int), pv) == Err::<
                            Seq<(Seq<char>, SpecJson)>,
                            SpecParseError,
                        >(
                            SpecParseError::UnexpectedFormat {
                                path: pv.push(ev[i as int].0),
                                issue: StructuralIssue::ExpectedFolder,
                            },
                        ));
                    }
                    return Err(
                        ParseError::UnexpectedFormat {
                            path: child,
                            issue: StructuralIssue::ExpectedFolder,
                        },
                    );
                },
                Node::Dir(sub) => {
                    proof {
                reveal(sp_load_inbox);
                        assert(entry.node@ == SpecNode::Dir(sub@));
                    }
                    match load_conversation(sub, &child) {
                        Err(e) => {
                            proof {
                reveal(sp_load_inbox);
                                assert(sp_inbox_fields(ev.skip(i as int), pv) == Err::<
                                    Seq<(Seq<char>, SpecJson)>,
                                    SpecParseError,
                                >(e@));
                            }
                            return Err(e);
                        },
                        Ok(v) => {
                            let ghost frag_js = jsons_of(v@);
                            let key = entry.name.clone();
                            proof {
                reveal(sp_load_inbox);
                                assert(inbox_fields_json(out@.push((key, v)))
                                    =~= inbox_fields_json(out@).push(
                                    (ev[i as int].0, SpecJson::Arr(frag_js)),
                                ));
                                match sp_inbox_fields(ev.skip(i as int + 1), pv) {
                                    Ok(fs) => {
                                        assert(inbox_fields_json(out@) + (seq![
                                            (ev[i as int].0, SpecJson::Arr(frag_js)),
                                        ] + fs) =~= inbox_fields_json(out@).push(
                                            (ev[i as int].0, SpecJson::Arr(frag_js)),
                                        ) + fs);
                                    },
                                    Err(_) => {},
                                }
                            }
                            out.push((key, v));
                        },
                    }
                },
            }
            i = i + 1;
        }
        proof {
                reveal(sp_load_inbox);
            assert(ev.skip(i as int) =~= Seq::<(Seq<char>, SpecNode)>::empty());
            assert(inbox_fields_json(out@) + Seq::<(Seq<char>, SpecJson)>::empty()
                =~= inbox_fields_json(out@));
        }
        let s = Inbox(out);
        proof {
                reveal(sp_load_inbox);
            assert(sp_load_inbox(ev, pv)->Ok_0->Obj_0 =~= s.json_spec()->Obj_0);
        }
        Ok(s)
    }
}

/// What is wrong with one entry of the messages folder, if anything.
pub open spec fn sp_msgs_entry(name: Seq<char>, node: SpecNode, at: Seq<Seq<char>>) -> Option<
    SpecParseError,
> {
    let path = at.push(name);
    if name == ("inbox")@ {
        match node {
            SpecNode::File(_) => Some(
                SpecParseError::UnexpectedFormat { path, issue: StructuralIssue::ExpectedFolder },
            ),
            SpecNode::Dir(sub) => match sp_load_inbox(sub, path) {
                Ok(_) => None,
                Err(e) => Some(e),
            },
        }
    } else if name == ("reported_conversations.json")@ || name == ("secret_conversations.json")@ {
        match node {
            SpecNode::Dir(_) => Some(
                SpecParseError::UnexpectedFormat { path, issue: StructuralIssue::ExpectedFile },
            ),
            SpecNode::File(_) => None,
        }
    } else if name == ("cross-app-inbox")@ || name == ("message_requests")@ {
        match node {
            SpecNode::File(_) => Some(
                SpecParseError::UnexpectedFormat { path, issue: StructuralIssue::ExpectedFolder },
            ),
            SpecNode::Dir(_) => None,
        }
    } else if name == ("photos")@ {
        None
    } else {
        Some(
            SpecParseError::UnexpectedFormat { path, issue: StructuralIssue::UnexpectedEntry },
        )
    }
}

/// The first failing entry of the messages folder, in directory order.
pub open spec fn sp_msgs_first_bad(
    entries: Seq<(Seq<char>, SpecNode)>,
    at: Seq<Seq<char>>,
) -> Option<SpecParseError>
    decreases entries.len(),
{
    if entries.len() == 0 {
        None
    } else {
        match sp_msgs_entry(entries[0].0, entries[0].1, at) {
            Some(e) => Some(e),
            None => sp_msgs_first_bad(entries.drop_first(), at),
        }
    }
}

/// The loaded inbox, from the last entry named for it.
pub open spec fn sp_msgs_field_inbox(
    entries: Seq<(Seq<char>, SpecNode)>,
    at: Seq<Seq<char>>,
) -> Option<SpecJson>
    decreases entries.len(),
{
    if entries.len() == 0 {
        None
    } else if entries.last().0 == ("inbox")@ {
        match entries.last().1 {
            SpecNode::Dir(sub) => match sp_load_inbox(sub, at.push(("inbox")@)) {
                Ok(j) => Some(j),
                Err(_) => None,
            },
            SpecNode::File(_) => None,
        }
    } else {
        sp_msgs_field_inbox(entries.drop_last(), at)
    }
}

/// Loads the messages folder: the aggregate's canonical JSON, or the first
/// error.
#[verifier::opaque]
pub open spec fn sp_load_msgs(entries: Seq<(Seq<char>, SpecNode)>, at: Seq<Seq<char>>) -> Result<
    SpecJson,
    SpecParseError,
> {
    match sp_msgs_first_bad(entries, at) {
        Some(e) => Err(e),
        None => Ok(SpecJson::Obj(seq![(("inbox")@, opt_json(sp_msgs_field_inbox(entries, at)))])),
    }
}

/// The messages section: the conversation inbox.
#[derive(Debug, PartialEq, Eq, Clone)]
pub struct Messages {
    pub inbox: Option<Inbox>,
}

impl Messages {
    /// The canonical JSON of this section.
    pub open spec fn json_spec(&self) -> SpecJson {
        SpecJson::Obj(
            seq![
                (("inbox")@, (match self.inbox {
                    Option::None => SpecJson::Null,
                    Option::Some(x) => x.json_spec(),
                })),
            ],
        )
    }

    /// Rebuilds the canonical JSON value of this section.
    pub fn to_json(&self) -> (r: JsonValue)
        ensures
            r@ == self.json_spec(),
    {
        let mut fields: Vec<(String, JsonValue)> = Vec::new();
        fields.push(
            (
                String::from_str("inbox"),
                match &self.inbox {
                    Some(x) => x.to_json(),
                    None => JsonValue::Null,
                },
            ),
        );
        let r = JsonValue::Obj(fields);
        proof {
            crate::json::lemma_view_fields(r->Obj_0@);
            assert(r@->Obj_0 =~= self.json_spec()->Obj_0);
        }
        r
    }

    /// Loads this section from its folder, `at` naming the folder from the
    /// archive root.
    #[verifier::rlimit(100)]
    pub fn from_folder(dir: &Folder, at: &Vec<String>) -> (r: Result<Self, ParseError>)
        ensures
            match r {
                Ok(s) => sp_load_msgs(dir@, at.deep_view()) == Ok::<SpecJson, SpecParseError>(
                    s.json_spec(),
                ),
                Err(e) => sp_load_msgs(dir@, at.deep_view()) == Err::<SpecJson, SpecParseError>(
                    e@,
                ),
            },
    {
        let ghost ev = dir@;
        let ghost pv = at.deep_view();
        let entries = &dir.entries;
        proof {
                reveal(sp_load_msgs);
            lemma_view_entries(entries@);
            assert(ev.skip(0) =~= ev);
            assert(ev.take(0) =~= Seq::<(Seq<char>, SpecNode)>::empty());
        }
        let mut inbox: Option<Inbox> = None;
        let mut i: usize = 0;
        while i < entries.len()
            invariant
                i <= entries@.len(),
                ev == dir@,
                ev == view_entries(entries@),
                ev.len() == entries@.len(),
                pv == at.deep_view(),
                sp_msgs_first_bad(ev, pv) == sp_msgs_first_bad(ev.skip(i as int), pv),
                (match inbox {
                    Option::None => SpecJson::Null,
                    Option::Some(x) => x.json_spec(),
                }) == opt_json(sp_msgs_field_inbox(ev.take(i as int), pv)),
            decreases entries@.len() - i,
        {
            proof {
                reveal(sp_load_msgs);
                reveal_strlit("inbox");
                reveal_strlit("reported_conversations.json");
                reveal_strlit("secret_conversations.json");
                reveal_strlit("cross-app-inbox");
                reveal_strlit("message_requests");
                reveal_strlit("photos");
                lemma_view_entries(entries@);
                assert(ev[i as int] == (entries@[i as int].name@, entries@[i as int].node@));
                assert(ev.skip(i as int)[0] == ev[i as int]);
                assert(ev.skip(i as int).drop_first() =~= ev.skip(i as int + 1));
                assert(ev.take(i as int + 1).drop_last() =~= ev.take(i as int));
                assert(ev.take(i as int + 1).last() == ev[i as int]);
            }
            let entry = &entries[i];
            proof {
                reveal(sp_load_msgs);
                assert(entry.name@ == ev[i as int].0);
                assert(entry.node@ == ev[i as int].1);
            }
            let child = path_push(at, &entry.name);
            if str_eq(entry.name.as_str(), "inbox") {
                match &entry.node {
                    Node::File(_) => {
                        proof {
                reveal(sp_load_msgs);
                            let ee = SpecParseError::UnexpectedFormat {
                                path: pv.push(ev[i as int].0),
                                issue: StructuralIssue::ExpectedFolder,
                            };
                            assert(sp_msgs_entry(ev[i as int].0, ev[i as int].1, pv) == Some(ee));
                            assert(sp_msgs_first_bad(ev.skip(i as int), pv) == Some(ee));
                        }
                        return Err(
                            ParseError::UnexpectedFormat {
                                path: child,
                                issue: StructuralIssue::ExpectedFolder,
                            },
                        );
                    },
                    Node::Dir(sub) => {
                        proof {
                reveal(sp_load_msgs);
                            assert(entry.node@ == SpecNode::Dir(sub@));
                        }
                        match Inbox::from_folder(sub, &child) {
                            Ok(x) => {
                                proof {
                reveal(sp_load_msgs);
                                    assert(sp_msgs_entry(ev[i as int].0, ev[i as int].1, pv)
                                        is None);
                                    assert(sp_msgs_first_bad(ev.skip(i as int), pv)
                                        == sp_msgs_first_bad(ev.skip(i as int + 1), pv));
                                    assert(sp_msgs_field_inbox(ev.take(i as int + 1), pv) == Some(
                                        x.json_spec(),
                                    ));
                                }
                                inbox = Some(x);
                            },
                            Err(e) => {
                                proof {
                reveal(sp_load_msgs);
                                    assert(sp_msgs_entry(ev[i as int].0, ev[i as int].1, pv)
                                        == Some(e@));
                                    assert(sp_msgs_first_bad(ev.skip(i as int), pv) == Some(e@));
                                }
                                return Err(e);
                            },
                        }
                    },
                }
            } else if str_eq(entry.name.as_str(), "reported_conversations.json") || str_eq(
                entry.name.as_str(),
                "secret_conversations.json",
            ) {
                match &entry.node {
                    Node::Dir(_) => {
                        proof {
                reveal(sp_load_msgs);
                            let ee = SpecParseError::UnexpectedFormat {
                                path: pv.push(ev[i as int].0),
                                issue: StructuralIssue::ExpectedFile,
                            };
                            assert(sp_msgs_entry(ev[i as int].0, ev[i as int].1, pv) == Some(ee));
                            assert(sp_msgs_first_bad(ev.skip(i as int), pv) == Some(ee));
                        }
                        return Err(
                            ParseError::UnexpectedFormat {
                                path: child,
                                issue: StructuralIssue::ExpectedFile,
                            },
                        );
                    },
                    Node::File(_) => {
                        proof {
                reveal(sp_load_msgs);
                            assert(sp_msgs_entry(ev[i as int].0, ev[i as int].1, pv) is None);
                            assert(sp_msgs_first_bad(ev.skip(i as int), pv) == sp_msgs_first_bad(
                                ev.skip(i as int + 1),
                                pv,
                            ));
                            assert(sp_msgs_field_inbox(ev.take(i as int + 1), pv)
                                == sp_msgs_field_inbox(ev.take(i as int), pv));
                        }
                    },
                }
            } else if str_eq(entry.name.as_str(), "cross-app-inbox") || str_eq(
                entry.name.as_str(),
                "message_requests",
            ) {
                match &entry.node {
                    Node::File(_) => {
                        proof {
                reveal(sp_load_msgs);
                            let ee = SpecParseError::UnexpectedFormat {
                                path: pv.push(ev[i as int].0),
                                issue: StructuralIssue::ExpectedFolder,
                            };
                            assert(sp_msgs_entry(ev[i as int].0, ev[i as int].1, pv) == Some(ee));
                            assert(sp_msgs_first_bad(ev.skip(i as int), pv) == Some(ee));
                        }
                        return Err(
                            ParseError::UnexpectedFormat {
                                path: child,
                                issue: StructuralIssue::ExpectedFolder,
                            },
                        );
                    },
                    Node::Dir(_) => {
                        proof {
                reveal(sp_load_msgs);
                            assert(sp_msgs_entry(ev[i as int].0, ev[i as int].1, pv) is None);
                            assert(sp_msgs_first_bad(ev.skip(i as int), pv) == sp_msgs_first_bad(
                                ev.skip(i as int + 1),
                                pv,
                            ));
                            assert(sp_msgs_field_inbox(ev.take(i as int + 1), pv)
                                == sp_msgs_field_inbox(ev.take(i as int), pv));
                        }
                    },
                }
            } else if str_eq(entry.name.as_str(), "photos") {
                proof {
                reveal(sp_load_msgs);
                    assert(sp_msgs_entry(ev[i as int].0, ev[i as int].1, pv) is None);
                    assert(sp_msgs_first_bad(ev.skip(i as int), pv) == sp_msgs_first_bad(
                        ev.skip(i as int + 1),
                        pv,
                    ));
                    assert(sp_msgs_field_inbox(ev.take(i as int + 1), pv) == sp_msgs_field_inbox(
                        ev.take(i as int),
                        pv,
                    ));
                }
            } else {
                proof {
                reveal(sp_load_msgs);
                    let ee = SpecParseError::UnexpectedFormat {
                        path: pv.push(ev[i as int].0),
                        issue: StructuralIssue::UnexpectedEntry,
                    };
                    assert(sp_msgs_entry(ev[i as int].0, ev[i as int].1, pv) == Some(ee));
                    assert(sp_msgs_first_bad(ev.skip(i as int), pv) == Some(ee));
                }
                return Err(
                    ParseError::UnexpectedFormat {
                        path: child,
                        issue: StructuralIssue::UnexpectedEntry,
                    },
                );
            }
            i = i + 1;
        }
        proof {
                reveal(sp_load_msgs);
            assert(ev.take(i as int) =~= ev);
            assert(ev.skip(i as int) =~= Seq::<(Seq<char>, SpecNode)>::empty());
        }
        let s = Messages { inbox };
        proof {
                reveal(sp_load_msgs);
            assert(sp_load_msgs(ev, pv)->Ok_0->Obj_0 =~= s.json_spec()->Obj_0);
        }
        Ok(s)
    }
}

} // verus!
