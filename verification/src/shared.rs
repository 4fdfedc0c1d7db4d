//! Shared value shapes: small record shapes for JSON fragments that recur
//! across many leaf kinds.  Each deserializes under the closed-world rules
//! and re-serializes canonically (every schema field present, absent optional
//! fields as `null`).

use vstd::prelude::*;

use crate::common::{DeserError, SpecDeserError};
use crate::json::{JsonValue, SpecJson};
use crate::record::JsonRecord;
use crate::schema::{check_keys, gf_i32, gf_opt_string, gf_opt_u64, gf_string, gf_u64,
    opt_int_json, opt_str_json, sf_int, sf_opt_int, sf_opt_string, sf_string, spec_check_keys};

verus! {

/// A link with an optional display value and a timestamp.  This shape is not
/// written out by the platform under a fixed name; it backs the
/// `string_list_data` entries that many relationship-style records carry.
#[derive(Debug, PartialEq, Eq, Clone)]
pub struct StringData {
    pub href: String,
    pub value: Option<String>,
    pub timestamp: u64,
}

impl JsonRecord for StringData {
    open spec fn json_spec(&self) -> SpecJson {
        SpecJson::Obj(
            seq![
                (("href")@, SpecJson::Str(self.href@)),
                (("value")@, opt_str_json(self.value.deep_view())),
                (("timestamp")@, SpecJson::Int(self.timestamp as int)),
            ],
        )
    }

    open spec fn spec_parse(v: SpecJson) -> Result<SpecJson, SpecDeserError> {
        match v {
            SpecJson::Obj(fields) => match spec_check_keys(
                fields,
                seq![("href")@, ("value")@, ("timestamp")@],
            ) {
                Err(e) => Err(e),
                Ok(_) => match sf_string(fields, ("href")@) {
                    Err(e) => Err(e),
                    Ok(href) => match sf_opt_string(fields, ("value")@) {
                        Err(e) => Err(e),
                        Ok(value) => match sf_int(
                            fields,
                            ("timestamp")@,
                            0,
                            0xffff_ffff_ffff_ffff,
                        ) {
                            Err(e) => Err(e),
                            Ok(ts) => Ok(
                                SpecJson::Obj(
                                    seq![
                                        (("href")@, SpecJson::Str(href)),
                                        (("value")@, opt_str_json(value)),
                                        (("timestamp")@, SpecJson::Int(ts)),
                                    ],
                                ),
                            ),
                        },
                    },
                },
            },
            _ => Err(SpecDeserError::NotAnObject),
        }
    }

    fn from_json(v: &JsonValue) -> (r: Result<Self, DeserError>) {
        match v {
            JsonValue::Obj(fields) => {
                let allowed: Vec<&str> = vec!["href", "value", "timestamp"];
                proof {
                    assert(allowed.deep_view() =~= seq![("href")@, ("value")@, ("timestamp")@]);
                }
                match check_keys(fields, &allowed) {
                    Err(e) => {
                        return Err(e);
                    },
                    Ok(_) => {},
                }
                let href = match gf_string(fields, "href") {
                    Ok(s) => s,
                    Err(e) => {
                        return Err(e);
                    },
                };
                let value = match gf_opt_string(fields, "value") {
                    Ok(o) => o,
                    Err(e) => {
                        return Err(e);
                    },
                };
                let timestamp = match gf_u64(fields, "timestamp") {
                    Ok(n) => n,
                    Err(e) => {
                        return Err(e);
                    },
                };
                let rec = StringData { href, value, timestamp };
                proof {
                    let lhs = Self::spec_parse(v@)->Ok_0->Obj_0;
                    let rhs = rec.json_spec()->Obj_0;
                    assert(lhs =~= rhs);
                }
                Ok(rec)
            },
            _ => Err(DeserError::NotAnObject),
        }
    }

    fn to_json(&self) -> (r: JsonValue) {
        let mut fields: Vec<(String, JsonValue)> = Vec::new();
        fields.push((String::from_str("href"), JsonValue::Str(self.href.clone())));
        fields.push(
            (
                String::from_str("value"),
                match &self.value {
                    Some(s) => JsonValue::Str(s.clone()),
                    None => JsonValue::Null,
                },
            ),
        );
        fields.push((String::from_str("timestamp"), JsonValue::UInt(self.timestamp)));
        let r = JsonValue::Obj(fields);
        proof {
            crate::json::lemma_view_fields(r->Obj_0@);
            assert(r@->Obj_0 =~= self.json_spec()->Obj_0);
        }
        r
    }
}

/// A single-value wrapper.
#[derive(Debug, PartialEq, Eq, Clone)]
pub struct Value {
    pub value: String,
}

impl JsonRecord for Value {
    open spec fn json_spec(&self) -> SpecJson {
        SpecJson::Obj(
            seq![
                (("value")@, SpecJson::Str(self.value@)),
            ],
        )
    }

    open spec fn spec_parse(v: SpecJson) -> Result<SpecJson, SpecDeserError> {
        match v {
            SpecJson::Obj(fields) => match spec_check_keys(fields, seq![("value")@]) {
                Err(e) => Err(e),
                Ok(_) => match sf_string(fields, ("value")@) {
                    Err(e) => Err(e),
                    Ok(value) => Ok(
                        SpecJson::Obj(
                            seq![
                                (("value")@, SpecJson::Str(value)),
                            ],
                        ),
                    ),
                },
            },
            _ => Err(SpecDeserError::NotAnObject),
        }
    }

    fn from_json(v: &JsonValue) -> (r: Result<Self, DeserError>) {
        match v {
            JsonValue::Obj(fields) => {
                let allowed: Vec<&str> = vec!["value"];
                proof {
                    assert(allowed.deep_view() =~= seq![("value")@]);
                }
                match check_keys(fields, &allowed) {
                    Err(e) => {
                        return Err(e);
                    },
                    Ok(_) => {},
                }
                let value = match gf_string(fields, "value") {
                    Ok(x) => x,
                    Err(e) => {
                        return Err(e);
                    },
                };
                let rec = Value { value };
                proof {
                    let lhs = Self::spec_parse(v@)->Ok_0->Obj_0;
                    let rhs = rec.json_spec()->Obj_0;
                    assert(lhs =~= rhs);
                }
                Ok(rec)
            },
            _ => Err(DeserError::NotAnObject),
        }
    }

    fn to_json(&self) -> (r: JsonValue) {
        let mut fields: Vec<(String, JsonValue)> = Vec::new();
        fields.push((String::from_str("value"), JsonValue::Str(self.value.clone())));
        let r = JsonValue::Obj(fields);
        proof {
            crate::json::lemma_view_fields(r->Obj_0@);
            assert(r@->Obj_0 =~= self.json_spec()->Obj_0);
        }
        r
    }
}

/// A timestamp-only wrapper.
#[derive(Debug, PartialEq, Eq, Clone)]
pub struct Timestamp {
    pub timestamp: u64,
}

impl JsonRecord for Timestamp {
    open spec fn json_spec(&self) -> SpecJson {
        SpecJson::Obj(
            seq![
                (("timestamp")@, SpecJson::Int(self.timestamp as int)),
            ],
        )
    }

    open spec fn spec_parse(v: SpecJson) -> Result<SpecJson, SpecDeserError> {
        match v {
            SpecJson::Obj(fields) => match spec_check_keys(fields, seq![("timestamp")@]) {
                Err(e) => Err(e),
                Ok(_) => match sf_int(fields, ("timestamp")@, 0, 0xffff_ffff_ffff_ffff) {
                    Err(e) => Err(e),
                    Ok(timestamp) => Ok(
                        SpecJson::Obj(
                            seq![
                                (("timestamp")@, SpecJson::Int(timestamp)),
                            ],
                        ),
                    ),
                },
            },
            _ => Err(SpecDeserError::NotAnObject),
        }
    }

    fn from_json(v: &JsonValue) -> (r: Result<Self, DeserError>) {
        match v {
            JsonValue::Obj(fields) => {
                let allowed: Vec<&str> = vec!["timestamp"];
                proof {
                    assert(allowed.deep_view() =~= seq![("timestamp")@]);
                }
                match check_keys(fields, &allowed) {
                    Err(e) => {
                        return Err(e);
                    },
                    Ok(_) => {},
                }
                let timestamp = match gf_u64(fields, "timestamp") {
                    Ok(x) => x,
                    Err(e) => {
                        return Err(e);
                    },
                };
                let rec = Timestamp { timestamp };
                proof {
                    let lhs = Self::spec_parse(v@)->Ok_0->Obj_0;
                    let rhs = rec.json_spec()->Obj_0;
                    assert(lhs =~= rhs);
                }
                Ok(rec)
            },
            _ => Err(DeserError::NotAnObject),
        }
    }

    fn to_json(&self) -> (r: JsonValue) {
        let mut fields: Vec<(String, JsonValue)> = Vec::new();
        fields.push((String::from_str("timestamp"), JsonValue::UInt(self.timestamp)));
        let r = JsonValue::Obj(fields);
        proof {
            crate::json::lemma_view_fields(r->Obj_0@);
            assert(r@->Obj_0 =~= self.json_spec()->Obj_0);
        }
        r
    }
}

/// A link with an optional display value.
#[derive(Debug, PartialEq, Eq, Clone)]
pub struct LinkData {
    pub href: String,
    pub value: Option<String>,
}

impl JsonRecord for LinkData {
    open spec fn json_spec(&self) -> SpecJson {
        SpecJson::Obj(
            seq![
                (("href")@, SpecJson::Str(self.href@)),
                (("value")@, opt_str_json(self.value.deep_view())),
            ],
        )
    }

    open spec fn spec_parse(v: SpecJson) -> Result<SpecJson, SpecDeserError> {
        match v {
            SpecJson::Obj(fields) => match spec_check_keys(fields, seq![("href")@, ("value")@]) {
                Err(e) => Err(e),
                Ok(_) => match sf_string(fields, ("href")@) {
                    Err(e) => Err(e),
                    Ok(href) => match sf_opt_string(fields, ("value")@) {
                        Err(e) => Err(e),
                        Ok(value) => Ok(
                            SpecJson::Obj(
                                seq![
                                    (("href")@, SpecJson::Str(href)),
                                    (("value")@, opt_str_json(value)),
                                ],
                            ),
                        ),
                    },
                },
            },
            _ => Err(SpecDeserError::NotAnObject),
        }
    }

    fn from_json(v: &JsonValue) -> (r: Result<Self, DeserError>) {
        match v {
            JsonValue::Obj(fields) => {
                let allowed: Vec<&str> = vec!["href", "value"];
                proof {
                    assert(allowed.deep_view() =~= seq![("href")@, ("value")@]);
                }
                match check_keys(fields, &allowed) {
                    Err(e) => {
                        return Err(e);
                    },
                    Ok(_) => {},
                }
                let href = match gf_string(fields, "href") {
                    Ok(x) => x,
                    Err(e) => {
                        return Err(e);
                    },
                };
                let value = match gf_opt_string(fields, "value") {
                    Ok(x) => x,
                    Err(e) => {
                        return Err(e);
                    },
                };
                let rec = LinkData { href, value };
                proof {
                    let lhs = Self::spec_parse(v@)->Ok_0->Obj_0;
                    let rhs = rec.json_spec()->Obj_0;
                    assert(lhs =~= rhs);
                }
                Ok(rec)
            },
            _ => Err(DeserError::NotAnObject),
        }
    }

    fn to_json(&self) -> (r: JsonValue) {
        let mut fields: Vec<(String, JsonValue)> = Vec::new();
        fields.push((String::from_str("href"), JsonValue::Str(self.href.clone())));
        fields.push((String::from_str("value"), match &self.value { Some(s) => JsonValue::Str(s.clone()), None => JsonValue::Null }));
        let r = JsonValue::Obj(fields);
        proof {
            crate::json::lemma_view_fields(r->Obj_0@);
            assert(r@->Obj_0 =~= self.json_spec()->Obj_0);
        }
        r
    }
}

/// A link with a timestamp.
#[derive(Debug, PartialEq, Eq, Clone)]
pub struct LinkTimeData {
    pub href: String,
    pub timestamp: i32,
}

impl JsonRecord for LinkTimeData {
    open spec fn json_spec(&self) -> SpecJson {
        SpecJson::Obj(
            seq![
                (("href")@, SpecJson::Str(self.href@)),
                (("timestamp")@, SpecJson::Int(self.timestamp as int)),
            ],
        )
    }

    open spec fn spec_parse(v: SpecJson) -> Result<SpecJson, SpecDeserError> {
        match v {
            SpecJson::Obj(fields) => match spec_check_keys(fields, seq![("href")@, ("timestamp")@]) {
                Err(e) => Err(e),
                Ok(_) => match sf_string(fields, ("href")@) {
                    Err(e) => Err(e),
                    Ok(href) => match sf_int(fields, ("timestamp")@, -0x8000_0000, 0x7fff_ffff) {
                        Err(e) => Err(e),
                        Ok(timestamp) => Ok(
                            SpecJson::Obj(
                                seq![
                                    (("href")@, SpecJson::Str(href)),
                                    (("timestamp")@, SpecJson::Int(timestamp)),
                                ],
                            ),
                        ),
                    },
                },
            },
            _ => Err(SpecDeserError::NotAnObject),
        }
    }

    fn from_json(v: &JsonValue) -> (r: Result<Self, DeserError>) {
        match v {
            JsonValue::Obj(fields) => {
                let allowed: Vec<&str> = vec!["href", "timestamp"];
                proof {
                    assert(allowed.deep_view() =~= seq![("href")@, ("timestamp")@]);
                }
                match check_keys(fields, &allowed) {
                    Err(e) => {
                        return Err(e);
                    },
                    Ok(_) => {},
                }
                let href = match gf_string(fields, "href") {
                    Ok(x) => x,
                    Err(e) => {
                        return Err(e);
                    },
                };
                let timestamp = match gf_i32(fields, "timestamp") {
                    Ok(x) => x,
                    Err(e) => {
                        return Err(e);
                    },
                };
                let rec = LinkTimeData { href, timestamp };
                proof {
                    let lhs = Self::spec_parse(v@)->Ok_0->Obj_0;
                    let rhs = rec.json_spec()->Obj_0;
                    assert(lhs =~= rhs);
                }
                Ok(rec)
            },
            _ => Err(DeserError::NotAnObject),
        }
    }

    fn to_json(&self) -> (r: JsonValue) {
        let mut fields: Vec<(String, JsonValue)> = Vec::new();
        fields.push((String::from_str("href"), JsonValue::Str(self.href.clone())));
        fields.push((String::from_str("timestamp"), JsonValue::Int(self.timestamp as i64)));
        let r = JsonValue::Obj(fields);
        proof {
            crate::json::lemma_view_fields(r->Obj_0@);
            assert(r@->Obj_0 =~= self.json_spec()->Obj_0);
        }
        r
    }
}

/// A link with an optional display value and a timestamp.
#[derive(Debug, PartialEq, Eq, Clone)]
pub struct LinkTimeValueData {
    pub href: String,
    pub value: Option<String>,
    pub timestamp: i32,
}

impl JsonRecord for LinkTimeValueData {
    open spec fn json_spec(&self) -> SpecJson {
        SpecJson::Obj(
            seq![
                (("href")@, SpecJson::Str(self.href@)),
                (("value")@, opt_str_json(self.value.deep_view())),
                (("timestamp")@, SpecJson::Int(self.timestamp as int)),
            ],
        )
    }

    open spec fn spec_parse(v: SpecJson) -> Result<SpecJson, SpecDeserError> {
        match v {
            SpecJson::Obj(fields) => match spec_check_keys(fields, seq![("href")@, ("value")@, ("timestamp")@]) {
                Err(e) => Err(e),
                Ok(_) => match sf_string(fields, ("href")@) {
                    Err(e) => Err(e),
                    Ok(href) => match sf_opt_string(fields, ("value")@) {
                        Err(e) => Err(e),
                        Ok(value) => match sf_int(fields, ("timestamp")@, -0x8000_0000, 0x7fff_ffff) {
                            Err(e) => Err(e),
                            Ok(timestamp) => Ok(
                                SpecJson::Obj(
                                    seq![
                                        (("href")@, SpecJson::Str(href)),
                                        (("value")@, opt_str_json(value)),
                                        (("timestamp")@, SpecJson::Int(timestamp)),
                                    ],
                                ),
                            ),
                        },
                    },
                },
            },
            _ => Err(SpecDeserError::NotAnObject),
        }
    }

    fn from_json(v: &JsonValue) -> (r: Result<Self, DeserError>) {
        match v {
            JsonValue::Obj(fields) => {
                let allowed: Vec<&str> = vec!["href", "value", "timestamp"];
                proof {
                    assert(allowed.deep_view() =~= seq![("href")@, ("value")@, ("timestamp")@]);
                }
                match check_keys(fields, &allowed) {
                    Err(e) => {
                        return Err(e);
                    },
                    Ok(_) => {},
                }
                let href = match gf_string(fields, "href") {
                    Ok(x) => x,
                    Err(e) => {
                        return Err(e);
                    },
                };
                let value = match gf_opt_string(fields, "value") {
                    Ok(x) => x,
                    Err(e) => {
                        return Err(e);
                    },
                };
                let timestamp = match gf_i32(fields, "timestamp") {
                    Ok(x) => x,
                    Err(e) => {
                        return Err(e);
                    },
                };
                let rec = LinkTimeValueData { href, value, timestamp };
                proof {
                    let lhs = Self::spec_parse(v@)->Ok_0->Obj_0;
                    let rhs = rec.json_spec()->Obj_0;
                    assert(lhs =~= rhs);
                }
                Ok(rec)
            },
            _ => Err(DeserError::NotAnObject),
        }
    }

    fn to_json(&self) -> (r: JsonValue) {
        let mut fields: Vec<(String, JsonValue)> = Vec::new();
        fields.push((String::from_str("href"), JsonValue::Str(self.href.clone())));
        fields.push((String::from_str("value"), match &self.value { Some(s) => JsonValue::Str(s.clone()), None => JsonValue::Null }));
        fields.push((String::from_str("timestamp"), JsonValue::Int(self.timestamp as i64)));
        let r = JsonValue::Obj(fields);
        proof {
            crate::json::lemma_view_fields(r->Obj_0@);
            assert(r@->Obj_0 =~= self.json_spec()->Obj_0);
        }
        r
    }
}

/// A media reference: its URI, and optional creation time and backup URI.
#[derive(Debug, PartialEq, Eq, Clone)]
pub struct MediaUri {
    pub uri: String,
    pub creation_timestamp: Option<u64>,
    pub backup_uri: Option<String>,
}

impl JsonRecord for MediaUri {
    open spec fn json_spec(&self) -> SpecJson {
        SpecJson::Obj(
            seq![
                (("uri")@, SpecJson::Str(self.uri@)),
                (("creation_timestamp")@, opt_int_json(match self.creation_timestamp { Option::None => None, Option::Some(n) => Some(n as int) })),
                (("backup_uri")@, opt_str_json(self.backup_uri.deep_view())),
            ],
        )
    }

    open spec fn spec_parse(v: SpecJson) -> Result<SpecJson, SpecDeserError> {
        match v {
            SpecJson::Obj(fields) => match spec_check_keys(fields, seq![("uri")@, ("creation_timestamp")@, ("backup_uri")@]) {
                Err(e) => Err(e),
                Ok(_) => match sf_string(fields, ("uri")@) {
                    Err(e) => Err(e),
                    Ok(uri) => match sf_opt_int(fields, ("creation_timestamp")@, 0, 0xffff_ffff_ffff_ffff) {
                        Err(e) => Err(e),
                        Ok(creation_timestamp) => match sf_opt_string(fields, ("backup_uri")@) {
                            Err(e) => Err(e),
                            Ok(backup_uri) => Ok(
                                SpecJson::Obj(
                                    seq![
                                        (("uri")@, SpecJson::Str(uri)),
                                        (("creation_timestamp")@, opt_int_json(creation_timestamp)),
                                        (("backup_uri")@, opt_str_json(backup_uri)),
                                    ],
                                ),
                            ),
                        },
                    },
                },
            },
            _ => Err(SpecDeserError::NotAnObject),
        }
    }

    fn from_json(v: &JsonValue) -> (r: Result<Self, DeserError>) {
        match v {
            JsonValue::Obj(fields) => {
                let allowed: Vec<&str> = vec!["uri", "creation_timestamp", "backup_uri"];
                proof {
                    assert(allowed.deep_view() =~= seq![("uri")@, ("creation_timestamp")@, ("backup_uri")@]);
                }
                match check_keys(fields, &allowed) {
                    Err(e) => {
                        return Err(e);
                    },
                    Ok(_) => {},
                }
                let uri = match gf_string(fields, "uri") {
                    Ok(x) => x,
                    Err(e) => {
                        return Err(e);
                    },
                };
                let creation_timestamp = match gf_opt_u64(fields, "creation_timestamp") {
                    Ok(x) => x,
                    Err(e) => {
                        return Err(e);
                    },
                };
                let backup_uri = match gf_opt_string(fields, "backup_uri") {
                    Ok(x) => x,
                    Err(e) => {
                        return Err(e);
                    },
                };
                let rec = MediaUri { uri, creation_timestamp, backup_uri };
                proof {
                    let lhs = Self::spec_parse(v@)->Ok_0->Obj_0;
                    let rhs = rec.json_spec()->Obj_0;
                    assert(lhs =~= rhs);
                }
                Ok(rec)
            },
            _ => Err(DeserError::NotAnObject),
        }
    }

    fn to_json(&self) -> (r: JsonValue) {
        let mut fields: Vec<(String, JsonValue)> = Vec::new();
        fields.push((String::from_str("uri"), JsonValue::Str(self.uri.clone())));
        fields.push((String::from_str("creation_timestamp"), match self.creation_timestamp { Some(n) => JsonValue::UInt(n), None => JsonValue::Null }));
        fields.push((String::from_str("backup_uri"), match &self.backup_uri { Some(s) => JsonValue::Str(s.clone()), None => JsonValue::Null }));
        let r = JsonValue::Obj(fields);
        proof {
            crate::json::lemma_view_fields(r->Obj_0@);
            assert(r@->Obj_0 =~= self.json_spec()->Obj_0);
        }
        r
    }
}

} // verus!
