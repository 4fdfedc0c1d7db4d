//! Placeholder subject areas: present in the layout, with no fields read
//! yet.  Modelling them keeps the schema registry exhaustive, so extending
//! one later is additive.

use vstd::prelude::*;

use crate::common::ParseError;
use crate::json::JsonValue;
use crate::json::SpecJson;
use crate::tree::Folder;

verus! {

/// The media section; nothing of it is read yet.
#[derive(Debug, PartialEq, Eq, Clone)]
pub struct Media;

impl Media {
    /// The canonical JSON of this section.
    pub open spec fn json_spec(&self) -> SpecJson {
        SpecJson::Null
    }

    /// Rebuilds the canonical JSON value of this section.
    pub fn to_json(&self) -> (r: JsonValue)
        ensures
            r@ == self.json_spec(),
    {
        JsonValue::Null
    }

    /// Accepts any folder and reads nothing from it.
    pub fn from_folder(dir: &Folder) -> (r: Result<Self, ParseError>)
        ensures
            r == Ok::<Media, ParseError>(Media),
    {
        Ok(Media)
    }
}

/// The personal-information section; nothing of it is read yet.
#[derive(Debug, PartialEq, Eq, Clone)]
pub struct Personal;

impl Personal {
    /// The canonical JSON of this section.
    pub open spec fn json_spec(&self) -> SpecJson {
        SpecJson::Null
    }

    /// Rebuilds the canonical JSON value of this section.
    pub fn to_json(&self) -> (r: JsonValue)
        ensures
            r@ == self.json_spec(),
    {
        JsonValue::Null
    }

    /// Accepts any folder and reads nothing from it.
    pub fn from_folder(dir: &Folder) -> (r: Result<Self, ParseError>)
        ensures
            r == Ok::<Personal, ParseError>(Personal),
    {
        Ok(Personal)
    }
}

/// The preferences section; nothing of it is read yet.
#[derive(Debug, PartialEq, Eq, Clone)]
pub struct Preferences;

impl Preferences {
    /// The canonical JSON of this section.
    pub open spec fn json_spec(&self) -> SpecJson {
        SpecJson::Null
    }

    /// Rebuilds the canonical JSON value of this section.
    pub fn to_json(&self) -> (r: JsonValue)
        ensures
            r@ == self.json_spec(),
    {
        JsonValue::Null
    }

    /// Accepts any folder and reads nothing from it.
    pub fn from_folder(dir: &Folder) -> (r: Result<Self, ParseError>)
        ensures
            r == Ok::<Preferences, ParseError>(Preferences),
    {
        Ok(Preferences)
    }
}

/// The security-and-login section; nothing of it is read yet.
#[derive(Debug, PartialEq, Eq, Clone)]
pub struct Security;

impl Security {
    /// The canonical JSON of this section.
    pub open spec fn json_spec(&self) -> SpecJson {
        SpecJson::Null
    }

    /// Rebuilds the canonical JSON value of this section.
    pub fn to_json(&self) -> (r: JsonValue)
        ensures
            r@ == self.json_spec(),
    {
        JsonValue::Null
    }

    /// Accepts any folder and reads nothing from it.
    pub fn from_folder(dir: &Folder) -> (r: Result<Self, ParseError>)
        ensures
            r == Ok::<Security, ParseError>(Security),
    {
        Ok(Security)
    }
}

/// The threads section of the activity area; not loaded yet, so its field in
/// the activity aggregate is always absent.
#[derive(Debug, PartialEq, Eq, Clone)]
pub struct Threads;

} // verus!
