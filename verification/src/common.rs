//! The error taxonomy of the mapper.  Every error is fatal: the first one
//! found during the depth-first walk aborts the whole load.
//!
//! Errors are structured values.  A path is the list of entry names from the
//! archive root down to the offending entry, so that callers across any
//! boundary can inspect it without parsing a message.

use vstd::prelude::*;

verus! {

/// What a leaf file's deserialization found wrong.
#[derive(Debug, PartialEq, Eq, Clone)]
pub enum DeserError {
    /// The content is not well-formed JSON (integer numbers only).
    Syntax,
    /// A value that had to be a JSON object is not one.
    NotAnObject,
    /// A value that had to be a JSON array is not one.
    NotAnArray,
    /// The named field appears more than once.
    DuplicateField(String),
    /// The named field is not part of the schema.
    UnknownField(String),
    /// The named required field is absent.
    MissingField(String),
    /// The named field holds a value of the wrong shape.
    WrongType(String),
    /// No variant of a sum-typed leaf matched; the variant names attempted,
    /// in trial order.
    NoVariantMatched(Vec<String>),
}

/// The mathematical model of a `DeserError`.
pub enum SpecDeserError {
    Syntax,
    NotAnObject,
    NotAnArray,
    DuplicateField(Seq<char>),
    UnknownField(Seq<char>),
    MissingField(Seq<char>),
    WrongType(Seq<char>),
    NoVariantMatched(Seq<Seq<char>>),
}

impl View for DeserError {
    type V = SpecDeserError;

    open spec fn view(&self) -> SpecDeserError {
        match self {
            DeserError::Syntax => SpecDeserError::Syntax,
            DeserError::NotAnObject => SpecDeserError::NotAnObject,
            DeserError::NotAnArray => SpecDeserError::NotAnArray,
            DeserError::DuplicateField(s) => SpecDeserError::DuplicateField(s@),
            DeserError::UnknownField(s) => SpecDeserError::UnknownField(s@),
            DeserError::MissingField(s) => SpecDeserError::MissingField(s@),
            DeserError::WrongType(s) => SpecDeserError::WrongType(s@),
            DeserError::NoVariantMatched(v) => SpecDeserError::NoVariantMatched(v.deep_view()),
        }
    }
}

/// The filesystem kind an entry turned out not to have.
#[derive(Debug, PartialEq, Eq, Structural, Clone, Copy)]
pub enum StructuralIssue {
    /// The entry's name is not in the expected-entries table of its level.
    UnexpectedEntry,
    /// The entry had to be a file and is a directory.
    ExpectedFile,
    /// The entry had to be a directory and is a file.
    ExpectedFolder,
    /// A conversation folder holds no message-fragment file.
    NoMessageFiles,
}

/// A fatal mapping error: either the tree's shape is wrong, or a leaf file's
/// content is.
#[derive(Debug, PartialEq, Eq, Clone)]
pub enum ParseError {
    /// The tree's shape does not match the schema; the path names the entry
    /// from the archive root down.
    UnexpectedFormat { path: Vec<String>, issue: StructuralIssue },
    /// A leaf file's content does not match its schema; the path names the
    /// file from the archive root down.
    Deserialization { path: Vec<String>, error: DeserError },
}

/// The mathematical model of a `ParseError`.
pub enum SpecParseError {
    UnexpectedFormat { path: Seq<Seq<char>>, issue: StructuralIssue },
    Deserialization { path: Seq<Seq<char>>, error: SpecDeserError },
}

impl View for ParseError {
    type V = SpecParseError;

    open spec fn view(&self) -> SpecParseError {
        match self {
            ParseError::UnexpectedFormat { path, issue } => SpecParseError::UnexpectedFormat {
                path: path.deep_view(),
                issue: *issue,
            },
            ParseError::Deserialization { path, error } => SpecParseError::Deserialization {
                path: path.deep_view(),
                error: error@,
            },
        }
    }
}

} // verus!
