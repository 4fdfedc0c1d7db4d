//! A verified mapper for a social platform's personal-data export archive.
//!
//! The export is a nested directory tree of JSON files.  The library walks an
//! in-memory copy of that tree, matches every entry against the expected
//! layout, deserializes the terminal JSON files into typed records, and
//! assembles one strongly typed archive document that can be re-serialized.
//! Any entry or field the layout does not explain is a fatal error.

pub mod activity;
pub mod archive;
pub mod comments;
pub mod common;
pub mod connections;
pub mod contacts;
pub mod followersnfollowing;
pub mod json;
pub mod json_parse;
pub mod json_text;
pub mod likes;
pub mod loader;
pub mod messages;
pub mod record;
pub mod schema;
pub mod saved;
pub mod sections;
pub mod shared;
pub mod tree;
