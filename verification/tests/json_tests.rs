//! Tests of the JSON layer and the leaf-record schemas: the parser's edge
//! cases, the writer's exact format, the serialize/deserialize round trip
//! cross-checked with ordinary JSON parsing, and sum-typed disambiguation.

use social_parser::archive::InstagramArchive;
use social_parser::common::DeserError;
use social_parser::json::JsonValue;
use social_parser::json_parse::parse_json;
use social_parser::json_text::write_json;
use social_parser::record::JsonRecord;
use social_parser::saved::SavedCollectionData;
use social_parser::shared::Value;
use social_parser::tree::{DirEntry, Folder, Node};

fn file(name: &str, text: &str) -> DirEntry {
    DirEntry { name: name.to_string(), node: Node::File(text.to_string()) }
}

fn dir(name: &str, entries: Vec<DirEntry>) -> DirEntry {
    DirEntry { name: name.to_string(), node: Node::Dir(Folder { entries }) }
}

#[test]
fn parser_reads_the_value_kinds() {
    assert_eq!(parse_json("null"), Some(JsonValue::Null));
    assert_eq!(parse_json(" true "), Some(JsonValue::Bool(true)));
    assert_eq!(parse_json("false"), Some(JsonValue::Bool(false)));
    assert_eq!(parse_json("42"), Some(JsonValue::UInt(42)));
    assert_eq!(parse_json("-7"), Some(JsonValue::Int(-7)));
    assert_eq!(parse_json("\"hi\""), Some(JsonValue::Str("hi".to_string())));
    assert_eq!(parse_json(" [ ] "), Some(JsonValue::Arr(vec![])));
    assert_eq!(parse_json("{}"), Some(JsonValue::Obj(vec![])));
    assert_eq!(
        parse_json("[1, \"a\"]"),
        Some(JsonValue::Arr(vec![JsonValue::UInt(1), JsonValue::Str("a".to_string())])),
    );
    assert_eq!(
        parse_json("{\"k\": null}"),
        Some(JsonValue::Obj(vec![("k".to_string(), JsonValue::Null)])),
    );
}

#[test]
fn parser_handles_integer_bounds() {
    assert_eq!(
        parse_json("18446744073709551615"),
        Some(JsonValue::UInt(18446744073709551615)),
    );
    assert_eq!(parse_json("18446744073709551616"), None);
    assert_eq!(
        parse_json("-9223372036854775808"),
        Some(JsonValue::Int(-9223372036854775808)),
    );
    assert_eq!(parse_json("-9223372036854775809"), None);
    assert_eq!(parse_json("01"), None);
    assert_eq!(parse_json("1.5"), None);
    assert_eq!(parse_json("1e3"), None);
}

#[test]
fn parser_unescapes_strings() {
    assert_eq!(
        parse_json("\"a\\nb\\t\\\"c\\\\d\\/e\""),
        Some(JsonValue::Str("a\nb\t\"c\\d/e".to_string())),
    );
    assert_eq!(parse_json("\"\\u0041\""), Some(JsonValue::Str("A".to_string())));
    assert_eq!(
        parse_json("\"\\ud83d\\ude00\""),
        Some(JsonValue::Str("\u{1f600}".to_string())),
    );
    assert_eq!(parse_json("\"\\ud83d\""), None);
    assert_eq!(parse_json("\"\u{1}\""), None);
    assert_eq!(parse_json("\"unterminated"), None);
}

#[test]
fn writer_prints_the_documented_format() {
    let v = JsonValue::Obj(vec![
        ("a".to_string(), JsonValue::UInt(1)),
        (
            "b".to_string(),
            JsonValue::Arr(vec![JsonValue::Null, JsonValue::Bool(true)]),
        ),
        ("c".to_string(), JsonValue::Str("x\ny".to_string())),
    ]);
    assert_eq!(
        write_json(&v),
        "{\n  \"a\": 1,\n  \"b\": [\n    null,\n    true\n  ],\n  \"c\": \"x\\ny\"\n}",
    );
    assert_eq!(write_json(&JsonValue::Arr(vec![])), "[]");
    assert_eq!(write_json(&JsonValue::Int(-3)), "-3");
}

fn rich_archive() -> Folder {
    let followers = "[{\"title\": \"alice\", \"media_list_data\": [], \"string_list_data\": [{\"href\": \"https://example.test/a\", \"value\": \"alice\", \"timestamp\": 5}]}]";
    let liked = "{\"likes_media_likes\": [{\"title\": \"bob\", \"string_list_data\": [{\"href\": \"https://example.test/p\", \"value\": null, \"timestamp\": 44}]}]}";
    Folder {
        entries: vec![
            dir(
                "connections",
                vec![dir("followers_and_following", vec![file("followers_1.json", followers)])],
            ),
            dir(
                "your_instagram_activity",
                vec![dir("likes", vec![file("liked_posts.json", liked)])],
            ),
        ],
    }
}

#[test]
fn document_round_trips_through_its_own_text() {
    let doc = InstagramArchive::from_folder(&rich_archive(), &Vec::new()).unwrap();
    let text = doc.write_document();
    let reread = parse_json(&text).expect("the writer's output parses");
    let rewritten = write_json(&reread);
    assert_eq!(text, rewritten);
}

#[test]
fn document_text_is_ordinary_json() {
    let doc = InstagramArchive::from_folder(&rich_archive(), &Vec::new()).unwrap();
    let text = doc.write_document();
    let v: serde_json::Value = serde_json::from_str(&text).expect("ordinary JSON parsing");
    assert_eq!(
        v["connections"]["followers_n_following"]["followers"][0]["title"],
        serde_json::Value::String("alice".to_string()),
    );
    assert_eq!(
        v["connections"]["followers_n_following"]["followers"][0]["string_list_data"][0]
            ["timestamp"],
        serde_json::Value::Number(serde_json::Number::from(5u64)),
    );
    assert_eq!(
        v["activity"]["likes"]["likes_media_likes"][0]["string_list_data"][0]["value"],
        serde_json::Value::Null,
    );
    assert_eq!(v["media"], serde_json::Value::Null);
    assert_eq!(v["activity"]["threads"], serde_json::Value::Null);
    assert_eq!(v["activity"]["comments"], serde_json::Value::Null);
}

#[test]
fn escaped_strings_survive_the_round_trip() {
    let v = JsonValue::Arr(vec![JsonValue::Str("line\nquote\"back\\slash\u{7}end".to_string())]);
    let text = write_json(&v);
    assert_eq!(parse_json(&text), Some(v));
    let ordinary: serde_json::Value = serde_json::from_str(&text).unwrap();
    assert_eq!(
        ordinary[0],
        serde_json::Value::String("line\nquote\"back\\slash\u{7}end".to_string()),
    );
}

#[test]
fn album_shape_is_classified_as_album() {
    let text = "{\"title\": \"trips\", \"string_map_data\": {\"Name\": {\"value\": \"trips\"}, \"Creation Time\": {\"timestamp\": 11}, \"Update Time\": {\"timestamp\": 22}}}";
    let v = parse_json(text).unwrap();
    match SavedCollectionData::from_json(&v).unwrap() {
        SavedCollectionData::Album(album) => {
            assert_eq!(album.title, "trips");
            assert_eq!(album.string_map_data.creation_time.timestamp, 11);
            assert_eq!(album.string_map_data.update_time.timestamp, 22);
        },
        SavedCollectionData::Entry(_) => panic!("album shape classified as plain entry"),
    }
}

#[test]
fn entry_shape_is_classified_as_entry() {
    let text = "{\"string_map_data\": {\"Name\": {\"href\": \"https://example.test/x\", \"value\": \"x\"}, \"Added Time\": {\"timestamp\": 33}}}";
    let v = parse_json(text).unwrap();
    match SavedCollectionData::from_json(&v).unwrap() {
        SavedCollectionData::Entry(entry) => {
            assert_eq!(entry.string_map_data.added_time.timestamp, 33);
            assert_eq!(entry.string_map_data.name.href, "https://example.test/x");
        },
        SavedCollectionData::Album(_) => panic!("plain entry shape classified as album"),
    }
}

#[test]
fn neither_shape_lists_both_attempted_variants() {
    let v = parse_json("{\"string_map_data\": {}}").unwrap();
    let err = SavedCollectionData::from_json(&v).unwrap_err();
    assert_eq!(
        err,
        DeserError::NoVariantMatched(vec!["Album".to_string(), "Entry".to_string()]),
    );
}

#[test]
fn schema_rejects_unknown_extra_and_duplicate_fields() {
    let v = parse_json("{\"value\": \"a\", \"extra\": 1}").unwrap();
    assert_eq!(
        Value::from_json(&v).unwrap_err(),
        DeserError::UnknownField("extra".to_string()),
    );
    let v = parse_json("{\"value\": \"a\", \"value\": \"b\"}").unwrap();
    assert_eq!(
        Value::from_json(&v).unwrap_err(),
        DeserError::DuplicateField("value".to_string()),
    );
    let v = parse_json("{\"value\": 3}").unwrap();
    assert_eq!(
        Value::from_json(&v).unwrap_err(),
        DeserError::WrongType("value".to_string()),
    );
    let v = parse_json("7").unwrap();
    assert_eq!(Value::from_json(&v).unwrap_err(), DeserError::NotAnObject);
    let v = parse_json("{}").unwrap();
    assert_eq!(
        Value::from_json(&v).unwrap_err(),
        DeserError::MissingField("value".to_string()),
    );
}

#[test]
fn record_rebuilds_its_canonical_json() {
    let v = parse_json("{\"value\": \"a\"}").unwrap();
    let rec = Value::from_json(&v).unwrap();
    assert_eq!(rec.to_json(), v);
    assert_eq!(write_json(&rec.to_json()), "{\n  \"value\": \"a\"\n}");
}
