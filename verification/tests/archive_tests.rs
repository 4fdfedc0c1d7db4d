//! End-to-end tests of the archive tree mapper: minimal valid archives,
//! closed-world failures, leaf schema failures, and the conversation index.

use social_parser::archive::InstagramArchive;
use social_parser::common::{DeserError, ParseError, StructuralIssue};
use social_parser::messages::Inbox;
use social_parser::tree::{DirEntry, Folder, Node};

fn file(name: &str, text: &str) -> DirEntry {
    DirEntry { name: name.to_string(), node: Node::File(text.to_string()) }
}

fn dir(name: &str, entries: Vec<DirEntry>) -> DirEntry {
    DirEntry { name: name.to_string(), node: Node::Dir(Folder { entries }) }
}

fn followers_two_records() -> String {
    let alice = "{\"title\": \"alice\", \"media_list_data\": [], \"string_list_data\": [{\"href\": \"https://example.test/alice\", \"value\": \"alice\", \"timestamp\": 5}]}";
    let bob = "{\"title\": \"bob\", \"media_list_data\": [], \"string_list_data\": [{\"href\": \"https://example.test/bob\", \"value\": \"bob\", \"timestamp\": 9}]}";
    format!("[{}, {}]", alice, bob)
}

fn minimal_followers_archive() -> Folder {
    Folder {
        entries: vec![dir(
            "connections",
            vec![dir(
                "followers_and_following",
                vec![file("followers_1.json", &followers_two_records())],
            )],
        )],
    }
}

#[test]
fn followers_archive_maps_exactly() {
    let root = minimal_followers_archive();
    let doc = InstagramArchive::from_folder(&root, &Vec::new()).unwrap();
    assert!(doc.media.is_none());
    assert!(doc.activity.is_none());
    let conn = doc.connections.as_ref().unwrap();
    assert!(conn.contacts.is_none());
    let ffn = conn.followers_n_following.as_ref().unwrap();
    assert!(ffn.favourite_accounts.is_none());
    assert!(ffn.blocked_accounts.is_none());
    assert!(ffn.close_friends.is_none());
    assert!(ffn.following.is_none());
    assert!(ffn.hide_story_from.is_none());
    assert!(ffn.pending_follow_requests.is_none());
    assert!(ffn.recent_follow_requests.is_none());
    assert!(ffn.recently_unfollowed.is_none());
    assert!(ffn.removed_suggestions.is_none());
    assert!(ffn.restricted_accounts.is_none());
    let followers = ffn.followers.as_ref().unwrap();
    assert_eq!(followers.0.len(), 2);
    assert_eq!(followers.0[0].title, "alice");
    assert_eq!(followers.0[0].string_list_data[0].href, "https://example.test/alice");
    assert_eq!(followers.0[0].string_list_data[0].value.as_deref(), Some("alice"));
    assert_eq!(followers.0[0].string_list_data[0].timestamp, 5);
    assert_eq!(followers.0[1].title, "bob");
    assert_eq!(followers.0[1].string_list_data[0].timestamp, 9);
}

#[test]
fn empty_root_maps_to_empty_document() {
    let root = Folder { entries: vec![] };
    let doc = InstagramArchive::from_folder(&root, &Vec::new()).unwrap();
    assert!(doc.connections.is_none());
    assert!(doc.media.is_none());
    assert!(doc.activity.is_none());
}

#[test]
fn unknown_root_entry_fails_with_its_path() {
    let root = Folder { entries: vec![dir("bogus", vec![])] };
    let err = InstagramArchive::from_folder(&root, &Vec::new()).unwrap_err();
    assert_eq!(
        err,
        ParseError::UnexpectedFormat {
            path: vec!["bogus".to_string()],
            issue: StructuralIssue::UnexpectedEntry,
        },
    );
}

#[test]
fn unknown_nested_entry_fails_with_full_path() {
    let root = Folder {
        entries: vec![dir("connections", vec![dir("unknown_area", vec![])])],
    };
    let err = InstagramArchive::from_folder(&root, &Vec::new()).unwrap_err();
    assert_eq!(
        err,
        ParseError::UnexpectedFormat {
            path: vec!["connections".to_string(), "unknown_area".to_string()],
            issue: StructuralIssue::UnexpectedEntry,
        },
    );
}

#[test]
fn file_at_root_fails_as_wrong_kind() {
    let root = Folder { entries: vec![file("stray.json", "{}")] };
    let err = InstagramArchive::from_folder(&root, &Vec::new()).unwrap_err();
    assert_eq!(
        err,
        ParseError::UnexpectedFormat {
            path: vec!["stray.json".to_string()],
            issue: StructuralIssue::ExpectedFolder,
        },
    );
}

#[test]
fn folder_among_leaf_files_fails_as_wrong_kind() {
    let root = Folder {
        entries: vec![dir(
            "connections",
            vec![dir("followers_and_following", vec![dir("oddity", vec![])])],
        )],
    };
    let err = InstagramArchive::from_folder(&root, &Vec::new()).unwrap_err();
    assert_eq!(
        err,
        ParseError::UnexpectedFormat {
            path: vec![
                "connections".to_string(),
                "followers_and_following".to_string(),
                "oddity".to_string(),
            ],
            issue: StructuralIssue::ExpectedFile,
        },
    );
}

#[test]
fn missing_required_key_fails_then_corrected_file_loads() {
    let broken = "[{\"media_list_data\": [], \"string_list_data\": []}]";
    let root = Folder {
        entries: vec![dir(
            "connections",
            vec![dir("followers_and_following", vec![file("followers_1.json", broken)])],
        )],
    };
    let err = InstagramArchive::from_folder(&root, &Vec::new()).unwrap_err();
    assert_eq!(
        err,
        ParseError::Deserialization {
            path: vec![
                "connections".to_string(),
                "followers_and_following".to_string(),
                "followers_1.json".to_string(),
            ],
            error: DeserError::MissingField("title".to_string()),
        },
    );
    let corrected = "[{\"title\": \"alice\", \"media_list_data\": [], \"string_list_data\": []}]";
    let root = Folder {
        entries: vec![dir(
            "connections",
            vec![dir("followers_and_following", vec![file("followers_1.json", corrected)])],
        )],
    };
    let doc = InstagramArchive::from_folder(&root, &Vec::new()).unwrap();
    let ffn = doc.connections.unwrap().followers_n_following.unwrap();
    assert_eq!(ffn.followers.unwrap().0[0].title, "alice");
}

#[test]
fn leaf_syntax_error_is_a_deserialization_failure() {
    let root = Folder {
        entries: vec![dir(
            "connections",
            vec![dir("followers_and_following", vec![file("followers_1.json", "not json")])],
        )],
    };
    let err = InstagramArchive::from_folder(&root, &Vec::new()).unwrap_err();
    assert_eq!(
        err,
        ParseError::Deserialization {
            path: vec![
                "connections".to_string(),
                "followers_and_following".to_string(),
                "followers_1.json".to_string(),
            ],
            error: DeserError::Syntax,
        },
    );
}

fn fragment(title: &str) -> String {
    let head = "{\"participants\": [{\"name\": \"ann\"}], \"messages\": [{\"sender_name\": \"ann\", \"timestamp_ms\": 1700000000000, \"content\": \"hi\", \"is_geoblocked_for_viewer\": false}]";
    let tail = "\"is_still_participant\": true, \"thread_path\": \"inbox/chat_123\", \"magic_words\": []}";
    format!("{}, \"title\": \"{}\", {}", head, title, tail)
}

#[test]
fn inbox_keeps_two_fragments_in_directory_order() {
    let inbox_folder = Folder {
        entries: vec![dir(
            "chat_123",
            vec![
                file("message_1.json", &fragment("first")),
                file("message_2.json", &fragment("second")),
            ],
        )],
    };
    let inbox = Inbox::from_folder(&inbox_folder, &vec![
        "your_instagram_activity".to_string(),
        "messages".to_string(),
        "inbox".to_string(),
    ])
    .unwrap();
    assert_eq!(inbox.0.len(), 1);
    assert_eq!(inbox.0[0].0, "chat_123");
    let fragments = &inbox.0[0].1;
    assert_eq!(fragments.len(), 2);
    assert_eq!(fragments[0].title, "first");
    assert_eq!(fragments[1].title, "second");
    assert_eq!(fragments[0].messages[0].content.as_deref(), Some("hi"));
}

#[test]
fn conversation_without_fragments_fails() {
    let inbox_folder = Folder {
        entries: vec![dir("chat_empty", vec![dir("photos", vec![])])],
    };
    let err = Inbox::from_folder(&inbox_folder, &vec!["inbox".to_string()]).unwrap_err();
    assert_eq!(
        err,
        ParseError::UnexpectedFormat {
            path: vec!["inbox".to_string(), "chat_empty".to_string()],
            issue: StructuralIssue::NoMessageFiles,
        },
    );
}

#[test]
fn messages_area_checks_entry_kinds() {
    let root = Folder {
        entries: vec![dir(
            "your_instagram_activity",
            vec![dir(
                "messages",
                vec![
                    file("reported_conversations.json", "ignored"),
                    dir("message_requests", vec![]),
                    dir("photos", vec![]),
                    dir("inbox", vec![]),
                ],
            )],
        )],
    };
    let doc = InstagramArchive::from_folder(&root, &Vec::new()).unwrap();
    let messages = doc.activity.unwrap().messages.unwrap();
    assert_eq!(messages.inbox.unwrap().0.len(), 0);

    let bad = Folder {
        entries: vec![dir(
            "your_instagram_activity",
            vec![dir("messages", vec![dir("reported_conversations.json", vec![])])],
        )],
    };
    let err = InstagramArchive::from_folder(&bad, &Vec::new()).unwrap_err();
    assert_eq!(
        err,
        ParseError::UnexpectedFormat {
            path: vec![
                "your_instagram_activity".to_string(),
                "messages".to_string(),
                "reported_conversations.json".to_string(),
            ],
            issue: StructuralIssue::ExpectedFile,
        },
    );
}

#[test]
fn ignored_root_areas_leave_no_trace() {
    let root = Folder {
        entries: vec![
            dir("ads_information", vec![]),
            dir("personal_information", vec![]),
            dir("preferences", vec![]),
            dir("security_and_login_information", vec![]),
            dir("media", vec![]),
        ],
    };
    let doc = InstagramArchive::from_folder(&root, &Vec::new()).unwrap();
    assert!(doc.connections.is_none());
    assert!(doc.activity.is_none());
    assert!(doc.media.is_some());
}
