use rustodon_worker::cleanup::{
    account_purge_cleanup_paths, account_purge_deletion_created_at, account_purge_deletion_request_id,
    paperclip_cleanup_paths, safe_cleanup_path,
};
use rustodon_worker::failure::FailureDisposition;
use rustodon_worker::json::{JsonNumber, JsonValue};
use rustodon_worker::order::{Precedence, compare_text};

fn s(text: &str) -> JsonValue {
    JsonValue::String(text.to_owned())
}

fn num(i: i64) -> JsonValue {
    JsonValue::Number(JsonNumber::Int(i))
}

fn obj(members: Vec<(&str, JsonValue)>) -> JsonValue {
    JsonValue::Object(members.into_iter().map(|(k, v)| (k.to_owned(), v)).collect())
}

#[test]
fn account_purge_cleanup_manifest_is_validated_and_deduplicated() {
    let arguments = obj(vec![(
        "cleanup_paths",
        JsonValue::Array(vec![
            s("media_attachments/files/000/000/007/original/file.png"),
            s("media_attachments/files/000/000/007/original/file.png"),
            s("accounts/avatars/000/000/007/original/avatar.png"),
        ]),
    )]);
    assert_eq!(
        account_purge_cleanup_paths(&arguments).unwrap(),
        Some(vec![
            "accounts/avatars/000/000/007/original/avatar.png".to_owned(),
            "media_attachments/files/000/000/007/original/file.png".to_owned(),
        ])
    );
    assert_eq!(account_purge_cleanup_paths(&obj(vec![])).unwrap(), None);
    assert!(safe_cleanup_path("accounts/avatars/000/original/avatar.png"));
    assert!(!safe_cleanup_path("../outside"));
    assert!(!safe_cleanup_path("/outside"));
    assert!(!safe_cleanup_path("accounts/avatars/\0avatar.png"));
}

#[test]
fn cleanup_manifests_reject_unsafe_or_mistyped_entries() {
    let manifest = |items: Vec<JsonValue>| obj(vec![("cleanup_paths", JsonValue::Array(items))]);
    let unsafe_path = account_purge_cleanup_paths(&manifest(vec![s("a/b"), s("a/../../etc")]))
        .expect_err("climbing paths are refused");
    assert_eq!(unsafe_path.disposition, FailureDisposition::Permanent);
    assert_eq!(unsafe_path.message, "account purge cleanup path is invalid");
    assert_eq!(
        account_purge_cleanup_paths(&manifest(vec![num(1)])).expect_err("numbers").message,
        "account purge cleanup paths must be strings"
    );
    assert_eq!(
        account_purge_cleanup_paths(&obj(vec![("cleanup_paths", s("a"))])).expect_err("not an array").message,
        "account purge cleanup paths must be a JSON array"
    );
    assert_eq!(account_purge_cleanup_paths(&manifest(vec![])).unwrap(), Some(vec![]));
}

#[test]
fn cleanup_paths_follow_unix_component_rules() {
    assert!(safe_cleanup_path("a/./b"));
    assert!(safe_cleanup_path("a//b/"));
    assert!(safe_cleanup_path("a/..b"));
    assert!(!safe_cleanup_path(""));
    assert!(!safe_cleanup_path("./a"));
    assert!(!safe_cleanup_path("a/.."));
    assert!(!safe_cleanup_path("a\\b"));
    assert!(!safe_cleanup_path("a/\u{85}b"));
    assert!(!safe_cleanup_path("./"));
}

#[test]
fn account_purge_request_ids_and_times_are_validated() {
    assert_eq!(account_purge_deletion_request_id(&obj(vec![])).unwrap(), None);
    assert_eq!(account_purge_deletion_request_id(&obj(vec![("deletion_request_id", num(9))])).unwrap(), Some(9));
    assert_eq!(
        account_purge_deletion_request_id(&obj(vec![("deletion_request_id", num(0))])).expect_err("zero").message,
        "account purge request ID is invalid"
    );
    assert_eq!(
        account_purge_deletion_request_id(&obj(vec![("deletion_request_id", s("9"))])).expect_err("text").message,
        "account purge request ID must be an integer"
    );
    let created = account_purge_deletion_created_at(&obj(vec![("deletion_created_at_micros", num(1_700_000_000_000_000))]))
        .unwrap()
        .expect("present");
    assert_eq!(created.micros(), 1_700_000_000_000_000);
    assert!(account_purge_deletion_created_at(&obj(vec![])).unwrap().is_none());
    assert_eq!(
        account_purge_deletion_created_at(&obj(vec![("deletion_created_at_micros", num(i64::MAX))]))
            .expect_err("out of chrono's range")
            .message,
        "account purge deletion timestamp is invalid"
    );
}

#[test]
fn texts_compare_by_unicode_scalar_values() {
    assert!(matches!(compare_text("a", "b"), Precedence::Before));
    assert!(matches!(compare_text("b", "a"), Precedence::After));
    assert!(matches!(compare_text("ab", "ab"), Precedence::Same));
    assert!(matches!(compare_text("a", "ab"), Precedence::Before));
    assert!(matches!(compare_text("Z", "a"), Precedence::Before));
}

#[test]
fn stored_attachment_styles_are_removed_once_in_sorted_order() {
    let styles = vec![
        Some("media/2/original/b.png".to_owned()),
        Some("media/2/small/b.png".to_owned()),
        None,
        Some("media/1/original/a.png".to_owned()),
        Some("media/2/small/b.png".to_owned()),
    ];
    assert_eq!(
        paperclip_cleanup_paths(&styles),
        vec!["media/1/original/a.png".to_owned(), "media/2/original/b.png".to_owned(), "media/2/small/b.png".to_owned()]
    );
    assert!(paperclip_cleanup_paths(&vec![None, None]).is_empty());
}
