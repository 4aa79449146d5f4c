use rustodon_worker::json::{JsonNumber, JsonValue};
use rustodon_worker::keys::{announce_resolution_logical_key, note_resolution_logical_key};
use rustodon_worker::registry::Lane;
use rustodon_worker::resolution::parse_delivery_target_account_id;
use rustodon_worker::resolution_jobs::{
    announce_resolution_job, note_resolution_job, parse_announce_resolution_request,
    parse_note_resolution_request,
};

fn s(text: &str) -> JsonValue {
    JsonValue::String(text.to_owned())
}

fn obj(members: Vec<(&str, JsonValue)>) -> JsonValue {
    JsonValue::Object(members.into_iter().map(|(k, v)| (k.to_owned(), v)).collect())
}

fn strings(items: &[&str]) -> Vec<String> {
    items.iter().map(|item| (*item).to_owned()).collect()
}

#[test]
fn scheduled_note_resolutions_read_back_as_scheduled() {
    let to = strings(&["https://www.w3.org/ns/activitystreams#Public"]);
    let cc = strings(&["https://remote.example/users/alice/followers"]);
    let create = obj(vec![("type", s("Create")), ("id", s("https://remote.example/activities/1"))]);
    let job = note_resolution_job(
        4,
        "https://remote.example/activities/1",
        "https://remote.example/users/alice",
        "https://remote.example/statuses/1",
        &to,
        &cc,
        Some(9),
        create,
    );
    assert_eq!(job.lane, Lane::Pull);
    assert_eq!(job.kind, "rustodon.activitypub.resolve_note");
    assert_eq!(job.max_attempts, None);
    let expected_key = note_resolution_logical_key(
        4,
        "https://remote.example/users/alice",
        "https://remote.example/statuses/1",
        Some(9),
    );
    assert_eq!(job.logical_key_value(), Some(expected_key.as_str()));
    let request = parse_note_resolution_request(job.arguments()).expect("a complete job");
    assert_eq!(request.source_account_id, 4);
    assert_eq!(request.activity_uri, "https://remote.example/activities/1");
    assert_eq!(request.actor_uri, "https://remote.example/users/alice");
    assert_eq!(request.object_uri, "https://remote.example/statuses/1");
    assert_eq!(request.activity.member_str("type"), Some("Create"));
    assert_eq!(parse_delivery_target_account_id(job.arguments()).unwrap(), Some(9));
}

#[test]
fn note_resolution_jobs_name_what_they_miss() {
    let message = |arguments: JsonValue| {
        parse_note_resolution_request(&arguments).err().expect("incomplete").message
    };
    assert_eq!(message(obj(vec![])), "Note resolution job is missing its source");
    let source = || ("source_account_id", JsonValue::Number(JsonNumber::Int(1)));
    assert_eq!(message(obj(vec![source()])), "Note resolution job is missing its activity");
    assert_eq!(
        message(obj(vec![source(), ("activity_uri", s("a")), ("actor_uri", s("b")), ("object_uri", s("c"))])),
        "Note resolution job is missing its payload"
    );
}

#[test]
fn scheduled_announce_resolutions_read_back_as_scheduled() {
    let to = strings(&["https://www.w3.org/ns/activitystreams#Public"]);
    let cc: Vec<String> = Vec::new();
    let job = announce_resolution_job(
        4,
        "https://remote.example/users/bob",
        "https://remote.example/activities/boost",
        "https://remote.example/statuses/1",
        &to,
        &cc,
        Some("2024-01-01T00:00:00Z"),
        None,
    );
    assert_eq!(job.lane, Lane::Pull);
    assert_eq!(job.kind, "rustodon.activitypub.resolve_announce");
    assert_eq!(job.max_attempts, Some(4));
    let expected_key = announce_resolution_logical_key("https://remote.example/activities/boost");
    assert_eq!(job.logical_key_value(), Some(expected_key.as_str()));
    let request = parse_announce_resolution_request(job.arguments()).expect("a complete job");
    assert_eq!(request.source_account_id, 4);
    assert_eq!(request.actor_uri, "https://remote.example/users/bob");
    assert_eq!(request.activity_uri, "https://remote.example/activities/boost");
    assert_eq!(request.object_uri, "https://remote.example/statuses/1");
    assert_eq!(request.to, to);
    assert!(request.cc.is_empty());
    assert_eq!(request.published_at, Some("2024-01-01T00:00:00Z"));
    assert_eq!(request.delivery_target_account_id, None);
}

#[test]
fn announce_resolutions_refuse_blank_audiences() {
    let job = announce_resolution_job(4, "a", "b", "c", &strings(&["  "]), &[], None, Some(2));
    assert_eq!(
        parse_announce_resolution_request(job.arguments()).expect_err("blank audience").message,
        "remote Announce resolution audience contains an invalid URI"
    );
    assert_eq!(
        parse_announce_resolution_request(&obj(vec![])).expect_err("empty").message,
        "Announce resolution job is missing its source"
    );
}
