use rustodon_worker::failure::FailureDisposition;
use rustodon_worker::json::{JsonNumber, JsonValue};
use rustodon_worker::resolution::{
    RemotePollVoteOutcome, actor_domain_binding, known_signer_binding, note_fetch_audience, resolved_signer_binding, parse_delivery_target_account_id, preferred_note_fetch_signer_id,
    remote_announce_audience, remote_poll_vote_allows_note_fallback, validate_create_binding,
    validate_fetched_activity_actor,
};
use rustodon_worker::uri::{equal_ignoring_ascii_case, http_url_with_host, same_url_origin};

fn s(text: &str) -> JsonValue {
    JsonValue::String(text.to_owned())
}

fn obj(members: Vec<(&str, JsonValue)>) -> JsonValue {
    JsonValue::Object(members.into_iter().map(|(k, v)| (k.to_owned(), v)).collect())
}

#[test]
fn rejected_poll_votes_never_fall_back_to_ordinary_notes() {
    assert!(!remote_poll_vote_allows_note_fallback(RemotePollVoteOutcome::Consumed));
    assert!(remote_poll_vote_allows_note_fallback(RemotePollVoteOutcome::NotPollVote));
}

#[test]
fn note_fetch_signer_priority_matches_mastodon() {
    assert_eq!(preferred_note_fetch_signer_id(Some(1), Some(2), Some(3)), Some(1));
    assert_eq!(preferred_note_fetch_signer_id(None, Some(2), Some(3)), Some(2));
    assert_eq!(preferred_note_fetch_signer_id(None, None, Some(3)), Some(3));
    assert_eq!(preferred_note_fetch_signer_id(None, None, None), None);
}

#[test]
fn note_fetch_signer_considers_shared_inbox_outer_audience_in_order() {
    let to = vec!["https://local.example/users/first".to_owned(), "https://local.example/users/second".to_owned()];
    let cc = vec!["https://local.example/users/third".to_owned()];

    assert_eq!(note_fetch_audience(&to, &cc), vec![&to[0], &to[1], &cc[0]]);
}

#[test]
fn delivery_targets_are_optional_integers() {
    assert_eq!(parse_delivery_target_account_id(&obj(vec![])).unwrap(), None);
    assert_eq!(parse_delivery_target_account_id(&obj(vec![("delivery_target_account_id", JsonValue::Null)])).unwrap(), None);
    assert_eq!(
        parse_delivery_target_account_id(&obj(vec![("delivery_target_account_id", JsonValue::Number(JsonNumber::Int(5)))]))
            .unwrap(),
        Some(5)
    );
    let failure = parse_delivery_target_account_id(&obj(vec![("delivery_target_account_id", s("5"))]))
        .expect_err("text is not an account ID");
    assert_eq!(failure.disposition, FailureDisposition::Permanent);
    assert_eq!(failure.message, "Note resolution delivery target is invalid");
}

#[test]
fn announce_audiences_read_single_values_arrays_and_null() {
    let arguments = obj(vec![
        ("to", s("https://a.example/1")),
        ("cc", JsonValue::Array(vec![s("https://b.example/1"), obj(vec![("id", s("https://c.example/1"))])])),
        ("bto", JsonValue::Null),
        ("bcc", JsonValue::Array(vec![s(" ")])),
    ]);
    assert_eq!(remote_announce_audience(&arguments, "to").unwrap(), vec!["https://a.example/1".to_owned()]);
    assert_eq!(
        remote_announce_audience(&arguments, "cc").unwrap(),
        vec!["https://b.example/1".to_owned(), "https://c.example/1".to_owned()]
    );
    assert!(remote_announce_audience(&arguments, "bto").unwrap().is_empty());
    assert!(remote_announce_audience(&arguments, "audience").unwrap().is_empty());
    assert_eq!(
        remote_announce_audience(&arguments, "bcc").expect_err("blank").message,
        "remote Announce resolution audience contains an invalid URI"
    );
    let crowd = obj(vec![("to", JsonValue::Array((0..101).map(|i| s(&format!("https://a.example/{i}"))).collect()))]);
    assert_eq!(
        remote_announce_audience(&crowd, "to").expect_err("too many").message,
        "remote Announce resolution audience is too large"
    );
}

#[test]
fn create_bindings_compare_hosts_ignoring_case() {
    assert!(validate_create_binding(
        "https://relay.example/activities/1",
        "https://Remote.Example/users/alice",
        "https://remote.example/statuses/1",
    )
    .is_ok());
    assert_eq!(
        validate_create_binding("not a url", "https://remote.example/users/alice", "https://remote.example/s/1")
            .expect_err("invalid activity")
            .message,
        "remote Create activity URI is invalid"
    );
    assert_eq!(
        validate_create_binding(
            "https://relay.example/activities/1",
            "https://remote.example/users/alice",
            "https://attacker.example/statuses/1",
        )
        .expect_err("spoofed host")
        .message,
        "remote Create actor and object hosts do not match"
    );
}

#[test]
fn fetched_activities_must_share_their_actor_origin() {
    assert!(validate_fetched_activity_actor(
        "https://remote.example/activities/1",
        "https://remote.example/users/alice",
    )
    .is_ok());
    assert!(validate_fetched_activity_actor(
        "https://remote.example:8443/activities/1",
        "https://remote.example/users/alice",
    )
    .is_err());
    assert!(same_url_origin("https://remote.example:443/a", "https://remote.example/b"));
    assert!(!same_url_origin("http://remote.example/a", "https://remote.example/b"));
    assert!(!same_url_origin("not a url", "not a url"));
}

#[test]
fn http_urls_need_a_host() {
    assert!(http_url_with_host("https://remote.example/statuses/1"));
    assert!(!http_url_with_host("file:///tmp/status"));
    assert!(!http_url_with_host("mailto:alice@example.com"));
    assert!(equal_ignoring_ascii_case("Remote.EXAMPLE", "remote.example"));
    assert!(!equal_ignoring_ascii_case("remote.example", "remote.example."));
}

#[test]
fn inbox_actors_must_be_bound_to_the_verified_signer() {
    assert!(actor_domain_binding(Some("Remote.Example"), "remote.example").is_ok());
    assert_eq!(
        actor_domain_binding(Some("evil.example"), "remote.example").expect_err("other domain").message,
        "remote inbox actor domain does not match the verified signer"
    );
    assert!(actor_domain_binding(None, "remote.example").is_err());
    let actor = "https://remote.example/users/alice";
    assert!(known_signer_binding(Some("REMOTE.example"), actor, "remote.example", actor).is_ok());
    assert_eq!(
        known_signer_binding(Some("remote.example"), "https://remote.example/users/bob", "remote.example", actor)
            .expect_err("another actor")
            .message,
        "remote inbox actor does not match the verified signer"
    );
    assert!(known_signer_binding(None, actor, "remote.example", actor).is_err());
    assert!(resolved_signer_binding("remote.example", actor, "Remote.Example", actor).is_ok());
    assert_eq!(
        resolved_signer_binding("other.example", actor, "remote.example", actor).expect_err("other domain").message,
        "resolved remote actor does not match the verified signer"
    );
}
