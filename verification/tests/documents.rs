use rustodon_worker::documents::{
    RemoteAnnounceTarget, quote_request_instrument_target_uri, remote_announce_document, remote_note_document,
    resolved_create_note,
};
use rustodon_worker::failure::FailureDisposition;
use rustodon_worker::json::JsonValue;
use rustodon_worker::resolution::validate_create_binding;

fn s(text: &str) -> JsonValue {
    JsonValue::String(text.to_owned())
}

fn arr(items: Vec<JsonValue>) -> JsonValue {
    JsonValue::Array(items)
}

fn obj(members: Vec<(&str, JsonValue)>) -> JsonValue {
    JsonValue::Object(members.into_iter().map(|(k, v)| (k.to_owned(), v)).collect())
}

/// Test double for the application's Note validation: a Note is valid for the author its
/// `attributedTo` names.
fn attributed_to(author: &str, note: &JsonValue) -> bool {
    note.member_str("attributedTo") == Some(author)
}

fn instrument(id: &str, kind: &str, author: &str, quote: Option<JsonValue>) -> JsonValue {
    let mut members = vec![
        ("id", s(id)),
        ("type", s(kind)),
        ("attributedTo", s(author)),
        ("content", s(if quote.is_some() { "a quote" } else { "not a quote" })),
    ];
    if let Some(quote) = quote {
        members.push(("quote", quote));
    }
    obj(members)
}

#[test]
fn quote_request_instrument_requires_exact_bindings() {
    let actor_uri = "https://remote.example/users/alice";
    let instrument_uri = "https://remote.example/statuses/9";
    let target_uri = "https://local.example/users/bob/statuses/7";
    let valid = instrument(instrument_uri, "Note", actor_uri, Some(s(target_uri)));
    assert_eq!(
        quote_request_instrument_target_uri(&valid, actor_uri, instrument_uri, &attributed_to)
            .expect("the exact Note should be accepted"),
        target_uri
    );
    let question = obj(vec![
        ("id", s(instrument_uri)),
        ("type", s("Question")),
        ("attributedTo", s(actor_uri)),
        ("content", s("a quote")),
        ("quoteUri", obj(vec![("id", s(target_uri))])),
    ]);
    assert_eq!(
        quote_request_instrument_target_uri(&question, actor_uri, instrument_uri, &attributed_to)
            .expect("Question and quote aliases should be accepted"),
        target_uri
    );

    for invalid in [
        s(instrument_uri),
        instrument(instrument_uri, "Article", actor_uri, Some(s(target_uri))),
        instrument("https://remote.example/statuses/other", "Note", actor_uri, Some(s(target_uri))),
        instrument(instrument_uri, "Note", "https://remote.example/users/mallory", Some(s(target_uri))),
        instrument(instrument_uri, "Note", actor_uri, None),
        instrument(instrument_uri, "Note", actor_uri, Some(obj(vec![("type", s("Tombstone"))]))),
        instrument(instrument_uri, "Note", actor_uri, Some(s("file:///tmp/status"))),
    ] {
        assert_eq!(
            quote_request_instrument_target_uri(&invalid, actor_uri, instrument_uri, &attributed_to)
                .expect_err("invalid QuoteRequest instruments must fail permanently")
                .disposition,
            FailureDisposition::Permanent
        );
    }
}

#[test]
fn quote_request_instrument_failures_name_the_broken_binding() {
    let actor_uri = "https://remote.example/users/alice";
    let instrument_uri = "https://remote.example/statuses/9";
    let target = || Some(s("https://local.example/statuses/7"));
    let message = |value: &JsonValue| {
        quote_request_instrument_target_uri(value, actor_uri, instrument_uri, &attributed_to)
            .expect_err("invalid")
            .message
    };
    assert_eq!(message(&s(instrument_uri)), "QuoteRequest instrument is not an embedded object");
    assert_eq!(
        message(&instrument(instrument_uri, "Article", actor_uri, target())),
        "QuoteRequest instrument is not a Note or Question"
    );
    assert_eq!(
        message(&instrument("https://remote.example/statuses/8", "Note", actor_uri, target())),
        "QuoteRequest instrument ID does not match the requested URI"
    );
    assert_eq!(
        message(&instrument(instrument_uri, "Note", "https://remote.example/users/mallory", target())),
        "QuoteRequest instrument is not a valid Note"
    );
    assert_eq!(
        message(&instrument(instrument_uri, "Note", actor_uri, None)),
        "QuoteRequest instrument has no valid quote target"
    );
}

#[test]
fn remote_create_wrapper_keeps_activity_and_note_uris_distinct() {
    let note_uri = "https://remote.example/users/alice/statuses/1";
    let create_uri = "https://remote.example/activities/1";
    let document = obj(vec![
        ("id", s(create_uri)),
        ("type", arr(vec![s("Create")])),
        ("actor", s("https://remote.example/users/alice")),
        (
            "object",
            obj(vec![
                ("id", s(note_uri)),
                ("type", arr(vec![s("Question")])),
                ("attributedTo", s("https://remote.example/users/alice")),
                ("content", s("hello")),
                ("oneOf", arr(vec![obj(vec![("type", s("Note")), ("name", s("Tea"))])])),
            ]),
        ),
    ]);
    let (object, actor_uri, target_uri) =
        remote_note_document(&document, create_uri, &attributed_to).expect("valid Create wrapper");
    assert_eq!(object.member_str("id"), Some(note_uri));
    assert_eq!(actor_uri, "https://remote.example/users/alice");
    assert_eq!(target_uri, note_uri);
}

#[test]
fn fetched_wrappers_reject_cross_origin_actor_provenance() {
    for wrapper_type in ["Create", "Announce"] {
        for fetched_uri in [
            "https://evil.example/activities/1",
            "http://remote.example/activities/1",
            "https://remote.example:8443/activities/1",
        ] {
            let document = obj(vec![
                ("id", s(fetched_uri)),
                ("type", s(wrapper_type)),
                ("actor", s("https://remote.example/users/alice")),
                (
                    "object",
                    obj(vec![
                        ("id", s("https://remote.example/users/alice/statuses/1")),
                        ("type", s("Note")),
                        ("attributedTo", s("https://remote.example/users/alice")),
                        ("content", s("forged")),
                    ]),
                ),
            ]);
            assert!(
                remote_announce_document(&document, fetched_uri, &attributed_to).is_err(),
                "{wrapper_type} must not authenticate a different origin: {fetched_uri}"
            );
        }
    }
}

#[test]
fn resolved_create_note_accepts_cross_host_activity_with_origin_bound_object() {
    let activity_uri = "https://relay.example/activities/1";
    let actor_uri = "https://remote.example/users/alice";
    let object_uri = "https://remote.example/statuses/1";
    let valid = obj(vec![
        ("id", s(object_uri)),
        ("type", arr(vec![s("Question")])),
        ("attributedTo", s(actor_uri)),
        ("content", s("hello")),
        ("oneOf", arr(vec![obj(vec![("type", s("Note")), ("name", s("Tea"))])])),
    ]);
    assert!(resolved_create_note(&valid, activity_uri, actor_uri, object_uri, &attributed_to).is_ok());
}

#[test]
fn create_binding_rejects_cross_host_object_spoofing() {
    assert_eq!(
        validate_create_binding(
            "https://relay.example/activities/1",
            "https://remote.example/users/alice",
            "https://attacker.example/statuses/1",
        )
        .expect_err("the dereferenced object must remain on the actor origin")
        .disposition,
        FailureDisposition::Permanent
    );
}

#[test]
fn resolved_create_note_rejects_spoofed_logical_identity_actor_and_type() {
    let activity_uri = "https://relay.example/activities/1";
    let actor_uri = "https://remote.example/users/alice";
    let object_uri = "https://remote.example/statuses/1";
    let note = |id: &str, kind: &str, author: &str| {
        obj(vec![("id", s(id)), ("type", s(kind)), ("attributedTo", s(author)), ("content", s("hello"))])
    };

    for spoofed in [
        note("https://remote.example/statuses/2", "Note", actor_uri),
        note(object_uri, "Note", "https://remote.example/users/mallory"),
        note(object_uri, "Article", actor_uri),
        obj(vec![
            ("id", s(activity_uri)),
            ("type", s("Create")),
            ("actor", s(actor_uri)),
            ("object", note(object_uri, "Note", actor_uri)),
        ]),
    ] {
        assert_eq!(
            resolved_create_note(&spoofed, activity_uri, actor_uri, object_uri, &attributed_to)
                .expect_err("spoofed Notes must fail permanently")
                .disposition,
            FailureDisposition::Permanent
        );
    }
}

#[test]
fn remote_nested_announce_document_dereferences_cross_author_target() {
    let announce_uri = "https://remote.example/activities/boost";
    let note_uri = "https://remote.example/users/alice/statuses/1";
    let document = obj(vec![
        ("id", s(announce_uri)),
        ("type", s("Announce")),
        ("actor", s("https://remote.example/users/bob")),
        (
            "object",
            obj(vec![
                ("id", s(note_uri)),
                ("type", s("Note")),
                ("attributedTo", s("https://remote.example/users/alice")),
                ("content", s("hello")),
            ]),
        ),
        ("to", arr(vec![s("https://www.w3.org/ns/activitystreams#Public")])),
    ]);
    let RemoteAnnounceTarget::Announce { activity_uri, actor_uri, object_uri, embedded_note, to, .. } =
        remote_announce_document(&document, announce_uri, &attributed_to).expect("valid nested Announce")
    else {
        panic!("expected nested Announce");
    };
    assert_eq!(activity_uri, announce_uri);
    assert_eq!(actor_uri, "https://remote.example/users/bob");
    assert_eq!(object_uri, note_uri);
    assert!(embedded_note.is_none());
    assert_eq!(to, ["https://www.w3.org/ns/activitystreams#Public"]);
}

#[test]
fn nested_self_boost_embeds_its_valid_note() {
    let announce_uri = "https://remote.example/activities/boost";
    let note_uri = "https://remote.example/users/bob/statuses/1";
    let document = obj(vec![
        ("id", s(announce_uri)),
        ("type", s("Announce")),
        ("actor", s("https://remote.example/users/bob")),
        (
            "object",
            obj(vec![
                ("id", s(note_uri)),
                ("type", s("Note")),
                ("attributedTo", s("https://remote.example/users/bob")),
            ]),
        ),
        ("cc", s("https://remote.example/users/bob/followers")),
        ("published", s("2024-01-01T00:00:00Z")),
    ]);
    let RemoteAnnounceTarget::Announce { embedded_note, cc, published_at, .. } =
        remote_announce_document(&document, announce_uri, &attributed_to).expect("valid self-boost")
    else {
        panic!("expected nested Announce");
    };
    assert_eq!(embedded_note.and_then(|note| note.member_str("id")), Some(note_uri));
    assert_eq!(cc, ["https://remote.example/users/bob/followers"]);
    assert_eq!(published_at, Some("2024-01-01T00:00:00Z"));

    let rejected = remote_announce_document(&document, announce_uri, &|_: &str, _: &JsonValue| false)
        .expect("an invalid embedded Note is resolved by URI");
    let RemoteAnnounceTarget::Announce { embedded_note, .. } = rejected else {
        panic!("expected nested Announce");
    };
    assert!(embedded_note.is_none());
}

#[test]
fn nested_announce_rejects_a_non_string_published_time() {
    let announce_uri = "https://remote.example/activities/boost";
    let document = obj(vec![
        ("id", s(announce_uri)),
        ("type", s("Announce")),
        ("actor", s("https://remote.example/users/bob")),
        ("object", s("https://remote.example/users/alice/statuses/1")),
        ("published", JsonValue::Null),
    ]);
    let failure = remote_announce_document(&document, announce_uri, &attributed_to).expect_err("invalid time");
    assert_eq!(failure.message, "remote nested Announce timestamp is invalid");
    assert_eq!(failure.disposition, FailureDisposition::Permanent);
}

#[test]
fn announce_target_note_must_be_valid_and_bound_to_its_uri() {
    let note_uri = "https://remote.example/users/alice/statuses/1";
    let note = obj(vec![
        ("id", s(note_uri)),
        ("type", s("Note")),
        ("attributedTo", s("https://remote.example/users/alice")),
    ]);
    let RemoteAnnounceTarget::Note { object, actor_uri, status_uri } =
        remote_announce_document(&note, note_uri, &attributed_to).expect("a Note target")
    else {
        panic!("expected a Note");
    };
    assert_eq!(object.member_str("id"), Some(note_uri));
    assert_eq!(actor_uri, "https://remote.example/users/alice");
    assert_eq!(status_uri, note_uri);
    assert_eq!(
        remote_note_document(&note, note_uri, &|_: &str, _: &JsonValue| false).expect_err("invalid").message,
        "remote Announce target Note is invalid"
    );
    assert_eq!(
        remote_note_document(&note, "https://remote.example/users/alice/statuses/2", &attributed_to)
            .expect_err("wrong URI")
            .message,
        "remote Announce target ID does not match the requested URI"
    );
    assert_eq!(
        remote_note_document(&s(note_uri), note_uri, &attributed_to).expect_err("not a Note").message,
        "remote Announce target is not a Note, Question, or Create"
    );
}
