use rustodon_worker::json::{JsonNumber, JsonValue};
use rustodon_worker::quote::{
    QuoteDeliveryKind, QuoteDeliveryTarget, activitypub_quote_parts, quote_decision_allows_follow_fallback,
    quote_body_uri, quote_delivery_identity, quote_reference, rails_blank, remote_note_quote_fetch_references, remote_uri_value,
};

fn s(text: &str) -> JsonValue {
    JsonValue::String(text.to_owned())
}

fn num(i: i64) -> JsonValue {
    JsonValue::Number(JsonNumber::Int(i))
}

fn obj(members: Vec<(&str, JsonValue)>) -> JsonValue {
    JsonValue::Object(members.into_iter().map(|(k, v)| (k.to_owned(), v)).collect())
}

fn quote_request(request_uri: &str) -> JsonValue {
    obj(vec![
        ("id", s(request_uri)),
        ("type", s("QuoteRequest")),
        ("actor", s("https://local.example/users/alice")),
        ("object", s("https://remote.example/statuses/2")),
        ("instrument", obj(vec![("id", s("https://local.example/statuses/3"))])),
    ])
}

fn quote_arguments(kind: &str, request_uri: &str) -> JsonValue {
    obj(vec![
        ("quote_delivery_kind", s(kind)),
        ("quote_request_uri", s(request_uri)),
        ("quote_id", num(4)),
        ("quoting_status_id", num(3)),
        ("quoted_status_id", num(2)),
    ])
}

#[test]
fn quote_fetch_references_do_not_require_authorization() {
    let references = remote_note_quote_fetch_references(&obj(vec![
        ("id", s("https://remote.example/statuses/9")),
        ("quote", s("https://target.example/statuses/7")),
    ]))
    .expect("the quote target should be retained");

    assert_eq!(references.target_uri, "https://target.example/statuses/7");
    assert!(references.approval_uri.is_none());
    for tombstone in [
        obj(vec![("quote", obj(vec![("type", s("Tombstone"))]))]),
        obj(vec![(
            "quote",
            obj(vec![
                ("id", s("https://target.example/statuses/deleted")),
                ("type", s("Tombstone")),
            ]),
        )]),
    ] {
        assert!(
            remote_note_quote_fetch_references(&tombstone).is_none(),
            "quoted Tombstones must reconcile as removal without dereference"
        );
    }
}

#[test]
fn quote_delivery_metadata_binds_the_original_request() {
    let request_uri = "https://remote.example/quote_requests/1";
    let request = quote_request(request_uri);
    let request_arguments = quote_arguments("request", request_uri);
    let identity = quote_delivery_identity(&request_arguments, &request)
        .expect("metadata should parse")
        .expect("QuoteRequest is a quote delivery");
    assert_eq!(identity.kind, QuoteDeliveryKind::Request);
    assert_eq!(identity.quote_id, Some(4));

    for (kind, activity_type, result) in [
        ("accept", "Accept", Some("https://local.example/authorizations/4")),
        ("reject", "Reject", None),
    ] {
        let mut members = vec![
            ("type", s(activity_type)),
            ("actor", s("https://local.example/users/bob")),
            ("object", quote_request(request_uri)),
        ];
        if let Some(result) = result {
            members.push(("result", s(result)));
        }
        let body = obj(members);
        let arguments = quote_arguments(kind, request_uri);
        let identity = quote_delivery_identity(&arguments, &body)
            .expect("metadata should parse")
            .expect("decision is a quote delivery");
        assert_eq!(
            identity.kind,
            if kind == "accept" { QuoteDeliveryKind::Accept } else { QuoteDeliveryKind::Reject }
        );
    }

    assert!(quote_delivery_identity(&obj(vec![]), &request).is_err());
    let contradictory = quote_arguments("request", "https://remote.example/quote_requests/other");
    assert!(quote_delivery_identity(&contradictory, &request).is_err());
}

#[test]
fn quote_reference_uses_uri_when_remote_status_has_no_web_url() {
    assert_eq!(
        quote_reference(None, Some("https://remote.example/objects/quote")),
        Some("https://remote.example/objects/quote".to_owned())
    );
    assert_eq!(
        quote_reference(Some("  "), Some("https://remote.example/objects/quote")),
        Some("https://remote.example/objects/quote".to_owned())
    );
    assert_eq!(
        quote_reference(Some("https://remote.example/@alice/1"), Some("https://remote.example/objects/quote")),
        Some("https://remote.example/@alice/1".to_owned())
    );
}

#[test]
fn only_uri_only_quote_accepts_may_fall_back_to_follow_decisions() {
    assert!(quote_decision_allows_follow_fallback(true, None, None, None));
    assert!(!quote_decision_allows_follow_fallback(false, None, None, None));
    assert!(!quote_decision_allows_follow_fallback(
        true,
        Some("https://remote.example/users/alice"),
        None,
        None,
    ));
    assert!(!quote_decision_allows_follow_fallback(
        true,
        None,
        Some("https://local.example/statuses/1"),
        None,
    ));
}

#[test]
fn quote_decisions_naming_an_instrument_are_not_follow_decisions() {
    assert!(!quote_decision_allows_follow_fallback(
        true,
        None,
        None,
        Some("https://remote.example/statuses/9"),
    ));
}

#[test]
fn quote_reference_skips_blank_references() {
    assert_eq!(quote_reference(Some("\t\n"), Some(" ")), None);
    assert_eq!(quote_reference(None, None), None);
    assert!(rails_blank(""));
    assert!(rails_blank(" \u{3000}\t"));
    assert!(!rails_blank(" a "));
}

#[test]
fn quote_fetch_references_read_aliases_and_authorization() {
    let references = remote_note_quote_fetch_references(&obj(vec![
        ("quoteUri", obj(vec![("id", s("https://target.example/statuses/8"))])),
        ("quoteAuthorization", s("https://target.example/authorizations/1")),
    ]))
    .expect("the alias names the target");
    assert_eq!(references.target_uri, "https://target.example/statuses/8");
    assert_eq!(references.approval_uri.as_deref(), Some("https://target.example/authorizations/1"));
    assert!(remote_note_quote_fetch_references(&obj(vec![("quote", s("file:///tmp/status"))])).is_none());
    assert!(remote_note_quote_fetch_references(&s("https://target.example/statuses/8")).is_none());
}

#[test]
fn remote_uri_values_read_strings_objects_and_first_items() {
    let items = JsonValue::Array(vec![obj(vec![("id", s("https://a.example/1"))]), s("https://b.example/2")]);
    assert_eq!(remote_uri_value(Some(&items)), Some("https://a.example/1"));
    assert_eq!(remote_uri_value(Some(&s("x"))), Some("x"));
    assert_eq!(remote_uri_value(Some(&JsonValue::Array(vec![]))), None);
    assert_eq!(remote_uri_value(None), None);
}

#[test]
fn quote_parts_use_local_forms_for_local_targets() {
    let local = QuoteDeliveryTarget {
        local: true,
        url: None,
        uri: None,
        accepted: true,
        quoted_account_local: true,
        approval_uri: None,
    };
    assert_eq!(
        activitypub_quote_parts(
            Some(&local),
            "https://local.example/@bob/7",
            "https://local.example/users/bob/statuses/7",
            "https://local.example/users/bob/quote_authorizations/4",
        ),
        (
            Some("https://local.example/@bob/7".to_owned()),
            Some("https://local.example/users/bob/statuses/7".to_owned()),
            Some("https://local.example/users/bob/quote_authorizations/4".to_owned()),
        )
    );
    assert_eq!(activitypub_quote_parts(None, "a", "b", "c"), (None, None, None));
}

#[test]
fn quote_parts_of_remote_targets_keep_only_present_approvals() {
    let remote = QuoteDeliveryTarget {
        local: false,
        url: Some(" ".to_owned()),
        uri: Some("https://remote.example/objects/7".to_owned()),
        accepted: true,
        quoted_account_local: false,
        approval_uri: Some("  ".to_owned()),
    };
    assert_eq!(
        activitypub_quote_parts(Some(&remote), "unused", "unused", "unused"),
        (
            Some("https://remote.example/objects/7".to_owned()),
            Some("https://remote.example/objects/7".to_owned()),
            None,
        )
    );
    let pending = QuoteDeliveryTarget {
        local: false,
        url: Some("https://remote.example/@carol/7".to_owned()),
        uri: None,
        accepted: false,
        quoted_account_local: false,
        approval_uri: Some("https://remote.example/approvals/1".to_owned()),
    };
    assert_eq!(
        activitypub_quote_parts(Some(&pending), "unused", "unused", "unused"),
        (
            Some("https://remote.example/@carol/7".to_owned()),
            Some("https://remote.example/@carol/7".to_owned()),
            None,
        )
    );
}

#[test]
fn quote_body_uri_reads_a_nonempty_reference() {
    assert_eq!(quote_body_uri(Some(&s("https://target.example/statuses/7"))), Some("https://target.example/statuses/7"));
    assert_eq!(
        quote_body_uri(Some(&obj(vec![("id", s("https://target.example/statuses/8"))]))),
        Some("https://target.example/statuses/8")
    );
    assert_eq!(quote_body_uri(Some(&s(""))), None);
    assert_eq!(quote_body_uri(Some(&num(3))), None);
    assert_eq!(quote_body_uri(None), None);
}
