use rustodon_worker::delivery::{
    FollowReply, RelationshipCheck, account_delete_delivery_is_current, account_update_delivery_job, follow_reply_route, delivery_failure_outcome, delivery_inbox_domain,
    parse_delivery_request, relationship_delivery_check, status_delivery_job,
};
use rustodon_worker::handler_arguments::QuoteRequestDistribution;
use rustodon_worker::keys::{account_update_delivery_logical_key, delete_delivery_logical_key, update_delivery_logical_key};
use rustodon_worker::quote::QuoteDeliveryKind;
use rustodon_worker::registry::Lane;
use rustodon_worker::status_update::StatusUpdateKind;
use rustodon_worker::failure::FailureDisposition;
use rustodon_worker::fetch_failure::RemoteFetchError;
use rustodon_worker::json::{JsonNumber, JsonValue};

fn s(text: &str) -> JsonValue {
    JsonValue::String(text.to_owned())
}

fn num(i: i64) -> JsonValue {
    JsonValue::Number(JsonNumber::Int(i))
}

fn obj(members: Vec<(&str, JsonValue)>) -> JsonValue {
    JsonValue::Object(members.into_iter().map(|(k, v)| (k.to_owned(), v)).collect())
}

fn update_job(body: JsonValue) -> JsonValue {
    obj(vec![
        ("status_id", num(7)),
        ("source_account_id", num(3)),
        ("inbox_url", s("https://remote.example/inbox")),
        ("body", body),
        ("edited_at_micros", num(10)),
        ("update_version_micros", num(10)),
        ("update_kind", s("status")),
        ("remote_domain", s("remote.example")),
    ])
}

#[test]
fn delivery_requests_read_the_job_and_its_activity() {
    let arguments = update_job(obj(vec![
        ("id", s("https://local.example/users/alice/statuses/7#updates/10")),
        ("type", s("Update")),
        ("published", s("1970-01-01T00:00:00.000010Z")),
    ]));
    let request = parse_delivery_request(&arguments).expect("a complete delivery");
    assert_eq!(request.status_id, Some(7));
    assert_eq!(request.source_account_id, 3);
    assert_eq!(request.inbox_url, "https://remote.example/inbox");
    assert!(request.quote_identity.is_none());
    assert_eq!(request.edited_at_micros, Some(10));
    assert_eq!(request.update_version_micros, Some(10));
    assert_eq!(request.update_kind.as_deref(), Some("status"));
    assert_eq!(request.published_version_micros, Some(10));
    assert_eq!(request.poll_updated_at_micros, None);
    assert_eq!(request.remote_domain.as_deref(), Some("remote.example"));
    assert_eq!(request.activity_type.as_deref(), Some("Update"));
    assert!(!request.is_delete);
    assert!(!request.is_undo_announce);
}

#[test]
fn delivery_requests_recognize_deletes_and_undone_announces() {
    let delete = parse_delivery_request(&update_job(obj(vec![("type", s("Delete"))]))).expect("delete");
    assert!(delete.is_delete);
    let undo = parse_delivery_request(&update_job(obj(vec![
        ("type", s("Undo")),
        ("object", obj(vec![("type", s("Announce"))])),
    ])))
    .expect("undo");
    assert!(undo.is_undo_announce);
    assert!(!undo.is_delete);
    let unparsable_time =
        parse_delivery_request(&update_job(obj(vec![("published", s("yesterday"))]))).expect("time is optional");
    assert_eq!(unparsable_time.published_version_micros, None);
}

#[test]
fn undeliverable_jobs_fail_permanently() {
    let message = |arguments: JsonValue| {
        let failure = parse_delivery_request(&arguments).expect_err("undeliverable");
        assert_eq!(failure.disposition, FailureDisposition::Permanent);
        failure.message
    };
    assert_eq!(message(obj(vec![])), "delivery job is missing its source account");
    assert_eq!(message(obj(vec![("source_account_id", num(3))])), "delivery job is missing its inbox URL");
    assert_eq!(
        message(obj(vec![("source_account_id", num(3)), ("inbox_url", s("https://r.example/inbox"))])),
        "delivery job is missing its activity"
    );
    assert_eq!(
        message(obj(vec![
            ("source_account_id", num(3)),
            ("inbox_url", s("https://r.example/inbox")),
            ("body", s("Update")),
        ])),
        "delivery job activity must be a JSON object"
    );
    assert_eq!(
        message(obj(vec![
            ("source_account_id", num(3)),
            ("inbox_url", s("https://r.example/inbox")),
            ("body", obj(vec![("type", s("Update"))])),
            ("quote_delivery_kind", s("request")),
        ])),
        "quote delivery metadata does not match its activity"
    );
}

#[test]
fn inbox_domains_are_lower_case_hosts() {
    assert_eq!(delivery_inbox_domain("https://Remote.Example:8443/inbox").unwrap(), "remote.example");
    assert_eq!(delivery_inbox_domain("not a url").expect_err("invalid").message, "delivery inbox URL is invalid");
    assert_eq!(
        delivery_inbox_domain("mailto:alice@remote.example").expect_err("no host").message,
        "delivery inbox URL has no host"
    );
}

#[test]
fn retried_delivery_failures_cool_down_the_domain_unless_the_budget_ran_out() {
    let (failure, record) = delivery_failure_outcome(&RemoteFetchError::UnexpectedStatus(503), false);
    assert_eq!(failure.disposition, FailureDisposition::Retry);
    assert!(record);
    let (failure, record) = delivery_failure_outcome(&RemoteFetchError::DomainBudgetExceeded, false);
    assert_eq!(failure.disposition, FailureDisposition::Retry);
    assert!(!record);
    let (failure, record) = delivery_failure_outcome(&RemoteFetchError::UnexpectedStatus(410), false);
    assert_eq!(failure.disposition, FailureDisposition::Permanent);
    assert!(!record);
}

#[test]
fn follows_and_blocks_are_delivered_only_while_they_exist() {
    let follow = obj(vec![("type", s("Follow")), ("id", s("https://local.example/follows/1"))]);
    assert!(matches!(relationship_delivery_check(&follow), RelationshipCheck::Follow(uri) if uri == "https://local.example/follows/1"));
    let block = obj(vec![("type", s("Block")), ("id", s("https://local.example/blocks/1"))]);
    assert!(matches!(relationship_delivery_check(&block), RelationshipCheck::Block(uri) if uri == "https://local.example/blocks/1"));
    assert!(matches!(relationship_delivery_check(&obj(vec![("type", s("Follow"))])), RelationshipCheck::Unchecked));
    assert!(matches!(
        relationship_delivery_check(&obj(vec![("type", s("Like")), ("id", s("x"))])),
        RelationshipCheck::Unchecked
    ));
}

#[test]
fn account_update_deliveries_read_back_as_distributed() {
    let body = obj(vec![("type", s("Update")), ("id", s("https://local.example/users/alice#updates/5"))]);
    let job = account_update_delivery_job(
        3,
        "https://remote.example/inbox",
        "remote.example",
        body,
        "https://local.example/users/alice#updates/5",
        5,
    );
    assert_eq!(job.lane, Lane::Push);
    assert_eq!(job.kind, "rustodon.activitypub.deliver");
    let key = account_update_delivery_logical_key(
        3,
        "https://local.example/users/alice#updates/5",
        5,
        "https://remote.example/inbox",
    );
    assert_eq!(job.logical_key_value(), Some(key.as_str()));
    let request = parse_delivery_request(job.arguments()).expect("a deliverable job");
    assert_eq!(request.source_account_id, 3);
    assert_eq!(request.inbox_url, "https://remote.example/inbox");
    assert_eq!(request.remote_domain.as_deref(), Some("remote.example"));
    assert_eq!(request.updated_at_micros, Some(5));
    assert_eq!(request.status_id, None);
    assert_eq!(job.arguments().member_str("activity_type"), Some("AccountUpdate"));
}

#[test]
fn status_update_deliveries_read_back_as_distributed() {
    let activity_id = "https://local.example/users/alice/statuses/7#updates/20";
    let body = obj(vec![("type", s("Update")), ("id", s(activity_id))]);
    let job = status_delivery_job(
        "Update",
        7,
        3,
        "https://remote.example/inbox",
        "remote.example",
        body,
        activity_id,
        StatusUpdateKind::Poll,
        Some(20),
        Some(10),
        Some(20),
        None,
        None,
    );
    let key = update_delivery_logical_key(7, activity_id, 20, "https://remote.example/inbox");
    assert_eq!(job.logical_key_value(), Some(key.as_str()));
    let request = parse_delivery_request(job.arguments()).expect("a deliverable job");
    assert_eq!(request.status_id, Some(7));
    assert_eq!(request.update_kind.as_deref(), Some("poll"));
    assert_eq!(request.update_version_micros, Some(20));
    assert_eq!(request.edited_at_micros, Some(10));
    assert_eq!(request.poll_updated_at_micros, Some(20));
    assert_eq!(request.quote_updated_at_micros, None);
    assert!(request.quote_identity.is_none());
}

#[test]
fn status_deletes_and_quote_requests_are_keyed_per_inbox() {
    let delete = status_delivery_job(
        "Delete",
        7,
        3,
        "https://remote.example/inbox",
        "remote.example",
        obj(vec![("type", s("Delete"))]),
        "https://local.example/users/alice/statuses/7#delete",
        StatusUpdateKind::Status,
        None,
        None,
        None,
        None,
        None,
    );
    let key = delete_delivery_logical_key(7, "https://remote.example/inbox");
    assert_eq!(delete.logical_key_value(), Some(key.as_str()));
    assert!(delete.arguments().get("update_kind").is_some_and(JsonValue::is_null));

    let quote = QuoteRequestDistribution {
        quote_id: 4,
        request_uri: "https://local.example/quote_requests/4".to_owned(),
        quoted_status_id: 2,
        quoted_status_uri: "https://remote.example/statuses/2".to_owned(),
        quoted_status_url: "https://remote.example/@bob/2".to_owned(),
        quoted_account_id: 9,
    };
    let body = obj(vec![
        ("type", s("QuoteRequest")),
        ("id", s("https://local.example/quote_requests/4")),
        ("object", s("https://remote.example/statuses/2")),
    ]);
    let job = status_delivery_job(
        "QuoteRequest",
        7,
        3,
        "https://remote.example/inbox",
        "remote.example",
        body,
        "https://local.example/quote_requests/4",
        StatusUpdateKind::Status,
        None,
        None,
        None,
        None,
        Some(&quote),
    );
    assert_eq!(
        job.logical_key_value(),
        Some("activitypub:quote-request:https://local.example/quote_requests/4:https://remote.example/inbox")
    );
    let request = parse_delivery_request(job.arguments()).expect("a deliverable quote request");
    let identity = request.quote_identity.expect("a quote delivery");
    assert_eq!(identity.kind, QuoteDeliveryKind::Request);
    assert_eq!(identity.request_uri, "https://local.example/quote_requests/4");
    assert_eq!(identity.quote_id, Some(4));
    assert_eq!(identity.quoting_status_id, Some(7));
    assert_eq!(identity.quoted_status_id, 2);
}

#[test]
fn follow_answers_go_to_the_followers_personal_inbox_first() {
    assert_eq!(
        follow_reply_route(FollowReply::Accept, Some("remote.example"), true, "https://remote.example/users/a/inbox", "https://remote.example/inbox")
            .unwrap(),
        ("https://remote.example/users/a/inbox".to_owned(), "remote.example".to_owned())
    );
    assert_eq!(
        follow_reply_route(FollowReply::Reject, Some("remote.example"), true, "", "https://remote.example/inbox").unwrap(),
        ("https://remote.example/inbox".to_owned(), "remote.example".to_owned())
    );
    assert_eq!(
        follow_reply_route(FollowReply::Accept, Some("remote.example"), true, "", "").expect_err("no inbox").message,
        "remote Follow source has no inbox"
    );
    assert_eq!(
        follow_reply_route(FollowReply::Accept, None, true, "a", "b").expect_err("local follower").message,
        "remote Follow acceptance accounts are not local/remote"
    );
    assert_eq!(
        follow_reply_route(FollowReply::Reject, Some("remote.example"), false, "a", "b").expect_err("remote target").message,
        "remote Follow rejection accounts are not local/remote"
    );
}

#[test]
fn account_deletion_is_delivered_only_for_a_suspended_local_account() {
    assert!(account_delete_delivery_is_current(Some((None, Some(1_700_000_000_000_000)))));
    assert!(!account_delete_delivery_is_current(Some((None, None))));
    assert!(!account_delete_delivery_is_current(Some((Some("remote.example"), Some(1)))));
    assert!(!account_delete_delivery_is_current(None));
}
