use rustodon_worker::failure::FailureDisposition;
use rustodon_worker::handler_arguments::{
    account_delete_request, account_update_request, mute_expiry_request, poll_expiration_request,
    status_distribution_request, status_notification_request,
};
use rustodon_worker::json::{JsonNumber, JsonValue};

fn s(text: &str) -> JsonValue {
    JsonValue::String(text.to_owned())
}

fn num(i: i64) -> JsonValue {
    JsonValue::Number(JsonNumber::Int(i))
}

fn obj(members: Vec<(&str, JsonValue)>) -> JsonValue {
    JsonValue::Object(members.into_iter().map(|(k, v)| (k.to_owned(), v)).collect())
}

#[test]
fn single_id_jobs_need_their_id() {
    assert_eq!(status_notification_request(&obj(vec![("status_id", num(5))])).unwrap(), 5);
    let failure = status_notification_request(&obj(vec![])).expect_err("missing");
    assert_eq!(failure.disposition, FailureDisposition::Permanent);
    assert_eq!(failure.message, "status notification job is missing its status ID");
    assert_eq!(mute_expiry_request(&obj(vec![("mute_id", num(2))])).unwrap(), 2);
    assert_eq!(
        mute_expiry_request(&obj(vec![("mute_id", s("2"))])).expect_err("text").message,
        "mute expiry job is missing its mute ID"
    );
}

#[test]
fn poll_expiration_jobs_name_a_positive_poll_and_its_generation() {
    assert_eq!(
        poll_expiration_request(&obj(vec![("poll_id", num(3)), ("expires_at_micros", num(99))])).unwrap(),
        (3, 99)
    );
    assert_eq!(
        poll_expiration_request(&obj(vec![("poll_id", num(0)), ("expires_at_micros", num(99))])).expect_err("zero").message,
        "poll expiration job poll ID is invalid"
    );
    assert_eq!(
        poll_expiration_request(&obj(vec![("poll_id", num(3))])).expect_err("no generation").message,
        "poll expiration job generation is missing or invalid"
    );
    assert_eq!(
        poll_expiration_request(&obj(vec![])).expect_err("no poll").message,
        "poll expiration job is missing its poll ID"
    );
}

#[test]
fn account_distribution_jobs_name_the_account() {
    assert_eq!(
        account_update_request(&obj(vec![("account_id", num(1)), ("updated_at_micros", num(2))])).unwrap(),
        (1, 2)
    );
    assert_eq!(
        account_update_request(&obj(vec![("account_id", num(1))])).expect_err("no time").message,
        "account update job is missing its timestamp"
    );
    assert_eq!(
        account_delete_request(&obj(vec![("account_id", num(1)), ("actor_uri", s("https://local.example/users/a"))]))
            .unwrap(),
        (1, "https://local.example/users/a")
    );
    assert_eq!(
        account_delete_request(&obj(vec![("actor_uri", s("x"))])).expect_err("no account").message,
        "account deletion job is missing its account ID"
    );
}

#[test]
fn status_distribution_jobs_default_to_create() {
    let request = status_distribution_request(&obj(vec![
        ("status_id", num(7)),
        ("recipient_account_ids", JsonValue::Array(vec![num(3), num(4)])),
        ("edited_at_micros", num(10)),
        ("update_kind", s("status")),
    ]))
    .unwrap();
    assert_eq!(request.status_id, 7);
    assert_eq!(request.activity_type, "Create");
    assert_eq!(request.recipient_account_ids, vec![3, 4]);
    assert_eq!(request.edited_at_micros, Some(10));
    assert_eq!(request.update_kind.as_deref(), Some("status"));
    assert!(request.quote_request.is_none());
}

#[test]
fn quote_request_distributions_carry_the_complete_quote() {
    let complete = || {
        vec![
            ("status_id", num(7)),
            ("activity_type", s("QuoteRequest")),
            ("quote_id", num(4)),
            ("quote_request_uri", s("https://local.example/quote_requests/4")),
            ("quoted_status_id", num(2)),
            ("quoted_status_uri", s("https://remote.example/statuses/2")),
            ("quoted_status_url", s("https://remote.example/@bob/2")),
            ("quoted_account_id", num(9)),
        ]
    };
    let request = status_distribution_request(&obj(complete())).unwrap();
    let quote = request.quote_request.expect("a QuoteRequest carries its quote");
    assert_eq!(quote.quote_id, 4);
    assert_eq!(quote.request_uri, "https://local.example/quote_requests/4");
    assert_eq!(quote.quoted_status_id, 2);
    assert_eq!(quote.quoted_account_id, 9);

    let mut blank_uri = complete();
    blank_uri[3] = ("quote_request_uri", s(""));
    assert_eq!(
        status_distribution_request(&obj(blank_uri)).expect_err("blank URI").message,
        "quote-request distribution is missing its request URI"
    );
    let mut missing_account = complete();
    missing_account.pop();
    assert_eq!(
        status_distribution_request(&obj(missing_account)).expect_err("no account").message,
        "quote-request distribution is missing its target account"
    );
}

#[test]
fn explicit_recipients_must_be_integers() {
    assert_eq!(
        status_distribution_request(&obj(vec![("status_id", num(7)), ("recipient_account_ids", s("3"))]))
            .expect_err("not an array")
            .message,
        "status distribution recipient account IDs are invalid"
    );
    assert_eq!(
        status_distribution_request(&obj(vec![
            ("status_id", num(7)),
            ("recipient_account_ids", JsonValue::Array(vec![num(3), s("4")])),
        ]))
        .expect_err("not an integer")
        .message,
        "status distribution recipient account ID is invalid"
    );
    assert_eq!(
        status_distribution_request(&obj(vec![])).expect_err("no status").message,
        "status distribution job is missing its status ID"
    );
}
