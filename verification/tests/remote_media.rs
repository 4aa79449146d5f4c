use rustodon_worker::failure::{FailureDisposition, HandlerFailure};
use rustodon_worker::json::{JsonNumber, JsonValue};
use rustodon_worker::media::{
    remote_media_attempt_failure, remote_media_content_type, remote_media_fetch_plan, remote_media_job_id,
};
use rustodon_worker::resolution::{remote_refresh_domain, remote_refresh_target};

#[test]
fn remote_media_fetches_only_what_it_must() {
    let id = JsonValue::Object(vec![("media_id".to_owned(), JsonValue::Number(JsonNumber::Int(5)))]);
    assert_eq!(remote_media_job_id(&id).expect("id"), 5);
    assert_eq!(
        remote_media_job_id(&JsonValue::Object(vec![])).expect_err("no id").message,
        "media job is missing its media ID"
    );
    assert!(remote_media_fetch_plan("", false, Some("remote.example")).expect("nothing").is_none());
    assert!(remote_media_fetch_plan("https://m.example/a.png", true, None).expect("nothing").is_none());
    let invalid = remote_media_fetch_plan("not a url", false, Some("remote.example")).expect_err("invalid");
    assert_eq!(invalid.disposition, FailureDisposition::Permanent);
    assert_eq!(invalid.message, "remote media URL is invalid");
    assert_eq!(
        remote_media_fetch_plan("https://m.example/a.png", false, None).expect_err("no domain").message,
        "remote media account has no domain"
    );
    let parts = remote_media_fetch_plan("https://m.example/a.png", false, Some("remote.example"))
        .expect("fetch")
        .expect("a URL");
    assert_eq!(parts.scheme, "https");
    assert_eq!(parts.host.as_deref(), Some("m.example"));
    assert_eq!(parts.port, Some(443));
}

#[test]
fn a_retryable_media_failure_on_the_last_attempt_becomes_permanent() {
    let retry = HandlerFailure::retry("remote media fetch failed");
    let last = remote_media_attempt_failure(&retry, 5, 5);
    assert_eq!(last.disposition, FailureDisposition::Permanent);
    assert_eq!(last.message, "remote media retries were exhausted");
    let early = remote_media_attempt_failure(&retry, 2, 5);
    assert_eq!(early.disposition, FailureDisposition::Retry);
    assert_eq!(early.message, "remote media fetch failed");
    let permanent = HandlerFailure::permanent("remote media is too large");
    let kept = remote_media_attempt_failure(&permanent, 5, 5);
    assert_eq!(kept.disposition, FailureDisposition::Permanent);
    assert_eq!(kept.message, "remote media is too large");
}

#[test]
fn remote_media_types_are_normalised() {
    assert_eq!(remote_media_content_type(Some(" IMAGE/JPEG; q=1")).expect("type"), "image/jpeg");
    assert_eq!(
        remote_media_content_type(Some("  ; charset=x")).expect_err("empty").message,
        "remote media content type is missing"
    );
    assert!(remote_media_content_type(None).is_err());
}

#[test]
fn a_refresh_needs_a_remote_account_with_an_actor_url() {
    assert_eq!(remote_refresh_domain(Some("remote.example")).expect("remote"), "remote.example");
    assert_eq!(
        remote_refresh_domain(Some("")).expect_err("local").message,
        "remote refresh requires a remote account"
    );
    assert_eq!(
        remote_refresh_target(None, "https://remote.example/users/a").expect_err("local").message,
        "remote refresh requires a remote account"
    );
    assert_eq!(
        remote_refresh_target(Some("remote.example"), "::").expect_err("no URL").message,
        "remote refresh account has no canonical actor ID"
    );
    let target = remote_refresh_target(Some("remote.example"), "https://remote.example/users/a").expect("target");
    assert_eq!(target.host.as_deref(), Some("remote.example"));
}
