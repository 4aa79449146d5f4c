use rustodon_worker::failure::{FailureDisposition, HandlerFailure};
use rustodon_worker::fetch_failure::{
    RemoteFetchError, WriteError, delivery_failure, inbox_remote_failure, remote_announce_fetch_failure,
    remote_media_fetch_failure, remote_note_fetch_failure, remote_note_write_failure,
    remote_quote_request_fetch_failure, remote_thread_fetch_failure, remote_thread_write_failure,
};

const BAD_REQUEST: u16 = 400;
const UNAUTHORIZED: u16 = 401;
const FORBIDDEN: u16 = 403;
const NOT_FOUND: u16 = 404;
const NOT_ACCEPTABLE: u16 = 406;
const REQUEST_TIMEOUT: u16 = 408;
const GONE: u16 = 410;
const TOO_MANY_REQUESTS: u16 = 429;
const NOT_IMPLEMENTED: u16 = 501;
const BAD_GATEWAY: u16 = 502;
const SERVICE_UNAVAILABLE: u16 = 503;

#[test]
fn quote_request_fetch_failures_distinguish_retryable_and_permanent_errors() {
    for error in [
        RemoteFetchError::UnexpectedStatus(NOT_FOUND),
        RemoteFetchError::UnexpectedStatus(REQUEST_TIMEOUT),
        RemoteFetchError::UnexpectedStatus(TOO_MANY_REQUESTS),
        RemoteFetchError::UnexpectedStatus(SERVICE_UNAVAILABLE),
        RemoteFetchError::NoAddresses,
        RemoteFetchError::Dns,
        RemoteFetchError::Client,
        RemoteFetchError::Request,
        RemoteFetchError::BodyRead,
        RemoteFetchError::DomainBudgetExceeded,
    ] {
        assert_eq!(
            remote_quote_request_fetch_failure(&error).disposition,
            FailureDisposition::Retry,
            "{error:?} should be retried"
        );
    }
    for error in [
        RemoteFetchError::UnexpectedStatus(BAD_REQUEST),
        RemoteFetchError::UnexpectedStatus(UNAUTHORIZED),
        RemoteFetchError::UnexpectedStatus(FORBIDDEN),
        RemoteFetchError::UnexpectedStatus(GONE),
        RemoteFetchError::UnexpectedStatus(NOT_ACCEPTABLE),
        RemoteFetchError::BlockedAddress("127.0.0.1".to_owned()),
        RemoteFetchError::InvalidUrl,
        RemoteFetchError::Redirect,
        RemoteFetchError::TooManyRedirects,
        RemoteFetchError::MissingContentType,
        RemoteFetchError::UnsupportedContentType,
        RemoteFetchError::UnsupportedEncoding,
        RemoteFetchError::BodyTooLarge,
        RemoteFetchError::InvalidRepresentation,
        RemoteFetchError::IdentityMismatch,
        RemoteFetchError::OriginMismatch,
        RemoteFetchError::PolicyDenied,
        RemoteFetchError::Signing,
    ] {
        assert_eq!(
            remote_quote_request_fetch_failure(&error).disposition,
            FailureDisposition::Permanent,
            "{error:?} should fail permanently"
        );
    }
}

#[test]
fn remote_note_fetch_failures_distinguish_retryable_and_permanent_errors() {
    assert_eq!(
        remote_note_fetch_failure(&RemoteFetchError::UnexpectedStatus(SERVICE_UNAVAILABLE)).disposition,
        FailureDisposition::Retry
    );
    assert_eq!(
        remote_note_fetch_failure(&RemoteFetchError::UnexpectedStatus(GONE)).disposition,
        FailureDisposition::Permanent
    );
    assert_eq!(
        remote_note_fetch_failure(&RemoteFetchError::BlockedAddress("127.0.0.1".to_owned())).disposition,
        FailureDisposition::Permanent
    );
}

#[test]
fn delivery_failure_classification_retries_transient_statuses() {
    assert_eq!(
        delivery_failure(&RemoteFetchError::UnexpectedStatus(BAD_GATEWAY), false).disposition,
        FailureDisposition::Retry
    );
    assert_eq!(
        delivery_failure(&RemoteFetchError::UnexpectedStatus(TOO_MANY_REQUESTS), false).disposition,
        FailureDisposition::Retry
    );
    assert_eq!(
        delivery_failure(&RemoteFetchError::UnexpectedStatus(UNAUTHORIZED), false).disposition,
        FailureDisposition::Retry
    );
    assert_eq!(
        delivery_failure(&RemoteFetchError::UnexpectedStatus(UNAUTHORIZED), true).disposition,
        FailureDisposition::Permanent
    );
    assert_eq!(
        delivery_failure(&RemoteFetchError::UnexpectedStatus(NOT_IMPLEMENTED), false).disposition,
        FailureDisposition::Permanent
    );
    assert_eq!(delivery_failure(&RemoteFetchError::Signing, false).disposition, FailureDisposition::Permanent);
    assert_eq!(
        delivery_failure(&RemoteFetchError::DomainBudgetExceeded, false).disposition,
        FailureDisposition::Retry
    );
}

#[test]
fn remote_media_failure_classification_preserves_retryable_fetches() {
    assert_eq!(
        remote_media_fetch_failure(&RemoteFetchError::UnexpectedStatus(BAD_GATEWAY)).disposition,
        FailureDisposition::Retry
    );
    assert_eq!(
        remote_media_fetch_failure(&RemoteFetchError::UnexpectedStatus(UNAUTHORIZED)).disposition,
        FailureDisposition::Retry
    );
    assert_eq!(
        remote_media_fetch_failure(&RemoteFetchError::UnexpectedStatus(NOT_IMPLEMENTED)).disposition,
        FailureDisposition::Permanent
    );
    assert_eq!(
        remote_media_fetch_failure(&RemoteFetchError::UnexpectedStatus(NOT_FOUND)).disposition,
        FailureDisposition::Permanent
    );
    assert_eq!(remote_media_fetch_failure(&RemoteFetchError::BodyTooLarge).disposition, FailureDisposition::Permanent);
    assert_eq!(
        remote_media_fetch_failure(&RemoteFetchError::DomainBudgetExceeded).disposition,
        FailureDisposition::Retry
    );
}

#[test]
fn handler_failures_keep_their_disposition_and_message() {
    let retry = HandlerFailure::retry("try later");
    assert_eq!(retry.disposition, FailureDisposition::Retry);
    assert_eq!(retry.message, "try later");
    let permanent = HandlerFailure::permanent("never");
    assert_eq!(permanent.disposition, FailureDisposition::Permanent);
    assert_eq!(permanent.message, "never");
}

#[test]
fn delivery_failures_name_why_they_end() {
    assert_eq!(
        delivery_failure(&RemoteFetchError::UnexpectedStatus(UNAUTHORIZED), true).message,
        "remote delivery authorization is permanently unavailable"
    );
    assert_eq!(
        delivery_failure(&RemoteFetchError::UnexpectedStatus(GONE), false).message,
        "remote inbox rejected the activity"
    );
    assert_eq!(
        delivery_failure(&RemoteFetchError::UnexpectedStatus(SERVICE_UNAVAILABLE), false).message,
        "remote delivery failed"
    );
}

#[test]
fn fetch_failures_describe_their_cause() {
    let failure = remote_media_fetch_failure(&RemoteFetchError::UnexpectedStatus(SERVICE_UNAVAILABLE));
    assert_eq!(failure.message, "remote media fetch is temporarily unavailable: unexpected HTTP status 503");
    assert_eq!(RemoteFetchError::BlockedAddress("10.0.0.1".to_owned()).text(), "blocked address 10.0.0.1");
}

#[test]
fn object_fetches_split_unavailable_rejected_invalid_and_failed() {
    for classify in [remote_thread_fetch_failure, remote_announce_fetch_failure, remote_quote_request_fetch_failure] {
        assert_eq!(classify(&RemoteFetchError::UnexpectedStatus(NOT_FOUND)).disposition, FailureDisposition::Retry);
        assert_eq!(classify(&RemoteFetchError::UnexpectedStatus(FORBIDDEN)).disposition, FailureDisposition::Permanent);
        assert_eq!(classify(&RemoteFetchError::OriginMismatch).disposition, FailureDisposition::Permanent);
        assert_eq!(classify(&RemoteFetchError::Dns).disposition, FailureDisposition::Retry);
    }
    assert!(remote_announce_fetch_failure(&RemoteFetchError::Dns)
        .message
        .starts_with("remote Announce target fetch failed"));
}

#[test]
fn inbox_actor_failures_retry_only_transient_causes() {
    assert_eq!(inbox_remote_failure(&RemoteFetchError::Dns).disposition, FailureDisposition::Retry);
    assert_eq!(inbox_remote_failure(&RemoteFetchError::IdentityMismatch).disposition, FailureDisposition::Permanent);
}

#[test]
fn write_failures_split_payload_errors_from_persistence_errors() {
    let payload = remote_thread_write_failure(&WriteError::Validation("bad".to_owned()));
    assert_eq!(payload.disposition, FailureDisposition::Permanent);
    assert_eq!(payload.message, "remote reply thread payload is invalid");
    let persistence = remote_thread_write_failure(&WriteError::NotFound);
    assert_eq!(persistence.disposition, FailureDisposition::Retry);
    assert_eq!(persistence.message, "remote reply thread persistence failed");
    let missing = remote_note_write_failure(&WriteError::NotFound, "remote Note Create write failed");
    assert_eq!(missing.disposition, FailureDisposition::Permanent);
    assert_eq!(missing.message, "remote Note Create write failed");
    assert_eq!(
        remote_note_write_failure(&WriteError::Sqlx("io".to_owned()), "x").disposition,
        FailureDisposition::Retry
    );
}
