use vstd::prelude::*;
use crate::failure::{FailureDisposition, HandlerFailure};
use crate::text::{int_decimal, push_decimal_i64, push_str};

verus! {

/// Why a remote fetch or delivery did not succeed.
#[derive(Clone, Debug)]
pub enum RemoteFetchError {
    /// The remote answered with this HTTP status code.
    UnexpectedStatus(u16),
    InvalidUrl,
    /// The target resolved to a forbidden address, given in text form.
    BlockedAddress(String),
    NoAddresses,
    Dns,
    Client,
    Request,
    Redirect,
    TooManyRedirects,
    MissingContentType,
    UnsupportedContentType,
    UnsupportedEncoding,
    BodyRead,
    BodyTooLarge,
    InvalidRepresentation,
    IdentityMismatch,
    OriginMismatch,
    PolicyDenied,
    Signing,
    DomainBudgetExceeded,
}

/// Why a database write of the application did not succeed; the payload describes the cause.
#[derive(Clone, Debug)]
pub enum WriteError {
    Sqlx(String),
    Job(String),
    Filesystem(String),
    NotFound,
    Conflict,
    InvalidInput(String),
    Unauthorized,
    Forbidden,
    RateLimited,
    Validation(String),
}

pub const UNAUTHORIZED: u16 = 401;
pub const NOT_FOUND: u16 = 404;
pub const REQUEST_TIMEOUT: u16 = 408;
pub const TOO_MANY_REQUESTS: u16 = 429;
pub const NOT_IMPLEMENTED: u16 = 501;

/// A 4xx status.
pub open spec fn is_client_error(status: u16) -> bool {
    400 <= status && status < 500
}

/// A 5xx status.
pub open spec fn is_server_error(status: u16) -> bool {
    500 <= status && status < 600
}

/// A status that says the resource may appear later: 404, 408, 429 or 5xx.
pub open spec fn is_temporarily_unavailable(status: u16) -> bool {
    status == NOT_FOUND || status == REQUEST_TIMEOUT || status == TOO_MANY_REQUESTS
        || is_server_error(status)
}

/// A 4xx status other than 401, 408 and 429.
pub open spec fn is_final_client_error(status: u16) -> bool {
    is_client_error(status) && status != UNAUTHORIZED && status != REQUEST_TIMEOUT
        && status != TOO_MANY_REQUESTS
}

/// Transport failures that say the remote answer itself is unacceptable.
pub open spec fn is_invalid_transport(e: RemoteFetchError) -> bool {
    match e {
        RemoteFetchError::InvalidUrl | RemoteFetchError::BlockedAddress(_)
        | RemoteFetchError::Redirect | RemoteFetchError::TooManyRedirects
        | RemoteFetchError::MissingContentType | RemoteFetchError::UnsupportedContentType
        | RemoteFetchError::UnsupportedEncoding | RemoteFetchError::BodyTooLarge
        | RemoteFetchError::InvalidRepresentation | RemoteFetchError::IdentityMismatch
        | RemoteFetchError::OriginMismatch | RemoteFetchError::PolicyDenied
        | RemoteFetchError::Signing => true,
        _ => false,
    }
}

/// Transport failures that may clear up on their own.
pub open spec fn is_transient_transport(e: RemoteFetchError) -> bool {
    match e {
        RemoteFetchError::NoAddresses | RemoteFetchError::Dns | RemoteFetchError::Client
        | RemoteFetchError::Request | RemoteFetchError::BodyRead
        | RemoteFetchError::DomainBudgetExceeded => true,
        _ => false,
    }
}

/// Transport failures that make an outgoing delivery itself invalid.
pub open spec fn is_invalid_delivery(e: RemoteFetchError) -> bool {
    match e {
        RemoteFetchError::InvalidUrl | RemoteFetchError::Redirect
        | RemoteFetchError::TooManyRedirects | RemoteFetchError::UnsupportedEncoding
        | RemoteFetchError::BodyTooLarge | RemoteFetchError::IdentityMismatch
        | RemoteFetchError::OriginMismatch | RemoteFetchError::PolicyDenied
        | RemoteFetchError::Signing => true,
        _ => false,
    }
}

/// The text that describes a fetch error inside failure messages.
pub open spec fn fetch_error_text(e: RemoteFetchError) -> Seq<char> {
    match e {
        RemoteFetchError::UnexpectedStatus(status) => "unexpected HTTP status "@ + int_decimal(status as int),
        RemoteFetchError::InvalidUrl => "invalid URL"@,
        RemoteFetchError::BlockedAddress(address) => "blocked address "@ + address@,
        RemoteFetchError::NoAddresses => "no usable addresses"@,
        RemoteFetchError::Dns => "DNS resolution failed"@,
        RemoteFetchError::Client => "HTTP client unavailable"@,
        RemoteFetchError::Request => "request failed"@,
        RemoteFetchError::Redirect => "redirect refused"@,
        RemoteFetchError::TooManyRedirects => "too many redirects"@,
        RemoteFetchError::MissingContentType => "missing content type"@,
        RemoteFetchError::UnsupportedContentType => "unsupported content type"@,
        RemoteFetchError::UnsupportedEncoding => "unsupported content encoding"@,
        RemoteFetchError::BodyRead => "response body read failed"@,
        RemoteFetchError::BodyTooLarge => "response body too large"@,
        RemoteFetchError::InvalidRepresentation => "invalid representation"@,
        RemoteFetchError::IdentityMismatch => "identity mismatch"@,
        RemoteFetchError::OriginMismatch => "origin mismatch"@,
        RemoteFetchError::PolicyDenied => "denied by policy"@,
        RemoteFetchError::Signing => "request signing failed"@,
        RemoteFetchError::DomainBudgetExceeded => "domain budget exceeded"@,
    }
}

/// `prefix: <error text>`.
pub open spec fn with_error_text(prefix: Seq<char>, e: RemoteFetchError) -> Seq<char> {
    prefix + ": "@ + fetch_error_text(e)
}

/// A failure with the given disposition and message.
pub open spec fn failure_is(f: HandlerFailure, d: FailureDisposition, message: Seq<char>) -> bool {
    f.disposition == d && f.message@ == message
}

impl RemoteFetchError {
    /// Appends the text that describes this error.
    pub fn push_text(&self, s: &mut String)
        ensures
            final(s)@ == old(s)@ + fetch_error_text(*self),
    {
        match self {
            RemoteFetchError::UnexpectedStatus(status) => {
                push_str(s, "unexpected HTTP status ");
                push_decimal_i64(s, *status as i64);
            },
            RemoteFetchError::InvalidUrl => push_str(s, "invalid URL"),
            RemoteFetchError::BlockedAddress(address) => {
                push_str(s, "blocked address ");
                push_str(s, address.as_str());
            },
            RemoteFetchError::NoAddresses => push_str(s, "no usable addresses"),
            RemoteFetchError::Dns => push_str(s, "DNS resolution failed"),
            RemoteFetchError::Client => push_str(s, "HTTP client unavailable"),
            RemoteFetchError::Request => push_str(s, "request failed"),
            RemoteFetchError::Redirect => push_str(s, "redirect refused"),
            RemoteFetchError::TooManyRedirects => push_str(s, "too many redirects"),
            RemoteFetchError::MissingContentType => push_str(s, "missing content type"),
            RemoteFetchError::UnsupportedContentType => push_str(s, "unsupported content type"),
            RemoteFetchError::UnsupportedEncoding => push_str(s, "unsupported content encoding"),
            RemoteFetchError::BodyRead => push_str(s, "response body read failed"),
            RemoteFetchError::BodyTooLarge => push_str(s, "response body too large"),
            RemoteFetchError::InvalidRepresentation => push_str(s, "invalid representation"),
            RemoteFetchError::IdentityMismatch => push_str(s, "identity mismatch"),
            RemoteFetchError::OriginMismatch => push_str(s, "origin mismatch"),
            RemoteFetchError::PolicyDenied => push_str(s, "denied by policy"),
            RemoteFetchError::Signing => push_str(s, "request signing failed"),
            RemoteFetchError::DomainBudgetExceeded => push_str(s, "domain budget exceeded"),
        }
        assert(final(s)@ =~= old(s)@ + fetch_error_text(*self)) by {
            match self {
                RemoteFetchError::UnexpectedStatus(_) => {},
                RemoteFetchError::BlockedAddress(_) => {},
                _ => {},
            }
        }
    }

    /// The text that describes this error.
    pub fn text(&self) -> (s: String)
        ensures
            s@ == fetch_error_text(*self),
    {
        let mut s = String::new();
        self.push_text(&mut s);
        assert(s@ =~= fetch_error_text(*self));
        s
    }
}

/// A failure whose message is `prefix: <error text>`.
fn failure_with_error(
    disposition: FailureDisposition,
    prefix: &str,
    error: &RemoteFetchError,
) -> (f: HandlerFailure)
    ensures
        failure_is(f, disposition, with_error_text(prefix@, *error)),
{
    let mut message = String::new();
    push_str(&mut message, prefix);
    push_str(&mut message, ": ");
    error.push_text(&mut message);
    assert(message@ =~= with_error_text(prefix@, *error));
    HandlerFailure { disposition, message }
}

fn is_client_status(status: u16) -> (r: bool)
    ensures
        r == is_client_error(status),
{
    400 <= status && status < 500
}

fn is_server_status(status: u16) -> (r: bool)
    ensures
        r == is_server_error(status),
{
    500 <= status && status < 600
}

fn is_final_client_status(status: u16) -> (r: bool)
    ensures
        r == is_final_client_error(status),
{
    is_client_status(status) && status != UNAUTHORIZED && status != REQUEST_TIMEOUT
        && status != TOO_MANY_REQUESTS
}

fn is_temporarily_unavailable_status(status: u16) -> (r: bool)
    ensures
        r == is_temporarily_unavailable(status),
{
    status == NOT_FOUND || status == REQUEST_TIMEOUT || status == TOO_MANY_REQUESTS
        || is_server_status(status)
}

fn is_invalid_transport_error(e: &RemoteFetchError) -> (r: bool)
    ensures
        r == is_invalid_transport(*e),
{
    match e {
        RemoteFetchError::InvalidUrl | RemoteFetchError::BlockedAddress(_)
        | RemoteFetchError::Redirect | RemoteFetchError::TooManyRedirects
        | RemoteFetchError::MissingContentType | RemoteFetchError::UnsupportedContentType
        | RemoteFetchError::UnsupportedEncoding | RemoteFetchError::BodyTooLarge
        | RemoteFetchError::InvalidRepresentation | RemoteFetchError::IdentityMismatch
        | RemoteFetchError::OriginMismatch | RemoteFetchError::PolicyDenied
        | RemoteFetchError::Signing => true,
        _ => false,
    }
}

fn is_transient_transport_error(e: &RemoteFetchError) -> (r: bool)
    ensures
        r == is_transient_transport(*e),
{
    match e {
        RemoteFetchError::NoAddresses | RemoteFetchError::Dns | RemoteFetchError::Client
        | RemoteFetchError::Request | RemoteFetchError::BodyRead
        | RemoteFetchError::DomainBudgetExceeded => true,
        _ => false,
    }
}

fn is_invalid_delivery_error(e: &RemoteFetchError) -> (r: bool)
    ensures
        r == is_invalid_delivery(*e),
{
    match e {
        RemoteFetchError::InvalidUrl | RemoteFetchError::Redirect
        | RemoteFetchError::TooManyRedirects | RemoteFetchError::UnsupportedEncoding
        | RemoteFetchError::BodyTooLarge | RemoteFetchError::IdentityMismatch
        | RemoteFetchError::OriginMismatch | RemoteFetchError::PolicyDenied
        | RemoteFetchError::Signing => true,
        _ => false,
    }
}

/// How an outgoing delivery failure is handled.
pub open spec fn delivery_failure_spec(e: RemoteFetchError, unavailable: bool) -> (FailureDisposition, Seq<char>) {
    match e {
        RemoteFetchError::UnexpectedStatus(status) => {
            if unavailable && status == UNAUTHORIZED {
                (FailureDisposition::Permanent, "remote delivery authorization is permanently unavailable"@)
            } else if status == NOT_IMPLEMENTED || is_final_client_error(status) {
                (FailureDisposition::Permanent, "remote inbox rejected the activity"@)
            } else {
                (FailureDisposition::Retry, "remote delivery failed"@)
            }
        },
        _ => if is_invalid_delivery(e) {
            (FailureDisposition::Permanent, "remote delivery is invalid"@)
        } else {
            (FailureDisposition::Retry, "remote delivery failed"@)
        },
    }
}

/// Classifies a failed outgoing delivery. A 401 is final only when the sending account
/// can never sign again; 501 and other 4xx (but 408 and 429) mean the inbox refused.
pub fn delivery_failure(
    error: &RemoteFetchError,
    source_account_permanently_unavailable: bool,
) -> (f: HandlerFailure)
    ensures
        failure_is(
            f,
            delivery_failure_spec(*error, source_account_permanently_unavailable).0,
            delivery_failure_spec(*error, source_account_permanently_unavailable).1,
        ),
{
    match error {
        RemoteFetchError::UnexpectedStatus(status) => {
            let status = *status;
            if source_account_permanently_unavailable && status == UNAUTHORIZED {
                HandlerFailure::permanent("remote delivery authorization is permanently unavailable")
            } else if status == NOT_IMPLEMENTED || is_final_client_status(status) {
                HandlerFailure::permanent("remote inbox rejected the activity")
            } else {
                HandlerFailure::retry("remote delivery failed")
            }
        },
        _ => if is_invalid_delivery_error(error) {
            HandlerFailure::permanent("remote delivery is invalid")
        } else {
            HandlerFailure::retry("remote delivery failed")
        },
    }
}

/// A remote inbox that answers a delivery with a client error other than 401, 408 and 429
/// (404 among them) refuses the activity for good: the job is dead-lettered.
pub proof fn lemma_delivery_client_errors_are_final(status: u16, source_account_permanently_unavailable: bool)
    requires
        400 <= status <= 499,
        status != 401,
        status != 408,
        status != 429,
    ensures
        delivery_failure_spec(RemoteFetchError::UnexpectedStatus(status), source_account_permanently_unavailable)
            == (FailureDisposition::Permanent, "remote inbox rejected the activity"@),
{
}

/// A delivery answered with 501 is refused for good; 401 is final only when the sending
/// account can never sign again.
pub proof fn lemma_delivery_final_statuses(source_account_permanently_unavailable: bool)
    ensures
        delivery_failure_spec(RemoteFetchError::UnexpectedStatus(501), source_account_permanently_unavailable)
            == (FailureDisposition::Permanent, "remote inbox rejected the activity"@),
        delivery_failure_spec(RemoteFetchError::UnexpectedStatus(401), true)
            == (FailureDisposition::Permanent, "remote delivery authorization is permanently unavailable"@),
        delivery_failure_spec(RemoteFetchError::UnexpectedStatus(401), false)
            == (FailureDisposition::Retry, "remote delivery failed"@),
{
}

/// A delivery answered with 408, 429, any status outside 4xx other than 501, is retried.
pub proof fn lemma_delivery_transient_statuses_retry(status: u16, source_account_permanently_unavailable: bool)
    requires
        status == 408 || status == 429 || ((status < 400 || status > 499) && status != 501),
    ensures
        delivery_failure_spec(RemoteFetchError::UnexpectedStatus(status), source_account_permanently_unavailable)
            == (FailureDisposition::Retry, "remote delivery failed"@),
{
}

/// A delivery that can never be valid (a bad URL, a redirect, an identity, origin or policy
/// refusal, a body or encoding it may not send, a signing failure) is dead-lettered; a
/// transport failure is retried.
pub proof fn lemma_delivery_transport_failures(unavailable: bool)
    ensures
        delivery_failure_spec(RemoteFetchError::InvalidUrl, unavailable) == (FailureDisposition::Permanent, "remote delivery is invalid"@),
        delivery_failure_spec(RemoteFetchError::Redirect, unavailable) == (FailureDisposition::Permanent, "remote delivery is invalid"@),
        delivery_failure_spec(RemoteFetchError::TooManyRedirects, unavailable) == (FailureDisposition::Permanent, "remote delivery is invalid"@),
        delivery_failure_spec(RemoteFetchError::UnsupportedEncoding, unavailable) == (FailureDisposition::Permanent, "remote delivery is invalid"@),
        delivery_failure_spec(RemoteFetchError::BodyTooLarge, unavailable) == (FailureDisposition::Permanent, "remote delivery is invalid"@),
        delivery_failure_spec(RemoteFetchError::IdentityMismatch, unavailable) == (FailureDisposition::Permanent, "remote delivery is invalid"@),
        delivery_failure_spec(RemoteFetchError::OriginMismatch, unavailable) == (FailureDisposition::Permanent, "remote delivery is invalid"@),
        delivery_failure_spec(RemoteFetchError::PolicyDenied, unavailable) == (FailureDisposition::Permanent, "remote delivery is invalid"@),
        delivery_failure_spec(RemoteFetchError::Signing, unavailable) == (FailureDisposition::Permanent, "remote delivery is invalid"@),
        delivery_failure_spec(RemoteFetchError::NoAddresses, unavailable) == (FailureDisposition::Retry, "remote delivery failed"@),
        delivery_failure_spec(RemoteFetchError::Dns, unavailable) == (FailureDisposition::Retry, "remote delivery failed"@),
        delivery_failure_spec(RemoteFetchError::Client, unavailable) == (FailureDisposition::Retry, "remote delivery failed"@),
        delivery_failure_spec(RemoteFetchError::Request, unavailable) == (FailureDisposition::Retry, "remote delivery failed"@),
        delivery_failure_spec(RemoteFetchError::BodyRead, unavailable) == (FailureDisposition::Retry, "remote delivery failed"@),
        delivery_failure_spec(RemoteFetchError::DomainBudgetExceeded, unavailable) == (FailureDisposition::Retry, "remote delivery failed"@),
{
}

/// How a failure to resolve the actor of an inbound activity is handled.
pub open spec fn inbox_remote_failure_spec(e: RemoteFetchError) -> (FailureDisposition, Seq<char>) {
    if is_invalid_transport(e) {
        (FailureDisposition::Permanent, with_error_text("remote inbox actor is invalid"@, e))
    } else if e matches RemoteFetchError::UnexpectedStatus(status) && is_final_client_error(status) {
        (FailureDisposition::Permanent, with_error_text("remote inbox actor could not be resolved"@, e))
    } else {
        (FailureDisposition::Retry, with_error_text("remote inbox actor resolution failed"@, e))
    }
}

/// Classifies a failed resolution of an inbox activity's actor.
pub fn inbox_remote_failure(error: &RemoteFetchError) -> (f: HandlerFailure)
    ensures
        failure_is(f, inbox_remote_failure_spec(*error).0, inbox_remote_failure_spec(*error).1),
{
    if is_invalid_transport_error(error) {
        return failure_with_error(FailureDisposition::Permanent, "remote inbox actor is invalid", error);
    }
    if let RemoteFetchError::UnexpectedStatus(status) = error {
        if is_final_client_status(*status) {
            return failure_with_error(
                FailureDisposition::Permanent,
                "remote inbox actor could not be resolved",
                error,
            );
        }
    }
    failure_with_error(FailureDisposition::Retry, "remote inbox actor resolution failed", error)
}

/// The disposition shared by fetches of remote objects that may appear later:
/// a temporarily unavailable status or a transient transport failure is retried,
/// any other status and any invalid answer is final.
pub open spec fn object_fetch_disposition(e: RemoteFetchError) -> FailureDisposition {
    match e {
        RemoteFetchError::UnexpectedStatus(status) => if is_temporarily_unavailable(status) {
            FailureDisposition::Retry
        } else {
            FailureDisposition::Permanent
        },
        _ => if is_invalid_transport(e) {
            FailureDisposition::Permanent
        } else {
            FailureDisposition::Retry
        },
    }
}

/// The message of an object fetch failure, chosen among the four texts of its kind.
pub open spec fn object_fetch_message(
    e: RemoteFetchError,
    unavailable: Seq<char>,
    rejected: Seq<char>,
    invalid: Seq<char>,
    failed: Seq<char>,
) -> Seq<char> {
    match e {
        RemoteFetchError::UnexpectedStatus(status) => if is_temporarily_unavailable(status) {
            with_error_text(unavailable, e)
        } else {
            with_error_text(rejected, e)
        },
        _ => if is_invalid_transport(e) {
            with_error_text(invalid, e)
        } else {
            with_error_text(failed, e)
        },
    }
}

fn object_fetch_failure(
    error: &RemoteFetchError,
    unavailable: &str,
    rejected: &str,
    invalid: &str,
    failed: &str,
) -> (f: HandlerFailure)
    ensures
        failure_is(
            f,
            object_fetch_disposition(*error),
            object_fetch_message(*error, unavailable@, rejected@, invalid@, failed@),
        ),
{
    match error {
        RemoteFetchError::UnexpectedStatus(status) => {
            if is_temporarily_unavailable_status(*status) {
                failure_with_error(FailureDisposition::Retry, unavailable, error)
            } else {
                failure_with_error(FailureDisposition::Permanent, rejected, error)
            }
        },
        _ => {
            if is_invalid_transport_error(error) {
                failure_with_error(FailureDisposition::Permanent, invalid, error)
            } else {
                failure_with_error(FailureDisposition::Retry, failed, error)
            }
        },
    }
}

/// Classifies a failed fetch of a reply's parent.
pub fn remote_thread_fetch_failure(error: &RemoteFetchError) -> (f: HandlerFailure)
    ensures
        failure_is(
            f,
            object_fetch_disposition(*error),
            object_fetch_message(
                *error,
                "remote reply parent fetch is temporarily unavailable"@,
                "remote reply parent fetch was rejected"@,
                "remote reply parent is invalid"@,
                "remote reply parent fetch failed"@,
            ),
        ),
{
    object_fetch_failure(
        error,
        "remote reply parent fetch is temporarily unavailable",
        "remote reply parent fetch was rejected",
        "remote reply parent is invalid",
        "remote reply parent fetch failed",
    )
}

/// Classifies a failed fetch of an Announce target.
pub fn remote_announce_fetch_failure(error: &RemoteFetchError) -> (f: HandlerFailure)
    ensures
        failure_is(
            f,
            object_fetch_disposition(*error),
            object_fetch_message(
                *error,
                "remote Announce target fetch is temporarily unavailable"@,
                "remote Announce target fetch was rejected"@,
                "remote Announce target is invalid"@,
                "remote Announce target fetch failed"@,
            ),
        ),
{
    object_fetch_failure(
        error,
        "remote Announce target fetch is temporarily unavailable",
        "remote Announce target fetch was rejected",
        "remote Announce target is invalid",
        "remote Announce target fetch failed",
    )
}

/// Classifies a failed fetch of a QuoteRequest instrument.
pub fn remote_quote_request_fetch_failure(error: &RemoteFetchError) -> (f: HandlerFailure)
    ensures
        failure_is(
            f,
            object_fetch_disposition(*error),
            object_fetch_message(
                *error,
                "QuoteRequest instrument is temporarily unavailable"@,
                "QuoteRequest instrument fetch was rejected"@,
                "QuoteRequest instrument fetch is invalid"@,
                "QuoteRequest instrument fetch failed"@,
            ),
        ),
{
    object_fetch_failure(
        error,
        "QuoteRequest instrument is temporarily unavailable",
        "QuoteRequest instrument fetch was rejected",
        "QuoteRequest instrument fetch is invalid",
        "QuoteRequest instrument fetch failed",
    )
}

/// Classifies a failed fetch of a Note named by a Create; it keeps the disposition
/// of an Announce target fetch.
pub fn remote_note_fetch_failure(error: &RemoteFetchError) -> (f: HandlerFailure)
    ensures
        f.disposition == object_fetch_disposition(*error),
        f.disposition == FailureDisposition::Retry ==> f.message@ == with_error_text(
            "remote Create Note fetch failed"@,
            *error,
        ),
        f.disposition == FailureDisposition::Permanent ==> f.message@ == with_error_text(
            "remote Create Note fetch is invalid"@,
            *error,
        ),
{
    match remote_announce_fetch_failure(error).disposition {
        FailureDisposition::Retry => failure_with_error(
            FailureDisposition::Retry,
            "remote Create Note fetch failed",
            error,
        ),
        FailureDisposition::Permanent => failure_with_error(
            FailureDisposition::Permanent,
            "remote Create Note fetch is invalid",
            error,
        ),
    }
}

/// How a failed media download is handled: 401, 408, 429 and 5xx other than 501 and
/// transient transport failures are retried; anything else is final.
pub open spec fn remote_media_fetch_spec(e: RemoteFetchError) -> (FailureDisposition, Seq<char>) {
    if e matches RemoteFetchError::UnexpectedStatus(status) && status != NOT_IMPLEMENTED && (
    status == UNAUTHORIZED || status == REQUEST_TIMEOUT || status == TOO_MANY_REQUESTS
        || is_server_error(status)) {
        (FailureDisposition::Retry, with_error_text("remote media fetch is temporarily unavailable"@, e))
    } else if is_transient_transport(e) {
        (FailureDisposition::Retry, with_error_text("remote media fetch failed"@, e))
    } else {
        (FailureDisposition::Permanent, with_error_text("remote media is invalid"@, e))
    }
}

/// Classifies a failed remote media download.
pub fn remote_media_fetch_failure(error: &RemoteFetchError) -> (f: HandlerFailure)
    ensures
        failure_is(f, remote_media_fetch_spec(*error).0, remote_media_fetch_spec(*error).1),
{
    if let RemoteFetchError::UnexpectedStatus(status) = error {
        let status = *status;
        if status != NOT_IMPLEMENTED && (status == UNAUTHORIZED || status == REQUEST_TIMEOUT
            || status == TOO_MANY_REQUESTS || is_server_status(status)) {
            return failure_with_error(
                FailureDisposition::Retry,
                "remote media fetch is temporarily unavailable",
                error,
            );
        }
    }
    if is_transient_transport_error(error) {
        failure_with_error(FailureDisposition::Retry, "remote media fetch failed", error)
    } else {
        failure_with_error(FailureDisposition::Permanent, "remote media is invalid", error)
    }
}

/// Write errors that come from the payload rather than from the infrastructure.
pub open spec fn is_payload_write_error(e: WriteError) -> bool {
    match e {
        WriteError::Conflict | WriteError::InvalidInput(_) | WriteError::Unauthorized
        | WriteError::Forbidden | WriteError::RateLimited | WriteError::Validation(_) => true,
        _ => false,
    }
}

/// Classifies a failed write of a resolved reply thread; a missing row is retried.
pub fn remote_thread_write_failure(error: &WriteError) -> (f: HandlerFailure)
    ensures
        is_payload_write_error(*error) ==> failure_is(
            f,
            FailureDisposition::Permanent,
            "remote reply thread payload is invalid"@,
        ),
        !is_payload_write_error(*error) ==> failure_is(
            f,
            FailureDisposition::Retry,
            "remote reply thread persistence failed"@,
        ),
{
    match error {
        WriteError::Sqlx(_) | WriteError::Job(_) | WriteError::Filesystem(_)
        | WriteError::NotFound => HandlerFailure::retry("remote reply thread persistence failed"),
        WriteError::Conflict | WriteError::InvalidInput(_) | WriteError::Unauthorized
        | WriteError::Forbidden | WriteError::RateLimited | WriteError::Validation(_) => {
            HandlerFailure::permanent("remote reply thread payload is invalid")
        },
    }
}

/// Classifies a failed write of a remote Note; a missing row is final here.
pub fn remote_note_write_failure(error: &WriteError, message: &str) -> (f: HandlerFailure)
    ensures
        f.message@ == message@,
        f.disposition == (if is_payload_write_error(*error) || *error is NotFound {
            FailureDisposition::Permanent
        } else {
            FailureDisposition::Retry
        }),
{
    match error {
        WriteError::Conflict | WriteError::InvalidInput(_) | WriteError::NotFound
        | WriteError::Unauthorized | WriteError::Forbidden | WriteError::RateLimited
        | WriteError::Validation(_) => HandlerFailure::permanent(message),
        WriteError::Sqlx(_) | WriteError::Job(_) | WriteError::Filesystem(_) => {
            HandlerFailure::retry(message)
        },
    }
}

/// A remote object fetch answered with 404, 408, 429 or a 5xx status may succeed later and
/// is retried; any other status is final.
pub proof fn lemma_object_fetch_statuses(status: u16)
    ensures
        object_fetch_disposition(RemoteFetchError::UnexpectedStatus(status)) == (if status == 404 || status == 408
            || status == 429 || (500 <= status && status <= 599) {
            FailureDisposition::Retry
        } else {
            FailureDisposition::Permanent
        }),
{
}

/// A remote object fetch whose answer is unacceptable (bad URL, blocked address, redirect,
/// content type or encoding, size, representation, identity, origin, policy or signing) is
/// final; a failure of the transport itself is retried.
pub proof fn lemma_object_fetch_transport(address: String)
    ensures
        object_fetch_disposition(RemoteFetchError::InvalidUrl) == FailureDisposition::Permanent,
        object_fetch_disposition(RemoteFetchError::BlockedAddress(address)) == FailureDisposition::Permanent,
        object_fetch_disposition(RemoteFetchError::Redirect) == FailureDisposition::Permanent,
        object_fetch_disposition(RemoteFetchError::TooManyRedirects) == FailureDisposition::Permanent,
        object_fetch_disposition(RemoteFetchError::MissingContentType) == FailureDisposition::Permanent,
        object_fetch_disposition(RemoteFetchError::UnsupportedContentType) == FailureDisposition::Permanent,
        object_fetch_disposition(RemoteFetchError::UnsupportedEncoding) == FailureDisposition::Permanent,
        object_fetch_disposition(RemoteFetchError::BodyTooLarge) == FailureDisposition::Permanent,
        object_fetch_disposition(RemoteFetchError::InvalidRepresentation) == FailureDisposition::Permanent,
        object_fetch_disposition(RemoteFetchError::IdentityMismatch) == FailureDisposition::Permanent,
        object_fetch_disposition(RemoteFetchError::OriginMismatch) == FailureDisposition::Permanent,
        object_fetch_disposition(RemoteFetchError::PolicyDenied) == FailureDisposition::Permanent,
        object_fetch_disposition(RemoteFetchError::Signing) == FailureDisposition::Permanent,
        object_fetch_disposition(RemoteFetchError::NoAddresses) == FailureDisposition::Retry,
        object_fetch_disposition(RemoteFetchError::Dns) == FailureDisposition::Retry,
        object_fetch_disposition(RemoteFetchError::Client) == FailureDisposition::Retry,
        object_fetch_disposition(RemoteFetchError::Request) == FailureDisposition::Retry,
        object_fetch_disposition(RemoteFetchError::BodyRead) == FailureDisposition::Retry,
        object_fetch_disposition(RemoteFetchError::DomainBudgetExceeded) == FailureDisposition::Retry,
{
}

/// An inbox activity whose actor's server answers with a client error other than 401, 408
/// and 429 cannot be resolved, for good; any other status is retried.
pub proof fn lemma_inbox_actor_statuses(status: u16)
    ensures
        inbox_remote_failure_spec(RemoteFetchError::UnexpectedStatus(status)) == (if 400 <= status <= 499
            && status != 401 && status != 408 && status != 429 {
            (FailureDisposition::Permanent, with_error_text("remote inbox actor could not be resolved"@,
                RemoteFetchError::UnexpectedStatus(status)))
        } else {
            (FailureDisposition::Retry, with_error_text("remote inbox actor resolution failed"@,
                RemoteFetchError::UnexpectedStatus(status)))
        }),
{
}

/// A media download answered with 401, 408, 429 or a 5xx status other than 501 is retried;
/// any other status is final.
pub proof fn lemma_media_fetch_statuses(status: u16)
    ensures
        remote_media_fetch_spec(RemoteFetchError::UnexpectedStatus(status)).0 == (if status == 401 || status == 408
            || status == 429 || (500 <= status <= 599 && status != 501) {
            FailureDisposition::Retry
        } else {
            FailureDisposition::Permanent
        }),
{
}

} // verus!
