use vstd::prelude::*;
use crate::documents::permanent_failure;
use crate::failure::HandlerFailure;
use crate::job::opt_string;
use crate::json::{JsonValue, json_get, json_get_i64, json_get_str, json_i64};
use crate::text::str_eq;

verus! {

/// The integer a job's member `key` holds, or a permanent failure with `message`.
pub open spec fn required_i64(arguments: JsonValue, key: Seq<char>, message: Seq<char>) -> Result<i64, Seq<char>> {
    match json_get_i64(arguments, key) {
        Some(i) => Ok(i),
        None => Err(message),
    }
}

fn require_i64(arguments: &JsonValue, key: &str, message: &str) -> (r: Result<i64, HandlerFailure>)
    ensures
        match required_i64(*arguments, key@, message@) {
            Ok(i) => r matches Ok(x) && x == i,
            Err(m) => r matches Err(f) && permanent_failure(f, m),
        },
{
    match arguments.member_i64(key) {
        Some(i) => Ok(i),
        None => Err(HandlerFailure::permanent(message)),
    }
}

/// The status whose followers a notification job notifies.
pub fn status_notification_request(arguments: &JsonValue) -> (r: Result<i64, HandlerFailure>)
    ensures
        match required_i64(*arguments, "status_id"@, "status notification job is missing its status ID"@) {
            Ok(i) => r matches Ok(x) && x == i,
            Err(m) => r matches Err(f) && permanent_failure(f, m),
        },
{
    require_i64(arguments, "status_id", "status notification job is missing its status ID")
}

/// The mute an expiry job removes.
pub fn mute_expiry_request(arguments: &JsonValue) -> (r: Result<i64, HandlerFailure>)
    ensures
        match required_i64(*arguments, "mute_id"@, "mute expiry job is missing its mute ID"@) {
            Ok(i) => r matches Ok(x) && x == i,
            Err(m) => r matches Err(f) && permanent_failure(f, m),
        },
{
    require_i64(arguments, "mute_id", "mute expiry job is missing its mute ID")
}

/// The poll and the expiration generation a poll expiration job closes: a positive poll ID
/// and the expiry time it was scheduled for.
pub open spec fn poll_expiration_request_spec(arguments: JsonValue) -> Result<(i64, i64), Seq<char>> {
    match json_get_i64(arguments, "poll_id"@) {
        None => Err("poll expiration job is missing its poll ID"@),
        Some(poll_id) => if poll_id <= 0 {
            Err("poll expiration job poll ID is invalid"@)
        } else {
            match json_get_i64(arguments, "expires_at_micros"@) {
                None => Err("poll expiration job generation is missing or invalid"@),
                Some(expires_at) => Ok((poll_id, expires_at)),
            }
        },
    }
}

/// Reads a poll expiration job.
pub fn poll_expiration_request(arguments: &JsonValue) -> (r: Result<(i64, i64), HandlerFailure>)
    ensures
        match poll_expiration_request_spec(*arguments) {
            Ok(v) => r matches Ok(x) && x == v,
            Err(m) => r matches Err(f) && permanent_failure(f, m),
        },
{
    let poll_id = require_i64(arguments, "poll_id", "poll expiration job is missing its poll ID")?;
    if poll_id <= 0 {
        return Err(HandlerFailure::permanent("poll expiration job poll ID is invalid"));
    }
    let expires_at_micros = require_i64(
        arguments,
        "expires_at_micros",
        "poll expiration job generation is missing or invalid",
    )?;
    Ok((poll_id, expires_at_micros))
}

/// The account and version an account Update distribution sends.
pub open spec fn account_update_request_spec(arguments: JsonValue) -> Result<(i64, i64), Seq<char>> {
    match json_get_i64(arguments, "account_id"@) {
        None => Err("account update job is missing its account ID"@),
        Some(account_id) => match json_get_i64(arguments, "updated_at_micros"@) {
            None => Err("account update job is missing its timestamp"@),
            Some(updated_at) => Ok((account_id, updated_at)),
        },
    }
}

/// Reads an account Update distribution job.
pub fn account_update_request(arguments: &JsonValue) -> (r: Result<(i64, i64), HandlerFailure>)
    ensures
        match account_update_request_spec(*arguments) {
            Ok(v) => r matches Ok(x) && x == v,
            Err(m) => r matches Err(f) && permanent_failure(f, m),
        },
{
    let account_id = require_i64(arguments, "account_id", "account update job is missing its account ID")?;
    let updated_at_micros = require_i64(arguments, "updated_at_micros", "account update job is missing its timestamp")?;
    Ok((account_id, updated_at_micros))
}

/// The account and actor URI an account deletion distribution sends.
pub open spec fn account_delete_request_spec(arguments: JsonValue) -> Result<(i64, Seq<char>), Seq<char>> {
    match json_get_i64(arguments, "account_id"@) {
        None => Err("account deletion job is missing its account ID"@),
        Some(account_id) => match json_get_str(arguments, "actor_uri"@) {
            None => Err("account deletion job is missing its actor URI"@),
            Some(actor_uri) => Ok((account_id, actor_uri)),
        },
    }
}

/// Reads an account deletion distribution job.
pub fn account_delete_request(arguments: &JsonValue) -> (r: Result<(i64, &str), HandlerFailure>)
    ensures
        match account_delete_request_spec(*arguments) {
            Ok((account_id, actor_uri)) => r matches Ok((a, u)) && a == account_id && u@ == actor_uri,
            Err(m) => r matches Err(f) && permanent_failure(f, m),
        },
{
    let account_id = require_i64(arguments, "account_id", "account deletion job is missing its account ID")?;
    match arguments.member_str("actor_uri") {
        Some(actor_uri) => Ok((account_id, actor_uri)),
        None => Err(HandlerFailure::permanent("account deletion job is missing its actor URI")),
    }
}

/// What a quote-request distribution carries besides the status: the quote, its request
/// URI, and the quoted status, its URI and URL, and its account.
#[derive(Debug)]
pub struct QuoteRequestDistribution {
    pub quote_id: i64,
    pub request_uri: String,
    pub quoted_status_id: i64,
    pub quoted_status_uri: String,
    pub quoted_status_url: String,
    pub quoted_account_id: i64,
}

/// The text of a string member that is not empty.
pub open spec fn non_empty_str(arguments: JsonValue, key: Seq<char>) -> Option<Seq<char>> {
    match json_get_str(arguments, key) {
        Some(s) => if s.len() > 0 { Some(s) } else { None },
        None => None,
    }
}

/// The quote-request part of a distribution job, or the first part it misses.
pub open spec fn quote_request_distribution_spec(arguments: JsonValue)
    -> Result<(i64, Seq<char>, i64, Seq<char>, Seq<char>, i64), Seq<char>>
{
    match json_get_i64(arguments, "quote_id"@) {
        None => Err("quote-request distribution is missing its quote ID"@),
        Some(quote_id) => match non_empty_str(arguments, "quote_request_uri"@) {
            None => Err("quote-request distribution is missing its request URI"@),
            Some(request_uri) => match json_get_i64(arguments, "quoted_status_id"@) {
                None => Err("quote-request distribution is missing its target status"@),
                Some(quoted_status_id) => match non_empty_str(arguments, "quoted_status_uri"@) {
                    None => Err("quote-request distribution is missing its target URI"@),
                    Some(quoted_status_uri) => match non_empty_str(arguments, "quoted_status_url"@) {
                        None => Err("quote-request distribution is missing its target URL"@),
                        Some(quoted_status_url) => match json_get_i64(arguments, "quoted_account_id"@) {
                            None => Err("quote-request distribution is missing its target account"@),
                            Some(quoted_account_id) => Ok((
                                quote_id,
                                request_uri,
                                quoted_status_id,
                                quoted_status_uri,
                                quoted_status_url,
                                quoted_account_id,
                            )),
                        },
                    },
                },
            },
        },
    }
}

/// The view of a quote-request distribution.
pub open spec fn quote_request_view(q: QuoteRequestDistribution) -> (i64, Seq<char>, i64, Seq<char>, Seq<char>, i64) {
    (q.quote_id, q.request_uri@, q.quoted_status_id, q.quoted_status_uri@, q.quoted_status_url@, q.quoted_account_id)
}

fn non_empty_member(arguments: &JsonValue, key: &str) -> (text: Option<String>)
    ensures
        opt_string(text) == non_empty_str(*arguments, key@),
{
    match arguments.member_str(key) {
        Some(s) => if s.is_empty() { None } else { Some(s.to_owned()) },
        None => None,
    }
}

fn quote_request_distribution(arguments: &JsonValue) -> (r: Result<QuoteRequestDistribution, HandlerFailure>)
    ensures
        match quote_request_distribution_spec(*arguments) {
            Ok(v) => r matches Ok(q) && quote_request_view(q) == v,
            Err(m) => r matches Err(f) && permanent_failure(f, m),
        },
{
    let quote_id = require_i64(arguments, "quote_id", "quote-request distribution is missing its quote ID")?;
    let request_uri = match non_empty_member(arguments, "quote_request_uri") {
        Some(s) => s,
        None => {
            return Err(HandlerFailure::permanent("quote-request distribution is missing its request URI"));
        },
    };
    let quoted_status_id = require_i64(
        arguments,
        "quoted_status_id",
        "quote-request distribution is missing its target status",
    )?;
    let quoted_status_uri = match non_empty_member(arguments, "quoted_status_uri") {
        Some(s) => s,
        None => {
            return Err(HandlerFailure::permanent("quote-request distribution is missing its target URI"));
        },
    };
    let quoted_status_url = match non_empty_member(arguments, "quoted_status_url") {
        Some(s) => s,
        None => {
            return Err(HandlerFailure::permanent("quote-request distribution is missing its target URL"));
        },
    };
    let quoted_account_id = require_i64(
        arguments,
        "quoted_account_id",
        "quote-request distribution is missing its target account",
    )?;
    Ok(QuoteRequestDistribution {
        quote_id,
        request_uri,
        quoted_status_id,
        quoted_status_uri,
        quoted_status_url,
        quoted_account_id,
    })
}

/// The explicit recipients of a distribution: none when absent; otherwise an array of
/// integers.
pub open spec fn recipient_ids_spec(arguments: JsonValue) -> Result<Seq<i64>, Seq<char>> {
    match json_get(arguments, "recipient_account_ids"@) {
        None => Ok(Seq::empty()),
        Some(JsonValue::Array(items)) => if exists|i: int| 0 <= i < items@.len() && #[trigger] json_i64(items@[i]) is None {
            Err("status distribution recipient account ID is invalid"@)
        } else {
            Ok(Seq::new(items@.len(), |i: int| json_i64(items@[i])->0))
        },
        Some(_) => Err("status distribution recipient account IDs are invalid"@),
    }
}

fn recipient_ids(arguments: &JsonValue) -> (r: Result<Vec<i64>, HandlerFailure>)
    ensures
        match recipient_ids_spec(*arguments) {
            Ok(ids) => r matches Ok(v) && v@ == ids,
            Err(m) => r matches Err(f) && permanent_failure(f, m),
        },
{
    let items = match arguments.get("recipient_account_ids") {
        None => {
            return Ok(Vec::new());
        },
        Some(JsonValue::Array(items)) => items,
        Some(_) => {
            return Err(HandlerFailure::permanent("status distribution recipient account IDs are invalid"));
        },
    };
    let mut ids: Vec<i64> = Vec::new();
    let mut i: usize = 0;
    while i < items.len()
        invariant
            i <= items@.len(),
            json_get(*arguments, "recipient_account_ids"@) == Some(JsonValue::Array(*items)),
            ids@.len() == i,
            forall|k: int| 0 <= k < i ==> json_i64(items@[k]) == Some(#[trigger] ids@[k]),
        decreases items@.len() - i,
    {
        match items[i].as_i64() {
            Some(id) => ids.push(id),
            None => {
                return Err(HandlerFailure::permanent("status distribution recipient account ID is invalid"));
            },
        }
        i = i + 1;
    }
    proof {
        assert forall|k: int| 0 <= k < items@.len() implies #[trigger] json_i64(items@[k]) is Some by {
            assert(json_i64(items@[k]) == Some(ids@[k]));
        }
        assert(ids@ =~= Seq::new(items@.len(), |k: int| json_i64(items@[k])->0));
    }
    Ok(ids)
}

/// What a status distribution job asks for.
#[derive(Debug)]
pub struct StatusDistributionRequest {
    pub status_id: i64,
    /// The activity to send; `Create` when the job names none.
    pub activity_type: String,
    pub edited_at_micros: Option<i64>,
    pub poll_updated_at_micros: Option<i64>,
    pub quote_updated_at_micros: Option<i64>,
    pub update_kind: Option<String>,
    pub update_version_micros: Option<i64>,
    pub recipient_account_ids: Vec<i64>,
    /// Present exactly for a `QuoteRequest`.
    pub quote_request: Option<QuoteRequestDistribution>,
}

/// The activity type a distribution job names, `Create` by default.
pub open spec fn distribution_activity_type(arguments: JsonValue) -> Seq<char> {
    match json_get_str(arguments, "activity_type"@) {
        Some(t) => t,
        None => "Create"@,
    }
}

/// Why a status distribution job cannot be read: a missing status, invalid explicit
/// recipients, or, for a `QuoteRequest`, an incomplete quote request.
pub open spec fn status_distribution_request_error(arguments: JsonValue) -> Option<Seq<char>> {
    if json_get_i64(arguments, "status_id"@) is None {
        Some("status distribution job is missing its status ID"@)
    } else {
        match recipient_ids_spec(arguments) {
            Err(m) => Some(m),
            Ok(_) => if distribution_activity_type(arguments) == "QuoteRequest"@ {
                match quote_request_distribution_spec(arguments) {
                    Err(m) => Some(m),
                    Ok(_) => None,
                }
            } else {
                None
            },
        }
    }
}

/// A request read faithfully from a distribution job's arguments.
pub open spec fn is_status_distribution_request(request: StatusDistributionRequest, arguments: JsonValue) -> bool {
    &&& Some(request.status_id) == json_get_i64(arguments, "status_id"@)
    &&& request.activity_type@ == distribution_activity_type(arguments)
    &&& request.edited_at_micros == json_get_i64(arguments, "edited_at_micros"@)
    &&& request.poll_updated_at_micros == json_get_i64(arguments, "poll_updated_at_micros"@)
    &&& request.quote_updated_at_micros == json_get_i64(arguments, "quote_updated_at_micros"@)
    &&& opt_string(request.update_kind) == json_get_str(arguments, "update_kind"@)
    &&& request.update_version_micros == json_get_i64(arguments, "update_version_micros"@)
    &&& recipient_ids_spec(arguments) == Ok::<_, Seq<char>>(request.recipient_account_ids@)
    &&& match request.quote_request {
        Some(q) => distribution_activity_type(arguments) == "QuoteRequest"@
            && quote_request_distribution_spec(arguments) == Ok::<_, Seq<char>>(quote_request_view(q)),
        None => distribution_activity_type(arguments) != "QuoteRequest"@,
    }
}

/// Reads a status distribution job; a job that cannot be read fails permanently.
pub fn status_distribution_request(arguments: &JsonValue) -> (r: Result<StatusDistributionRequest, HandlerFailure>)
    ensures
        match status_distribution_request_error(*arguments) {
            Some(m) => r matches Err(f) && permanent_failure(f, m),
            None => r matches Ok(request) && is_status_distribution_request(request, *arguments),
        },
{
    let status_id = require_i64(arguments, "status_id", "status distribution job is missing its status ID")?;
    let activity_type = match arguments.member_str("activity_type") {
        Some(t) => t.to_owned(),
        None => "Create".to_owned(),
    };
    let update_kind = match arguments.member_str("update_kind") {
        Some(k) => Some(k.to_owned()),
        None => None,
    };
    let recipient_account_ids = recipient_ids(arguments)?;
    let quote_request = if str_eq(activity_type.as_str(), "QuoteRequest") {
        Some(quote_request_distribution(arguments)?)
    } else {
        None
    };
    Ok(StatusDistributionRequest {
        status_id,
        activity_type,
        edited_at_micros: arguments.member_i64("edited_at_micros"),
        poll_updated_at_micros: arguments.member_i64("poll_updated_at_micros"),
        quote_updated_at_micros: arguments.member_i64("quote_updated_at_micros"),
        update_kind,
        update_version_micros: arguments.member_i64("update_version_micros"),
        recipient_account_ids,
        quote_request,
    })
}

/// A distribution's explicit recipients are exactly the integers of its array, in order; an
/// absent array names none, and any item that is not an integer refuses the job. Without an
/// activity type the distribution sends a `Create`.
pub proof fn lemma_distribution_recipients(arguments: JsonValue)
    ensures
        json_get(arguments, "recipient_account_ids"@) matches Some(JsonValue::Array(items))
            ==> (recipient_ids_spec(arguments) matches Ok(ids) ==> ids.len() == items@.len()
            && forall|i: int| 0 <= i < ids.len() ==> json_i64(items@[i]) == Some(#[trigger] ids[i])),
        json_get(arguments, "recipient_account_ids"@) is None ==> recipient_ids_spec(arguments)
            == Ok::<Seq<i64>, Seq<char>>(Seq::empty()),
        json_get_str(arguments, "activity_type"@) is None ==> distribution_activity_type(arguments) == "Create"@,
{
}

} // verus!
