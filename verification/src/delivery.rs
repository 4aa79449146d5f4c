use vstd::prelude::*;
use crate::documents::permanent_failure;
use crate::failure::{FailureDisposition, HandlerFailure};
use crate::fetch_failure::{RemoteFetchError, delivery_failure, delivery_failure_spec, failure_is};
use crate::job::opt_string;
use crate::json::{JsonNumber, JsonValue, entries_get, json_get, json_get_i64, json_get_str, opt_text};
use crate::keys::{account_update_delivery_key, account_update_delivery_logical_key, delete_delivery_logical_key,
    delivery_logical_key, status_inbox_key, update_delivery_key, update_delivery_logical_key};
use crate::handler_arguments::QuoteRequestDistribution;
use crate::resolution_jobs::is_opt_string;
use crate::status_update::{StatusUpdateKind, kind_name, opt_json_int};
use crate::poll_expiration::json_int;
use crate::registry::Lane;
use crate::job::JobSpec;
use crate::quote::{QuoteDeliveryIdentity, QuoteDeliveryKind, body_quote_kind, identity_view, quote_delivery_identity, quote_delivery_identity_spec};
use crate::text::{ascii_lower, ascii_lowercase, eq_ignore_ascii_case, push_str, str_eq};
use crate::time::{chrono_parse_from_rfc3339, chrono_rfc3339_micros};
use crate::uri::{parse_url, url_parse};
use crate::resolution::url_host;

verus! {

/// What a delivery job asks for, read from its arguments and activity.
#[derive(Debug)]
pub struct DeliveryRequest {
    pub status_id: Option<i64>,
    pub source_account_id: i64,
    pub inbox_url: String,
    /// The quote request this delivery belongs to, if it is a quote decision or request.
    pub quote_identity: Option<QuoteDeliveryIdentity>,
    pub edited_at_micros: Option<i64>,
    pub poll_updated_at_micros: Option<i64>,
    pub quote_updated_at_micros: Option<i64>,
    pub update_version_micros: Option<i64>,
    pub update_kind: Option<String>,
    /// The activity's `published` time, when it is an RFC 3339 time.
    pub published_version_micros: Option<i64>,
    pub updated_at_micros: Option<i64>,
    pub remote_domain: Option<String>,
    /// The activity's `type`.
    pub activity_type: Option<String>,
    pub is_delete: bool,
    pub is_undo_announce: bool,
}

/// Why a delivery job cannot be carried out at all: a missing source account, inbox URL or
/// activity, an activity that is not an object, or quote metadata that does not match it.
pub open spec fn delivery_request_error(arguments: JsonValue) -> Option<Seq<char>> {
    if json_get_i64(arguments, "source_account_id"@) is None {
        Some("delivery job is missing its source account"@)
    } else if json_get_str(arguments, "inbox_url"@) is None {
        Some("delivery job is missing its inbox URL"@)
    } else {
        match json_get(arguments, "body"@) {
            None => Some("delivery job is missing its activity"@),
            Some(body) => if !(body is Object) {
                Some("delivery job activity must be a JSON object"@)
            } else if quote_delivery_identity_spec(arguments, body) is Err {
                Some("quote delivery metadata does not match its activity"@)
            } else {
                None
            },
        }
    }
}

/// The view of an optional integer as a mathematical integer.
pub open spec fn opt_int(value: Option<i64>) -> Option<int> {
    match value {
        Some(v) => Some(v as int),
        None => None,
    }
}

/// The `published` time of an activity, as chrono's RFC 3339 parser reads it.
pub open spec fn published_micros(body: JsonValue) -> Option<int> {
    match json_get_str(body, "published"@) {
        Some(text) => chrono_rfc3339_micros(text),
        None => None,
    }
}

/// Whether an activity is an `Undo` of an `Announce`.
pub open spec fn undoes_announce(body: JsonValue) -> bool {
    json_get_str(body, "type"@) == Some("Undo"@) && match json_get(body, "object"@) {
        Some(object) => json_get_str(object, "type"@) == Some("Announce"@),
        None => false,
    }
}

/// A request read faithfully from the arguments and their activity `body`.
pub open spec fn is_delivery_request(request: DeliveryRequest, arguments: JsonValue, body: JsonValue) -> bool {
    &&& request.status_id == json_get_i64(arguments, "status_id"@)
    &&& Some(request.source_account_id) == json_get_i64(arguments, "source_account_id"@)
    &&& Some(request.inbox_url@) == json_get_str(arguments, "inbox_url"@)
    &&& quote_delivery_identity_spec(arguments, body) == Ok::<_, ()>(match request.quote_identity {
        Some(i) => Some(identity_view(i)),
        None => None,
    })
    &&& request.edited_at_micros == json_get_i64(arguments, "edited_at_micros"@)
    &&& request.poll_updated_at_micros == json_get_i64(arguments, "poll_updated_at_micros"@)
    &&& request.quote_updated_at_micros == json_get_i64(arguments, "quote_updated_at_micros"@)
    &&& request.update_version_micros == json_get_i64(arguments, "update_version_micros"@)
    &&& opt_string(request.update_kind) == json_get_str(arguments, "update_kind"@)
    &&& opt_int(request.published_version_micros) == published_micros(body)
    &&& request.updated_at_micros == json_get_i64(arguments, "updated_at_micros"@)
    &&& opt_string(request.remote_domain) == json_get_str(arguments, "remote_domain"@)
    &&& opt_string(request.activity_type) == json_get_str(body, "type"@)
    &&& request.is_delete == (json_get_str(body, "type"@) == Some("Delete"@))
    &&& request.is_undo_announce == undoes_announce(body)
}

fn opt_owned(value: Option<&str>) -> (owned: Option<String>)
    ensures
        opt_string(owned) == opt_text(value),
{
    match value {
        Some(v) => Some(v.to_owned()),
        None => None,
    }
}

fn opt_is(value: Option<&str>, expected: &str) -> (r: bool)
    ensures
        r == (opt_text(value) == Some(expected@)),
{
    match value {
        Some(v) => str_eq(v, expected),
        None => false,
    }
}

/// Reads a delivery job; a job that cannot be delivered fails permanently.
pub fn parse_delivery_request(arguments: &JsonValue) -> (r: Result<DeliveryRequest, HandlerFailure>)
    ensures
        match delivery_request_error(*arguments) {
            Some(m) => r matches Err(f) && permanent_failure(f, m),
            None => r matches Ok(request) && json_get(*arguments, "body"@) matches Some(body)
                && is_delivery_request(request, *arguments, body),
        },
{
    let status_id = arguments.member_i64("status_id");
    let source_account_id = match arguments.member_i64("source_account_id") {
        Some(id) => id,
        None => {
            return Err(HandlerFailure::permanent("delivery job is missing its source account"));
        },
    };
    let inbox_url = match arguments.member_str("inbox_url") {
        Some(url) => url,
        None => {
            return Err(HandlerFailure::permanent("delivery job is missing its inbox URL"));
        },
    };
    let body = match arguments.get("body") {
        Some(body) => body,
        None => {
            return Err(HandlerFailure::permanent("delivery job is missing its activity"));
        },
    };
    match body {
        JsonValue::Object(_) => {},
        _ => {
            return Err(HandlerFailure::permanent("delivery job activity must be a JSON object"));
        },
    }
    let quote_identity = match quote_delivery_identity(arguments, body) {
        Ok(identity) => identity,
        Err(()) => {
            return Err(HandlerFailure::permanent("quote delivery metadata does not match its activity"));
        },
    };
    let published_version_micros = match body.member_str("published") {
        Some(text) => chrono_parse_from_rfc3339(text),
        None => None,
    };
    let activity_type = body.member_str("type");
    proof {
        reveal_strlit("Delete");
        reveal_strlit("Undo");
        reveal_strlit("Announce");
    }
    let is_delete = opt_is(activity_type, "Delete");
    let is_undo_announce = opt_is(activity_type, "Undo") && match body.get("object") {
        Some(object) => opt_is(object.member_str("type"), "Announce"),
        None => false,
    };
    Ok(DeliveryRequest {
        status_id,
        source_account_id,
        inbox_url: inbox_url.to_owned(),
        quote_identity,
        edited_at_micros: arguments.member_i64("edited_at_micros"),
        poll_updated_at_micros: arguments.member_i64("poll_updated_at_micros"),
        quote_updated_at_micros: arguments.member_i64("quote_updated_at_micros"),
        update_version_micros: arguments.member_i64("update_version_micros"),
        update_kind: opt_owned(arguments.member_str("update_kind")),
        published_version_micros,
        updated_at_micros: arguments.member_i64("updated_at_micros"),
        remote_domain: opt_owned(arguments.member_str("remote_domain")),
        activity_type: opt_owned(activity_type),
        is_delete,
        is_undo_announce,
    })
}

/// The domain a delivery goes to: the inbox URL's host in ASCII lower case; an inbox URL
/// that does not parse, or has no host, fails permanently.
pub open spec fn inbox_domain_spec(inbox_url: Seq<char>) -> Result<Seq<char>, Seq<char>> {
    match url_parse(inbox_url) {
        None => Err("delivery inbox URL is invalid"@),
        Some((_, None, _)) => Err("delivery inbox URL has no host"@),
        Some((_, Some(host), _)) => Ok(host.map_values(|c: char| ascii_lower(c))),
    }
}

/// Reads the domain a delivery goes to from its inbox URL.
pub fn delivery_inbox_domain(inbox_url: &str) -> (r: Result<String, HandlerFailure>)
    ensures
        match inbox_domain_spec(inbox_url@) {
            Ok(domain) => r matches Ok(d) && d@ == domain,
            Err(m) => r matches Err(f) && permanent_failure(f, m),
        },
{
    let parts = match parse_url(inbox_url) {
        Some(p) => p,
        None => {
            return Err(HandlerFailure::permanent("delivery inbox URL is invalid"));
        },
    };
    match &parts.host {
        Some(host) => Ok(ascii_lowercase(host.as_str())),
        None => Err(HandlerFailure::permanent("delivery inbox URL has no host")),
    }
}

/// How a failed delivery ends: the classified failure, and whether the domain's health
/// records the failure (a retried failure that did not merely exhaust the domain budget).
pub fn delivery_failure_outcome(
    error: &RemoteFetchError,
    source_account_permanently_unavailable: bool,
) -> (outcome: (HandlerFailure, bool))
    ensures
        failure_is(
            outcome.0,
            delivery_failure_spec(*error, source_account_permanently_unavailable).0,
            delivery_failure_spec(*error, source_account_permanently_unavailable).1,
        ),
        outcome.1 == (delivery_failure_spec(*error, source_account_permanently_unavailable).0 == FailureDisposition::Retry
            && !(*error is DomainBudgetExceeded)),
{
    let failure = delivery_failure(error, source_account_permanently_unavailable);
    let budget_exhausted = match error {
        RemoteFetchError::DomainBudgetExceeded => true,
        _ => false,
    };
    let record = failure.disposition == FailureDisposition::Retry && !budget_exhausted;
    (failure, record)
}

/// Which relationship a delivery's activity must still exist for.
#[derive(Debug)]
pub enum RelationshipCheck {
    /// Nothing to check: deliver.
    Unchecked,
    /// A `Follow` is delivered while the follow or follow request with this URI exists.
    Follow(String),
    /// A `Block` is delivered while the block with this URI exists.
    Block(String),
}

/// A `Follow` or `Block` with an ID is delivered only while its relationship exists;
/// any other activity needs no check.
pub open spec fn relationship_check_spec(body: JsonValue) -> Option<(bool, Seq<char>)> {
    match (json_get_str(body, "type"@), json_get_str(body, "id"@)) {
        (Some(t), Some(id)) => if t == "Follow"@ {
            Some((true, id))
        } else if t == "Block"@ {
            Some((false, id))
        } else {
            None
        },
        _ => None,
    }
}

/// Whether an account deletion may still be delivered, given the account's row as
/// `(domain, suspended_at)`: only a local account that still exists and is suspended.
pub fn account_delete_delivery_is_current(account: Option<(Option<&str>, Option<i64>)>) -> (r: bool)
    ensures
        r == (account matches Some((None, Some(_)))),
{
    match account {
        Some((None, Some(_))) => true,
        _ => false,
    }
}

/// The relationship a delivery's activity depends on.
pub fn relationship_delivery_check(body: &JsonValue) -> (check: RelationshipCheck)
    ensures
        match relationship_check_spec(*body) {
            None => check is Unchecked,
            Some((true, id)) => check matches RelationshipCheck::Follow(uri) && uri@ == id,
            Some((false, id)) => check matches RelationshipCheck::Block(uri) && uri@ == id,
        },
{
    let activity_type = match body.member_str("type") {
        Some(t) => t,
        None => {
            return RelationshipCheck::Unchecked;
        },
    };
    let activity_uri = match body.member_str("id") {
        Some(id) => id,
        None => {
            return RelationshipCheck::Unchecked;
        },
    };
    if str_eq(activity_type, "Follow") {
        RelationshipCheck::Follow(activity_uri.to_owned())
    } else if str_eq(activity_type, "Block") {
        RelationshipCheck::Block(activity_uri.to_owned())
    } else {
        RelationshipCheck::Unchecked
    }
}

/// The job kind that delivers an activity to one inbox.
pub open spec fn delivery_kind() -> Seq<char> {
    "rustodon.activitypub.deliver"@
}

/// The delivery of an account's Update to one inbox: the push lane, the delivery kind, the
/// account, inbox, policy domain, activity and version, keyed per account, activity,
/// version and inbox.
pub open spec fn is_account_update_delivery_job(
    job: JobSpec,
    account_id: i64,
    inbox_url: Seq<char>,
    remote_domain: Seq<char>,
    body: JsonValue,
    activity_id: Seq<char>,
    updated_at_micros: i64,
) -> bool {
    &&& job.lane == Lane::Push
    &&& job.kind@ == delivery_kind()
    &&& job.arguments is Object
    &&& json_get(job.arguments, "source_account_id"@) == Some(json_int(account_id))
    &&& json_get_str(job.arguments, "inbox_url"@) == Some(inbox_url)
    &&& json_get_str(job.arguments, "remote_domain"@) == Some(remote_domain)
    &&& json_get(job.arguments, "body"@) == Some(body)
    &&& json_get_str(job.arguments, "activity_type"@) == Some("AccountUpdate"@)
    &&& json_get(job.arguments, "updated_at_micros"@) == Some(json_int(updated_at_micros))
    &&& json_get(job.arguments, "status_id"@) is None
    &&& json_get(job.arguments, "quote_delivery_kind"@) is None
    &&& opt_string(job.logical_key) == Some(account_update_delivery_key(account_id, activity_id, updated_at_micros, inbox_url))
    &&& job.max_attempts is None
}

proof fn lemma_account_update_members(m: Seq<(String, JsonValue)>)
    requires
        m.len() == 6,
        m[0].0@ == "source_account_id"@,
        m[1].0@ == "inbox_url"@,
        m[2].0@ == "remote_domain"@,
        m[3].0@ == "body"@,
        m[4].0@ == "activity_type"@,
        m[5].0@ == "updated_at_micros"@,
        "source_account_id"@ =~= seq!['s','o','u','r','c','e','_','a','c','c','o','u','n','t','_','i','d'],
        "inbox_url"@ =~= seq!['i','n','b','o','x','_','u','r','l'],
        "remote_domain"@ =~= seq!['r','e','m','o','t','e','_','d','o','m','a','i','n'],
        "body"@ =~= seq!['b','o','d','y'],
        "activity_type"@ =~= seq!['a','c','t','i','v','i','t','y','_','t','y','p','e'],
        "updated_at_micros"@ =~= seq!['u','p','d','a','t','e','d','_','a','t','_','m','i','c','r','o','s'],
        "status_id"@ =~= seq!['s','t','a','t','u','s','_','i','d'],
        "quote_delivery_kind"@ =~= seq!['q','u','o','t','e','_','d','e','l','i','v','e','r','y','_','k','i','n','d'],
    ensures
        entries_get(m, "source_account_id"@) == Some(m[0].1),
        entries_get(m, "inbox_url"@) == Some(m[1].1),
        entries_get(m, "remote_domain"@) == Some(m[2].1),
        entries_get(m, "body"@) == Some(m[3].1),
        entries_get(m, "activity_type"@) == Some(m[4].1),
        entries_get(m, "updated_at_micros"@) == Some(m[5].1),
        entries_get(m, "status_id"@) is None,
        entries_get(m, "quote_delivery_kind"@) is None,
{
    let m1 = m.drop_first();
    let m2 = m1.drop_first();
    let m3 = m2.drop_first();
    let m4 = m3.drop_first();
    let m5 = m4.drop_first();
    let m6 = m5.drop_first();
    assert(m1[0] == m[1] && m2[0] == m[2] && m3[0] == m[3] && m4[0] == m[4] && m5[0] == m[5]);
    assert(m6.len() == 0);
    reveal_with_fuel(entries_get, 7);
}

/// The delivery of an account's Update to one inbox.
pub fn account_update_delivery_job(
    account_id: i64,
    inbox_url: &str,
    remote_domain: &str,
    body: JsonValue,
    activity_id: &str,
    updated_at_micros: i64,
) -> (job: JobSpec)
    ensures
        is_account_update_delivery_job(job, account_id, inbox_url@, remote_domain@, body, activity_id@, updated_at_micros),
{
    let ghost activity = body;
    let mut members: Vec<(String, JsonValue)> = Vec::new();
    members.push(("source_account_id".to_owned(), JsonValue::Number(JsonNumber::Int(account_id))));
    members.push(("inbox_url".to_owned(), JsonValue::String(inbox_url.to_owned())));
    members.push(("remote_domain".to_owned(), JsonValue::String(remote_domain.to_owned())));
    members.push(("body".to_owned(), body));
    members.push(("activity_type".to_owned(), JsonValue::String("AccountUpdate".to_owned())));
    members.push(("updated_at_micros".to_owned(), JsonValue::Number(JsonNumber::Int(updated_at_micros))));
    proof {
        reveal_strlit("source_account_id");
        reveal_strlit("inbox_url");
        reveal_strlit("remote_domain");
        reveal_strlit("body");
        reveal_strlit("activity_type");
        reveal_strlit("updated_at_micros");
        reveal_strlit("status_id");
        reveal_strlit("quote_delivery_kind");
        lemma_account_update_members(members@);
        assert(members@[3].1 == activity);
    }
    let key = account_update_delivery_logical_key(account_id, activity_id, updated_at_micros, inbox_url);
    JobSpec::new(Lane::Push, "rustodon.activitypub.deliver", JsonValue::Object(members)).logical_key(key)
}

/// An account Update's delivery reads back as distributed: its account, inbox, policy
/// domain, version and activity, when the activity is an object that is no quote decision.
pub proof fn lemma_account_update_delivery_round_trip(
    job: JobSpec,
    account_id: i64,
    inbox_url: Seq<char>,
    remote_domain: Seq<char>,
    body: JsonValue,
    activity_id: Seq<char>,
    updated_at_micros: i64,
)
    requires
        is_account_update_delivery_job(job, account_id, inbox_url, remote_domain, body, activity_id, updated_at_micros),
        body is Object,
        body_quote_kind(body) is None,
    ensures
        delivery_request_error(job.arguments) is None,
        forall|request: DeliveryRequest| #[trigger] is_delivery_request(request, job.arguments, body) ==> {
            &&& request.source_account_id == account_id
            &&& request.inbox_url@ == inbox_url
            &&& opt_string(request.remote_domain) == Some(remote_domain)
            &&& request.updated_at_micros == Some(updated_at_micros)
            &&& request.status_id is None
            &&& request.quote_identity is None
        },
{
}

/// The singleton key of a status delivery to one inbox: per status and inbox for a Create or
/// Delete, per status, activity, version and inbox for an Update, per activity and inbox
/// for a QuoteRequest.
pub open spec fn status_delivery_key(
    activity_type: Seq<char>,
    status_id: i64,
    activity_id: Seq<char>,
    update_version: Option<i64>,
    inbox_url: Seq<char>,
) -> Seq<char> {
    if activity_type == "Create"@ {
        status_inbox_key(status_id, "deliver"@, inbox_url)
    } else if activity_type == "Update"@ {
        update_delivery_key(status_id, activity_id, update_version->0, inbox_url)
    } else if activity_type == "Delete"@ {
        status_inbox_key(status_id, "delete"@, inbox_url)
    } else {
        "activitypub:quote-request:"@ + activity_id + ":"@ + inbox_url
    }
}

/// The delivery of a status activity to one inbox: the push lane, the delivery kind, the
/// status, its author, the inbox and its policy domain, the activity, the update kind (for
/// an Update) and snapshot versions, and, for a QuoteRequest, the quote it belongs to.
pub open spec fn is_status_delivery_job(
    job: JobSpec,
    activity_type: Seq<char>,
    status_id: i64,
    source_account_id: i64,
    inbox_url: Seq<char>,
    remote_domain: Seq<char>,
    body: JsonValue,
    activity_id: Seq<char>,
    update_kind: StatusUpdateKind,
    update_version: Option<i64>,
    edited_at: Option<i64>,
    poll_updated_at: Option<i64>,
    quote_updated_at: Option<i64>,
    quote_request: Option<(i64, Seq<char>, i64)>,
) -> bool {
    let is_update = activity_type == "Update"@;
    let is_quote_request = activity_type == "QuoteRequest"@;
    &&& job.lane == Lane::Push
    &&& job.kind@ == delivery_kind()
    &&& job.arguments is Object
    &&& json_get(job.arguments, "status_id"@) == Some(json_int(status_id))
    &&& json_get(job.arguments, "source_account_id"@) == Some(json_int(source_account_id))
    &&& json_get_str(job.arguments, "inbox_url"@) == Some(inbox_url)
    &&& json_get(job.arguments, "body"@) == Some(body)
    &&& json_get_str(job.arguments, "activity_type"@) == Some(activity_type)
    &&& json_get(job.arguments, "update_kind"@) matches Some(k)
        && is_opt_string(k, if is_update { Some(kind_name(update_kind)) } else { None })
    &&& json_get(job.arguments, "update_version_micros"@) == Some(opt_json_int(update_version))
    &&& json_get(job.arguments, "edited_at_micros"@) == Some(opt_json_int(edited_at))
    &&& json_get(job.arguments, "poll_updated_at_micros"@) == Some(opt_json_int(poll_updated_at))
    &&& json_get(job.arguments, "quote_updated_at_micros"@) == Some(opt_json_int(quote_updated_at))
    &&& json_get(job.arguments, "quote_delivery_kind"@) matches Some(k)
        && is_opt_string(k, if is_quote_request { Some("request"@) } else { None })
    &&& json_get(job.arguments, "quote_request_uri"@) matches Some(u)
        && is_opt_string(u, match quote_request { Some((_, uri, _)) => Some(uri), None => None })
    &&& json_get(job.arguments, "quote_id"@) == Some(opt_json_int(match quote_request {
        Some((quote_id, _, _)) => Some(quote_id),
        None => None,
    }))
    &&& json_get(job.arguments, "quoting_status_id"@) == Some(opt_json_int(if is_quote_request { Some(status_id) } else { None }))
    &&& json_get(job.arguments, "quoted_status_id"@) == Some(opt_json_int(match quote_request {
        Some((_, _, quoted)) => Some(quoted),
        None => None,
    }))
    &&& json_get_str(job.arguments, "remote_domain"@) == Some(remote_domain)
    &&& json_get(job.arguments, "updated_at_micros"@) is None
    &&& opt_string(job.logical_key) == Some(status_delivery_key(activity_type, status_id, activity_id, update_version, inbox_url))
    &&& job.max_attempts is None
}

proof fn lemma_status_delivery_members(m: Seq<(String, JsonValue)>)
    requires
        m.len() == 16,
        m[0].0@ == "status_id"@,
        m[1].0@ == "source_account_id"@,
        m[2].0@ == "inbox_url"@,
        m[3].0@ == "body"@,
        m[4].0@ == "activity_type"@,
        m[5].0@ == "update_kind"@,
        m[6].0@ == "update_version_micros"@,
        m[7].0@ == "edited_at_micros"@,
        m[8].0@ == "poll_updated_at_micros"@,
        m[9].0@ == "quote_updated_at_micros"@,
        m[10].0@ == "quote_delivery_kind"@,
        m[11].0@ == "quote_request_uri"@,
        m[12].0@ == "quote_id"@,
        m[13].0@ == "quoting_status_id"@,
        m[14].0@ == "quoted_status_id"@,
        m[15].0@ == "remote_domain"@,
        "status_id"@ =~= seq!['s','t','a','t','u','s','_','i','d'],
        "source_account_id"@ =~= seq!['s','o','u','r','c','e','_','a','c','c','o','u','n','t','_','i','d'],
        "inbox_url"@ =~= seq!['i','n','b','o','x','_','u','r','l'],
        "body"@ =~= seq!['b','o','d','y'],
        "activity_type"@ =~= seq!['a','c','t','i','v','i','t','y','_','t','y','p','e'],
        "update_kind"@ =~= seq!['u','p','d','a','t','e','_','k','i','n','d'],
        "update_version_micros"@ =~= seq!['u','p','d','a','t','e','_','v','e','r','s','i','o','n','_','m','i','c','r','o','s'],
        "edited_at_micros"@ =~= seq!['e','d','i','t','e','d','_','a','t','_','m','i','c','r','o','s'],
        "poll_updated_at_micros"@ =~= seq!['p','o','l','l','_','u','p','d','a','t','e','d','_','a','t','_','m','i','c','r','o','s'],
        "quote_updated_at_micros"@ =~= seq!['q','u','o','t','e','_','u','p','d','a','t','e','d','_','a','t','_','m','i','c','r','o','s'],
        "quote_delivery_kind"@ =~= seq!['q','u','o','t','e','_','d','e','l','i','v','e','r','y','_','k','i','n','d'],
        "quote_request_uri"@ =~= seq!['q','u','o','t','e','_','r','e','q','u','e','s','t','_','u','r','i'],
        "quote_id"@ =~= seq!['q','u','o','t','e','_','i','d'],
        "quoting_status_id"@ =~= seq!['q','u','o','t','i','n','g','_','s','t','a','t','u','s','_','i','d'],
        "quoted_status_id"@ =~= seq!['q','u','o','t','e','d','_','s','t','a','t','u','s','_','i','d'],
        "remote_domain"@ =~= seq!['r','e','m','o','t','e','_','d','o','m','a','i','n'],
        "updated_at_micros"@ =~= seq!['u','p','d','a','t','e','d','_','a','t','_','m','i','c','r','o','s'],
    ensures
        entries_get(m, "status_id"@) == Some(m[0].1),
        entries_get(m, "source_account_id"@) == Some(m[1].1),
        entries_get(m, "inbox_url"@) == Some(m[2].1),
        entries_get(m, "body"@) == Some(m[3].1),
        entries_get(m, "activity_type"@) == Some(m[4].1),
        entries_get(m, "update_kind"@) == Some(m[5].1),
        entries_get(m, "update_version_micros"@) == Some(m[6].1),
        entries_get(m, "edited_at_micros"@) == Some(m[7].1),
        entries_get(m, "poll_updated_at_micros"@) == Some(m[8].1),
        entries_get(m, "quote_updated_at_micros"@) == Some(m[9].1),
        entries_get(m, "quote_delivery_kind"@) == Some(m[10].1),
        entries_get(m, "quote_request_uri"@) == Some(m[11].1),
        entries_get(m, "quote_id"@) == Some(m[12].1),
        entries_get(m, "quoting_status_id"@) == Some(m[13].1),
        entries_get(m, "quoted_status_id"@) == Some(m[14].1),
        entries_get(m, "remote_domain"@) == Some(m[15].1),
        entries_get(m, "updated_at_micros"@) is None,
{
    assert("update_kind"@[7] != "update_version_micros"@[7]);
    assert("quote_request_uri"@[4] != "quoting_status_id"@[4]);
    assert("quote_request_uri"@[0] != "source_account_id"@[0]);
    assert("edited_at_micros"@[0] != "quoted_status_id"@[0]);
    assert("activity_type"@[0] != "remote_domain"@[0]);
    assert("status_id"@[0] != "inbox_url"@[0]);
    assert("updated_at_micros"@[0] != "source_account_id"@[0]);
    assert("updated_at_micros"@[1] != "quote_request_uri"@[1]);
    assert("updated_at_micros"@[1] != "quoting_status_id"@[1]);
    let m1 = m.drop_first();
    let m2 = m1.drop_first();
    let m3 = m2.drop_first();
    let m4 = m3.drop_first();
    let m5 = m4.drop_first();
    let m6 = m5.drop_first();
    let m7 = m6.drop_first();
    let m8 = m7.drop_first();
    let m9 = m8.drop_first();
    let m10 = m9.drop_first();
    let m11 = m10.drop_first();
    let m12 = m11.drop_first();
    let m13 = m12.drop_first();
    let m14 = m13.drop_first();
    let m15 = m14.drop_first();
    let m16 = m15.drop_first();
    assert(m1[0] == m[1] && m2[0] == m[2] && m3[0] == m[3] && m4[0] == m[4] && m5[0] == m[5]);
    assert(m6[0] == m[6] && m7[0] == m[7] && m8[0] == m[8] && m9[0] == m[9] && m10[0] == m[10]);
    assert(m11[0] == m[11] && m12[0] == m[12] && m13[0] == m[13] && m14[0] == m[14] && m15[0] == m[15]);
    assert(m16.len() == 0);
    reveal_with_fuel(entries_get, 17);
}

fn opt_i64_value(value: Option<i64>) -> (v: JsonValue)
    ensures
        v == opt_json_int(value),
{
    match value {
        Some(i) => JsonValue::Number(JsonNumber::Int(i)),
        None => JsonValue::Null,
    }
}

/// The delivery of a status activity (Create, Update, Delete or QuoteRequest) to one inbox.
/// An Update carries the version it publishes.
pub fn status_delivery_job(
    activity_type: &str,
    status_id: i64,
    source_account_id: i64,
    inbox_url: &str,
    remote_domain: &str,
    body: JsonValue,
    activity_id: &str,
    update_kind: StatusUpdateKind,
    update_version_micros: Option<i64>,
    edited_at_micros: Option<i64>,
    poll_updated_at_micros: Option<i64>,
    quote_updated_at_micros: Option<i64>,
    quote_request: Option<&QuoteRequestDistribution>,
) -> (job: JobSpec)
    requires
        activity_type@ == "Create"@ || activity_type@ == "Update"@ || activity_type@ == "Delete"@
            || activity_type@ == "QuoteRequest"@,
        activity_type@ == "Update"@ ==> update_version_micros is Some,
    ensures
        is_status_delivery_job(job, activity_type@, status_id, source_account_id, inbox_url@, remote_domain@, body,
            activity_id@, update_kind, update_version_micros, edited_at_micros, poll_updated_at_micros,
            quote_updated_at_micros, match quote_request {
                Some(q) => Some((q.quote_id, q.request_uri@, q.quoted_status_id)),
                None => None,
            }),
{
    let ghost activity = body;
    let is_update = str_eq(activity_type, "Update");
    let is_quote_request = str_eq(activity_type, "QuoteRequest");
    let mut members: Vec<(String, JsonValue)> = Vec::new();
    members.push(("status_id".to_owned(), JsonValue::Number(JsonNumber::Int(status_id))));
    members.push(("source_account_id".to_owned(), JsonValue::Number(JsonNumber::Int(source_account_id))));
    members.push(("inbox_url".to_owned(), JsonValue::String(inbox_url.to_owned())));
    members.push(("body".to_owned(), body));
    members.push(("activity_type".to_owned(), JsonValue::String(activity_type.to_owned())));
    members.push((
        "update_kind".to_owned(),
        if is_update { JsonValue::String(update_kind.as_str().to_owned()) } else { JsonValue::Null },
    ));
    members.push(("update_version_micros".to_owned(), opt_i64_value(update_version_micros)));
    members.push(("edited_at_micros".to_owned(), opt_i64_value(edited_at_micros)));
    members.push(("poll_updated_at_micros".to_owned(), opt_i64_value(poll_updated_at_micros)));
    members.push(("quote_updated_at_micros".to_owned(), opt_i64_value(quote_updated_at_micros)));
    members.push((
        "quote_delivery_kind".to_owned(),
        if is_quote_request { JsonValue::String("request".to_owned()) } else { JsonValue::Null },
    ));
    members.push((
        "quote_request_uri".to_owned(),
        match quote_request {
            Some(q) => JsonValue::String(q.request_uri.clone()),
            None => JsonValue::Null,
        },
    ));
    members.push((
        "quote_id".to_owned(),
        opt_i64_value(match quote_request {
            Some(q) => Some(q.quote_id),
            None => None,
        }),
    ));
    members.push((
        "quoting_status_id".to_owned(),
        opt_i64_value(if is_quote_request { Some(status_id) } else { None }),
    ));
    members.push((
        "quoted_status_id".to_owned(),
        opt_i64_value(match quote_request {
            Some(q) => Some(q.quoted_status_id),
            None => None,
        }),
    ));
    members.push(("remote_domain".to_owned(), JsonValue::String(remote_domain.to_owned())));
    proof {
        reveal_strlit("status_id");
        reveal_strlit("source_account_id");
        reveal_strlit("inbox_url");
        reveal_strlit("body");
        reveal_strlit("activity_type");
        reveal_strlit("update_kind");
        reveal_strlit("update_version_micros");
        reveal_strlit("edited_at_micros");
        reveal_strlit("poll_updated_at_micros");
        reveal_strlit("quote_updated_at_micros");
        reveal_strlit("quote_delivery_kind");
        reveal_strlit("quote_request_uri");
        reveal_strlit("quote_id");
        reveal_strlit("quoting_status_id");
        reveal_strlit("quoted_status_id");
        reveal_strlit("remote_domain");
        reveal_strlit("updated_at_micros");
        reveal_strlit("request");
        lemma_status_delivery_members(members@);
        assert(members@[3].1 == activity);
    }
    let key = if str_eq(activity_type, "Create") {
        delivery_logical_key(status_id, inbox_url)
    } else if is_update {
        match update_version_micros {
            Some(version) => update_delivery_logical_key(status_id, activity_id, version, inbox_url),
            None => delivery_logical_key(status_id, inbox_url),
        }
    } else if str_eq(activity_type, "Delete") {
        delete_delivery_logical_key(status_id, inbox_url)
    } else {
        let mut key = String::new();
        push_str(&mut key, "activitypub:quote-request:");
        push_str(&mut key, activity_id);
        push_str(&mut key, ":");
        push_str(&mut key, inbox_url);
        key
    };
    JobSpec::new(Lane::Push, "rustodon.activitypub.deliver", JsonValue::Object(members)).logical_key(key)
}

/// A status delivery reads back as distributed: its status, author, inbox, policy domain,
/// update kind and snapshot versions, and the quote request it belongs to, when its activity
/// is an object whose quote kind matches (a QuoteRequest with the request's non-empty URI
/// as ID exactly for a QuoteRequest delivery).
pub proof fn lemma_status_delivery_round_trip(
    job: JobSpec,
    activity_type: Seq<char>,
    status_id: i64,
    source_account_id: i64,
    inbox_url: Seq<char>,
    remote_domain: Seq<char>,
    body: JsonValue,
    activity_id: Seq<char>,
    update_kind: StatusUpdateKind,
    update_version: Option<i64>,
    edited_at: Option<i64>,
    poll_updated_at: Option<i64>,
    quote_updated_at: Option<i64>,
    quote_request: Option<(i64, Seq<char>, i64)>,
)
    requires
        is_status_delivery_job(job, activity_type, status_id, source_account_id, inbox_url, remote_domain, body,
            activity_id, update_kind, update_version, edited_at, poll_updated_at, quote_updated_at, quote_request),
        body is Object,
        activity_type != "QuoteRequest"@ ==> body_quote_kind(body) is None,
        activity_type == "QuoteRequest"@ ==> (quote_request matches Some((_, uri, _))
            && body_quote_kind(body) == Some(QuoteDeliveryKind::Request)
            && json_get_str(body, "id"@) == Some(uri) && uri.len() > 0),
    ensures
        delivery_request_error(job.arguments) is None,
        forall|request: DeliveryRequest| #[trigger] is_delivery_request(request, job.arguments, body) ==> {
            &&& request.status_id == Some(status_id)
            &&& request.source_account_id == source_account_id
            &&& request.inbox_url@ == inbox_url
            &&& opt_string(request.remote_domain) == Some(remote_domain)
            &&& opt_string(request.update_kind) == (if activity_type == "Update"@ { Some(kind_name(update_kind)) } else { None })
            &&& request.update_version_micros == update_version
            &&& request.edited_at_micros == edited_at
            &&& request.poll_updated_at_micros == poll_updated_at
            &&& request.quote_updated_at_micros == quote_updated_at
            &&& request.updated_at_micros is None
            &&& match request.quote_identity {
                None => activity_type != "QuoteRequest"@,
                Some(identity) => activity_type == "QuoteRequest"@ && (quote_request matches Some((quote_id, uri, quoted))
                    && identity_view(identity) == (QuoteDeliveryKind::Request, uri, Some(quote_id), Some(status_id), quoted)),
            }
        },
{
    reveal_strlit("request");
    reveal_strlit("accept");
    reveal_strlit("reject");
    assert("request"@ != "accept"@ && "request"@ != "reject"@) by {
        assert("request"@[0] != "accept"@[0]);
        assert("request"@[2] != "reject"@[2]);
    }
}

/// The answer a local account sends to a remote Follow.
#[derive(Clone, Copy, Debug, PartialEq, Eq, Structural)]
pub enum FollowReply {
    Accept,
    Reject,
}

/// Where the answer to a remote Follow goes: the follower must be remote and the followed
/// account local; the follower's personal inbox is preferred to its shared one, and one of
/// them must exist. The result is the inbox and the follower's domain.
pub open spec fn follow_reply_route_spec(
    reply: FollowReply,
    source_domain: Option<Seq<char>>,
    target_is_local: bool,
    inbox_url: Seq<char>,
    shared_inbox_url: Seq<char>,
) -> Result<(Seq<char>, Seq<char>), Seq<char>> {
    match source_domain {
        Some(domain) if target_is_local => {
            let inbox = if inbox_url.len() == 0 { shared_inbox_url } else { inbox_url };
            if inbox.len() == 0 {
                Err("remote Follow source has no inbox"@)
            } else {
                Ok((inbox, domain))
            }
        },
        _ => Err(match reply {
            FollowReply::Accept => "remote Follow acceptance accounts are not local/remote"@,
            FollowReply::Reject => "remote Follow rejection accounts are not local/remote"@,
        }),
    }
}

/// Routes the answer to a remote Follow.
pub fn follow_reply_route(
    reply: FollowReply,
    source_domain: Option<&str>,
    target_is_local: bool,
    inbox_url: &str,
    shared_inbox_url: &str,
) -> (r: Result<(String, String), HandlerFailure>)
    ensures
        match follow_reply_route_spec(reply, opt_text(source_domain), target_is_local, inbox_url@, shared_inbox_url@) {
            Ok((inbox, domain)) => r matches Ok((i, d)) && i@ == inbox && d@ == domain,
            Err(m) => r matches Err(f) && permanent_failure(f, m),
        },
{
    let domain = match source_domain {
        Some(d) if target_is_local => d,
        _ => {
            return Err(HandlerFailure::permanent(match reply {
                FollowReply::Accept => "remote Follow acceptance accounts are not local/remote",
                FollowReply::Reject => "remote Follow rejection accounts are not local/remote",
            }));
        },
    };
    let inbox = if inbox_url.is_empty() { shared_inbox_url } else { inbox_url };
    if inbox.is_empty() {
        return Err(HandlerFailure::permanent("remote Follow source has no inbox"));
    }
    Ok((inbox.to_owned(), domain.to_owned()))
}

/// A Follow reply goes to the follower's personal inbox when it has one and to its shared
/// inbox otherwise, tagged with the follower's domain; it needs a remote follower, a local
/// followee and some inbox.
pub proof fn lemma_follow_reply_route(
    reply: FollowReply,
    source_domain: Option<Seq<char>>,
    target_is_local: bool,
    inbox_url: Seq<char>,
    shared_inbox_url: Seq<char>,
)
    ensures
        follow_reply_route_spec(reply, source_domain, target_is_local, inbox_url, shared_inbox_url) matches Ok((inbox, domain))
            ==> source_domain == Some(domain) && target_is_local && inbox.len() > 0
            && (inbox == inbox_url || (inbox_url.len() == 0 && inbox == shared_inbox_url)),
        (source_domain is Some && target_is_local && inbox_url.len() > 0) ==> follow_reply_route_spec(reply,
            source_domain, target_is_local, inbox_url, shared_inbox_url) == Ok::<(Seq<char>, Seq<char>), Seq<char>>(
            (inbox_url, source_domain->0)),
        (source_domain is Some && target_is_local && inbox_url.len() == 0 && shared_inbox_url.len() > 0)
            ==> follow_reply_route_spec(reply, source_domain, target_is_local, inbox_url, shared_inbox_url)
            == Ok::<(Seq<char>, Seq<char>), Seq<char>>((shared_inbox_url, source_domain->0)),
        (source_domain is Some && target_is_local && inbox_url.len() == 0 && shared_inbox_url.len() == 0)
            ==> follow_reply_route_spec(reply, source_domain, target_is_local, inbox_url, shared_inbox_url)
            == Err::<(Seq<char>, Seq<char>), Seq<char>>("remote Follow source has no inbox"@),
{
}

/// Only a Follow or a Block with an ID depends on its relationship, and it is checked by
/// that ID: a Follow as a follow, a Block as a block.
pub proof fn lemma_relationship_check(body: JsonValue)
    ensures
        relationship_check_spec(body) matches Some((follow, id)) ==> {
            &&& json_get_str(body, "id"@) == Some(id)
            &&& follow <==> json_get_str(body, "type"@) == Some("Follow"@)
            &&& !follow ==> json_get_str(body, "type"@) == Some("Block"@)
        },
        (json_get_str(body, "type"@) == Some("Follow"@) && json_get_str(body, "id"@) is Some)
            ==> relationship_check_spec(body) == Some((true, json_get_str(body, "id"@)->0)),
        (json_get_str(body, "type"@) == Some("Block"@) && json_get_str(body, "id"@) is Some)
            ==> relationship_check_spec(body) == Some((false, json_get_str(body, "id"@)->0)),
{
    reveal_strlit("Follow");
    reveal_strlit("Block");
    assert("Block"@.len() == 5 && "Follow"@.len() == 6);
    assert("Block"@ != "Follow"@);
}

/// A delivery's domain is its inbox URL's host, with the same characters up to ASCII case
/// and no ASCII capital letter; an inbox URL that does not parse or has no host is refused.
pub proof fn lemma_inbox_domain(inbox_url: Seq<char>)
    ensures
        inbox_domain_spec(inbox_url) matches Ok(d) ==> {
            &&& url_host(inbox_url) is Some
            &&& eq_ignore_ascii_case(d, url_host(inbox_url)->0)
            &&& forall|i: int| 0 <= i < d.len() ==> !('A' <= #[trigger] d[i] && d[i] <= 'Z')
        },
        url_parse(inbox_url) is None ==> inbox_domain_spec(inbox_url)
            == Err::<Seq<char>, Seq<char>>("delivery inbox URL is invalid"@),
{
    if inbox_domain_spec(inbox_url) is Ok {
        let host = url_host(inbox_url)->0;
        let d = host.map_values(|c: char| ascii_lower(c));
        assert forall|i: int| 0 <= i < d.len() implies ascii_lower(#[trigger] d[i]) == ascii_lower(host[i]) by {}
    }
}


} // verus!
