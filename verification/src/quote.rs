use vstd::prelude::*;
use crate::json::{JsonNumber, JsonValue, entries_get, json_get, json_get_i64, json_get_str, json_i64, json_str, opt_json, opt_text};
use crate::job::opt_string;
use crate::text::{chars_of, is_blank, is_white_space, str_eq};
use crate::uri::{http_url_with_host, is_http_url_with_host};

verus! {

pub(crate) fn white_space(c: char) -> (r: bool)
    ensures
        r == is_white_space(c),
{
    ('\u{9}' <= c && c <= '\u{d}') || c == ' ' || c == '\u{85}' || c == '\u{a0}'
        || c == '\u{1680}' || ('\u{2000}' <= c && c <= '\u{200a}') || c == '\u{2028}'
        || c == '\u{2029}' || c == '\u{202f}' || c == '\u{205f}' || c == '\u{3000}'
}

/// Rails' `blank?`: empty or white space only.
pub fn rails_blank(value: &str) -> (r: bool)
    ensures
        r == is_blank(value@),
{
    let chars = chars_of(value);
    let mut i: usize = 0;
    while i < chars.len()
        invariant
            chars@ == value@,
            i <= chars@.len(),
            forall|j: int| 0 <= j < i ==> is_white_space(#[trigger] chars@[j]),
        decreases chars@.len() - i,
    {
        if !white_space(chars[i]) {
            return false;
        }
        i = i + 1;
    }
    true
}

/// The first of two references that is present and not blank.
pub open spec fn quote_reference_spec(primary: Option<Seq<char>>, fallback: Option<Seq<char>>) -> Option<Seq<char>> {
    if primary matches Some(p) && !is_blank(p) {
        primary
    } else if fallback matches Some(f) && !is_blank(f) {
        fallback
    } else {
        None
    }
}

/// The URL a quote points to: the web URL when present, else the canonical URI.
pub fn quote_reference(primary: Option<&str>, fallback: Option<&str>) -> (r: Option<String>)
    ensures
        match r {
            Some(s) => quote_reference_spec(opt_text(primary), opt_text(fallback)) == Some(s@),
            None => quote_reference_spec(opt_text(primary), opt_text(fallback)) is None,
        },
{
    if let Some(p) = primary {
        if !rails_blank(p) {
            return Some(p.to_owned());
        }
    }
    if let Some(f) = fallback {
        if !rails_blank(f) {
            return Some(f.to_owned());
        }
    }
    None
}

/// What delivery reads of the status a status quotes.
#[derive(Debug)]
pub struct QuoteDeliveryTarget {
    /// The quoted status is local.
    pub local: bool,
    pub url: Option<String>,
    pub uri: Option<String>,
    /// The quote was accepted by the quoted account.
    pub accepted: bool,
    /// The quoted account is local.
    pub quoted_account_local: bool,
    /// The remote authorization of an accepted quote.
    pub approval_uri: Option<String>,
}

/// The quote parts an activity carries: the quoted URL (the local web URL, or the remote web
/// URL falling back to the URI), the quoted identifier (the URI, or the local status URI, or
/// the remote web URL), and, for an accepted quote with an identifier, its authorization (the
/// local authorization URL, or the remote approval URI when not blank).
pub open spec fn quote_parts_spec(
    target: QuoteDeliveryTarget,
    local_url: Seq<char>,
    local_status_uri: Seq<char>,
    local_authorization_url: Seq<char>,
) -> (Option<Seq<char>>, Option<Seq<char>>, Option<Seq<char>>) {
    let quoted_url = if target.local {
        Some(local_url)
    } else {
        quote_reference_spec(opt_string(target.url), opt_string(target.uri))
    };
    let identifier = match target.uri {
        Some(u) => Some(u@),
        None => if target.local {
            Some(local_status_uri)
        } else {
            quote_reference_spec(opt_string(target.url), None)
        },
    };
    let authorization = if target.accepted && identifier is Some {
        if target.quoted_account_local {
            Some(local_authorization_url)
        } else {
            match target.approval_uri {
                Some(a) => if is_blank(a@) { None } else { Some(a@) },
                None => None,
            }
        }
    } else {
        None
    };
    (quoted_url, identifier, authorization)
}

fn opt_as_str(value: &Option<String>) -> (r: Option<&str>)
    ensures
        opt_text(r) == opt_string(*value),
{
    match value {
        Some(s) => Some(s.as_str()),
        None => None,
    }
}

/// The quoted URL, quoted identifier and quote authorization of a status's activity; all
/// absent when the status quotes nothing. The local forms are those of the quoted status.
pub fn activitypub_quote_parts(
    target: Option<&QuoteDeliveryTarget>,
    local_url: &str,
    local_status_uri: &str,
    local_authorization_url: &str,
) -> (parts: (Option<String>, Option<String>, Option<String>))
    ensures
        (opt_string(parts.0), opt_string(parts.1), opt_string(parts.2)) == match target {
            Some(t) => quote_parts_spec(*t, local_url@, local_status_uri@, local_authorization_url@),
            None => (None, None, None),
        },
{
    let target = match target {
        Some(t) => t,
        None => {
            return (None, None, None);
        },
    };
    let quoted_url = if target.local {
        Some(local_url.to_owned())
    } else {
        quote_reference(opt_as_str(&target.url), opt_as_str(&target.uri))
    };
    let quoted_identifier = match &target.uri {
        Some(u) => Some(u.clone()),
        None => if target.local {
            Some(local_status_uri.to_owned())
        } else {
            quote_reference(opt_as_str(&target.url), None)
        },
    };
    let quote_authorization = if target.accepted && quoted_identifier.is_some() {
        if target.quoted_account_local {
            Some(local_authorization_url.to_owned())
        } else {
            match &target.approval_uri {
                Some(a) => if rails_blank(a.as_str()) { None } else { Some(a.clone()) },
                None => None,
            }
        }
    } else {
        None
    };
    (quoted_url, quoted_identifier, quote_authorization)
}

/// Only an accepted decision that names none of request actor, object and instrument may be
/// matched against a pending follow instead of a quote.
pub fn quote_decision_allows_follow_fallback(
    accepted: bool,
    request_actor_uri: Option<&str>,
    object_uri: Option<&str>,
    instrument_uri: Option<&str>,
) -> (r: bool)
    ensures
        r == (accepted && request_actor_uri is None && object_uri is None && instrument_uri is None),
{
    accepted && request_actor_uri.is_none() && object_uri.is_none() && instrument_uri.is_none()
}

/// Whether a value is the string `expected` or an array with that string among its items.
pub open spec fn equals_or_includes_spec(value: Option<JsonValue>, expected: Seq<char>) -> bool {
    match value {
        Some(JsonValue::String(s)) => s@ == expected,
        Some(JsonValue::Array(items)) => exists|i: int|
            0 <= i < items@.len() && json_str(#[trigger] items@[i]) == Some(expected),
        _ => false,
    }
}

/// Whether a JSON `type`-like value is, or includes, `expected`.
pub fn equals_or_includes(value: Option<&JsonValue>, expected: &str) -> (r: bool)
    ensures
        r == equals_or_includes_spec(opt_json(value), expected@),
{
    match value {
        Some(JsonValue::String(s)) => str_eq(s.as_str(), expected),
        Some(JsonValue::Array(items)) => {
            let mut i: usize = 0;
            while i < items.len()
                invariant
                    i <= items@.len(),
                    opt_json(value) == Some(JsonValue::Array(*items)),
                    forall|j: int| 0 <= j < i ==> json_str(#[trigger] items@[j]) != Some(expected@),
                decreases items@.len() - i,
            {
                if let JsonValue::String(s) = &items[i] {
                    if str_eq(s.as_str(), expected) {
                        assert(json_str(items@[i as int]) == Some(expected@));
                        return true;
                    }
                }
                i = i + 1;
            }
            false
        },
        _ => false,
    }
}

/// The URI an ActivityStreams reference carries: a string, the `id` of an object, or the
/// URI of the first item of an array.
pub open spec fn remote_uri_value_spec(value: JsonValue) -> Option<Seq<char>>
    decreases value,
{
    match value {
        JsonValue::String(s) => Some(s@),
        JsonValue::Object(entries) => match entries_get(entries@, "id"@) {
            Some(id) => json_str(id),
            None => None,
        },
        JsonValue::Array(items) => if items@.len() > 0 {
            remote_uri_value_spec(items@[0])
        } else {
            None
        },
        _ => None,
    }
}

/// The optional form of [`remote_uri_value_spec`].
pub open spec fn opt_remote_uri_value(value: Option<JsonValue>) -> Option<Seq<char>> {
    match value {
        Some(v) => remote_uri_value_spec(v),
        None => None,
    }
}

/// Reads the URI of an ActivityStreams reference.
pub fn remote_uri_value(value: Option<&JsonValue>) -> (uri: Option<&str>)
    ensures
        opt_text(uri) == opt_remote_uri_value(opt_json(value)),
{
    match value {
        Some(v) => uri_of(v),
        None => None,
    }
}

fn uri_of(value: &JsonValue) -> (uri: Option<&str>)
    ensures
        opt_text(uri) == remote_uri_value_spec(*value),
    decreases value,
{
    match value {
        JsonValue::String(s) => Some(s.as_str()),
        JsonValue::Object(_) => match value.get("id") {
            Some(id) => id.as_str(),
            None => None,
        },
        JsonValue::Array(items) => {
            if items.len() > 0 {
                uri_of(&items[0])
            } else {
                None
            }
        },
        _ => None,
    }
}

/// The URI a quote body names, when it is not empty.
pub fn quote_body_uri(value: Option<&JsonValue>) -> (uri: Option<&str>)
    ensures
        opt_text(uri) == (match opt_remote_uri_value(opt_json(value)) {
            Some(u) => if u.len() > 0 { Some(u) } else { None },
            None => None,
        }),
{
    match remote_uri_value(value) {
        Some(u) => if u.is_empty() { None } else { Some(u) },
        None => None,
    }
}

/// The URI an ActivityStreams reference names directly: a string, or the `id` of an object.
pub open spec fn direct_reference(value: JsonValue) -> Option<Seq<char>> {
    match value {
        JsonValue::String(s) => Some(s@),
        JsonValue::Object(_) => json_get_str(value, "id"@),
        _ => None,
    }
}

/// A fetchable reference: the direct URI of the value (or of the first item of an array),
/// kept only when it is an `http` or `https` URL with a host.
pub open spec fn remote_uri_reference_spec(value: Option<JsonValue>) -> Option<Seq<char>> {
    let candidate = match value {
        Some(JsonValue::Array(items)) => if items@.len() > 0 {
            direct_reference(items@[0])
        } else {
            None
        },
        Some(v) => direct_reference(v),
        None => None,
    };
    match candidate {
        Some(uri) => if is_http_url_with_host(uri) { Some(uri) } else { None },
        None => None,
    }
}

fn direct_reference_of(value: &JsonValue) -> (uri: Option<&str>)
    ensures
        opt_text(uri) == direct_reference(*value),
{
    match value {
        JsonValue::String(s) => Some(s.as_str()),
        JsonValue::Object(_) => match value.get("id") {
            Some(id) => id.as_str(),
            None => None,
        },
        _ => None,
    }
}

/// Reads a fetchable `http(s)` reference from an ActivityStreams value.
pub fn remote_uri_reference(value: Option<&JsonValue>) -> (uri: Option<&str>)
    ensures
        opt_text(uri) == remote_uri_reference_spec(opt_json(value)),
{
    let candidate = match value {
        Some(JsonValue::Array(items)) => if items.len() > 0 {
            direct_reference_of(&items[0])
        } else {
            None
        },
        Some(v) => direct_reference_of(v),
        None => None,
    };
    match candidate {
        Some(uri) => if http_url_with_host(uri) { Some(uri) } else { None },
        None => None,
    }
}

/// What a Note's quote points to, to be fetched.
#[derive(Debug)]
pub struct RemoteQuoteFetchReferences {
    pub target_uri: String,
    pub approval_uri: Option<String>,
}

/// The quote member of a Note: the first present of `quote`, `_misskey_quote`, `quoteUrl`
/// and `quoteUri`.
pub open spec fn quote_member(object: JsonValue) -> Option<JsonValue> {
    if json_get(object, "quote"@) is Some {
        json_get(object, "quote"@)
    } else if json_get(object, "_misskey_quote"@) is Some {
        json_get(object, "_misskey_quote"@)
    } else if json_get(object, "quoteUrl"@) is Some {
        json_get(object, "quoteUrl"@)
    } else {
        json_get(object, "quoteUri"@)
    }
}

/// The references to fetch for a Note's quote: none when the Note is not an object, has no
/// quote member, quotes a Tombstone, or its quote has no fetchable URI; otherwise the target
/// and the fetchable `quoteAuthorization`, if any.
pub open spec fn quote_fetch_references_spec(object: JsonValue) -> Option<(Seq<char>, Option<Seq<char>>)> {
    match (object, quote_member(object)) {
        (JsonValue::Object(_), Some(quote)) => {
            if quote is Object && equals_or_includes_spec(json_get(quote, "type"@), "Tombstone"@) {
                None
            } else {
                match remote_uri_reference_spec(Some(quote)) {
                    Some(target) => Some((target, remote_uri_reference_spec(json_get(object, "quoteAuthorization"@)))),
                    None => None,
                }
            }
        },
        _ => None,
    }
}

/// The view of fetch references.
pub open spec fn references_view(r: RemoteQuoteFetchReferences) -> (Seq<char>, Option<Seq<char>>) {
    (r.target_uri@, match r.approval_uri {
        Some(a) => Some(a@),
        None => None,
    })
}

/// Finds what a remote Note quotes, without requiring an authorization.
pub fn remote_note_quote_fetch_references(object: &JsonValue) -> (r: Option<RemoteQuoteFetchReferences>)
    ensures
        match r {
            Some(refs) => quote_fetch_references_spec(*object) == Some(references_view(refs)),
            None => quote_fetch_references_spec(*object) is None,
        },
{
    match object {
        JsonValue::Object(_) => {},
        _ => {
            return None;
        },
    }
    let quote = match object.get("quote") {
        Some(q) => q,
        None => match object.get("_misskey_quote") {
            Some(q) => q,
            None => match object.get("quoteUrl") {
                Some(q) => q,
                None => match object.get("quoteUri") {
                    Some(q) => q,
                    None => {
                        return None;
                    },
                },
            },
        },
    };
    if let JsonValue::Object(_) = quote {
        if equals_or_includes(quote.get("type"), "Tombstone") {
            return None;
        }
    }
    let target_uri = match remote_uri_reference(Some(quote)) {
        Some(t) => t,
        None => {
            return None;
        },
    };
    let approval_uri = match remote_uri_reference(object.get("quoteAuthorization")) {
        Some(a) => Some(a.to_owned()),
        None => None,
    };
    Some(RemoteQuoteFetchReferences { target_uri: target_uri.to_owned(), approval_uri })
}

/// The part a quote delivery plays in the quote approval exchange.
#[derive(Clone, Copy, Debug, PartialEq, Eq, Structural)]
pub enum QuoteDeliveryKind {
    Request,
    Accept,
    Reject,
}

/// The quote a delivery belongs to, bound by its metadata and body.
#[derive(Debug)]
pub struct QuoteDeliveryIdentity {
    pub kind: QuoteDeliveryKind,
    pub request_uri: String,
    pub quote_id: Option<i64>,
    pub quoting_status_id: Option<i64>,
    pub quoted_status_id: i64,
}

/// The view of a quote delivery identity.
pub open spec fn identity_view(i: QuoteDeliveryIdentity) -> (QuoteDeliveryKind, Seq<char>, Option<i64>, Option<i64>, i64) {
    (i.kind, i.request_uri@, i.quote_id, i.quoting_status_id, i.quoted_status_id)
}

/// The kind a delivery body has: a `QuoteRequest`, or an `Accept`/`Reject` of one.
pub open spec fn body_quote_kind(body: JsonValue) -> Option<QuoteDeliveryKind> {
    let body_type = json_get_str(body, "type"@);
    let nested_type = match json_get(body, "object"@) {
        Some(object) => json_get_str(object, "type"@),
        None => None,
    };
    if body_type == Some("QuoteRequest"@) {
        Some(QuoteDeliveryKind::Request)
    } else if body_type == Some("Accept"@) && nested_type == Some("QuoteRequest"@) {
        Some(QuoteDeliveryKind::Accept)
    } else if body_type == Some("Reject"@) && nested_type == Some("QuoteRequest"@) {
        Some(QuoteDeliveryKind::Reject)
    } else {
        None
    }
}

/// The kind the metadata names: `Ok(None)` when it names none, `Err` for an unknown name.
pub open spec fn metadata_quote_kind(arguments: JsonValue) -> Result<Option<QuoteDeliveryKind>, ()> {
    match json_get_str(arguments, "quote_delivery_kind"@) {
        Some(name) => if name == "request"@ {
            Ok(Some(QuoteDeliveryKind::Request))
        } else if name == "accept"@ {
            Ok(Some(QuoteDeliveryKind::Accept))
        } else if name == "reject"@ {
            Ok(Some(QuoteDeliveryKind::Reject))
        } else {
            Err(())
        },
        None => Ok(None),
    }
}

/// The request URI the body of a delivery of this kind carries.
pub open spec fn body_request_uri(kind: QuoteDeliveryKind, body: JsonValue) -> Option<Seq<char>> {
    match kind {
        QuoteDeliveryKind::Request => json_get_str(body, "id"@),
        _ => match json_get(body, "object"@) {
            Some(object) => json_get_str(object, "id"@),
            None => None,
        },
    }
}

/// Whether the body has a non-null `result`.
pub open spec fn has_result(body: JsonValue) -> bool {
    json_get(body, "result"@) matches Some(r) && !(r is Null)
}

/// The identity of a quote delivery. A body that is no quote delivery has none, unless the
/// metadata claims one. Otherwise metadata and body must agree on the kind and on a
/// non-empty request URI; an Accept must carry a result and a Reject must not; the quoted
/// status is required; requests and accepts need the quote and quoting status, and a reject
/// has both or neither.
pub open spec fn quote_delivery_identity_spec(arguments: JsonValue, body: JsonValue)
    -> Result<Option<(QuoteDeliveryKind, Seq<char>, Option<i64>, Option<i64>, i64)>, ()> {
    match metadata_quote_kind(arguments) {
        Err(()) => Err(()),
        Ok(metadata) => match body_quote_kind(body) {
            None => if metadata is Some { Err(()) } else { Ok(None) },
            Some(kind) => {
                let request_uri = json_get_str(arguments, "quote_request_uri"@);
                let quote_id = json_get_i64(arguments, "quote_id"@);
                let quoting = json_get_i64(arguments, "quoting_status_id"@);
                let quoted = json_get_i64(arguments, "quoted_status_id"@);
                if metadata != Some(kind) || !(request_uri matches Some(uri) && uri.len() > 0)
                    || body_request_uri(kind, body) != request_uri
                    || (kind == QuoteDeliveryKind::Accept && !has_result(body))
                    || (kind == QuoteDeliveryKind::Reject && has_result(body))
                    || quoted is None
                    || (kind != QuoteDeliveryKind::Reject && (quote_id is None || quoting is None))
                    || (kind == QuoteDeliveryKind::Reject && quote_id is Some != quoting is Some) {
                    Err(())
                } else {
                    Ok(Some((kind, request_uri->0, quote_id, quoting, quoted->0)))
                }
            },
        },
    }
}

fn opt_eq(value: Option<&str>, expected: &str) -> (r: bool)
    ensures
        r == (opt_text(value) == Some(expected@)),
{
    match value {
        Some(v) => str_eq(v, expected),
        None => false,
    }
}

fn opt_str_same(a: Option<&str>, b: Option<&str>) -> (r: bool)
    ensures
        r == (opt_text(a) == opt_text(b)),
{
    match (a, b) {
        (Some(x), Some(y)) => str_eq(x, y),
        (None, None) => true,
        _ => false,
    }
}

/// Binds a quote delivery to the request it belongs to, from its metadata and body.
pub fn quote_delivery_identity(arguments: &JsonValue, body: &JsonValue)
    -> (identity: Result<Option<QuoteDeliveryIdentity>, ()>)
    ensures
        match identity {
            Err(()) => quote_delivery_identity_spec(*arguments, *body) is Err,
            Ok(None) => quote_delivery_identity_spec(*arguments, *body) == Ok::<_, ()>(None::<(QuoteDeliveryKind, Seq<char>, Option<i64>, Option<i64>, i64)>),
            Ok(Some(i)) => quote_delivery_identity_spec(*arguments, *body) == Ok::<_, ()>(Some(identity_view(i))),
        },
{
    let body_type = body.member_str("type");
    let nested_type = match body.get("object") {
        Some(object) => object.member_str("type"),
        None => None,
    };
    let body_kind = if opt_eq(body_type, "QuoteRequest") {
        Some(QuoteDeliveryKind::Request)
    } else if opt_eq(body_type, "Accept") && opt_eq(nested_type, "QuoteRequest") {
        Some(QuoteDeliveryKind::Accept)
    } else if opt_eq(body_type, "Reject") && opt_eq(nested_type, "QuoteRequest") {
        Some(QuoteDeliveryKind::Reject)
    } else {
        None
    };
    let metadata_kind = match arguments.member_str("quote_delivery_kind") {
        Some(name) => if str_eq(name, "request") {
            Some(QuoteDeliveryKind::Request)
        } else if str_eq(name, "accept") {
            Some(QuoteDeliveryKind::Accept)
        } else if str_eq(name, "reject") {
            Some(QuoteDeliveryKind::Reject)
        } else {
            return Err(());
        },
        None => None,
    };
    let kind = match body_kind {
        Some(kind) => kind,
        None => {
            return if metadata_kind.is_some() { Err(()) } else { Ok(None) };
        },
    };
    match metadata_kind {
        Some(m) => if m != kind {
            return Err(());
        },
        None => {
            return Err(());
        },
    }
    let request_uri = match arguments.member_str("quote_request_uri") {
        Some(uri) => if uri.is_empty() {
            return Err(());
        } else {
            uri
        },
        None => {
            return Err(());
        },
    };
    let body_request = match kind {
        QuoteDeliveryKind::Request => body.member_str("id"),
        QuoteDeliveryKind::Accept | QuoteDeliveryKind::Reject => match body.get("object") {
            Some(object) => object.member_str("id"),
            None => None,
        },
    };
    let result_present = match body.get("result") {
        Some(r) => !r.is_null(),
        None => false,
    };
    if !opt_str_same(body_request, Some(request_uri))
        || (kind == QuoteDeliveryKind::Accept && !result_present)
        || (kind == QuoteDeliveryKind::Reject && result_present) {
        return Err(());
    }
    let quote_id = arguments.member_i64("quote_id");
    let quoting_status_id = arguments.member_i64("quoting_status_id");
    let quoted_status_id = match arguments.member_i64("quoted_status_id") {
        Some(id) => id,
        None => {
            return Err(());
        },
    };
    match kind {
        QuoteDeliveryKind::Request | QuoteDeliveryKind::Accept => {
            if quote_id.is_none() || quoting_status_id.is_none() {
                return Err(());
            }
        },
        QuoteDeliveryKind::Reject => {
            if quote_id.is_some() != quoting_status_id.is_some() {
                return Err(());
            }
        },
    }
    Ok(Some(QuoteDeliveryIdentity {
        kind,
        request_uri: request_uri.to_owned(),
        quote_id,
        quoting_status_id,
        quoted_status_id,
    }))
}

/// The URI a quote body member names, when it is not empty.
pub open spec fn body_uri_spec(value: Option<JsonValue>) -> Option<Seq<char>> {
    match opt_remote_uri_value(value) {
        Some(u) => if u.len() > 0 { Some(u) } else { None },
        None => None,
    }
}

/// The request a quote delivery's body carries, as its actor, object and instrument URIs:
/// the body's actor must be the sending actor; a Request is its own request, an Accept or
/// Reject carries it as its object; all three URIs must be present. `None` means the
/// delivery is stale.
pub open spec fn quote_delivery_request_spec(kind: QuoteDeliveryKind, body: JsonValue, source_actor_uri: Seq<char>)
    -> Option<(Seq<char>, Seq<char>, Seq<char>)> {
    if body_uri_spec(json_get(body, "actor"@)) != Some(source_actor_uri) {
        None
    } else {
        let request = if kind == QuoteDeliveryKind::Request {
            body
        } else {
            match json_get(body, "object"@) {
                Some(o) => o,
                None => JsonValue::Null,
            }
        };
        match (body_uri_spec(json_get(request, "actor"@)), body_uri_spec(json_get(request, "object"@)),
            body_uri_spec(json_get(request, "instrument"@))) {
            (Some(a), Some(o), Some(i)) => Some((a, o, i)),
            _ => None,
        }
    }
}

/// Checks a quote delivery's body before the locked lookup: see
/// [`quote_delivery_request_spec`].
pub fn quote_delivery_request<'a>(kind: QuoteDeliveryKind, body: &'a JsonValue, source_actor_uri: &str)
    -> (r: Option<(&'a str, &'a str, &'a str)>)
    ensures
        match r {
            Some((a, o, i)) => quote_delivery_request_spec(kind, *body, source_actor_uri@) == Some((a@, o@, i@)),
            None => quote_delivery_request_spec(kind, *body, source_actor_uri@) is None,
        },
{
    match quote_body_uri(body.get("actor")) {
        Some(actor) => if !str_eq(actor, source_actor_uri) {
            return None;
        },
        None => {
            return None;
        },
    }
    let request: &JsonValue = match kind {
        QuoteDeliveryKind::Request => body,
        _ => match body.get("object") {
            Some(o) => o,
            None => &JsonValue::Null,
        },
    };
    let actor = match quote_body_uri(request.get("actor")) {
        Some(a) => a,
        None => {
            return None;
        },
    };
    let object = match quote_body_uri(request.get("object")) {
        Some(o) => o,
        None => {
            return None;
        },
    };
    let instrument = match quote_body_uri(request.get("instrument")) {
        Some(i) => i,
        None => {
            return None;
        },
    };
    Some((actor, object, instrument))
}

/// What quote parts say: a local quoted status is linked by its local web URL; a present URI
/// is the quoted identifier, and a local status without one is named by its local URI. An
/// accepted quote with an identifier carries its authorization: the local authorization URL
/// when the quoted account is local, the remote approval URI when it is present and not
/// blank, nothing otherwise; a quote that was not accepted carries none.
pub proof fn lemma_quote_parts(
    target: QuoteDeliveryTarget,
    local_url: Seq<char>,
    local_status_uri: Seq<char>,
    local_authorization_url: Seq<char>,
)
    ensures
        target.local ==> quote_parts_spec(target, local_url, local_status_uri, local_authorization_url).0
            == Some(local_url),
        target.uri is Some ==> quote_parts_spec(target, local_url, local_status_uri,
            local_authorization_url).1 == Some(target.uri->0@),
        target.uri is None && target.local ==> quote_parts_spec(target, local_url, local_status_uri,
            local_authorization_url).1 == Some(local_status_uri),
        !target.accepted ==> quote_parts_spec(target, local_url, local_status_uri, local_authorization_url).2 is None,
        target.accepted && (target.uri is Some || target.local) && target.quoted_account_local
            ==> quote_parts_spec(target, local_url, local_status_uri, local_authorization_url).2
            == Some(local_authorization_url),
        (target.accepted && (target.uri is Some || target.local) && !target.quoted_account_local
            && (target.approval_uri matches Some(a) && !is_blank(a@)))
            ==> quote_parts_spec(target, local_url, local_status_uri, local_authorization_url).2
            == Some(target.approval_uri->0@),
        (!target.quoted_account_local && !(target.approval_uri matches Some(a) && !is_blank(a@)))
            ==> quote_parts_spec(target, local_url, local_status_uri, local_authorization_url).2 is None,
{
}

/// A quote reference is the first of the two that is present and not blank: the primary one
/// wins whenever it is usable, the fallback is used only when it is not, and a blank or
/// absent reference is never the result.
pub proof fn lemma_quote_reference(primary: Option<Seq<char>>, fallback: Option<Seq<char>>)
    ensures
        (primary matches Some(p) && !is_blank(p)) ==> quote_reference_spec(primary, fallback) == primary,
        !(primary matches Some(p) && !is_blank(p)) && (fallback matches Some(f) && !is_blank(f))
            ==> quote_reference_spec(primary, fallback) == fallback,
        quote_reference_spec(primary, fallback) matches Some(r) ==> !is_blank(r)
            && (Some(r) == primary || Some(r) == fallback),
{
}

/// A quote delivery's request is found only when the body's actor is the sending actor, and
/// then its actor, object and instrument are all non-empty.
pub proof fn lemma_quote_delivery_request(kind: QuoteDeliveryKind, body: JsonValue, source_actor_uri: Seq<char>)
    ensures
        quote_delivery_request_spec(kind, body, source_actor_uri) matches Some((a, o, i)) ==> {
            &&& body_uri_spec(json_get(body, "actor"@)) == Some(source_actor_uri)
            &&& a.len() > 0 && o.len() > 0 && i.len() > 0
        },
        body_uri_spec(json_get(body, "actor"@)) != Some(source_actor_uri)
            ==> quote_delivery_request_spec(kind, body, source_actor_uri) is None,
{
}

} // verus!
