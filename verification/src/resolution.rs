use vstd::prelude::*;
use crate::failure::{FailureDisposition, HandlerFailure};
use crate::json::{JsonValue, json_get, json_i64, opt_text};
use crate::quote::{remote_uri_value, remote_uri_value_spec, rails_blank};
use crate::text::{eq_ignore_ascii_case, is_blank, str_eq};
use crate::uri::{UrlParts, equal_ignoring_ascii_case, parse_url, parts_view, same_origin, same_url_origin, url_parse};

verus! {

/// The account that signs the fetch of a remote Note: the delivery target, else an
/// addressed local account, else a local follower of the author.
pub fn preferred_note_fetch_signer_id(
    delivery_target_account_id: Option<i64>,
    addressed_account_id: Option<i64>,
    follower_account_id: Option<i64>,
) -> (signer: Option<i64>)
    ensures
        signer == (if delivery_target_account_id is Some {
            delivery_target_account_id
        } else if addressed_account_id is Some {
            addressed_account_id
        } else {
            follower_account_id
        }),
{
    match delivery_target_account_id {
        Some(id) => Some(id),
        None => match addressed_account_id {
            Some(id) => Some(id),
            None => follower_account_id,
        },
    }
}

/// The audience a Note fetch considers for a signer: `to`, then `cc`, in order.
pub fn note_fetch_audience<'a>(to: &'a [String], cc: &'a [String]) -> (audience: Vec<&'a String>)
    ensures
        audience@.len() == to@.len() + cc@.len(),
        forall|i: int| 0 <= i < to@.len() ==> *#[trigger] audience@[i] == to@[i],
        forall|i: int| 0 <= i < cc@.len() ==> *#[trigger] audience@[to@.len() + i] == cc@[i],
{
    let mut audience: Vec<&'a String> = Vec::new();
    let mut i: usize = 0;
    while i < to.len()
        invariant
            i <= to@.len(),
            audience@.len() == i,
            forall|k: int| 0 <= k < i ==> *#[trigger] audience@[k] == to@[k],
        decreases to@.len() - i,
    {
        audience.push(&to[i]);
        i = i + 1;
    }
    let mut j: usize = 0;
    while j < cc.len()
        invariant
            j <= cc@.len(),
            audience@.len() == to@.len() + j,
            forall|k: int| 0 <= k < to@.len() ==> *#[trigger] audience@[k] == to@[k],
            forall|k: int| 0 <= k < j ==> *#[trigger] audience@[to@.len() + k] == cc@[k],
        decreases cc@.len() - j,
    {
        audience.push(&cc[j]);
        j = j + 1;
    }
    audience
}

/// The personal recipient of a Note resolution: absent or `null` is none; otherwise an integer.
pub fn parse_delivery_target_account_id(arguments: &JsonValue) -> (r: Result<Option<i64>, HandlerFailure>)
    ensures
        match json_get(*arguments, "delivery_target_account_id"@) {
            None => r matches Ok(None),
            Some(JsonValue::Null) => r matches Ok(None),
            Some(v) => match json_i64(v) {
                Some(id) => r matches Ok(Some(x)) && x == id,
                None => r matches Err(f) && f.disposition == FailureDisposition::Permanent
                    && f.message@ == "Note resolution delivery target is invalid"@,
            },
        },
{
    match arguments.get("delivery_target_account_id") {
        None => Ok(None),
        Some(JsonValue::Null) => Ok(None),
        Some(value) => match value.as_i64() {
            Some(id) => Ok(Some(id)),
            None => Err(HandlerFailure::permanent("Note resolution delivery target is invalid")),
        },
    }
}

/// The items an audience member lists: none for `null`, the items of an array, or the value.
pub open spec fn audience_items(value: JsonValue) -> Seq<JsonValue> {
    match value {
        JsonValue::Null => Seq::empty(),
        JsonValue::Array(items) => items@,
        _ => seq![value],
    }
}

/// An audience item is valid when it names a URI that is not blank.
pub open spec fn audience_uri(item: JsonValue) -> Option<Seq<char>> {
    match remote_uri_value_spec(item) {
        Some(uri) => if is_blank(uri) { None } else { Some(uri) },
        None => None,
    }
}

/// The `to` or `cc` audience of a nested Announce: at most 100 items, each naming a URI.
pub open spec fn announce_audience_spec(arguments: JsonValue, field: Seq<char>) -> Result<Seq<Seq<char>>, Seq<char>> {
    match json_get(arguments, field) {
        None => Ok(Seq::empty()),
        Some(value) => {
            let items = audience_items(value);
            if items.len() > 100 {
                Err("remote Announce resolution audience is too large"@)
            } else if exists|i: int| 0 <= i < items.len() && #[trigger] audience_uri(items[i]) is None {
                Err("remote Announce resolution audience contains an invalid URI"@)
            } else {
                Ok(Seq::new(items.len(), |i: int| audience_uri(items[i])->0))
            }
        },
    }
}

fn audience_item_uri(item: &JsonValue) -> (uri: Option<String>)
    ensures
        match uri {
            Some(u) => audience_uri(*item) == Some(u@),
            None => audience_uri(*item) is None,
        },
{
    match remote_uri_value(Some(item)) {
        Some(u) => if rails_blank(u) { None } else { Some(u.to_owned()) },
        None => None,
    }
}

/// Reads the `to` or `cc` audience of a nested Announce.
pub fn remote_announce_audience(arguments: &JsonValue, field: &str) -> (r: Result<Vec<String>, HandlerFailure>)
    ensures
        match announce_audience_spec(*arguments, field@) {
            Ok(uris) => r matches Ok(v) && v@.len() == uris.len()
                && forall|i: int| 0 <= i < uris.len() ==> #[trigger] v@[i]@ == uris[i],
            Err(m) => r matches Err(f) && f.disposition == FailureDisposition::Permanent && f.message@ == m,
        },
{
    let value = match arguments.get(field) {
        Some(v) => v,
        None => {
            return Ok(Vec::new());
        },
    };
    let mut uris: Vec<String> = Vec::new();
    match value {
        JsonValue::Null => {
            return Ok(uris);
        },
        JsonValue::Array(items) => {
            if items.len() > 100 {
                return Err(HandlerFailure::permanent("remote Announce resolution audience is too large"));
            }
            let mut i: usize = 0;
            while i < items.len()
                invariant
                    i <= items@.len(),
                    items@.len() <= 100,
                    json_get(*arguments, field@) == Some(JsonValue::Array(*items)),
                    uris@.len() == i,
                    forall|k: int| 0 <= k < i ==> audience_uri(items@[k]) == Some(#[trigger] uris@[k]@),
                decreases items@.len() - i,
            {
                match audience_item_uri(&items[i]) {
                    Some(u) => uris.push(u),
                    None => {
                        assert(audience_uri(audience_items(JsonValue::Array(*items))[i as int]) is None);
                        return Err(HandlerFailure::permanent(
                            "remote Announce resolution audience contains an invalid URI",
                        ));
                    },
                }
                i = i + 1;
            }
            proof {
                let its = audience_items(JsonValue::Array(*items));
                assert(its == items@);
                assert forall|k: int| 0 <= k < its.len() implies #[trigger] audience_uri(its[k]) is Some by {
                    assert(audience_uri(items@[k]) == Some(uris@[k]@));
                }
            }
            Ok(uris)
        },
        _ => {
            match audience_item_uri(value) {
                Some(u) => {
                    uris.push(u);
                    proof {
                        let its = audience_items(*value);
                        assert(its.len() == 1 && its[0] == *value);
                    }
                    Ok(uris)
                },
                None => {
                    proof {
                        let its = audience_items(*value);
                        assert(its[0] == *value);
                        assert(audience_uri(its[0]) is None);
                    }
                    Err(HandlerFailure::permanent("remote Announce resolution audience contains an invalid URI"))
                },
            }
        },
    }
}

/// A Create's object must live on its actor's host (compared up to ASCII case); each URI
/// must parse first.
pub open spec fn create_binding_spec(activity_uri: Seq<char>, actor_uri: Seq<char>, object_uri: Seq<char>) -> Result<(), Seq<char>> {
    if url_parse(activity_uri) is None {
        Err("remote Create activity URI is invalid"@)
    } else if url_parse(actor_uri) is None {
        Err("remote Create actor URI is invalid"@)
    } else if url_parse(object_uri) is None {
        Err("remote Create object URI is invalid"@)
    } else {
        match (url_parse(actor_uri), url_parse(object_uri)) {
            (Some((_, Some(a), _)), Some((_, Some(o), _))) => if eq_ignore_ascii_case(o, a) {
                Ok(())
            } else {
                Err("remote Create actor and object hosts do not match"@)
            },
            _ => Err("remote Create actor and object hosts do not match"@),
        }
    }
}

/// Checks that a Create's object is bound to its actor's host.
pub fn validate_create_binding(activity_uri: &str, actor_uri: &str, object_uri: &str) -> (r: Result<(), HandlerFailure>)
    ensures
        match create_binding_spec(activity_uri@, actor_uri@, object_uri@) {
            Ok(()) => r is Ok,
            Err(m) => r matches Err(f) && f.disposition == FailureDisposition::Permanent && f.message@ == m,
        },
{
    if parse_url(activity_uri).is_none() {
        return Err(HandlerFailure::permanent("remote Create activity URI is invalid"));
    }
    let actor = match parse_url(actor_uri) {
        Some(p) => p,
        None => {
            return Err(HandlerFailure::permanent("remote Create actor URI is invalid"));
        },
    };
    let object = match parse_url(object_uri) {
        Some(p) => p,
        None => {
            return Err(HandlerFailure::permanent("remote Create object URI is invalid"));
        },
    };
    let hosts_match = match (&actor.host, &object.host) {
        (Some(a), Some(o)) => equal_ignoring_ascii_case(o.as_str(), a.as_str()),
        _ => false,
    };
    if !hosts_match {
        return Err(HandlerFailure::permanent("remote Create actor and object hosts do not match"));
    }
    Ok(())
}

/// A fetched wrapper is authenticated by its transport origin: its actor must share the
/// fetched URI's origin.
pub fn validate_fetched_activity_actor(activity_uri: &str, actor_uri: &str) -> (r: Result<(), HandlerFailure>)
    ensures
        same_origin(activity_uri@, actor_uri@) ==> r is Ok,
        !same_origin(activity_uri@, actor_uri@) ==> (r matches Err(f) && f.disposition == FailureDisposition::Permanent
            && f.message@ == "remote fetched activity actor does not match the requested origin"@),
{
    if same_url_origin(activity_uri, actor_uri) {
        Ok(())
    } else {
        Err(HandlerFailure::permanent("remote fetched activity actor does not match the requested origin"))
    }
}

/// What importing an inbound Create as a poll vote did.
#[derive(Clone, Copy, Debug, PartialEq, Eq, Structural)]
pub enum RemotePollVoteOutcome {
    /// The Create was a vote and was consumed (accepted or rejected).
    Consumed,
    /// The Create was no vote.
    NotPollVote,
}

/// Only a Create that was no poll vote may be imported as an ordinary Note.
pub fn remote_poll_vote_allows_note_fallback(outcome: RemotePollVoteOutcome) -> (r: bool)
    ensures
        r == (outcome == RemotePollVoteOutcome::NotPollVote),
{
    outcome == RemotePollVoteOutcome::NotPollVote
}

/// The inbox actor binding: the actor's domain (as its URI canonically names it) must be the
/// domain whose signature was verified, up to ASCII case.
pub fn actor_domain_binding(actor_domain: Option<&str>, remote_domain: &str) -> (r: Result<(), HandlerFailure>)
    ensures
        r is Ok <==> (actor_domain matches Some(d) && eq_ignore_ascii_case(d@, remote_domain@)),
        r matches Err(f) ==> f.disposition == FailureDisposition::Permanent
            && f.message@ == "remote inbox actor domain does not match the verified signer"@,
{
    match actor_domain {
        Some(d) => if equal_ignoring_ascii_case(d, remote_domain) {
            return Ok(());
        },
        None => {},
    }
    Err(HandlerFailure::permanent("remote inbox actor domain does not match the verified signer"))
}

/// A known signing key binds the inbox actor: the key's account must be of the verified
/// domain (up to ASCII case) and be the actor itself.
pub fn known_signer_binding(
    account_domain: Option<&str>,
    account_uri: &str,
    remote_domain: &str,
    actor_uri: &str,
) -> (r: Result<(), HandlerFailure>)
    ensures
        r is Ok <==> (account_domain matches Some(d) && eq_ignore_ascii_case(d@, remote_domain@)
            && account_uri@ == actor_uri@),
        r matches Err(f) ==> f.disposition == FailureDisposition::Permanent
            && f.message@ == "remote inbox actor does not match the verified signer"@,
{
    match account_domain {
        Some(d) => if equal_ignoring_ascii_case(d, remote_domain) && str_eq(account_uri, actor_uri) {
            return Ok(());
        },
        None => {},
    }
    Err(HandlerFailure::permanent("remote inbox actor does not match the verified signer"))
}

/// A key resolved from the remote binds the inbox actor: it must belong to the verified
/// domain (up to ASCII case) and name the actor itself.
pub fn resolved_signer_binding(
    resolved_domain: &str,
    resolved_actor_uri: &str,
    remote_domain: &str,
    actor_uri: &str,
) -> (r: Result<(), HandlerFailure>)
    ensures
        r is Ok <==> (eq_ignore_ascii_case(resolved_domain@, remote_domain@) && resolved_actor_uri@ == actor_uri@),
        r matches Err(f) ==> f.disposition == FailureDisposition::Permanent
            && f.message@ == "resolved remote actor does not match the verified signer"@,
{
    if equal_ignoring_ascii_case(resolved_domain, remote_domain) && str_eq(resolved_actor_uri, actor_uri) {
        Ok(())
    } else {
        Err(HandlerFailure::permanent("resolved remote actor does not match the verified signer"))
    }
}

/// The domain of an account to refresh: a remote account has a non-empty domain.
pub fn remote_refresh_domain<'a>(domain: Option<&'a str>) -> (r: Result<&'a str, HandlerFailure>)
    ensures
        match r {
            Ok(d) => opt_text(domain) == Some(d@) && d@.len() > 0,
            Err(f) => !(opt_text(domain) matches Some(d) && d.len() > 0)
                && f.disposition == FailureDisposition::Permanent
                && f.message@ == "remote refresh requires a remote account"@,
        },
{
    match domain {
        Some(d) => if d.is_empty() {
            Err(HandlerFailure::permanent("remote refresh requires a remote account"))
        } else {
            Ok(d)
        },
        None => Err(HandlerFailure::permanent("remote refresh requires a remote account")),
    }
}

/// The actor URL to refresh an account from: the account must be remote (a non-empty
/// domain) and its URI must parse as a URL.
pub fn remote_refresh_target(domain: Option<&str>, account_uri: &str) -> (r: Result<UrlParts, HandlerFailure>)
    ensures
        !(opt_text(domain) matches Some(d) && d.len() > 0) ==> (r matches Err(f)
            && f.disposition == FailureDisposition::Permanent
            && f.message@ == "remote refresh requires a remote account"@),
        (opt_text(domain) matches Some(d) && d.len() > 0) && url_parse(account_uri@) is None ==> (r matches Err(f)
            && f.disposition == FailureDisposition::Permanent
            && f.message@ == "remote refresh account has no canonical actor ID"@),
        (opt_text(domain) matches Some(d) && d.len() > 0) && url_parse(account_uri@) is Some ==> (r matches Ok(p)
            && url_parse(account_uri@) == Some(parts_view(p))),
{
    match remote_refresh_domain(domain) {
        Ok(_) => {},
        Err(f) => {
            return Err(f);
        },
    }
    match parse_url(account_uri) {
        Some(p) => Ok(p),
        None => Err(HandlerFailure::permanent("remote refresh account has no canonical actor ID")),
    }
}

/// The host of a URL text, when it parses and has one.
pub open spec fn url_host(text: Seq<char>) -> Option<Seq<char>> {
    match url_parse(text) {
        Some((_, host, _)) => host,
        None => None,
    }
}

/// A Create is accepted only when all three URIs parse and the object's host is the actor's
/// host up to ASCII case; a Create whose object lives on another host is refused.
pub proof fn lemma_create_binding(activity_uri: Seq<char>, actor_uri: Seq<char>, object_uri: Seq<char>)
    ensures
        create_binding_spec(activity_uri, actor_uri, object_uri) is Ok ==> {
            &&& url_parse(activity_uri) is Some
            &&& url_host(actor_uri) is Some && url_host(object_uri) is Some
            &&& eq_ignore_ascii_case(url_host(object_uri)->0, url_host(actor_uri)->0)
        },
        (url_parse(activity_uri) is Some && url_host(actor_uri) is Some && url_host(object_uri) is Some
            && !eq_ignore_ascii_case(url_host(object_uri)->0, url_host(actor_uri)->0))
            ==> create_binding_spec(activity_uri, actor_uri, object_uri)
            == Err::<(), Seq<char>>("remote Create actor and object hosts do not match"@),
{
}

} // verus!
