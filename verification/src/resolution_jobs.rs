use vstd::prelude::*;
use crate::cleanup::texts;
use crate::documents::permanent_failure;
use crate::failure::HandlerFailure;
use crate::job::{JobSpec, opt_string};
use crate::json::{JsonNumber, JsonValue, entries_get, json_get, json_get_i64, json_get_str, json_str};
use crate::keys::{announce_resolution_logical_key, hex_digest, note_resolution_logical_key, note_resolution_material};
use crate::poll_expiration::json_int;
use crate::quote::remote_uri_value_spec;
use crate::registry::Lane;
use crate::resolution::{announce_audience_spec, audience_items, audience_uri, remote_announce_audience};
use crate::status_update::opt_json_int;
use crate::text::is_blank;

verus! {

/// The job kind that resolves a Note a Create named only by URI.
pub open spec fn note_resolve_kind() -> Seq<char> {
    "rustodon.activitypub.resolve_note"@
}

/// The job kind that resolves the target of an Announce.
pub open spec fn announce_resolve_kind() -> Seq<char> {
    "rustodon.activitypub.resolve_announce"@
}

/// A JSON array of these strings.
pub open spec fn is_string_array(value: JsonValue, items: Seq<Seq<char>>) -> bool {
    value matches JsonValue::Array(a) && a@.len() == items.len()
        && forall|i: int| 0 <= i < items.len() ==> json_str(#[trigger] a@[i]) == Some(items[i])
}

/// A JSON string, or `null` when absent.
pub open spec fn is_opt_string(value: JsonValue, text: Option<Seq<char>>) -> bool {
    match text {
        Some(t) => json_str(value) == Some(t),
        None => value is Null,
    }
}

fn string_array(items: &[String]) -> (value: JsonValue)
    ensures
        is_string_array(value, texts(items@)),
{
    let mut a: Vec<JsonValue> = Vec::new();
    let mut i: usize = 0;
    while i < items.len()
        invariant
            i <= items@.len(),
            a@.len() == i,
            forall|k: int| 0 <= k < i ==> json_str(#[trigger] a@[k]) == Some(items@[k]@),
        decreases items@.len() - i,
    {
        a.push(JsonValue::String(items[i].clone()));
        i = i + 1;
    }
    JsonValue::Array(a)
}

fn opt_i64_json(value: Option<i64>) -> (v: JsonValue)
    ensures
        v == opt_json_int(value),
{
    match value {
        Some(i) => JsonValue::Number(JsonNumber::Int(i)),
        None => JsonValue::Null,
    }
}

/// A scheduled Note resolution: the pull lane, its kind, the Create it resolves and the
/// audience and personal recipient it was addressed to, keyed per source, actor, object and
/// recipient.
pub open spec fn is_note_resolution_job(
    job: JobSpec,
    source_account_id: i64,
    activity_uri: Seq<char>,
    actor_uri: Seq<char>,
    object_uri: Seq<char>,
    to: Seq<Seq<char>>,
    cc: Seq<Seq<char>>,
    delivery_target_account_id: Option<i64>,
    activity: JsonValue,
) -> bool {
    &&& job.lane == Lane::Pull
    &&& job.kind@ == note_resolve_kind()
    &&& job.arguments is Object
    &&& json_get(job.arguments, "source_account_id"@) == Some(json_int(source_account_id))
    &&& json_get_str(job.arguments, "activity_uri"@) == Some(activity_uri)
    &&& json_get_str(job.arguments, "actor_uri"@) == Some(actor_uri)
    &&& json_get_str(job.arguments, "object_uri"@) == Some(object_uri)
    &&& json_get(job.arguments, "to"@) matches Some(t) && is_string_array(t, to)
    &&& json_get(job.arguments, "cc"@) matches Some(c) && is_string_array(c, cc)
    &&& json_get(job.arguments, "delivery_target_account_id"@) == Some(opt_json_int(delivery_target_account_id))
    &&& json_get(job.arguments, "activity"@) == Some(activity)
    &&& opt_string(job.logical_key) == Some("activitypub:note:"@ + hex_digest(
        note_resolution_material(source_account_id, actor_uri, object_uri, delivery_target_account_id),
    ))
    &&& job.max_attempts is None
}

proof fn lemma_note_members(m: Seq<(String, JsonValue)>)
    requires
        m.len() == 8,
        m[0].0@ == "source_account_id"@,
        m[1].0@ == "activity_uri"@,
        m[2].0@ == "actor_uri"@,
        m[3].0@ == "object_uri"@,
        m[4].0@ == "to"@,
        m[5].0@ == "cc"@,
        m[6].0@ == "delivery_target_account_id"@,
        m[7].0@ == "activity"@,
        "source_account_id"@ =~= seq!['s','o','u','r','c','e','_','a','c','c','o','u','n','t','_','i','d'],
        "activity_uri"@ =~= seq!['a','c','t','i','v','i','t','y','_','u','r','i'],
        "actor_uri"@ =~= seq!['a','c','t','o','r','_','u','r','i'],
        "object_uri"@ =~= seq!['o','b','j','e','c','t','_','u','r','i'],
        "to"@ =~= seq!['t','o'],
        "cc"@ =~= seq!['c','c'],
        "delivery_target_account_id"@ =~= seq!['d','e','l','i','v','e','r','y','_','t','a','r','g','e','t','_','a','c','c','o','u','n','t','_','i','d'],
        "activity"@ =~= seq!['a','c','t','i','v','i','t','y'],
    ensures
        entries_get(m, "source_account_id"@) == Some(m[0].1),
        entries_get(m, "activity_uri"@) == Some(m[1].1),
        entries_get(m, "actor_uri"@) == Some(m[2].1),
        entries_get(m, "object_uri"@) == Some(m[3].1),
        entries_get(m, "to"@) == Some(m[4].1),
        entries_get(m, "cc"@) == Some(m[5].1),
        entries_get(m, "delivery_target_account_id"@) == Some(m[6].1),
        entries_get(m, "activity"@) == Some(m[7].1),
{
    let m1 = m.drop_first();
    let m2 = m1.drop_first();
    let m3 = m2.drop_first();
    let m4 = m3.drop_first();
    let m5 = m4.drop_first();
    let m6 = m5.drop_first();
    let m7 = m6.drop_first();
    assert(m1[0] == m[1] && m2[0] == m[2] && m3[0] == m[3] && m4[0] == m[4]);
    assert(m5[0] == m[5] && m6[0] == m[6] && m7[0] == m[7]);
    assert("activity_uri"@.len() != "activity"@.len());
    assert("activity_uri"@[3] != "actor_uri"@[3]);
    assert("activity"@[3] != "actor_uri"@[3]);
    reveal_with_fuel(entries_get, 9);
}

/// Schedules the resolution of a Note that a Create named only by URI.
pub fn note_resolution_job(
    source_account_id: i64,
    activity_uri: &str,
    actor_uri: &str,
    object_uri: &str,
    to: &[String],
    cc: &[String],
    delivery_target_account_id: Option<i64>,
    activity: JsonValue,
) -> (job: JobSpec)
    ensures
        is_note_resolution_job(job, source_account_id, activity_uri@, actor_uri@, object_uri@, texts(to@),
            texts(cc@), delivery_target_account_id, activity),
{
    let mut members: Vec<(String, JsonValue)> = Vec::new();
    members.push(("source_account_id".to_owned(), JsonValue::Number(JsonNumber::Int(source_account_id))));
    members.push(("activity_uri".to_owned(), JsonValue::String(activity_uri.to_owned())));
    members.push(("actor_uri".to_owned(), JsonValue::String(actor_uri.to_owned())));
    members.push(("object_uri".to_owned(), JsonValue::String(object_uri.to_owned())));
    members.push(("to".to_owned(), string_array(to)));
    members.push(("cc".to_owned(), string_array(cc)));
    members.push(("delivery_target_account_id".to_owned(), opt_i64_json(delivery_target_account_id)));
    members.push(("activity".to_owned(), activity));
    proof {
        reveal_strlit("source_account_id");
        reveal_strlit("activity_uri");
        reveal_strlit("actor_uri");
        reveal_strlit("object_uri");
        reveal_strlit("to");
        reveal_strlit("cc");
        reveal_strlit("delivery_target_account_id");
        reveal_strlit("activity");
        lemma_note_members(members@);
    }
    let key = note_resolution_logical_key(source_account_id, actor_uri, object_uri, delivery_target_account_id);
    JobSpec::new(Lane::Pull, "rustodon.activitypub.resolve_note", JsonValue::Object(members)).logical_key(key)
}

/// What a Note resolution job names, or the first part it is missing: its source account,
/// the Create's activity, actor and object URIs, and the Create itself.
pub open spec fn note_resolution_request_spec(arguments: JsonValue)
    -> Result<(i64, Seq<char>, Seq<char>, Seq<char>, JsonValue), Seq<char>>
{
    match json_get_i64(arguments, "source_account_id"@) {
        None => Err("Note resolution job is missing its source"@),
        Some(source) => match json_get_str(arguments, "activity_uri"@) {
            None => Err("Note resolution job is missing its activity"@),
            Some(activity_uri) => match json_get_str(arguments, "actor_uri"@) {
                None => Err("Note resolution job is missing its actor"@),
                Some(actor_uri) => match json_get_str(arguments, "object_uri"@) {
                    None => Err("Note resolution job is missing its object"@),
                    Some(object_uri) => match json_get(arguments, "activity"@) {
                        None => Err("Note resolution job is missing its payload"@),
                        Some(activity) => Ok((source, activity_uri, actor_uri, object_uri, activity)),
                    },
                },
            },
        },
    }
}

/// What a Note resolution job names.
pub struct NoteResolutionRequest<'a> {
    pub source_account_id: i64,
    pub activity_uri: &'a str,
    pub actor_uri: &'a str,
    pub object_uri: &'a str,
    pub activity: &'a JsonValue,
}

/// Reads a Note resolution job; a job missing a part fails permanently.
pub fn parse_note_resolution_request(arguments: &JsonValue) -> (r: Result<NoteResolutionRequest<'_>, HandlerFailure>)
    ensures
        match note_resolution_request_spec(*arguments) {
            Ok((source, activity_uri, actor_uri, object_uri, activity)) => r matches Ok(q)
                && q.source_account_id == source && q.activity_uri@ == activity_uri && q.actor_uri@ == actor_uri
                && q.object_uri@ == object_uri && *q.activity == activity,
            Err(m) => r matches Err(f) && permanent_failure(f, m),
        },
{
    let source_account_id = match arguments.member_i64("source_account_id") {
        Some(id) => id,
        None => {
            return Err(HandlerFailure::permanent("Note resolution job is missing its source"));
        },
    };
    let activity_uri = match arguments.member_str("activity_uri") {
        Some(uri) => uri,
        None => {
            return Err(HandlerFailure::permanent("Note resolution job is missing its activity"));
        },
    };
    let actor_uri = match arguments.member_str("actor_uri") {
        Some(uri) => uri,
        None => {
            return Err(HandlerFailure::permanent("Note resolution job is missing its actor"));
        },
    };
    let object_uri = match arguments.member_str("object_uri") {
        Some(uri) => uri,
        None => {
            return Err(HandlerFailure::permanent("Note resolution job is missing its object"));
        },
    };
    let activity = match arguments.get("activity") {
        Some(activity) => activity,
        None => {
            return Err(HandlerFailure::permanent("Note resolution job is missing its payload"));
        },
    };
    Ok(NoteResolutionRequest { source_account_id, activity_uri, actor_uri, object_uri, activity })
}

/// A scheduled Note resolution reads back as scheduled: its source account, activity,
/// actor, object and Create, and its personal recipient.
pub proof fn lemma_note_resolution_round_trip(
    job: JobSpec,
    source_account_id: i64,
    activity_uri: Seq<char>,
    actor_uri: Seq<char>,
    object_uri: Seq<char>,
    to: Seq<Seq<char>>,
    cc: Seq<Seq<char>>,
    delivery_target_account_id: Option<i64>,
    activity: JsonValue,
)
    requires
        is_note_resolution_job(job, source_account_id, activity_uri, actor_uri, object_uri, to, cc,
            delivery_target_account_id, activity),
    ensures
        note_resolution_request_spec(job.arguments)
            == Ok::<_, Seq<char>>((source_account_id, activity_uri, actor_uri, object_uri, activity)),
        json_get(job.arguments, "delivery_target_account_id"@) == Some(opt_json_int(delivery_target_account_id)),
{
}

/// A scheduled Announce resolution: the pull lane, its kind, the Announce and its target,
/// audience, time and personal recipient, keyed per Announce, tried at most 4 times.
pub open spec fn is_announce_resolution_job(
    job: JobSpec,
    source_account_id: i64,
    actor_uri: Seq<char>,
    activity_uri: Seq<char>,
    target_uri: Seq<char>,
    to: Seq<Seq<char>>,
    cc: Seq<Seq<char>>,
    published_at: Option<Seq<char>>,
    delivery_target_account_id: Option<i64>,
) -> bool {
    &&& job.lane == Lane::Pull
    &&& job.kind@ == announce_resolve_kind()
    &&& job.arguments is Object
    &&& json_get(job.arguments, "source_account_id"@) == Some(json_int(source_account_id))
    &&& json_get_str(job.arguments, "actor_uri"@) == Some(actor_uri)
    &&& json_get_str(job.arguments, "activity_uri"@) == Some(activity_uri)
    &&& json_get_str(job.arguments, "object_uri"@) == Some(target_uri)
    &&& json_get(job.arguments, "to"@) matches Some(t) && is_string_array(t, to)
    &&& json_get(job.arguments, "cc"@) matches Some(c) && is_string_array(c, cc)
    &&& json_get(job.arguments, "published_at"@) matches Some(p) && is_opt_string(p, published_at)
    &&& json_get(job.arguments, "delivery_target_account_id"@) == Some(opt_json_int(delivery_target_account_id))
    &&& opt_string(job.logical_key) == Some("activitypub:announce:"@ + hex_digest(activity_uri))
    &&& job.max_attempts == Some(4i32)
}

proof fn lemma_announce_members(m: Seq<(String, JsonValue)>)
    requires
        m.len() == 8,
        m[0].0@ == "source_account_id"@,
        m[1].0@ == "actor_uri"@,
        m[2].0@ == "activity_uri"@,
        m[3].0@ == "object_uri"@,
        m[4].0@ == "to"@,
        m[5].0@ == "cc"@,
        m[6].0@ == "published_at"@,
        m[7].0@ == "delivery_target_account_id"@,
        "source_account_id"@ =~= seq!['s','o','u','r','c','e','_','a','c','c','o','u','n','t','_','i','d'],
        "actor_uri"@ =~= seq!['a','c','t','o','r','_','u','r','i'],
        "activity_uri"@ =~= seq!['a','c','t','i','v','i','t','y','_','u','r','i'],
        "object_uri"@ =~= seq!['o','b','j','e','c','t','_','u','r','i'],
        "to"@ =~= seq!['t','o'],
        "cc"@ =~= seq!['c','c'],
        "published_at"@ =~= seq!['p','u','b','l','i','s','h','e','d','_','a','t'],
        "delivery_target_account_id"@ =~= seq!['d','e','l','i','v','e','r','y','_','t','a','r','g','e','t','_','a','c','c','o','u','n','t','_','i','d'],
    ensures
        entries_get(m, "source_account_id"@) == Some(m[0].1),
        entries_get(m, "actor_uri"@) == Some(m[1].1),
        entries_get(m, "activity_uri"@) == Some(m[2].1),
        entries_get(m, "object_uri"@) == Some(m[3].1),
        entries_get(m, "to"@) == Some(m[4].1),
        entries_get(m, "cc"@) == Some(m[5].1),
        entries_get(m, "published_at"@) == Some(m[6].1),
        entries_get(m, "delivery_target_account_id"@) == Some(m[7].1),
{
    let m1 = m.drop_first();
    let m2 = m1.drop_first();
    let m3 = m2.drop_first();
    let m4 = m3.drop_first();
    let m5 = m4.drop_first();
    let m6 = m5.drop_first();
    let m7 = m6.drop_first();
    assert(m1[0] == m[1] && m2[0] == m[2] && m3[0] == m[3] && m4[0] == m[4]);
    assert(m5[0] == m[5] && m6[0] == m[6] && m7[0] == m[7]);
    assert("activity_uri"@[3] != "actor_uri"@[3]);
    reveal_with_fuel(entries_get, 9);
}

/// Schedules the resolution of an Announce's target.
pub fn announce_resolution_job(
    source_account_id: i64,
    actor_uri: &str,
    activity_uri: &str,
    target_uri: &str,
    to: &[String],
    cc: &[String],
    published_at: Option<&str>,
    delivery_target_account_id: Option<i64>,
) -> (job: JobSpec)
    ensures
        is_announce_resolution_job(job, source_account_id, actor_uri@, activity_uri@, target_uri@, texts(to@),
            texts(cc@), opt_text_view(published_at), delivery_target_account_id),
{
    let mut members: Vec<(String, JsonValue)> = Vec::new();
    members.push(("source_account_id".to_owned(), JsonValue::Number(JsonNumber::Int(source_account_id))));
    members.push(("actor_uri".to_owned(), JsonValue::String(actor_uri.to_owned())));
    members.push(("activity_uri".to_owned(), JsonValue::String(activity_uri.to_owned())));
    members.push(("object_uri".to_owned(), JsonValue::String(target_uri.to_owned())));
    members.push(("to".to_owned(), string_array(to)));
    members.push(("cc".to_owned(), string_array(cc)));
    members.push((
        "published_at".to_owned(),
        match published_at {
            Some(p) => JsonValue::String(p.to_owned()),
            None => JsonValue::Null,
        },
    ));
    members.push(("delivery_target_account_id".to_owned(), opt_i64_json(delivery_target_account_id)));
    proof {
        reveal_strlit("source_account_id");
        reveal_strlit("actor_uri");
        reveal_strlit("activity_uri");
        reveal_strlit("object_uri");
        reveal_strlit("to");
        reveal_strlit("cc");
        reveal_strlit("published_at");
        reveal_strlit("delivery_target_account_id");
        lemma_announce_members(members@);
    }
    let key = announce_resolution_logical_key(activity_uri);
    JobSpec::new(Lane::Pull, "rustodon.activitypub.resolve_announce", JsonValue::Object(members))
        .logical_key(key)
        .max_attempts(4)
}

/// The view of an optional string slice.
pub open spec fn opt_text_view(value: Option<&str>) -> Option<Seq<char>> {
    match value {
        Some(s) => Some(s@),
        None => None,
    }
}

/// What an Announce resolution job names, or the first part it is missing or gets wrong:
/// its source account, the Announce's actor, activity and target URIs, its `to` and `cc`
/// audiences, and optionally its time (a string) and personal recipient (an integer).
pub open spec fn announce_resolution_request_spec(arguments: JsonValue) -> Result<
    (i64, Seq<char>, Seq<char>, Seq<char>, Seq<Seq<char>>, Seq<Seq<char>>, Option<Seq<char>>, Option<i64>),
    Seq<char>,
> {
    match json_get_i64(arguments, "source_account_id"@) {
        None => Err("Announce resolution job is missing its source"@),
        Some(source) => match json_get_str(arguments, "actor_uri"@) {
            None => Err("Announce resolution job is missing its actor"@),
            Some(actor_uri) => match json_get_str(arguments, "activity_uri"@) {
                None => Err("Announce resolution job is missing its activity"@),
                Some(activity_uri) => match json_get_str(arguments, "object_uri"@) {
                    None => Err("Announce resolution job is missing its object"@),
                    Some(object_uri) => match announce_audience_spec(arguments, "to"@) {
                        Err(m) => Err(m),
                        Ok(to) => match announce_audience_spec(arguments, "cc"@) {
                            Err(m) => Err(m),
                            Ok(cc) => Ok((
                                source,
                                actor_uri,
                                activity_uri,
                                object_uri,
                                to,
                                cc,
                                json_get_str(arguments, "published_at"@),
                                json_get_i64(arguments, "delivery_target_account_id"@),
                            )),
                        },
                    },
                },
            },
        },
    }
}

/// What an Announce resolution job names.
#[derive(Debug)]
pub struct AnnounceResolutionRequest<'a> {
    pub source_account_id: i64,
    pub actor_uri: &'a str,
    pub activity_uri: &'a str,
    pub object_uri: &'a str,
    pub to: Vec<String>,
    pub cc: Vec<String>,
    pub published_at: Option<&'a str>,
    pub delivery_target_account_id: Option<i64>,
}

fn audience_of(arguments: &JsonValue, field: &str) -> (r: Result<Vec<String>, HandlerFailure>)
    ensures
        match announce_audience_spec(*arguments, field@) {
            Ok(uris) => r matches Ok(v) && texts(v@) == uris,
            Err(m) => r matches Err(f) && permanent_failure(f, m),
        },
{
    match remote_announce_audience(arguments, field) {
        Ok(v) => {
            proof {
                if let Ok(uris) = announce_audience_spec(*arguments, field@) {
                    assert(texts(v@) =~= uris);
                }
            }
            Ok(v)
        },
        Err(f) => Err(f),
    }
}

/// Reads an Announce resolution job; a job missing a part, or with an invalid audience,
/// fails permanently.
pub fn parse_announce_resolution_request(arguments: &JsonValue)
    -> (r: Result<AnnounceResolutionRequest<'_>, HandlerFailure>)
    ensures
        match announce_resolution_request_spec(*arguments) {
            Ok((source, actor_uri, activity_uri, object_uri, to, cc, published_at, recipient)) => r matches Ok(q)
                && q.source_account_id == source && q.actor_uri@ == actor_uri && q.activity_uri@ == activity_uri
                && q.object_uri@ == object_uri && texts(q.to@) == to && texts(q.cc@) == cc
                && opt_text_view(q.published_at) == published_at && q.delivery_target_account_id == recipient,
            Err(m) => r matches Err(f) && permanent_failure(f, m),
        },
{
    let source_account_id = match arguments.member_i64("source_account_id") {
        Some(id) => id,
        None => {
            return Err(HandlerFailure::permanent("Announce resolution job is missing its source"));
        },
    };
    let actor_uri = match arguments.member_str("actor_uri") {
        Some(uri) => uri,
        None => {
            return Err(HandlerFailure::permanent("Announce resolution job is missing its actor"));
        },
    };
    let activity_uri = match arguments.member_str("activity_uri") {
        Some(uri) => uri,
        None => {
            return Err(HandlerFailure::permanent("Announce resolution job is missing its activity"));
        },
    };
    let object_uri = match arguments.member_str("object_uri") {
        Some(uri) => uri,
        None => {
            return Err(HandlerFailure::permanent("Announce resolution job is missing its object"));
        },
    };
    let to = audience_of(arguments, "to")?;
    let cc = audience_of(arguments, "cc")?;
    Ok(AnnounceResolutionRequest {
        source_account_id,
        actor_uri,
        activity_uri,
        object_uri,
        to,
        cc,
        published_at: arguments.member_str("published_at"),
        delivery_target_account_id: arguments.member_i64("delivery_target_account_id"),
    })
}

/// An audience an Announce resolution accepts: at most 100 URIs, none blank.
pub open spec fn valid_audience(uris: Seq<Seq<char>>) -> bool {
    uris.len() <= 100 && forall|i: int| 0 <= i < uris.len() ==> !is_blank(#[trigger] uris[i])
}

proof fn lemma_string_array_audience(arguments: JsonValue, field: Seq<char>, value: JsonValue, uris: Seq<Seq<char>>)
    requires
        json_get(arguments, field) == Some(value),
        is_string_array(value, uris),
        valid_audience(uris),
    ensures
        announce_audience_spec(arguments, field) == Ok::<_, Seq<char>>(uris),
{
    let items = audience_items(value);
    assert forall|i: int| 0 <= i < items.len() implies #[trigger] audience_uri(items[i]) == Some(uris[i]) by {
        assert(json_str(items[i]) == Some(uris[i]));
        assert(!is_blank(uris[i]));
        assert(remote_uri_value_spec(items[i]) == Some(uris[i]));
    }
    assert(!(exists|i: int| 0 <= i < items.len() && #[trigger] audience_uri(items[i]) is None));
    assert(Seq::new(items.len(), |i: int| audience_uri(items[i])->0) =~= uris);
}

/// A scheduled Announce resolution reads back as scheduled when its audiences are ones the
/// resolution accepts (at most 100 URIs each, none blank).
pub proof fn lemma_announce_resolution_round_trip(
    job: JobSpec,
    source_account_id: i64,
    actor_uri: Seq<char>,
    activity_uri: Seq<char>,
    target_uri: Seq<char>,
    to: Seq<Seq<char>>,
    cc: Seq<Seq<char>>,
    published_at: Option<Seq<char>>,
    delivery_target_account_id: Option<i64>,
)
    requires
        is_announce_resolution_job(job, source_account_id, actor_uri, activity_uri, target_uri, to, cc,
            published_at, delivery_target_account_id),
        valid_audience(to),
        valid_audience(cc),
    ensures
        announce_resolution_request_spec(job.arguments) == Ok::<_, Seq<char>>((
            source_account_id,
            actor_uri,
            activity_uri,
            target_uri,
            to,
            cc,
            published_at,
            delivery_target_account_id,
        )),
{
    let t = json_get(job.arguments, "to"@)->0;
    let c = json_get(job.arguments, "cc"@)->0;
    lemma_string_array_audience(job.arguments, "to"@, t, to);
    lemma_string_array_audience(job.arguments, "cc"@, c, cc);
}

} // verus!
