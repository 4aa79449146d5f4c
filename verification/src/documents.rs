use vstd::prelude::*;
use crate::failure::{FailureDisposition, HandlerFailure};
use crate::cleanup::texts;
use crate::json::{JsonValue, json_get, json_str, opt_json, opt_text};
use crate::quote::{
    equals_or_includes, equals_or_includes_spec, opt_remote_uri_value, quote_fetch_references_spec,
    remote_uri_value_spec,
    remote_note_quote_fetch_references, remote_uri_value,
};
use crate::resolution::{announce_audience_spec, remote_announce_audience, create_binding_spec, validate_create_binding, validate_fetched_activity_actor};
use crate::text::str_eq;
use crate::uri::same_origin;

verus! {

/// A permanent failure carrying `message`.
pub open spec fn permanent_failure(f: HandlerFailure, message: Seq<char>) -> bool {
    f.disposition == FailureDisposition::Permanent && f.message@ == message
}

/// Whether a value's `type` is, or includes, `Note` or `Question`.
pub open spec fn note_kind(value: JsonValue) -> bool {
    equals_or_includes_spec(json_get(value, "type"@), "Note"@)
        || equals_or_includes_spec(json_get(value, "type"@), "Question"@)
}

/// The URI named by the member `key` of a value.
pub open spec fn member_uri(value: JsonValue, key: Seq<char>) -> Option<Seq<char>> {
    opt_remote_uri_value(json_get(value, key))
}

fn is_note_kind(value: &JsonValue) -> (r: bool)
    ensures
        r == note_kind(*value),
{
    equals_or_includes(value.get("type"), "Note") || equals_or_includes(value.get("type"), "Question")
}

fn opt_str_eq(value: Option<&str>, expected: &str) -> (r: bool)
    ensures
        r == (match value {
            Some(v) => v@ == expected@,
            None => false,
        }),
{
    match value {
        Some(v) => str_eq(v, expected),
        None => false,
    }
}

/// The checks a QuoteRequest instrument passes before its Note is validated: an embedded
/// Note or Question whose ID is the requested instrument URI.
pub open spec fn instrument_shape(instrument: JsonValue, instrument_uri: Seq<char>) -> Result<(), Seq<char>> {
    if !(instrument is Object) {
        Err("QuoteRequest instrument is not an embedded object"@)
    } else if !note_kind(instrument) {
        Err("QuoteRequest instrument is not a Note or Question"@)
    } else if member_uri(instrument, "id"@) != Some(instrument_uri) {
        Err("QuoteRequest instrument ID does not match the requested URI"@)
    } else {
        Ok(())
    }
}

/// The quote target a QuoteRequest instrument names. The instrument must be an embedded Note
/// or Question with the requested ID, valid as a Note of `actor_uri` (as `note_is_valid`
/// judges it), and naming a quote target.
pub fn quote_request_instrument_target_uri<F: Fn(&str, &JsonValue) -> bool>(
    instrument: &JsonValue,
    actor_uri: &str,
    instrument_uri: &str,
    note_is_valid: &F,
) -> (r: Result<String, HandlerFailure>)
    requires
        forall|a: &str, o: &JsonValue| note_is_valid.requires((a, o)),
    ensures
        match instrument_shape(*instrument, instrument_uri@) {
            Err(m) => r matches Err(f) && permanent_failure(f, m),
            Ok(()) => {
                ||| (r matches Err(f) && permanent_failure(f, "QuoteRequest instrument is not a valid Note"@)
                    && note_is_valid.ensures((actor_uri, instrument), false))
                ||| (note_is_valid.ensures((actor_uri, instrument), true)
                    && match quote_fetch_references_spec(*instrument) {
                        Some((target, _)) => r matches Ok(t) && t@ == target,
                        None => r matches Err(f) && permanent_failure(f, "QuoteRequest instrument has no valid quote target"@),
                    })
            },
        },
{
    match instrument {
        JsonValue::Object(_) => {},
        _ => {
            return Err(HandlerFailure::permanent("QuoteRequest instrument is not an embedded object"));
        },
    }
    if !is_note_kind(instrument) {
        return Err(HandlerFailure::permanent("QuoteRequest instrument is not a Note or Question"));
    }
    if !opt_str_eq(remote_uri_value(instrument.get("id")), instrument_uri) {
        return Err(HandlerFailure::permanent("QuoteRequest instrument ID does not match the requested URI"));
    }
    if !note_is_valid(actor_uri, instrument) {
        return Err(HandlerFailure::permanent("QuoteRequest instrument is not a valid Note"));
    }
    match remote_note_quote_fetch_references(instrument) {
        Some(references) => Ok(references.target_uri),
        None => Err(HandlerFailure::permanent("QuoteRequest instrument has no valid quote target")),
    }
}

/// The checks a fetched Create object passes before its Note is validated: the binding of
/// the Create, a Note or Question type, and the requested ID.
pub open spec fn create_note_shape(
    document: JsonValue,
    activity_uri: Seq<char>,
    actor_uri: Seq<char>,
    object_uri: Seq<char>,
) -> Result<(), Seq<char>> {
    match create_binding_spec(activity_uri, actor_uri, object_uri) {
        Err(m) => Err(m),
        Ok(()) => if !note_kind(document) {
            Err("remote Create object is not a Note or Question"@)
        } else if member_uri(document, "id"@) != Some(object_uri) {
            Err("remote Create object ID does not match the requested URI"@)
        } else {
            Ok(())
        },
    }
}

/// Accepts the object a Create names, fetched from `object_uri`: the Create must be bound
/// to its actor's host, and the object must be a Note or Question with the requested ID
/// that is a valid Note of the actor (as `note_is_valid` judges it).
pub fn resolved_create_note<'a, F: Fn(&str, &JsonValue) -> bool>(
    document: &'a JsonValue,
    activity_uri: &str,
    actor_uri: &str,
    object_uri: &str,
    note_is_valid: &F,
) -> (r: Result<&'a JsonValue, HandlerFailure>)
    requires
        forall|a: &str, o: &JsonValue| note_is_valid.requires((a, o)),
    ensures
        match create_note_shape(*document, activity_uri@, actor_uri@, object_uri@) {
            Err(m) => r matches Err(f) && permanent_failure(f, m),
            Ok(()) => {
                ||| (r matches Err(f) && permanent_failure(f, "remote Create Note is invalid"@)
                    && note_is_valid.ensures((actor_uri, document), false))
                ||| (r matches Ok(note) && *note == *document && note_is_valid.ensures((actor_uri, document), true))
            },
        },
{
    validate_create_binding(activity_uri, actor_uri, object_uri)?;
    if !is_note_kind(document) {
        return Err(HandlerFailure::permanent("remote Create object is not a Note or Question"));
    }
    if !opt_str_eq(remote_uri_value(document.get("id")), object_uri) {
        return Err(HandlerFailure::permanent("remote Create object ID does not match the requested URI"));
    }
    if !note_is_valid(actor_uri, document) {
        return Err(HandlerFailure::permanent("remote Create Note is invalid"));
    }
    Ok(document)
}

/// The checks a fetched Announce target passes before its Note is validated. A Note or
/// Question must name its author and carry the requested ID; a Create must carry the
/// requested ID, wrap a Note or Question by its own actor, share the fetched URI's origin,
/// and its object must have an ID. The result is the Note, its author and its URI.
pub open spec fn note_document_shape(document: JsonValue, object_uri: Seq<char>)
    -> Result<(JsonValue, Seq<char>, Seq<char>), Seq<char>>
{
    if note_kind(document) {
        match member_uri(document, "attributedTo"@) {
            None => Err("remote Announce target Note has no author"@),
            Some(actor) => if member_uri(document, "id"@) != Some(object_uri) {
                Err("remote Announce target ID does not match the requested URI"@)
            } else {
                Ok((document, actor, object_uri))
            },
        }
    } else if equals_or_includes_spec(json_get(document, "type"@), "Create"@) {
        if member_uri(document, "id"@) != Some(object_uri) {
            Err("remote Announce target Create ID does not match the requested URI"@)
        } else {
            match json_get(document, "object"@) {
                None => Err("remote Announce target Create has no object"@),
                Some(object) => if !note_kind(object) {
                    Err("remote Announce target Create object is not a Note or Question"@)
                } else {
                    match member_uri(document, "actor"@) {
                        None => Err("remote Announce target Create has no actor"@),
                        Some(actor) => if !same_origin(object_uri, actor) {
                            Err("remote fetched activity actor does not match the requested origin"@)
                        } else if member_uri(object, "attributedTo"@) != Some(actor) {
                            Err("remote Announce target Note author does not match Create actor"@)
                        } else {
                            match member_uri(object, "id"@) {
                                None => Err("remote Announce target Note has no ID"@),
                                Some(target) => Ok((object, actor, target)),
                            }
                        }
                    }
                },
            }
        }
    } else {
        Err("remote Announce target is not a Note, Question, or Create"@)
    }
}

/// What a fetched Announce target yields once its Note was validated.
pub open spec fn note_document_outcome<F: Fn(&str, &JsonValue) -> bool>(
    document: JsonValue,
    object_uri: Seq<char>,
    note_is_valid: F,
    r: Result<(&JsonValue, &str, &str), HandlerFailure>,
) -> bool {
    match note_document_shape(document, object_uri) {
        Err(m) => r matches Err(f) && permanent_failure(f, m),
        Ok((object, actor, target)) => match r {
            Ok((o, a, t)) => *o == object && a@ == actor && t@ == target && note_is_valid.ensures((a, o), true),
            Err(f) => permanent_failure(f, "remote Announce target Note is invalid"@)
                && exists|a: &str, o: &JsonValue| a@ == actor && *o == object && #[trigger] note_is_valid.ensures((a, o), false),
        },
    }
}

/// Reads the Note a fetched Announce target holds: a Note or Question, or a Create wrapping
/// one. The Note must be valid as a Note of its author (as `note_is_valid` judges it).
pub fn remote_note_document<'a, F: Fn(&str, &JsonValue) -> bool>(
    document: &'a JsonValue,
    object_uri: &'a str,
    note_is_valid: &F,
) -> (r: Result<(&'a JsonValue, &'a str, &'a str), HandlerFailure>)
    requires
        forall|a: &str, o: &JsonValue| note_is_valid.requires((a, o)),
    ensures
        note_document_outcome(*document, object_uri@, *note_is_valid, r),
{
    let (object, actor_uri, target_uri): (&'a JsonValue, &'a str, &'a str) = if is_note_kind(document) {
        let actor_uri = match remote_uri_value(document.get("attributedTo")) {
            Some(a) => a,
            None => {
                return Err(HandlerFailure::permanent("remote Announce target Note has no author"));
            },
        };
        if !opt_str_eq(remote_uri_value(document.get("id")), object_uri) {
            return Err(HandlerFailure::permanent("remote Announce target ID does not match the requested URI"));
        }
        (document, actor_uri, object_uri)
    } else if equals_or_includes(document.get("type"), "Create") {
        if !opt_str_eq(remote_uri_value(document.get("id")), object_uri) {
            return Err(HandlerFailure::permanent("remote Announce target Create ID does not match the requested URI"));
        }
        let object = match document.get("object") {
            Some(o) => o,
            None => {
                return Err(HandlerFailure::permanent("remote Announce target Create has no object"));
            },
        };
        if !is_note_kind(object) {
            return Err(HandlerFailure::permanent("remote Announce target Create object is not a Note or Question"));
        }
        let actor_uri = match remote_uri_value(document.get("actor")) {
            Some(a) => a,
            None => {
                return Err(HandlerFailure::permanent("remote Announce target Create has no actor"));
            },
        };
        validate_fetched_activity_actor(object_uri, actor_uri)?;
        if !opt_str_eq(remote_uri_value(object.get("attributedTo")), actor_uri) {
            return Err(HandlerFailure::permanent("remote Announce target Note author does not match Create actor"));
        }
        let target_uri = match remote_uri_value(object.get("id")) {
            Some(t) => t,
            None => {
                return Err(HandlerFailure::permanent("remote Announce target Note has no ID"));
            },
        };
        (object, actor_uri, target_uri)
    } else {
        return Err(HandlerFailure::permanent("remote Announce target is not a Note, Question, or Create"));
    };
    if !note_is_valid(actor_uri, object) {
        return Err(HandlerFailure::permanent("remote Announce target Note is invalid"));
    }
    Ok((object, actor_uri, target_uri))
}

/// What a fetched Announce target resolves to: a Note, or a nested Announce (a boost of a
/// boost) whose object is resolved in turn.
#[derive(Debug)]
pub enum RemoteAnnounceTarget<'a> {
    Note { object: &'a JsonValue, actor_uri: &'a str, status_uri: &'a str },
    Announce {
        activity_uri: &'a str,
        actor_uri: &'a str,
        object_uri: &'a str,
        embedded_note: Option<&'a JsonValue>,
        to: Vec<String>,
        cc: Vec<String>,
        published_at: Option<&'a str>,
    },
}

/// The `published` time of a nested Announce: absent, or a string.
pub open spec fn published_spec(document: JsonValue) -> Result<Option<Seq<char>>, Seq<char>> {
    match json_get(document, "published"@) {
        None => Ok(None),
        Some(v) => match json_str(v) {
            Some(t) => Ok(Some(t)),
            None => Err("remote nested Announce timestamp is invalid"@),
        },
    }
}

/// A nested Announce as read before its embedded Note is validated: the wrapper actor, the
/// nested object and its URI, the `to` and `cc` audiences and the `published` time. The
/// wrapper must carry the requested ID and an actor of the fetched URI's origin.
pub open spec fn nested_announce_shape(document: JsonValue, object_uri: Seq<char>)
    -> Result<(Seq<char>, JsonValue, Seq<char>, Seq<Seq<char>>, Seq<Seq<char>>, Option<Seq<char>>), Seq<char>>
{
    match member_uri(document, "id"@) {
        None => Err("remote nested Announce has no activity ID"@),
        Some(activity) => if activity != object_uri {
            Err("remote nested Announce ID does not match the requested URI"@)
        } else {
            match member_uri(document, "actor"@) {
                None => Err("remote nested Announce has no actor"@),
                Some(actor) => if !same_origin(object_uri, actor) {
                    Err("remote fetched activity actor does not match the requested origin"@)
                } else {
                    match json_get(document, "object"@) {
                        None => Err("remote nested Announce has no object"@),
                        Some(nested) => match remote_uri_value_spec(nested) {
                            None => Err("remote nested Announce object has no URI"@),
                            Some(nested_uri) => match announce_audience_spec(document, "to"@) {
                                Err(m) => Err(m),
                                Ok(to) => match announce_audience_spec(document, "cc"@) {
                                    Err(m) => Err(m),
                                    Ok(cc) => match published_spec(document) {
                                        Err(m) => Err(m),
                                        Ok(published) => Ok((actor, nested, nested_uri, to, cc, published)),
                                    },
                                },
                            },
                        },
                    }
                },
            }
        },
    }
}

/// A nested Announce may embed its object only when it is a Note or Question by the
/// wrapper's own actor, under the object's URI.
pub open spec fn embeddable(nested: JsonValue, actor: Seq<char>, nested_uri: Seq<char>) -> bool {
    note_kind(nested) && member_uri(nested, "attributedTo"@) == Some(actor) && member_uri(nested, "id"@) == Some(nested_uri)
}

/// What reading a fetched Announce target yields.
pub open spec fn announce_document_outcome<F: Fn(&str, &JsonValue) -> bool>(
    document: JsonValue,
    object_uri: Seq<char>,
    note_is_valid: F,
    r: Result<RemoteAnnounceTarget, HandlerFailure>,
) -> bool {
    if !equals_or_includes_spec(json_get(document, "type"@), "Announce"@) {
        match r {
            Ok(RemoteAnnounceTarget::Note { object, actor_uri, status_uri }) =>
                note_document_outcome(document, object_uri, note_is_valid, Ok((object, actor_uri, status_uri))),
            Ok(RemoteAnnounceTarget::Announce { .. }) => false,
            Err(f) => note_document_outcome(document, object_uri, note_is_valid, Err(f)),
        }
    } else {
        match nested_announce_shape(document, object_uri) {
            Err(m) => r matches Err(f) && permanent_failure(f, m),
            Ok((actor, nested, nested_uri, to, cc, published)) => {
                &&& r matches Ok(RemoteAnnounceTarget::Announce { activity_uri, actor_uri, object_uri: o, embedded_note, to: t, cc: c, published_at })
                &&& activity_uri@ == object_uri && actor_uri@ == actor && o@ == nested_uri
                &&& texts(t@) == to && texts(c@) == cc && opt_text(published_at) == published
                &&& !embeddable(nested, actor, nested_uri) ==> embedded_note is None
                &&& embeddable(nested, actor, nested_uri) ==> match embedded_note {
                    Some(e) => *e == nested && exists|a: &str| a@ == actor && #[trigger] note_is_valid.ensures((a, e), true),
                    None => exists|a: &str, n: &JsonValue| a@ == actor && *n == nested && #[trigger] note_is_valid.ensures((a, n), false),
                }
            },
        }
    }
}

fn published_at(document: &JsonValue) -> (r: Result<Option<&str>, HandlerFailure>)
    ensures
        match published_spec(*document) {
            Ok(p) => r matches Ok(t) && opt_text(t) == p,
            Err(m) => r matches Err(f) && permanent_failure(f, m),
        },
{
    match document.get("published") {
        None => Ok(None),
        Some(v) => match v.as_str() {
            Some(t) => Ok(Some(t)),
            None => Err(HandlerFailure::permanent("remote nested Announce timestamp is invalid")),
        },
    }
}

fn audience_texts(arguments: &JsonValue, field: &str) -> (r: Result<Vec<String>, HandlerFailure>)
    ensures
        match announce_audience_spec(*arguments, field@) {
            Ok(uris) => r matches Ok(v) && texts(v@) == uris,
            Err(m) => r matches Err(f) && permanent_failure(f, m),
        },
{
    let r = remote_announce_audience(arguments, field);
    match r {
        Ok(v) => {
            proof {
                if let Ok(uris) = announce_audience_spec(*arguments, field@) {
                    assert(texts(v@) =~= uris);
                }
            }
            Ok(v)
        },
        Err(f) => Err(f),
    }
}

/// Reads a fetched Announce target: a Note (see [`remote_note_document`]) or a nested
/// Announce. A nested Announce embeds its object only for a self-boost whose Note is valid
/// (as `note_is_valid` judges it); any other object is resolved through its own URI.
pub fn remote_announce_document<'a, F: Fn(&str, &JsonValue) -> bool>(
    document: &'a JsonValue,
    object_uri: &'a str,
    note_is_valid: &F,
) -> (r: Result<RemoteAnnounceTarget<'a>, HandlerFailure>)
    requires
        forall|a: &str, o: &JsonValue| note_is_valid.requires((a, o)),
    ensures
        announce_document_outcome(*document, object_uri@, *note_is_valid, r),
{
    if !equals_or_includes(document.get("type"), "Announce") {
        let (object, actor_uri, status_uri) = remote_note_document(document, object_uri, note_is_valid)?;
        return Ok(RemoteAnnounceTarget::Note { object, actor_uri, status_uri });
    }
    let activity_uri = match remote_uri_value(document.get("id")) {
        Some(a) => a,
        None => {
            return Err(HandlerFailure::permanent("remote nested Announce has no activity ID"));
        },
    };
    if !str_eq(activity_uri, object_uri) {
        return Err(HandlerFailure::permanent("remote nested Announce ID does not match the requested URI"));
    }
    let actor_uri = match remote_uri_value(document.get("actor")) {
        Some(a) => a,
        None => {
            return Err(HandlerFailure::permanent("remote nested Announce has no actor"));
        },
    };
    validate_fetched_activity_actor(object_uri, actor_uri)?;
    let nested_object = match document.get("object") {
        Some(o) => o,
        None => {
            return Err(HandlerFailure::permanent("remote nested Announce has no object"));
        },
    };
    let nested_object_uri = match remote_uri_value(Some(nested_object)) {
        Some(u) => u,
        None => {
            return Err(HandlerFailure::permanent("remote nested Announce object has no URI"));
        },
    };
    let embedded_note = if is_note_kind(nested_object) {
        match remote_uri_value(nested_object.get("attributedTo")) {
            Some(note_actor_uri) => if str_eq(note_actor_uri, actor_uri)
                && opt_str_eq(remote_uri_value(nested_object.get("id")), nested_object_uri)
                && note_is_valid(note_actor_uri, nested_object) {
                Some(nested_object)
            } else {
                None
            },
            None => None,
        }
    } else {
        None
    };
    let to = audience_texts(document, "to")?;
    let cc = audience_texts(document, "cc")?;
    let published_at = published_at(document)?;
    Ok(RemoteAnnounceTarget::Announce {
        activity_uri,
        actor_uri,
        object_uri: nested_object_uri,
        embedded_note,
        to,
        cc,
        published_at,
    })
}

/// A fetched Announce target yields a Note or Question whose author and ID are the ones
/// returned; the fetched document itself always carries the requested ID; a Create's Note
/// is by the Create's actor, who shares the requested URI's origin.
pub proof fn lemma_note_document_shape(document: JsonValue, object_uri: Seq<char>)
    ensures
        note_document_shape(document, object_uri) matches Ok((note, author, target)) ==> {
            &&& note_kind(note)
            &&& member_uri(note, "attributedTo"@) == Some(author)
            &&& member_uri(note, "id"@) == Some(target)
            &&& member_uri(document, "id"@) == Some(object_uri)
            &&& !note_kind(document) ==> member_uri(document, "actor"@) == Some(author) && same_origin(object_uri, author)
        },
{
}

/// A resolved Create object is a Note or Question with the requested ID, bound to its
/// actor's host; a QuoteRequest instrument is an embedded Note or Question with the
/// requested ID.
pub proof fn lemma_fetched_note_shapes(
    document: JsonValue,
    activity_uri: Seq<char>,
    actor_uri: Seq<char>,
    object_uri: Seq<char>,
)
    ensures
        create_note_shape(document, activity_uri, actor_uri, object_uri) is Ok ==> {
            &&& create_binding_spec(activity_uri, actor_uri, object_uri) is Ok
            &&& note_kind(document)
            &&& member_uri(document, "id"@) == Some(object_uri)
        },
        instrument_shape(document, object_uri) is Ok ==> {
            &&& document is Object
            &&& note_kind(document)
            &&& member_uri(document, "id"@) == Some(object_uri)
        },
{
}

} // verus!
