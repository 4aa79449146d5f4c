use vstd::prelude::*;
use crate::failure::{FailureDisposition, HandlerFailure};
use crate::job::opt_string;
use crate::json::opt_text;
use crate::text::str_eq;

verus! {

/// The kind of a parsed inbound activity.
#[derive(Clone, Copy, Debug, PartialEq, Eq, Structural)]
pub enum InboxActivityKind {
    CreateVote,
    CreateNote,
    CreateNoteReference,
    UpdateNote,
    DeleteNote,
    DeleteQuoteAuthorization,
    QuoteRequest,
    QuoteDecision,
    Like,
    Announce,
    UndoLike,
    UndoAnnounce,
    Follow,
    Flag,
    Block,
    UpdateActor,
    DeleteActor,
    UndoReference,
    Accept,
    Reject,
    UndoFollow,
    UndoBlock,
    Unsupported,
}

/// Whether an activity of this kind embeds the activity it undoes, with that activity's actor.
pub open spec fn undoes_embedded_relationship(kind: InboxActivityKind) -> bool {
    kind == InboxActivityKind::UndoFollow || kind == InboxActivityKind::UndoBlock
}

/// Whether an embedded activity names an actor other than `actor`.
pub open spec fn names_other_actor(nested: Option<Seq<char>>, actor: Seq<char>) -> bool {
    match nested {
        Some(n) => n != actor,
        None => false,
    }
}

/// Refuses an Undo of a Follow or Block whose embedded activity names another actor.
pub fn inbox_actor_binding(kind: InboxActivityKind, actor_uri: &str, nested_actor_uri: Option<&str>)
    -> (r: Result<(), HandlerFailure>)
    ensures
        r is Ok <==> !(undoes_embedded_relationship(kind) && names_other_actor(opt_text(nested_actor_uri), actor_uri@)),
        r matches Err(f) ==> f.disposition == FailureDisposition::Permanent
            && f.message@ == "remote Undo actor does not match its embedded Follow"@,
{
    if kind == InboxActivityKind::UndoFollow || kind == InboxActivityKind::UndoBlock {
        if let Some(nested) = nested_actor_uri {
            if !str_eq(nested, actor_uri) {
                return Err(HandlerFailure::permanent("remote Undo actor does not match its embedded Follow"));
            }
        }
    }
    Ok(())
}

/// Refuses a remote actor Delete whose object is not its actor.
pub fn delete_actor_binding(actor_uri: &str, object_uri: &str) -> (r: Result<(), HandlerFailure>)
    ensures
        r is Ok <==> object_uri@ == actor_uri@,
        r matches Err(f) ==> f.disposition == FailureDisposition::Permanent
            && f.message@ == "remote actor Delete object does not match its actor"@,
{
    if str_eq(actor_uri, object_uri) {
        Ok(())
    } else {
        Err(HandlerFailure::permanent("remote actor Delete object does not match its actor"))
    }
}

/// What the worker knows of an inbound activity before it acts on it.
pub struct InboxFacts {
    pub kind: InboxActivityKind,
    /// The activity's actor.
    pub actor_uri: String,
    /// The actor of the activity an Accept, Reject or Undo embeds, when it names one.
    pub nested_actor_uri: Option<String>,
    /// The object of an actor Delete.
    pub object_uri: String,
    /// The activity carries a signature that is not `null`, so it is forwarded.
    pub signed: bool,
    /// The candidate Note of a vote is a JSON object.
    pub object_is_object: bool,
    /// The Note of a Create or Update has a string `id`.
    pub object_has_id: bool,
    /// A media root is configured, so stored files are removed on deletion.
    pub media_root: bool,
    /// The instrument of a QuoteRequest has an ID.
    pub instrument_has_id: bool,
    /// The instrument of a QuoteRequest is embedded as an object.
    pub instrument_is_object: bool,
    /// The job runs its last attempt.
    pub last_attempt: bool,
    /// A quote decision may fall back to a Follow decision
    /// (`quote_decision_allows_follow_fallback`).
    pub follow_fallback: bool,
}

/// The next thing the inbox handler does.
#[derive(Clone, Copy, Debug, PartialEq, Eq, Structural)]
pub enum InboxStep {
    /// Nothing has been done yet.
    Start,
    /// Resolve (and authenticate) the activity's actor.
    ResolveActor,
    /// Apply a poll vote; it answers whether the object may be a Note instead.
    ApplyPollVote,
    /// Validate the vote's candidate Note object.
    ValidateVoteNote,
    /// Check whether the Note already exists; it answers yes or no.
    CheckNoteExists,
    /// Check whether the Note is relevant to this server; it answers yes or no.
    CheckNoteRelevance,
    /// Fetch and import the Note's quote authorization; it answers whether a document came back.
    FetchQuoteAuthorization,
    CreateNote,
    /// Update the Note; it answers whether an update was applied.
    UpdateNote,
    ApplyQuoteAuthorization,
    ForwardNote,
    ForwardNoteUpdate,
    ScheduleNoteResolution,
    /// Delete a quote authorization by the object URI; it answers whether one matched.
    DeleteQuoteAuthorization,
    ForwardNoteDelete,
    LookupNoteMedia,
    RemoveNoteMedia,
    DeleteNote,
    ApplyLike,
    ApplyUndoLike,
    ProcessAnnounce,
    ApplyUndoAnnounce,
    /// Apply a Follow; it answers with the follow outcome.
    ApplyFollow,
    ScheduleFollowAccept,
    ScheduleFollowReject,
    ApplyUndoFollow,
    ApplyBlock,
    ApplyUndoBlock,
    CreateReport,
    ApplyActorUpdate,
    LookupActorMedia,
    RemoveActorMedia,
    DeleteActor,
    /// Check whether the QuoteRequest may import its instrument; it answers yes or no.
    CheckQuoteImport,
    FetchQuoteInstrument,
    ValidateQuoteInstrument,
    ApplyQuoteInstrument,
    /// Record the QuoteRequest after its instrument could never be fetched.
    ApplyTerminalQuoteRejection,
    ApplyQuoteRequest,
    /// Apply a quote decision; it answers whether a quote matched.
    ApplyQuoteDecision,
    /// Apply a Follow decision, accepted or not.
    ApplyFollowDecision(bool),
    /// Look up what an Undo by reference undoes; it answers with the kind.
    LookupUndoReference,
    UndoReferencedFollow,
    UndoReferencedBlock,
    UndoReferencedInteraction,
    /// The activity is handled.
    Finished,
}

/// The handler's progress: the next step and what earlier steps answered.
#[derive(Clone, Copy, Debug, PartialEq, Eq, Structural)]
pub struct InboxState {
    pub step: InboxStep,
    /// The quote authorization fetch returned a document.
    pub quote_document: bool,
    /// The updated Note existed before.
    pub note_exists: bool,
    /// The Note update was applied.
    pub note_updated: bool,
}

/// What the remote Follow write did.
#[derive(Clone, Copy, Debug, PartialEq, Eq, Structural)]
pub enum FollowOutcome {
    /// Nothing was applied.
    Ignored,
    /// The Follow was applied; `request` when it awaits approval.
    Applied { request: bool },
    /// The Follow was rejected.
    Rejected,
}

/// What an Undo by reference names.
#[derive(Clone, Copy, Debug, PartialEq, Eq, Structural)]
pub enum UndoReferenceKind {
    Follow,
    Block,
    Announce,
    Unknown,
}

/// What the step that was just performed reported.
pub enum InboxEvent {
    /// The step completed.
    Completed,
    /// The step answered yes or no.
    Answer(bool),
    /// The Follow write's outcome.
    Followed(FollowOutcome),
    /// What an Undo by reference names.
    UndoReference(UndoReferenceKind),
    /// The step failed.
    Failed(HandlerFailure),
}

/// The steps that answer yes or no.
pub open spec fn answers(step: InboxStep) -> bool {
    match step {
        InboxStep::ApplyPollVote | InboxStep::CheckNoteExists | InboxStep::CheckNoteRelevance
        | InboxStep::FetchQuoteAuthorization | InboxStep::UpdateNote
        | InboxStep::DeleteQuoteAuthorization | InboxStep::CheckQuoteImport
        | InboxStep::ApplyQuoteDecision => true,
        _ => false,
    }
}

/// Whether an event is one that the step reports.
pub open spec fn event_fits(step: InboxStep, event: InboxEvent) -> bool {
    match event {
        InboxEvent::Failed(_) => step != InboxStep::Start,
        InboxEvent::Answer(_) => answers(step),
        InboxEvent::Followed(_) => step == InboxStep::ApplyFollow,
        InboxEvent::UndoReference(_) => step == InboxStep::LookupUndoReference,
        InboxEvent::Completed => !answers(step) && step != InboxStep::ApplyFollow
            && step != InboxStep::LookupUndoReference,
    }
}

/// The view of a failure.
pub open spec fn failure_view(f: HandlerFailure) -> (FailureDisposition, Seq<char>) {
    (f.disposition, f.message@)
}

/// A permanent failure with this text.
pub open spec fn permanent(message: Seq<char>) -> Result<InboxState, (FailureDisposition, Seq<char>)> {
    Err((FailureDisposition::Permanent, message))
}

/// Moves to a step, keeping what earlier steps answered.
pub open spec fn goto(s: InboxState, step: InboxStep) -> Result<InboxState, (FailureDisposition, Seq<char>)> {
    Ok(InboxState { step, ..s })
}

/// The first step after the actor is resolved.
pub open spec fn first_step(f: InboxFacts, s: InboxState) -> Result<InboxState, (FailureDisposition, Seq<char>)> {
    match f.kind {
        InboxActivityKind::CreateVote => goto(s, InboxStep::ApplyPollVote),
        InboxActivityKind::CreateNote => goto(s, InboxStep::CheckNoteRelevance),
        InboxActivityKind::CreateNoteReference => goto(s, InboxStep::ScheduleNoteResolution),
        InboxActivityKind::UpdateNote => goto(s, InboxStep::CheckNoteExists),
        InboxActivityKind::DeleteNote => goto(s, InboxStep::DeleteQuoteAuthorization),
        InboxActivityKind::DeleteQuoteAuthorization => goto(s, InboxStep::DeleteQuoteAuthorization),
        InboxActivityKind::QuoteRequest => if f.instrument_has_id {
            goto(s, InboxStep::CheckQuoteImport)
        } else {
            permanent("QuoteRequest instrument has no ID"@)
        },
        InboxActivityKind::QuoteDecision => goto(s, InboxStep::ApplyQuoteDecision),
        InboxActivityKind::Like => goto(s, InboxStep::ApplyLike),
        InboxActivityKind::Announce => goto(s, InboxStep::ProcessAnnounce),
        InboxActivityKind::UndoLike => goto(s, InboxStep::ApplyUndoLike),
        InboxActivityKind::UndoAnnounce => goto(s, InboxStep::ApplyUndoAnnounce),
        InboxActivityKind::Follow => goto(s, InboxStep::ApplyFollow),
        InboxActivityKind::Flag => goto(s, InboxStep::CreateReport),
        InboxActivityKind::Block => goto(s, InboxStep::ApplyBlock),
        InboxActivityKind::UpdateActor => goto(s, InboxStep::ApplyActorUpdate),
        InboxActivityKind::DeleteActor => if f.object_uri@ == f.actor_uri@ {
            goto(s, InboxStep::LookupActorMedia)
        } else {
            permanent("remote actor Delete object does not match its actor"@)
        },
        InboxActivityKind::UndoReference => goto(s, InboxStep::LookupUndoReference),
        InboxActivityKind::Accept => goto(s, InboxStep::ApplyFollowDecision(true)),
        InboxActivityKind::Reject => goto(s, InboxStep::ApplyQuoteDecision),
        InboxActivityKind::UndoFollow => goto(s, InboxStep::ApplyUndoFollow),
        InboxActivityKind::UndoBlock => goto(s, InboxStep::ApplyUndoBlock),
        InboxActivityKind::Unsupported => goto(s, InboxStep::Finished),
    }
}

/// After a Note is known to be wanted: it needs an ID, then its quote authorization.
pub open spec fn after_note_wanted(f: InboxFacts, s: InboxState) -> Result<InboxState, (FailureDisposition, Seq<char>)> {
    if f.object_has_id {
        goto(s, InboxStep::FetchQuoteAuthorization)
    } else {
        permanent("remote Note has no object URI"@)
    }
}

/// After a Note was written (and its authorization applied): forward it when that applies.
pub open spec fn after_note_written(f: InboxFacts, s: InboxState) -> Result<InboxState, (FailureDisposition, Seq<char>)> {
    if f.kind == InboxActivityKind::UpdateNote {
        if s.note_exists && s.note_updated && f.signed {
            goto(s, InboxStep::ForwardNoteUpdate)
        } else {
            goto(s, InboxStep::Finished)
        }
    } else if f.signed {
        goto(s, InboxStep::ForwardNote)
    } else {
        goto(s, InboxStep::Finished)
    }
}

/// What the inbox handler does after a step reported an event.
pub open spec fn inbox_next_spec(f: InboxFacts, s: InboxState, e: InboxEvent)
    -> Result<InboxState, (FailureDisposition, Seq<char>)> {
    match e {
        InboxEvent::Failed(failure) => if s.step == InboxStep::FetchQuoteInstrument
            && failure.disposition == FailureDisposition::Retry && f.last_attempt {
            goto(s, InboxStep::ApplyTerminalQuoteRejection)
        } else {
            Err(failure_view(failure))
        },
        InboxEvent::Answer(yes) => match s.step {
            InboxStep::ApplyPollVote => if !yes {
                goto(s, InboxStep::Finished)
            } else if !f.object_is_object {
                permanent("remote vote candidate object is not a Note object"@)
            } else {
                goto(s, InboxStep::ValidateVoteNote)
            },
            InboxStep::CheckNoteExists => {
                let s2 = InboxState { note_exists: yes, ..s };
                if yes {
                    after_note_wanted(f, s2)
                } else {
                    goto(s2, InboxStep::CheckNoteRelevance)
                }
            },
            InboxStep::CheckNoteRelevance => if !yes {
                goto(s, InboxStep::Finished)
            } else if f.kind == InboxActivityKind::CreateVote {
                goto(s, InboxStep::CreateNote)
            } else {
                after_note_wanted(f, s)
            },
            InboxStep::FetchQuoteAuthorization => {
                let s2 = InboxState { quote_document: yes, ..s };
                if f.kind == InboxActivityKind::UpdateNote {
                    goto(s2, InboxStep::UpdateNote)
                } else {
                    goto(s2, InboxStep::CreateNote)
                }
            },
            InboxStep::UpdateNote => {
                let s2 = InboxState { note_updated: yes, ..s };
                if s2.quote_document {
                    goto(s2, InboxStep::ApplyQuoteAuthorization)
                } else {
                    after_note_written(f, s2)
                }
            },
            InboxStep::DeleteQuoteAuthorization => if f.kind == InboxActivityKind::DeleteQuoteAuthorization || yes {
                goto(s, InboxStep::Finished)
            } else if f.signed {
                goto(s, InboxStep::ForwardNoteDelete)
            } else {
                goto(s, InboxStep::LookupNoteMedia)
            },
            InboxStep::CheckQuoteImport => if !yes {
                goto(s, InboxStep::ApplyQuoteRequest)
            } else if f.instrument_is_object {
                goto(s, InboxStep::ValidateQuoteInstrument)
            } else {
                goto(s, InboxStep::FetchQuoteInstrument)
            },
            InboxStep::ApplyQuoteDecision => if f.kind == InboxActivityKind::Reject {
                if yes {
                    goto(s, InboxStep::Finished)
                } else {
                    goto(s, InboxStep::ApplyFollowDecision(false))
                }
            } else if f.follow_fallback && !yes {
                goto(s, InboxStep::ApplyFollowDecision(true))
            } else {
                goto(s, InboxStep::Finished)
            },
            _ => goto(s, InboxStep::Finished),
        },
        InboxEvent::Followed(outcome) => match outcome {
            FollowOutcome::Applied { request } => if request {
                goto(s, InboxStep::Finished)
            } else {
                goto(s, InboxStep::ScheduleFollowAccept)
            },
            FollowOutcome::Rejected => goto(s, InboxStep::ScheduleFollowReject),
            FollowOutcome::Ignored => goto(s, InboxStep::Finished),
        },
        InboxEvent::UndoReference(kind) => match kind {
            UndoReferenceKind::Follow => goto(s, InboxStep::UndoReferencedFollow),
            UndoReferenceKind::Block => goto(s, InboxStep::UndoReferencedBlock),
            _ => goto(s, InboxStep::UndoReferencedInteraction),
        },
        InboxEvent::Completed => match s.step {
            InboxStep::Start => if f.kind == InboxActivityKind::Unsupported {
                goto(s, InboxStep::Finished)
            } else if undoes_embedded_relationship(f.kind)
                && names_other_actor(opt_string(f.nested_actor_uri), f.actor_uri@) {
                permanent("remote Undo actor does not match its embedded Follow"@)
            } else {
                goto(s, InboxStep::ResolveActor)
            },
            InboxStep::ResolveActor => first_step(f, s),
            InboxStep::ValidateVoteNote => goto(s, InboxStep::CheckNoteRelevance),
            InboxStep::CreateNote => if s.quote_document {
                goto(s, InboxStep::ApplyQuoteAuthorization)
            } else {
                after_note_written(f, s)
            },
            InboxStep::ApplyQuoteAuthorization => after_note_written(f, s),
            InboxStep::ForwardNoteDelete => goto(s, InboxStep::LookupNoteMedia),
            InboxStep::LookupNoteMedia => if f.media_root {
                goto(s, InboxStep::RemoveNoteMedia)
            } else {
                goto(s, InboxStep::DeleteNote)
            },
            InboxStep::RemoveNoteMedia => goto(s, InboxStep::DeleteNote),
            InboxStep::LookupActorMedia => if f.media_root {
                goto(s, InboxStep::RemoveActorMedia)
            } else {
                goto(s, InboxStep::DeleteActor)
            },
            InboxStep::RemoveActorMedia => goto(s, InboxStep::DeleteActor),
            InboxStep::FetchQuoteInstrument => goto(s, InboxStep::ValidateQuoteInstrument),
            InboxStep::ValidateQuoteInstrument => goto(s, InboxStep::ApplyQuoteInstrument),
            InboxStep::ApplyQuoteInstrument => goto(s, InboxStep::ApplyQuoteRequest),
            _ => goto(s, InboxStep::Finished),
        },
    }
}

/// Whether a result is the one the spec gives.
pub open spec fn next_is(
    r: Result<InboxState, HandlerFailure>,
    expected: Result<InboxState, (FailureDisposition, Seq<char>)>,
) -> bool {
    match (r, expected) {
        (Ok(s), Ok(t)) => s == t,
        (Err(f), Err(v)) => failure_view(f) == v,
        _ => false,
    }
}

/// The state of an inbox job before anything is done.
pub fn inbox_start() -> (s: InboxState)
    ensures
        s == (InboxState { step: InboxStep::Start, quote_document: false, note_exists: false, note_updated: false }),
{
    InboxState { step: InboxStep::Start, quote_document: false, note_exists: false, note_updated: false }
}

fn go(s: InboxState, step: InboxStep) -> (r: Result<InboxState, HandlerFailure>)
    ensures
        next_is(r, goto(s, step)),
{
    Ok(InboxState { step, ..s })
}

fn first_step_of(f: &InboxFacts, s: InboxState) -> (r: Result<InboxState, HandlerFailure>)
    ensures
        next_is(r, first_step(*f, s)),
{
    match f.kind {
        InboxActivityKind::CreateVote => go(s, InboxStep::ApplyPollVote),
        InboxActivityKind::CreateNote => go(s, InboxStep::CheckNoteRelevance),
        InboxActivityKind::CreateNoteReference => go(s, InboxStep::ScheduleNoteResolution),
        InboxActivityKind::UpdateNote => go(s, InboxStep::CheckNoteExists),
        InboxActivityKind::DeleteNote => go(s, InboxStep::DeleteQuoteAuthorization),
        InboxActivityKind::DeleteQuoteAuthorization => go(s, InboxStep::DeleteQuoteAuthorization),
        InboxActivityKind::QuoteRequest => if f.instrument_has_id {
            go(s, InboxStep::CheckQuoteImport)
        } else {
            Err(HandlerFailure::permanent("QuoteRequest instrument has no ID"))
        },
        InboxActivityKind::QuoteDecision => go(s, InboxStep::ApplyQuoteDecision),
        InboxActivityKind::Like => go(s, InboxStep::ApplyLike),
        InboxActivityKind::Announce => go(s, InboxStep::ProcessAnnounce),
        InboxActivityKind::UndoLike => go(s, InboxStep::ApplyUndoLike),
        InboxActivityKind::UndoAnnounce => go(s, InboxStep::ApplyUndoAnnounce),
        InboxActivityKind::Follow => go(s, InboxStep::ApplyFollow),
        InboxActivityKind::Flag => go(s, InboxStep::CreateReport),
        InboxActivityKind::Block => go(s, InboxStep::ApplyBlock),
        InboxActivityKind::UpdateActor => go(s, InboxStep::ApplyActorUpdate),
        InboxActivityKind::DeleteActor => match delete_actor_binding(f.actor_uri.as_str(), f.object_uri.as_str()) {
            Ok(()) => go(s, InboxStep::LookupActorMedia),
            Err(e) => Err(e),
        },
        InboxActivityKind::UndoReference => go(s, InboxStep::LookupUndoReference),
        InboxActivityKind::Accept => go(s, InboxStep::ApplyFollowDecision(true)),
        InboxActivityKind::Reject => go(s, InboxStep::ApplyQuoteDecision),
        InboxActivityKind::UndoFollow => go(s, InboxStep::ApplyUndoFollow),
        InboxActivityKind::UndoBlock => go(s, InboxStep::ApplyUndoBlock),
        InboxActivityKind::Unsupported => go(s, InboxStep::Finished),
    }
}

fn note_wanted(f: &InboxFacts, s: InboxState) -> (r: Result<InboxState, HandlerFailure>)
    ensures
        next_is(r, after_note_wanted(*f, s)),
{
    if f.object_has_id {
        go(s, InboxStep::FetchQuoteAuthorization)
    } else {
        Err(HandlerFailure::permanent("remote Note has no object URI"))
    }
}

fn note_written(f: &InboxFacts, s: InboxState) -> (r: Result<InboxState, HandlerFailure>)
    ensures
        next_is(r, after_note_written(*f, s)),
{
    if f.kind == InboxActivityKind::UpdateNote {
        if s.note_exists && s.note_updated && f.signed {
            go(s, InboxStep::ForwardNoteUpdate)
        } else {
            go(s, InboxStep::Finished)
        }
    } else if f.signed {
        go(s, InboxStep::ForwardNote)
    } else {
        go(s, InboxStep::Finished)
    }
}

fn after_answer(f: &InboxFacts, s: InboxState, yes: bool) -> (r: Result<InboxState, HandlerFailure>)
    ensures
        next_is(r, inbox_next_spec(*f, s, InboxEvent::Answer(yes))),
{
    match s.step {
        InboxStep::ApplyPollVote => if !yes {
            go(s, InboxStep::Finished)
        } else if !f.object_is_object {
            Err(HandlerFailure::permanent("remote vote candidate object is not a Note object"))
        } else {
            go(s, InboxStep::ValidateVoteNote)
        },
        InboxStep::CheckNoteExists => {
            let s2 = InboxState { note_exists: yes, ..s };
            if yes {
                note_wanted(f, s2)
            } else {
                go(s2, InboxStep::CheckNoteRelevance)
            }
        },
        InboxStep::CheckNoteRelevance => if !yes {
            go(s, InboxStep::Finished)
        } else if f.kind == InboxActivityKind::CreateVote {
            go(s, InboxStep::CreateNote)
        } else {
            note_wanted(f, s)
        },
        InboxStep::FetchQuoteAuthorization => {
            let s2 = InboxState { quote_document: yes, ..s };
            if f.kind == InboxActivityKind::UpdateNote {
                go(s2, InboxStep::UpdateNote)
            } else {
                go(s2, InboxStep::CreateNote)
            }
        },
        InboxStep::UpdateNote => {
            let s2 = InboxState { note_updated: yes, ..s };
            if s2.quote_document {
                go(s2, InboxStep::ApplyQuoteAuthorization)
            } else {
                note_written(f, s2)
            }
        },
        InboxStep::DeleteQuoteAuthorization => if f.kind == InboxActivityKind::DeleteQuoteAuthorization || yes {
            go(s, InboxStep::Finished)
        } else if f.signed {
            go(s, InboxStep::ForwardNoteDelete)
        } else {
            go(s, InboxStep::LookupNoteMedia)
        },
        InboxStep::CheckQuoteImport => if !yes {
            go(s, InboxStep::ApplyQuoteRequest)
        } else if f.instrument_is_object {
            go(s, InboxStep::ValidateQuoteInstrument)
        } else {
            go(s, InboxStep::FetchQuoteInstrument)
        },
        InboxStep::ApplyQuoteDecision => if f.kind == InboxActivityKind::Reject {
            if yes {
                go(s, InboxStep::Finished)
            } else {
                go(s, InboxStep::ApplyFollowDecision(false))
            }
        } else if f.follow_fallback && !yes {
            go(s, InboxStep::ApplyFollowDecision(true))
        } else {
            go(s, InboxStep::Finished)
        },
        _ => go(s, InboxStep::Finished),
    }
}

fn after_completion(f: &InboxFacts, s: InboxState) -> (r: Result<InboxState, HandlerFailure>)
    ensures
        next_is(r, inbox_next_spec(*f, s, InboxEvent::Completed)),
{
    match s.step {
        InboxStep::Start => if f.kind == InboxActivityKind::Unsupported {
            go(s, InboxStep::Finished)
        } else {
            let nested = match &f.nested_actor_uri {
                Some(n) => Some(n.as_str()),
                None => None,
            };
            match inbox_actor_binding(f.kind, f.actor_uri.as_str(), nested) {
                Ok(()) => go(s, InboxStep::ResolveActor),
                Err(e) => Err(e),
            }
        },
        InboxStep::ResolveActor => first_step_of(f, s),
        InboxStep::ValidateVoteNote => go(s, InboxStep::CheckNoteRelevance),
        InboxStep::CreateNote => if s.quote_document {
            go(s, InboxStep::ApplyQuoteAuthorization)
        } else {
            note_written(f, s)
        },
        InboxStep::ApplyQuoteAuthorization => note_written(f, s),
        InboxStep::ForwardNoteDelete => go(s, InboxStep::LookupNoteMedia),
        InboxStep::LookupNoteMedia => if f.media_root {
            go(s, InboxStep::RemoveNoteMedia)
        } else {
            go(s, InboxStep::DeleteNote)
        },
        InboxStep::RemoveNoteMedia => go(s, InboxStep::DeleteNote),
        InboxStep::LookupActorMedia => if f.media_root {
            go(s, InboxStep::RemoveActorMedia)
        } else {
            go(s, InboxStep::DeleteActor)
        },
        InboxStep::RemoveActorMedia => go(s, InboxStep::DeleteActor),
        InboxStep::FetchQuoteInstrument => go(s, InboxStep::ValidateQuoteInstrument),
        InboxStep::ValidateQuoteInstrument => go(s, InboxStep::ApplyQuoteInstrument),
        InboxStep::ApplyQuoteInstrument => go(s, InboxStep::ApplyQuoteRequest),
        _ => go(s, InboxStep::Finished),
    }
}

fn step_answers(step: InboxStep) -> (r: bool)
    ensures
        r == answers(step),
{
    match step {
        InboxStep::ApplyPollVote | InboxStep::CheckNoteExists | InboxStep::CheckNoteRelevance
        | InboxStep::FetchQuoteAuthorization | InboxStep::UpdateNote
        | InboxStep::DeleteQuoteAuthorization | InboxStep::CheckQuoteImport
        | InboxStep::ApplyQuoteDecision => true,
        _ => false,
    }
}

/// Whether an event is one that the step reports, so that `inbox_next` may take it.
pub fn event_fits_step(step: InboxStep, event: &InboxEvent) -> (r: bool)
    ensures
        r == event_fits(step, *event),
{
    match event {
        InboxEvent::Failed(_) => step != InboxStep::Start,
        InboxEvent::Answer(_) => step_answers(step),
        InboxEvent::Followed(_) => step == InboxStep::ApplyFollow,
        InboxEvent::UndoReference(_) => step == InboxStep::LookupUndoReference,
        InboxEvent::Completed => !step_answers(step) && step != InboxStep::ApplyFollow
            && step != InboxStep::LookupUndoReference,
    }
}

/// Decides what the inbox handler does after a step reported an event: the next step
/// (`Finished` when the activity is handled), or the failure the job ends with. The
/// embedded actor of an Undo is checked before the actor is resolved; nothing is written
/// before the actor is resolved; a failed fetch of a QuoteRequest's instrument on the last
/// attempt still records the request.
pub fn inbox_next(facts: &InboxFacts, state: InboxState, event: InboxEvent)
    -> (r: Result<InboxState, HandlerFailure>)
    requires
        state.step != InboxStep::Finished,
        event_fits(state.step, event),
    ensures
        next_is(r, inbox_next_spec(*facts, state, event)),
{
    match event {
        InboxEvent::Failed(failure) => if state.step == InboxStep::FetchQuoteInstrument
            && failure.disposition == FailureDisposition::Retry && facts.last_attempt {
            go(state, InboxStep::ApplyTerminalQuoteRejection)
        } else {
            Err(failure)
        },
        InboxEvent::Answer(yes) => after_answer(facts, state, yes),
        InboxEvent::Followed(outcome) => match outcome {
            FollowOutcome::Applied { request } => if request {
                go(state, InboxStep::Finished)
            } else {
                go(state, InboxStep::ScheduleFollowAccept)
            },
            FollowOutcome::Rejected => go(state, InboxStep::ScheduleFollowReject),
            FollowOutcome::Ignored => go(state, InboxStep::Finished),
        },
        InboxEvent::UndoReference(kind) => match kind {
            UndoReferenceKind::Follow => go(state, InboxStep::UndoReferencedFollow),
            UndoReferenceKind::Block => go(state, InboxStep::UndoReferencedBlock),
            _ => go(state, InboxStep::UndoReferencedInteraction),
        },
        InboxEvent::Completed => after_completion(facts, state),
    }
}

/// How far a step is from the end of the handler; every step moves strictly closer.
pub open spec fn step_rank(step: InboxStep) -> nat {
    match step {
        InboxStep::Start => 10,
        InboxStep::ResolveActor => 9,
        InboxStep::ApplyPollVote | InboxStep::DeleteQuoteAuthorization | InboxStep::CheckQuoteImport
        | InboxStep::ApplyQuoteDecision | InboxStep::ApplyFollow | InboxStep::LookupActorMedia
        | InboxStep::LookupUndoReference => 8,
        InboxStep::ValidateVoteNote | InboxStep::ForwardNoteDelete | InboxStep::FetchQuoteInstrument
        | InboxStep::RemoveActorMedia => 7,
        InboxStep::CheckNoteExists | InboxStep::LookupNoteMedia | InboxStep::ValidateQuoteInstrument
        | InboxStep::DeleteActor => 6,
        InboxStep::CheckNoteRelevance | InboxStep::RemoveNoteMedia | InboxStep::ApplyQuoteInstrument => 5,
        InboxStep::FetchQuoteAuthorization | InboxStep::DeleteNote | InboxStep::ApplyQuoteRequest
        | InboxStep::ApplyTerminalQuoteRejection => 4,
        InboxStep::CreateNote | InboxStep::UpdateNote => 3,
        InboxStep::ApplyQuoteAuthorization => 2,
        InboxStep::Finished => 0,
        _ => 1,
    }
}

/// Handling an inbound activity ends: every step either fails the job or moves to a step
/// of strictly lower rank, so the handler is done after at most ten steps.
pub proof fn lemma_inbox_steps_decrease(f: InboxFacts, s: InboxState, e: InboxEvent)
    requires
        s.step != InboxStep::Finished,
        event_fits(s.step, e),
    ensures
        inbox_next_spec(f, s, e) matches Ok(t) ==> step_rank(t.step) < step_rank(s.step),
{
}

/// Nothing is written before the actor is resolved: from the start, an inbound activity is
/// either ignored (unsupported), refused (an Undo whose embedded activity names another
/// actor) or goes to actor resolution.
pub proof fn lemma_inbox_resolves_actor_first(f: InboxFacts, s: InboxState)
    requires
        s.step == InboxStep::Start,
    ensures
        inbox_next_spec(f, s, InboxEvent::Completed) == (if f.kind == InboxActivityKind::Unsupported {
            goto(s, InboxStep::Finished)
        } else if undoes_embedded_relationship(f.kind) && names_other_actor(opt_string(f.nested_actor_uri), f.actor_uri@) {
            permanent("remote Undo actor does not match its embedded Follow"@)
        } else {
            goto(s, InboxStep::ResolveActor)
        }),
{
}

/// A signed Create is forwarded once its Note is written: right after the Note when no
/// quote authorization came back, and right after the authorization is applied otherwise.
/// An unsigned Create is done once its Note (and authorization) is written.
pub proof fn lemma_created_note_forwarding(f: InboxFacts, s: InboxState)
    requires
        f.kind == InboxActivityKind::CreateNote || f.kind == InboxActivityKind::CreateVote,
        s.step == InboxStep::CreateNote,
    ensures
        inbox_next_spec(f, s, InboxEvent::Completed) == Ok::<InboxState, (FailureDisposition, Seq<char>)>(InboxState {
            step: if s.quote_document {
                InboxStep::ApplyQuoteAuthorization
            } else if f.signed {
                InboxStep::ForwardNote
            } else {
                InboxStep::Finished
            },
            ..s
        }),
        inbox_next_spec(f, InboxState { step: InboxStep::ApplyQuoteAuthorization, ..s }, InboxEvent::Completed)
            == Ok::<InboxState, (FailureDisposition, Seq<char>)>(InboxState {
            step: if f.signed { InboxStep::ForwardNote } else { InboxStep::Finished },
            ..s
        }),
        inbox_next_spec(f, InboxState { step: InboxStep::ForwardNote, ..s }, InboxEvent::Completed)
            == Ok::<InboxState, (FailureDisposition, Seq<char>)>(InboxState { step: InboxStep::Finished, ..s }),
{
}

/// An Update is forwarded only when the Note existed before, the update was applied and the
/// activity is signed; the quote authorization, when one came back, is applied first.
pub proof fn lemma_updated_note_forwarding(f: InboxFacts, s: InboxState, updated: bool)
    requires
        f.kind == InboxActivityKind::UpdateNote,
        s.step == InboxStep::UpdateNote,
    ensures
        inbox_next_spec(f, s, InboxEvent::Answer(updated)) == Ok::<InboxState, (FailureDisposition, Seq<char>)>(InboxState {
            step: if s.quote_document {
                InboxStep::ApplyQuoteAuthorization
            } else if s.note_exists && updated && f.signed {
                InboxStep::ForwardNoteUpdate
            } else {
                InboxStep::Finished
            },
            note_updated: updated,
            ..s
        }),
        inbox_next_spec(f, InboxState { step: InboxStep::ApplyQuoteAuthorization, note_updated: updated, ..s },
            InboxEvent::Completed) == Ok::<InboxState, (FailureDisposition, Seq<char>)>(InboxState {
            step: if s.note_exists && updated && f.signed { InboxStep::ForwardNoteUpdate } else { InboxStep::Finished },
            note_updated: updated,
            ..s
        }),
{
}

/// A Delete whose object is a quote authorization of the actor ends there; otherwise a signed
/// Delete is forwarded, the Note's media is looked up, its files are removed when a media
/// root is configured, and the Note is deleted.
pub proof fn lemma_note_delete_flow(f: InboxFacts, s: InboxState, matched: bool)
    requires
        f.kind == InboxActivityKind::DeleteNote,
    ensures
        inbox_next_spec(f, InboxState { step: InboxStep::DeleteQuoteAuthorization, ..s }, InboxEvent::Answer(matched))
            == Ok::<InboxState, (FailureDisposition, Seq<char>)>(InboxState {
            step: if matched {
                InboxStep::Finished
            } else if f.signed {
                InboxStep::ForwardNoteDelete
            } else {
                InboxStep::LookupNoteMedia
            },
            ..s
        }),
        inbox_next_spec(f, InboxState { step: InboxStep::LookupNoteMedia, ..s }, InboxEvent::Completed)
            == Ok::<InboxState, (FailureDisposition, Seq<char>)>(InboxState {
            step: if f.media_root { InboxStep::RemoveNoteMedia } else { InboxStep::DeleteNote },
            ..s
        }),
        inbox_next_spec(f, InboxState { step: InboxStep::RemoveNoteMedia, ..s }, InboxEvent::Completed)
            == Ok::<InboxState, (FailureDisposition, Seq<char>)>(InboxState { step: InboxStep::DeleteNote, ..s }),
        inbox_next_spec(f, InboxState { step: InboxStep::ForwardNoteDelete, ..s }, InboxEvent::Completed)
            == Ok::<InboxState, (FailureDisposition, Seq<char>)>(InboxState { step: InboxStep::LookupNoteMedia, ..s }),
{
}

/// A Follow that was applied without needing approval is accepted, one that was rejected
/// is answered with a Reject, and one awaiting approval or ignored needs nothing more.
pub proof fn lemma_follow_replies(f: InboxFacts, s: InboxState, outcome: FollowOutcome)
    requires
        s.step == InboxStep::ApplyFollow,
    ensures
        inbox_next_spec(f, s, InboxEvent::Followed(outcome)) == Ok::<InboxState, (FailureDisposition, Seq<char>)>(InboxState {
            step: match outcome {
                FollowOutcome::Applied { request: false } => InboxStep::ScheduleFollowAccept,
                FollowOutcome::Rejected => InboxStep::ScheduleFollowReject,
                _ => InboxStep::Finished,
            },
            ..s
        }),
{
}

/// A quote decision that matched no quote falls back to the Follow it may answer: a Reject
/// always, an Accept when the decision allows it.
pub proof fn lemma_quote_decision_fallback(f: InboxFacts, s: InboxState, matched: bool)
    requires
        f.kind == InboxActivityKind::Reject || f.kind == InboxActivityKind::QuoteDecision,
        s.step == InboxStep::ApplyQuoteDecision,
    ensures
        inbox_next_spec(f, s, InboxEvent::Answer(matched)) == Ok::<InboxState, (FailureDisposition, Seq<char>)>(InboxState {
            step: if matched {
                InboxStep::Finished
            } else if f.kind == InboxActivityKind::Reject {
                InboxStep::ApplyFollowDecision(false)
            } else if f.follow_fallback {
                InboxStep::ApplyFollowDecision(true)
            } else {
                InboxStep::Finished
            },
            ..s
        }),
{
}

/// A failed step ends the job with its failure, except a retryable failure to fetch a
/// QuoteRequest's instrument on the last attempt, after which the request is still recorded.
pub proof fn lemma_failures_end_the_job(f: InboxFacts, s: InboxState, failure: HandlerFailure)
    requires
        s.step != InboxStep::Start,
    ensures
        inbox_next_spec(f, s, InboxEvent::Failed(failure)) == (if s.step == InboxStep::FetchQuoteInstrument
            && failure.disposition == FailureDisposition::Retry && f.last_attempt {
            Ok::<InboxState, (FailureDisposition, Seq<char>)>(InboxState { step: InboxStep::ApplyTerminalQuoteRejection, ..s })
        } else {
            Err::<InboxState, (FailureDisposition, Seq<char>)>((failure.disposition, failure.message@))
        }),
{
}

/// Once the actor is resolved, each kind of activity starts its own work: a vote is applied,
/// a Note Create checks relevance, an Update checks whether the Note exists, a Delete tries
/// the quote authorization, a Follow, Like, Announce, Block, Flag or actor Update is
/// applied, an Accept applies the Follow decision, a Reject or quote decision is tried
/// against quotes; a QuoteRequest without instrument ID and an actor Delete naming another
/// object are refused for good.
pub proof fn lemma_work_after_actor_resolution(f: InboxFacts, s: InboxState)
    requires
        s.step == InboxStep::ResolveActor,
    ensures
        ({
            let next = inbox_next_spec(f, s, InboxEvent::Completed);
            &&& f.kind == InboxActivityKind::CreateVote ==> next == goto(s, InboxStep::ApplyPollVote)
            &&& f.kind == InboxActivityKind::CreateNote ==> next == goto(s, InboxStep::CheckNoteRelevance)
            &&& f.kind == InboxActivityKind::CreateNoteReference ==> next == goto(s, InboxStep::ScheduleNoteResolution)
            &&& f.kind == InboxActivityKind::UpdateNote ==> next == goto(s, InboxStep::CheckNoteExists)
            &&& f.kind == InboxActivityKind::DeleteNote ==> next == goto(s, InboxStep::DeleteQuoteAuthorization)
            &&& f.kind == InboxActivityKind::DeleteQuoteAuthorization ==> next == goto(s, InboxStep::DeleteQuoteAuthorization)
            &&& f.kind == InboxActivityKind::QuoteRequest ==> next == (if f.instrument_has_id {
                goto(s, InboxStep::CheckQuoteImport)
            } else {
                Err((FailureDisposition::Permanent, "QuoteRequest instrument has no ID"@))
            })
            &&& f.kind == InboxActivityKind::QuoteDecision ==> next == goto(s, InboxStep::ApplyQuoteDecision)
            &&& f.kind == InboxActivityKind::Like ==> next == goto(s, InboxStep::ApplyLike)
            &&& f.kind == InboxActivityKind::Announce ==> next == goto(s, InboxStep::ProcessAnnounce)
            &&& f.kind == InboxActivityKind::UndoLike ==> next == goto(s, InboxStep::ApplyUndoLike)
            &&& f.kind == InboxActivityKind::UndoAnnounce ==> next == goto(s, InboxStep::ApplyUndoAnnounce)
            &&& f.kind == InboxActivityKind::Follow ==> next == goto(s, InboxStep::ApplyFollow)
            &&& f.kind == InboxActivityKind::Flag ==> next == goto(s, InboxStep::CreateReport)
            &&& f.kind == InboxActivityKind::Block ==> next == goto(s, InboxStep::ApplyBlock)
            &&& f.kind == InboxActivityKind::UpdateActor ==> next == goto(s, InboxStep::ApplyActorUpdate)
            &&& f.kind == InboxActivityKind::DeleteActor ==> next == (if f.object_uri@ == f.actor_uri@ {
                goto(s, InboxStep::LookupActorMedia)
            } else {
                Err((FailureDisposition::Permanent, "remote actor Delete object does not match its actor"@))
            })
            &&& f.kind == InboxActivityKind::UndoReference ==> next == goto(s, InboxStep::LookupUndoReference)
            &&& f.kind == InboxActivityKind::Accept ==> next == goto(s, InboxStep::ApplyFollowDecision(true))
            &&& f.kind == InboxActivityKind::Reject ==> next == goto(s, InboxStep::ApplyQuoteDecision)
            &&& f.kind == InboxActivityKind::UndoFollow ==> next == goto(s, InboxStep::ApplyUndoFollow)
            &&& f.kind == InboxActivityKind::UndoBlock ==> next == goto(s, InboxStep::ApplyUndoBlock)
        }),
{
}

/// A single write ends the handling of a Like, an Announce, their Undos, a Block, its Undo,
/// an Undo of a Follow, a Flag, an actor Update, a scheduled Note resolution, an accepted
/// or rejected Follow decision, a forwarded Note, a deleted Note or actor, and an undone
/// reference.
pub proof fn lemma_single_writes_finish(f: InboxFacts, s: InboxState)
    requires
        s.step == InboxStep::ApplyLike || s.step == InboxStep::ProcessAnnounce || s.step == InboxStep::ApplyUndoLike
            || s.step == InboxStep::ApplyUndoAnnounce || s.step == InboxStep::ApplyBlock
            || s.step == InboxStep::ApplyUndoBlock || s.step == InboxStep::ApplyUndoFollow
            || s.step == InboxStep::CreateReport || s.step == InboxStep::ApplyActorUpdate
            || s.step == InboxStep::ScheduleNoteResolution || s.step == InboxStep::ApplyFollowDecision(true)
            || s.step == InboxStep::ApplyFollowDecision(false) || s.step == InboxStep::ForwardNoteUpdate
            || s.step == InboxStep::DeleteNote || s.step == InboxStep::DeleteActor
            || s.step == InboxStep::UndoReferencedFollow || s.step == InboxStep::UndoReferencedBlock
            || s.step == InboxStep::UndoReferencedInteraction || s.step == InboxStep::ScheduleFollowAccept
            || s.step == InboxStep::ScheduleFollowReject || s.step == InboxStep::ApplyQuoteRequest
            || s.step == InboxStep::ApplyTerminalQuoteRejection,
    ensures
        inbox_next_spec(f, s, InboxEvent::Completed) == goto(s, InboxStep::Finished),
{
}

} // verus!
