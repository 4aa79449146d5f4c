use rustodon_worker::failure::{FailureDisposition, HandlerFailure};
use rustodon_worker::inbox::{
    FollowOutcome, InboxActivityKind, InboxEvent, InboxFacts, InboxState, InboxStep, UndoReferenceKind,
    delete_actor_binding, event_fits_step, inbox_actor_binding, inbox_next, inbox_start,
};

fn facts(kind: InboxActivityKind) -> InboxFacts {
    InboxFacts {
        kind,
        actor_uri: "https://remote.example/users/alice".to_owned(),
        nested_actor_uri: None,
        object_uri: "https://remote.example/users/alice".to_owned(),
        signed: false,
        object_is_object: true,
        object_has_id: true,
        media_root: false,
        instrument_has_id: true,
        instrument_is_object: true,
        last_attempt: false,
        follow_fallback: false,
    }
}

fn step(f: &InboxFacts, s: InboxState, e: InboxEvent) -> InboxState {
    inbox_next(f, s, e).expect("the handler goes on")
}

/// Runs the handler, answering every question with the given answers in order.
fn run(f: &InboxFacts, mut events: Vec<InboxEvent>) -> Vec<InboxStep> {
    let mut s = inbox_start();
    let mut steps = Vec::new();
    events.reverse();
    while s.step != InboxStep::Finished {
        let e = events.pop().unwrap_or(InboxEvent::Completed);
        s = step(f, s, e);
        steps.push(s.step);
    }
    steps
}

#[test]
fn an_undo_whose_embedded_follow_names_another_actor_is_refused() {
    let failure = inbox_actor_binding(
        InboxActivityKind::UndoFollow,
        "https://remote.example/users/alice",
        Some("https://remote.example/users/mallory"),
    )
    .expect_err("the embedded actor differs");
    assert_eq!(failure.disposition, FailureDisposition::Permanent);
    assert_eq!(failure.message, "remote Undo actor does not match its embedded Follow");
    assert!(inbox_actor_binding(InboxActivityKind::UndoBlock, "a", Some("a")).is_ok());
    assert!(inbox_actor_binding(InboxActivityKind::UndoFollow, "a", None).is_ok());
    assert!(inbox_actor_binding(InboxActivityKind::Accept, "a", Some("b")).is_ok());

    let mut f = facts(InboxActivityKind::UndoBlock);
    f.nested_actor_uri = Some("https://remote.example/users/mallory".to_owned());
    let refused = inbox_next(&f, inbox_start(), InboxEvent::Completed).expect_err("refused before resolution");
    assert_eq!(refused.message, "remote Undo actor does not match its embedded Follow");
}

#[test]
fn an_actor_delete_must_name_its_actor() {
    assert!(delete_actor_binding("https://a.example/u", "https://a.example/u").is_ok());
    let failure = delete_actor_binding("https://a.example/u", "https://a.example/v").expect_err("mismatch");
    assert_eq!(failure.message, "remote actor Delete object does not match its actor");

    let mut f = facts(InboxActivityKind::DeleteActor);
    f.object_uri = "https://remote.example/users/bob".to_owned();
    let s = step(&f, inbox_start(), InboxEvent::Completed);
    assert_eq!(s.step, InboxStep::ResolveActor);
    let refused = inbox_next(&f, s, InboxEvent::Completed).expect_err("mismatch after resolution");
    assert_eq!(refused.disposition, FailureDisposition::Permanent);

    let mut g = facts(InboxActivityKind::DeleteActor);
    g.media_root = true;
    assert_eq!(
        run(&g, vec![]),
        vec![InboxStep::ResolveActor, InboxStep::LookupActorMedia, InboxStep::RemoveActorMedia, InboxStep::DeleteActor, InboxStep::Finished]
    );
}

#[test]
fn unsupported_activities_are_ignored() {
    assert_eq!(run(&facts(InboxActivityKind::Unsupported), vec![]), vec![InboxStep::Finished]);
}

#[test]
fn a_signed_note_with_a_quote_authorization_is_created_and_forwarded() {
    let mut f = facts(InboxActivityKind::CreateNote);
    f.signed = true;
    let steps = run(&f, vec![InboxEvent::Completed, InboxEvent::Completed, InboxEvent::Answer(true), InboxEvent::Answer(true)]);
    assert_eq!(
        steps,
        vec![
            InboxStep::ResolveActor,
            InboxStep::CheckNoteRelevance,
            InboxStep::FetchQuoteAuthorization,
            InboxStep::CreateNote,
            InboxStep::ApplyQuoteAuthorization,
            InboxStep::ForwardNote,
            InboxStep::Finished,
        ]
    );
    let irrelevant = run(&f, vec![InboxEvent::Completed, InboxEvent::Completed, InboxEvent::Answer(false)]);
    assert_eq!(irrelevant, vec![InboxStep::ResolveActor, InboxStep::CheckNoteRelevance, InboxStep::Finished]);

    let mut no_id = facts(InboxActivityKind::CreateNote);
    no_id.object_has_id = false;
    let s = step(&no_id, step(&no_id, inbox_start(), InboxEvent::Completed), InboxEvent::Completed);
    assert_eq!(s.step, InboxStep::CheckNoteRelevance);
    let failure = inbox_next(&no_id, s, InboxEvent::Answer(true)).expect_err("no object URI");
    assert_eq!(failure.message, "remote Note has no object URI");
}

#[test]
fn an_update_is_forwarded_only_for_an_existing_updated_note() {
    let mut f = facts(InboxActivityKind::UpdateNote);
    f.signed = true;
    let steps = run(
        &f,
        vec![InboxEvent::Completed, InboxEvent::Completed, InboxEvent::Answer(true), InboxEvent::Answer(false), InboxEvent::Answer(true)],
    );
    assert_eq!(
        steps,
        vec![
            InboxStep::ResolveActor,
            InboxStep::CheckNoteExists,
            InboxStep::FetchQuoteAuthorization,
            InboxStep::UpdateNote,
            InboxStep::ForwardNoteUpdate,
            InboxStep::Finished,
        ]
    );
    let new_note = run(
        &f,
        vec![
            InboxEvent::Completed,
            InboxEvent::Completed,
            InboxEvent::Answer(false),
            InboxEvent::Answer(true),
            InboxEvent::Answer(false),
            InboxEvent::Answer(true),
        ],
    );
    assert_eq!(new_note.last(), Some(&InboxStep::Finished));
    assert!(!new_note.contains(&InboxStep::ForwardNoteUpdate));
}

#[test]
fn a_vote_that_is_not_a_poll_vote_falls_back_to_its_note() {
    let f = facts(InboxActivityKind::CreateVote);
    let steps = run(&f, vec![InboxEvent::Completed, InboxEvent::Completed, InboxEvent::Answer(true), InboxEvent::Completed, InboxEvent::Answer(true)]);
    assert_eq!(
        steps,
        vec![
            InboxStep::ResolveActor,
            InboxStep::ApplyPollVote,
            InboxStep::ValidateVoteNote,
            InboxStep::CheckNoteRelevance,
            InboxStep::CreateNote,
            InboxStep::Finished,
        ]
    );
    let mut scalar = facts(InboxActivityKind::CreateVote);
    scalar.object_is_object = false;
    let s = step(&scalar, step(&scalar, inbox_start(), InboxEvent::Completed), InboxEvent::Completed);
    let failure = inbox_next(&scalar, s, InboxEvent::Answer(true)).expect_err("not a Note object");
    assert_eq!(failure.message, "remote vote candidate object is not a Note object");
}

#[test]
fn a_note_delete_tries_the_quote_authorization_first() {
    let mut f = facts(InboxActivityKind::DeleteNote);
    f.signed = true;
    f.media_root = true;
    assert_eq!(
        run(&f, vec![InboxEvent::Completed, InboxEvent::Completed, InboxEvent::Answer(true)]),
        vec![InboxStep::ResolveActor, InboxStep::DeleteQuoteAuthorization, InboxStep::Finished]
    );
    assert_eq!(
        run(&f, vec![InboxEvent::Completed, InboxEvent::Completed, InboxEvent::Answer(false)]),
        vec![
            InboxStep::ResolveActor,
            InboxStep::DeleteQuoteAuthorization,
            InboxStep::ForwardNoteDelete,
            InboxStep::LookupNoteMedia,
            InboxStep::RemoveNoteMedia,
            InboxStep::DeleteNote,
            InboxStep::Finished,
        ]
    );
}

#[test]
fn a_follow_is_accepted_or_rejected_by_its_outcome() {
    let f = facts(InboxActivityKind::Follow);
    let accepted = run(&f, vec![InboxEvent::Completed, InboxEvent::Completed, InboxEvent::Followed(FollowOutcome::Applied { request: false })]);
    assert!(accepted.contains(&InboxStep::ScheduleFollowAccept));
    let requested = run(&f, vec![InboxEvent::Completed, InboxEvent::Completed, InboxEvent::Followed(FollowOutcome::Applied { request: true })]);
    assert_eq!(requested, vec![InboxStep::ResolveActor, InboxStep::ApplyFollow, InboxStep::Finished]);
    let rejected = run(&f, vec![InboxEvent::Completed, InboxEvent::Completed, InboxEvent::Followed(FollowOutcome::Rejected)]);
    assert!(rejected.contains(&InboxStep::ScheduleFollowReject));
    let ignored = run(&f, vec![InboxEvent::Completed, InboxEvent::Completed, InboxEvent::Followed(FollowOutcome::Ignored)]);
    assert_eq!(ignored, vec![InboxStep::ResolveActor, InboxStep::ApplyFollow, InboxStep::Finished]);
}

#[test]
fn a_reject_falls_back_to_the_follow_when_no_quote_matched() {
    let f = facts(InboxActivityKind::Reject);
    assert_eq!(
        run(&f, vec![InboxEvent::Completed, InboxEvent::Completed, InboxEvent::Answer(false)]),
        vec![InboxStep::ResolveActor, InboxStep::ApplyQuoteDecision, InboxStep::ApplyFollowDecision(false), InboxStep::Finished]
    );
    let mut q = facts(InboxActivityKind::QuoteDecision);
    q.follow_fallback = true;
    assert!(run(&q, vec![InboxEvent::Completed, InboxEvent::Completed, InboxEvent::Answer(false)])
        .contains(&InboxStep::ApplyFollowDecision(true)));
    q.follow_fallback = false;
    assert!(!run(&q, vec![InboxEvent::Completed, InboxEvent::Completed, InboxEvent::Answer(false)])
        .contains(&InboxStep::ApplyFollowDecision(true)));
}

#[test]
fn a_quote_request_whose_instrument_never_arrives_is_still_recorded() {
    let mut f = facts(InboxActivityKind::QuoteRequest);
    f.instrument_is_object = false;
    f.last_attempt = true;
    let s = step(&f, step(&f, inbox_start(), InboxEvent::Completed), InboxEvent::Completed);
    assert_eq!(s.step, InboxStep::CheckQuoteImport);
    let s = step(&f, s, InboxEvent::Answer(true));
    assert_eq!(s.step, InboxStep::FetchQuoteInstrument);
    let s = step(&f, s, InboxEvent::Failed(HandlerFailure::retry("remote QuoteRequest instrument fetch failed")));
    assert_eq!(s.step, InboxStep::ApplyTerminalQuoteRejection);
    let mut early = facts(InboxActivityKind::QuoteRequest);
    early.instrument_is_object = false;
    let s = step(&early, step(&early, step(&early, inbox_start(), InboxEvent::Completed), InboxEvent::Completed), InboxEvent::Answer(true));
    let failure = inbox_next(&early, s, InboxEvent::Failed(HandlerFailure::retry("remote QuoteRequest instrument fetch failed")))
        .expect_err("retried");
    assert_eq!(failure.disposition, FailureDisposition::Retry);
    let mut no_id = facts(InboxActivityKind::QuoteRequest);
    no_id.instrument_has_id = false;
    let s = step(&no_id, inbox_start(), InboxEvent::Completed);
    assert_eq!(inbox_next(&no_id, s, InboxEvent::Completed).expect_err("no ID").message, "QuoteRequest instrument has no ID");
}

#[test]
fn an_undo_by_reference_undoes_what_it_names() {
    let f = facts(InboxActivityKind::UndoReference);
    for (kind, expected) in [
        (UndoReferenceKind::Follow, InboxStep::UndoReferencedFollow),
        (UndoReferenceKind::Block, InboxStep::UndoReferencedBlock),
        (UndoReferenceKind::Announce, InboxStep::UndoReferencedInteraction),
        (UndoReferenceKind::Unknown, InboxStep::UndoReferencedInteraction),
    ] {
        let steps = run(&f, vec![InboxEvent::Completed, InboxEvent::Completed, InboxEvent::UndoReference(kind)]);
        assert_eq!(steps, vec![InboxStep::ResolveActor, InboxStep::LookupUndoReference, expected, InboxStep::Finished]);
    }
}

#[test]
fn each_step_takes_only_the_outcomes_it_can_report() {
    assert!(event_fits_step(InboxStep::Start, &InboxEvent::Completed));
    assert!(!event_fits_step(InboxStep::Start, &InboxEvent::Answer(true)));
    assert!(event_fits_step(InboxStep::CheckNoteRelevance, &InboxEvent::Answer(false)));
    assert!(!event_fits_step(InboxStep::CheckNoteRelevance, &InboxEvent::Completed));
    assert!(event_fits_step(InboxStep::ApplyFollow, &InboxEvent::Followed(FollowOutcome::Rejected)));
    assert!(event_fits_step(InboxStep::CreateNote, &InboxEvent::Failed(HandlerFailure::retry("x"))));
    assert!(!event_fits_step(InboxStep::Start, &InboxEvent::Failed(HandlerFailure::retry("x"))));
}
