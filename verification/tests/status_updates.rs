use chrono::{DateTime, Utc};
use rustodon_worker::json::JsonValue;
use rustodon_worker::registry::Lane;
use rustodon_worker::status_update::{
    StatusDistributionPlan, StatusUpdateFence, StatusUpdateKind, StatusUpdateVersionDecision,
    complete_status_update_delivery_kind, status_distribution_plan, status_update_plan,
    fence_edited_at, inferred_current_repair_delivery_kind, quote_revision_is_current, quote_update_versions,
    status_snapshot_repair_activity_id, status_snapshot_repair_job, status_update_delivery_is_current,
    status_update_fence, status_update_version_decision, status_update_versions, update_activity_id,
    update_delivery_is_current,
};

/// Microseconds since the epoch of a whole second and its nanoseconds.
fn micros(seconds: i64, nanos: u32) -> i64 {
    DateTime::<Utc>::from_timestamp(seconds, nanos).expect("valid timestamp").timestamp_micros()
}

#[test]
fn account_update_delivery_rejects_stale_microsecond_version_with_same_activity_id() {
    let updated_at = micros(1_700_000_000, 123_000_000);
    let actor_uri = "https://local.example/users/alice";
    let activity_id = format!("{actor_uri}#updates/{}", updated_at.div_euclid(1_000_000));
    let current_updated_at_micros = updated_at;

    for activity_id in [activity_id, update_activity_id(actor_uri, updated_at)] {
        assert!(!update_delivery_is_current(
            Some(&activity_id),
            actor_uri,
            updated_at,
            Some(current_updated_at_micros - 1),
        ));
        assert!(update_delivery_is_current(
            Some(&activity_id),
            actor_uri,
            updated_at,
            Some(current_updated_at_micros),
        ));
    }
    let stale_id = update_activity_id(actor_uri, updated_at - 1);
    assert!(!update_delivery_is_current(Some(&stale_id), actor_uri, updated_at, Some(current_updated_at_micros)));
}

#[test]
fn status_update_distribution_fences_both_versions_and_only_coalesces_poll_jobs() {
    let status_version = micros(1_700_000_000, 0);
    let old_poll = status_version + 1;
    let current_poll = old_poll + 1;

    assert_eq!(
        status_update_versions(
            status_version,
            Some(current_poll),
            Some(status_version),
            Some(old_poll),
            StatusUpdateKind::Status,
            true,
        ),
        None,
        "a delayed status edit must not serialize a newer poll"
    );
    assert_eq!(
        status_update_versions(
            status_version,
            Some(current_poll),
            Some(status_version),
            Some(old_poll),
            StatusUpdateKind::Poll,
            true,
        ),
        Some((status_version, Some(current_poll), current_poll)),
        "a poll job may coalesce only while its status snapshot remains current"
    );
    assert_eq!(
        status_update_versions(
            status_version + 1,
            Some(current_poll),
            Some(status_version),
            Some(old_poll),
            StatusUpdateKind::Poll,
            true,
        ),
        None,
        "a poll job must repair rather than coalesce across status edits"
    );
    assert_eq!(
        status_update_version_decision(
            status_version + 2,
            Some(current_poll),
            Some(status_version),
            Some(current_poll),
            StatusUpdateKind::Poll,
            true,
        ),
        StatusUpdateVersionDecision::Repair,
        "a poll update stale only by a status edit must schedule combined repair"
    );
    let repaired_status = status_version + 3;
    assert_eq!(
        status_update_version_decision(
            repaired_status,
            Some(current_poll),
            Some(repaired_status),
            Some(current_poll),
            StatusUpdateKind::PollRepair,
            true,
        ),
        StatusUpdateVersionDecision::Deliver(repaired_status, Some(current_poll), repaired_status),
        "an exact combined repair uses the newest component and does not loop"
    );
    assert_eq!(
        status_update_version_decision(
            repaired_status,
            Some(current_poll + 1),
            Some(repaired_status),
            Some(current_poll),
            StatusUpdateKind::PollRepair,
            true,
        ),
        StatusUpdateVersionDecision::Repair,
        "a superseded repair schedules one repair for the new pair"
    );
    assert!(StatusUpdateKind::PollRepair.has_poll_reach());
}

#[test]
fn interaction_policy_updates_use_the_status_row_update_version() {
    let policy_version = micros(1_700_000_100, 123_000_000);
    assert_eq!(StatusUpdateKind::parse("interaction_policy"), Some(StatusUpdateKind::InteractionPolicy));
    assert_eq!(
        status_update_versions(
            policy_version,
            None,
            Some(policy_version),
            None,
            StatusUpdateKind::InteractionPolicy,
            true,
        ),
        Some((policy_version, None, policy_version))
    );
    let object_uri = "https://local.example/users/alice/statuses/7";
    let activity_id = update_activity_id(object_uri, policy_version);
    assert!(status_update_delivery_is_current(
        StatusUpdateKind::InteractionPolicy,
        Some(&activity_id),
        object_uri,
        policy_version,
        None,
        Some(policy_version),
        None,
        Some(policy_version),
    ));
}

#[test]
fn quote_updates_preserve_edit_and_poll_snapshots_with_an_independent_version() {
    let status_version = micros(1_700_000_000, 123_000_000);
    let poll_version = status_version + 1;
    let quote_version = poll_version + 1;
    let object_uri = "https://local.example/users/alice/statuses/7";
    let activity_id = update_activity_id(object_uri, quote_version);
    let status_micros = status_version;
    let poll_micros = poll_version;
    let quote_micros = quote_version;
    let revoked_quote_version = quote_version + 1;
    let revoked_quote_micros = revoked_quote_version;

    assert!(quote_revision_is_current(Some(quote_version), Some(quote_micros)));
    assert!(!quote_revision_is_current(Some(revoked_quote_version), Some(quote_micros)));
    assert!(quote_revision_is_current(Some(revoked_quote_version), Some(revoked_quote_micros)));

    assert_eq!(StatusUpdateKind::parse("quote"), Some(StatusUpdateKind::Quote));
    assert_eq!(StatusUpdateKind::Quote.as_str(), "quote");
    assert!(!StatusUpdateKind::Quote.is_repair());
    assert!(!StatusUpdateKind::Quote.has_poll_reach());
    assert_eq!(
        quote_update_versions(
            status_version,
            Some(poll_version),
            Some(quote_version),
            Some(status_version),
            Some(poll_version),
            Some(quote_micros),
            Some(quote_version),
        ),
        Some((status_version, Some(poll_version), quote_version)),
    );
    assert_eq!(
        quote_update_versions(
            status_version,
            Some(poll_version),
            Some(quote_version),
            Some(status_version + 1),
            Some(poll_version),
            Some(quote_micros),
            Some(quote_version),
        ),
        None,
        "a quote transition must not serialize across a status edit",
    );
    assert_eq!(
        complete_status_update_delivery_kind(
            Some("quote"),
            true,
            Some(status_micros),
            Some(poll_micros),
            Some(quote_micros),
            Some(quote_micros),
        ),
        Some(StatusUpdateKind::Quote),
    );
    assert!(status_update_delivery_is_current(
        StatusUpdateKind::Quote,
        Some(&activity_id),
        object_uri,
        status_version,
        Some(poll_version),
        Some(status_micros),
        Some(poll_micros),
        Some(quote_micros),
    ));
    assert!(!status_update_delivery_is_current(
        StatusUpdateKind::Quote,
        Some(&activity_id),
        object_uri,
        status_version + 1,
        Some(poll_version),
        Some(status_micros),
        Some(poll_micros),
        Some(quote_micros),
    ));
}

#[test]
fn status_update_delivery_fences_status_and_poll_versions_independently() {
    let status_version = micros(1_700_000_000, 123_000_000);
    let poll_version = status_version + 10;
    let next_poll_version = poll_version + 1;
    let object_uri = "https://local.example/users/alice/statuses/7";
    let activity_id = update_activity_id(object_uri, status_version);
    let status_micros = status_version;
    let poll_micros = poll_version;

    assert!(status_update_delivery_is_current(
        StatusUpdateKind::Status,
        Some(&activity_id),
        object_uri,
        status_version,
        Some(poll_version),
        Some(status_micros),
        Some(poll_micros),
        Some(status_micros),
    ));
    let status_repair_activity_id = status_snapshot_repair_activity_id(object_uri, status_version, None);
    assert_ne!(status_repair_activity_id, activity_id);
    assert!(status_update_delivery_is_current(
        StatusUpdateKind::StatusRepair,
        Some(&status_repair_activity_id),
        object_uri,
        status_version,
        None,
        Some(status_micros),
        None,
        Some(status_micros),
    ));
    let poll_activity_id = update_activity_id(object_uri, poll_version);
    assert!(status_update_delivery_is_current(
        StatusUpdateKind::Poll,
        Some(&poll_activity_id),
        object_uri,
        status_version,
        Some(poll_version),
        Some(status_micros),
        Some(poll_micros),
        Some(poll_micros),
    ));
    let repair_status_version = poll_version + 10;
    let repair_status_micros = repair_status_version;
    let repair_activity_id =
        status_snapshot_repair_activity_id(object_uri, repair_status_version, Some(poll_version));
    assert_ne!(
        repair_activity_id,
        status_snapshot_repair_activity_id(object_uri, repair_status_version, Some(next_poll_version)),
        "repair identity must bind both snapshots even when their maximum is unchanged"
    );
    assert!(status_update_delivery_is_current(
        StatusUpdateKind::PollRepair,
        Some(&repair_activity_id),
        object_uri,
        repair_status_version,
        Some(poll_version),
        Some(repair_status_micros),
        Some(poll_micros),
        Some(repair_status_micros),
    ));
    assert_eq!(
        inferred_current_repair_delivery_kind(
            Some(&repair_activity_id),
            object_uri,
            repair_status_version,
            Some(poll_version),
            Some(repair_status_micros),
        ),
        Some(StatusUpdateKind::PollRepair),
        "an exact pair-bound repair remains deliverable if its metadata is stripped"
    );
    assert!(!status_update_delivery_is_current(
        StatusUpdateKind::Status,
        Some(&activity_id),
        object_uri,
        status_version,
        Some(next_poll_version),
        Some(status_micros),
        Some(poll_micros),
        Some(status_micros),
    ));
    assert!(!status_update_delivery_is_current(
        StatusUpdateKind::Status,
        Some(&activity_id),
        object_uri,
        status_version + 1,
        Some(poll_version),
        Some(status_micros),
        Some(poll_micros),
        Some(status_micros),
    ));
}

#[test]
fn legacy_or_partial_status_update_delivery_metadata_requires_current_repair() {
    let micros = Some(1_700_000_000_000_000);
    assert_eq!(
        complete_status_update_delivery_kind(Some("poll_repair"), true, micros, micros, micros, micros),
        Some(StatusUpdateKind::PollRepair)
    );
    for (kind, edited, poll, version) in [
        (None, micros, micros, micros),
        (Some("poll"), None, micros, micros),
        (Some("poll"), micros, None, micros),
        (Some("poll"), micros, micros, None),
    ] {
        assert_eq!(
            complete_status_update_delivery_kind(kind, true, edited, poll, version, micros),
            None,
            "incomplete legacy metadata must schedule a current combined repair"
        );
    }
    assert_eq!(
        complete_status_update_delivery_kind(Some("status"), false, micros, None, micros, micros),
        Some(StatusUpdateKind::Status)
    );
    assert_eq!(
        complete_status_update_delivery_kind(Some("status"), false, micros, micros, micros, micros),
        None,
        "a contradictory poll snapshot must not make a legacy body current"
    );
    let later = micros.map(|value| value + 1);
    assert_eq!(
        complete_status_update_delivery_kind(Some("status"), true, micros, later, later, later),
        None,
        "kind, published time, and selected version must agree"
    );
}

#[test]
fn update_activity_ids_carry_the_microsecond_version() {
    assert_eq!(
        update_activity_id("https://local.example/users/alice", 1_700_000_000_123_000),
        "https://local.example/users/alice#updates/1700000000123000"
    );
    assert_eq!(
        status_snapshot_repair_activity_id("https://local.example/s/7", 5, Some(-3)),
        "https://local.example/s/7#updates/repair/5/-3"
    );
    assert_eq!(
        status_snapshot_repair_activity_id("https://local.example/s/7", 5, None),
        "https://local.example/s/7#updates/repair/5/none"
    );
}

#[test]
fn legacy_second_activity_ids_round_towards_the_past() {
    let actor_uri = "https://local.example/users/alice";
    let before_epoch = -1_500_000;
    assert!(update_delivery_is_current(
        Some("https://local.example/users/alice#updates/-2"),
        actor_uri,
        before_epoch,
        None,
    ));
    assert!(!update_delivery_is_current(
        Some("https://local.example/users/alice#updates/-1"),
        actor_uri,
        before_epoch,
        None,
    ));
    assert!(!update_delivery_is_current(None, actor_uri, before_epoch, None));
}

#[test]
fn status_update_kinds_round_trip_through_their_names() {
    for kind in [
        StatusUpdateKind::Status,
        StatusUpdateKind::Poll,
        StatusUpdateKind::Quote,
        StatusUpdateKind::InteractionPolicy,
        StatusUpdateKind::StatusRepair,
        StatusUpdateKind::PollRepair,
    ] {
        assert_eq!(StatusUpdateKind::parse(kind.as_str()), Some(kind));
    }
    assert_eq!(StatusUpdateKind::parse("Status"), None);
    assert!(StatusUpdateKind::StatusRepair.is_repair());
    assert!(!StatusUpdateKind::StatusRepair.has_poll_reach());
}

#[test]
fn a_queued_snapshot_repair_passes_the_fence_of_its_snapshot() {
    let object_uri = "https://local.example/users/alice/statuses/7";
    let edited = micros(1_700_000_000, 0);
    let poll = edited + 5;
    let job = status_snapshot_repair_job(7, Some(3), edited, Some(poll));
    assert_eq!(job.lane, Lane::Push);
    assert_eq!(job.kind, "rustodon.activitypub.distribute_status");
    let arguments = job.arguments();
    assert_eq!(arguments.member_str("update_kind"), Some("poll_repair"));
    assert_eq!(arguments.member_i64("update_version_micros"), Some(poll));
    assert_eq!(arguments.member_i64("edited_at_micros"), Some(edited));
    assert_eq!(arguments.member_i64("poll_updated_at_micros"), Some(poll));
    assert_eq!(arguments.member_str("activity_type"), Some("Update"));
    assert_eq!(
        job.logical_key_value(),
        Some(format!("activitypub:status:7:snapshot-repair:3:{edited}:Some({poll})").as_str())
    );
    let activity_id = status_snapshot_repair_activity_id(object_uri, edited, Some(poll));
    assert_eq!(
        status_update_fence(
            arguments.member_str("update_kind"),
            Some(&activity_id),
            Some(object_uri),
            object_uri,
            edited,
            Some(poll),
            None,
            arguments.member_i64("edited_at_micros"),
            arguments.member_i64("poll_updated_at_micros"),
            None,
            arguments.member_i64("update_version_micros"),
            Some(poll),
        ),
        StatusUpdateFence::Deliver
    );
    assert_eq!(
        status_update_fence(
            arguments.member_str("update_kind"),
            Some(&activity_id),
            Some(object_uri),
            object_uri,
            edited,
            Some(poll + 1),
            None,
            arguments.member_i64("edited_at_micros"),
            arguments.member_i64("poll_updated_at_micros"),
            None,
            arguments.member_i64("update_version_micros"),
            Some(poll),
        ),
        StatusUpdateFence::Repair
    );
}

#[test]
fn a_status_without_poll_is_repaired_by_a_status_repair() {
    let job = status_snapshot_repair_job(9, None, 100, None);
    let arguments = job.arguments();
    assert_eq!(arguments.member_str("update_kind"), Some("status_repair"));
    assert!(arguments.get("poll_updated_at_micros").is_some_and(JsonValue::is_null));
    assert_eq!(job.logical_key_value(), Some("activitypub:status:9:snapshot-repair:0:100:None"));
}

#[test]
fn stale_quote_updates_are_dropped_and_foreign_objects_never_delivered() {
    let object_uri = "https://local.example/users/alice/statuses/7";
    let activity_id = update_activity_id(object_uri, 30);
    let fence = |object_id: Option<&str>, current_quote: Option<i64>| {
        status_update_fence(
            Some("quote"),
            Some(&activity_id),
            object_id,
            object_uri,
            10,
            None,
            current_quote,
            Some(10),
            None,
            Some(20),
            Some(30),
            Some(30),
        )
    };
    assert_eq!(fence(Some(object_uri), Some(20)), StatusUpdateFence::Deliver);
    assert_eq!(fence(Some(object_uri), Some(21)), StatusUpdateFence::Drop);
    assert_eq!(fence(Some("https://local.example/users/alice/statuses/8"), Some(20)), StatusUpdateFence::Drop);
    assert_eq!(fence(None, Some(20)), StatusUpdateFence::Drop);
}

#[test]
fn interaction_policy_deliveries_fence_on_the_row_update_time() {
    assert_eq!(fence_edited_at(Some("interaction_policy"), Some(5), 9), 9);
    assert_eq!(fence_edited_at(Some("status"), Some(5), 9), 5);
    assert_eq!(fence_edited_at(None, None, 9), 9);
}

#[test]
fn distribution_jobs_name_or_infer_their_update_kind() {
    let plan = |activity: &str, edited: Option<i64>, poll: Option<i64>, kind: Option<&str>, version: Option<i64>| {
        status_distribution_plan(activity, false, edited, poll, kind, version)
    };
    assert_eq!(
        plan("Update", Some(1), None, Some("poll_repair"), Some(1)).unwrap(),
        StatusDistributionPlan {
            is_delete: false,
            is_quote_request: false,
            update_kind: StatusUpdateKind::PollRepair,
            explicit_update_kind: true,
        }
    );
    assert_eq!(plan("Update", None, Some(5), None, None).unwrap().update_kind, StatusUpdateKind::Poll);
    assert_eq!(plan("Update", Some(1), Some(5), None, Some(5)).unwrap().update_kind, StatusUpdateKind::Poll);
    assert_eq!(plan("Update", Some(1), Some(5), None, Some(1)).unwrap().update_kind, StatusUpdateKind::Status);
    assert_eq!(plan("Update", Some(1), Some(5), None, Some(9)).unwrap().update_kind, StatusUpdateKind::PollRepair);
    assert_eq!(plan("Create", None, None, None, None).unwrap().update_kind, StatusUpdateKind::Status);
    assert!(plan("Delete", None, None, None, None).unwrap().is_delete);
    assert!(!plan("Update", None, None, None, None).unwrap().explicit_update_kind);
}

#[test]
fn invalid_distribution_jobs_fail_permanently() {
    let message = |activity: &str, quote_request: bool, edited: Option<i64>, kind: Option<&str>| {
        status_distribution_plan(activity, quote_request, edited, None, kind, None).expect_err("invalid").message
    };
    assert_eq!(message("Like", false, None, None), "status distribution activity type is unsupported");
    assert_eq!(message("QuoteRequest", false, None, None), "status quote-request distribution arguments are invalid");
    assert_eq!(message("Update", true, None, None), "status quote-request distribution arguments are invalid");
    assert_eq!(message("Update", false, Some(i64::MAX), None), "status edit timestamp is invalid");
    assert_eq!(message("Update", false, None, Some("edit")), "status distribution update kind is unsupported");
    assert!(status_distribution_plan("QuoteRequest", true, None, None, None, None).unwrap().is_quote_request);
    assert_eq!(
        status_distribution_plan("Update", false, None, Some(i64::MIN), None, None).expect_err("poll").message,
        "poll update timestamp is invalid"
    );
    assert_eq!(
        status_distribution_plan("Update", false, None, None, None, Some(i64::MAX)).expect_err("version").message,
        "status update version is invalid"
    );
}

#[test]
fn update_plans_deliver_repair_or_drop() {
    // A named status update whose edit is current delivers the current snapshot.
    assert_eq!(
        status_update_plan(StatusUpdateKind::Status, true, 10, Some(20), None, Some(10), Some(20), None, Some(10)),
        StatusUpdateVersionDecision::Deliver(10, Some(20), 10)
    );
    // A named status update across a newer edit repairs the current snapshot.
    assert_eq!(
        status_update_plan(StatusUpdateKind::Status, true, 11, Some(20), None, Some(10), Some(20), None, Some(10)),
        StatusUpdateVersionDecision::Repair
    );
    // An inferred status update across a newer edit is stale.
    assert_eq!(
        status_update_plan(StatusUpdateKind::Status, false, 11, None, None, Some(10), None, None, Some(10)),
        StatusUpdateVersionDecision::Stale
    );
    // A superseded combined repair delivers the current pair instead of repairing again.
    assert_eq!(
        status_update_plan(StatusUpdateKind::PollRepair, true, 11, Some(25), None, Some(10), Some(20), None, Some(20)),
        StatusUpdateVersionDecision::Deliver(11, Some(25), 25)
    );
    // A plain status repair of a status that gained a poll is replaced by a combined repair.
    assert_eq!(
        status_update_plan(StatusUpdateKind::StatusRepair, true, 10, Some(20), None, Some(10), None, None, Some(10)),
        StatusUpdateVersionDecision::Repair
    );
    // A quote update delivers its own version while its quote revision is current.
    assert_eq!(
        status_update_plan(StatusUpdateKind::Quote, true, 10, None, Some(30), Some(10), None, Some(30), Some(40)),
        StatusUpdateVersionDecision::Deliver(10, None, 40)
    );
    assert_eq!(
        status_update_plan(StatusUpdateKind::Quote, true, 10, None, Some(31), Some(10), None, Some(30), Some(40)),
        StatusUpdateVersionDecision::Stale
    );
}
