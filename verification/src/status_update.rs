use vstd::prelude::*;
use crate::text::{int_decimal, push_decimal_i64, push_str, str_eq};
use crate::failure::{FailureDisposition, HandlerFailure};
use crate::time::{chrono_micros_in_range, micros_representable};
use crate::job::{JobSpec, opt_string};
use crate::json::{JsonNumber, JsonValue, entries_get, json_get, json_get_str};
use crate::poll_expiration::json_int;
use crate::registry::Lane;

verus! {

/// What an `Update` of a status carries, and so which snapshot versions fence it.
#[derive(Clone, Copy, Debug, PartialEq, Eq, Structural)]
pub enum StatusUpdateKind {
    Status,
    Poll,
    Quote,
    InteractionPolicy,
    StatusRepair,
    PollRepair,
}

/// The name under which a kind is stored in job arguments.
pub open spec fn kind_name(kind: StatusUpdateKind) -> Seq<char> {
    match kind {
        StatusUpdateKind::Status => "status"@,
        StatusUpdateKind::Poll => "poll"@,
        StatusUpdateKind::Quote => "quote"@,
        StatusUpdateKind::InteractionPolicy => "interaction_policy"@,
        StatusUpdateKind::StatusRepair => "status_repair"@,
        StatusUpdateKind::PollRepair => "poll_repair"@,
    }
}

/// The kind stored under a name.
pub open spec fn parse_kind(value: Seq<char>) -> Option<StatusUpdateKind> {
    if value == "status"@ {
        Some(StatusUpdateKind::Status)
    } else if value == "poll"@ {
        Some(StatusUpdateKind::Poll)
    } else if value == "quote"@ {
        Some(StatusUpdateKind::Quote)
    } else if value == "interaction_policy"@ {
        Some(StatusUpdateKind::InteractionPolicy)
    } else if value == "status_repair"@ {
        Some(StatusUpdateKind::StatusRepair)
    } else if value == "poll_repair"@ {
        Some(StatusUpdateKind::PollRepair)
    } else {
        None
    }
}

pub open spec fn is_repair_kind(kind: StatusUpdateKind) -> bool {
    kind == StatusUpdateKind::StatusRepair || kind == StatusUpdateKind::PollRepair
}

pub open spec fn has_poll_reach_kind(kind: StatusUpdateKind) -> bool {
    kind == StatusUpdateKind::Poll || kind == StatusUpdateKind::PollRepair
}

impl StatusUpdateKind {
    /// Reads a stored kind name.
    pub fn parse(value: &str) -> (kind: Option<StatusUpdateKind>)
        ensures
            kind == parse_kind(value@),
    {
        if str_eq(value, "status") {
            Some(StatusUpdateKind::Status)
        } else if str_eq(value, "poll") {
            Some(StatusUpdateKind::Poll)
        } else if str_eq(value, "quote") {
            Some(StatusUpdateKind::Quote)
        } else if str_eq(value, "interaction_policy") {
            Some(StatusUpdateKind::InteractionPolicy)
        } else if str_eq(value, "status_repair") {
            Some(StatusUpdateKind::StatusRepair)
        } else if str_eq(value, "poll_repair") {
            Some(StatusUpdateKind::PollRepair)
        } else {
            None
        }
    }

    /// Whether the update re-sends a whole snapshot to heal a missed one.
    pub fn is_repair(self) -> (r: bool)
        ensures
            r == is_repair_kind(self),
    {
        self == StatusUpdateKind::StatusRepair || self == StatusUpdateKind::PollRepair
    }

    /// Whether the update is versioned by the poll.
    pub fn has_poll_reach(self) -> (r: bool)
        ensures
            r == has_poll_reach_kind(self),
    {
        self == StatusUpdateKind::Poll || self == StatusUpdateKind::PollRepair
    }

    /// The stored name of the kind.
    pub fn as_str(self) -> (name: &'static str)
        ensures
            name@ == kind_name(self),
    {
        match self {
            StatusUpdateKind::Status => "status",
            StatusUpdateKind::Poll => "poll",
            StatusUpdateKind::Quote => "quote",
            StatusUpdateKind::InteractionPolicy => "interaction_policy",
            StatusUpdateKind::StatusRepair => "status_repair",
            StatusUpdateKind::PollRepair => "poll_repair",
        }
    }
}

/// Parsing the stored name of a kind gives the kind back.
pub proof fn lemma_kind_name_round_trip(kind: StatusUpdateKind)
    ensures
        parse_kind(kind_name(kind)) == Some(kind),
{
    reveal_strlit("status");
    reveal_strlit("poll");
    reveal_strlit("quote");
    reveal_strlit("interaction_policy");
    reveal_strlit("status_repair");
    reveal_strlit("poll_repair");
    let status = "status"@;
    let poll = "poll"@;
    let quote = "quote"@;
    let policy = "interaction_policy"@;
    let status_repair = "status_repair"@;
    let poll_repair = "poll_repair"@;
    assert(status.len() == 6 && poll.len() == 4 && quote.len() == 5 && policy.len() == 18
        && status_repair.len() == 13 && poll_repair.len() == 11);
    assert(status != poll && status != quote && status != policy && status != status_repair
        && status != poll_repair);
    assert(poll != quote && poll != policy && poll != status_repair && poll != poll_repair);
    assert(quote != policy && quote != status_repair && quote != poll_repair);
    assert(policy != status_repair && policy != poll_repair);
    assert(status_repair != poll_repair);
}

/// The larger of two instants.
pub open spec fn latest(a: i64, b: i64) -> i64 {
    if a >= b { a } else { b }
}

/// The activity ID of an Update of `object_uri` at a version: `<uri>#updates/<micros>`.
pub open spec fn update_activity_id_spec(object_uri: Seq<char>, version_micros: i64) -> Seq<char> {
    object_uri + "#updates/"@ + int_decimal(version_micros as int)
}

/// The activity ID that deliveries persisted before microsecond versions carry:
/// `<uri>#updates/<whole seconds>`.
pub open spec fn legacy_update_activity_id(object_uri: Seq<char>, version_micros: i64) -> Seq<char> {
    object_uri + "#updates/"@ + int_decimal(version_micros as int / 1_000_000)
}

/// The activity ID of a repair that binds both the edit and the poll snapshot.
pub open spec fn repair_activity_id(
    object_uri: Seq<char>,
    edited_at_micros: i64,
    poll_updated_at_micros: Option<i64>,
) -> Seq<char> {
    object_uri + "#updates/repair/"@ + int_decimal(edited_at_micros as int) + "/"@ + match poll_updated_at_micros {
        Some(poll) => int_decimal(poll as int),
        None => "none"@,
    }
}

/// The activity ID of an Update of `object_uri` at `version_micros`.
pub fn update_activity_id(object_uri: &str, version_micros: i64) -> (id: String)
    ensures
        id@ == update_activity_id_spec(object_uri@, version_micros),
{
    let mut id = String::new();
    push_str(&mut id, object_uri);
    push_str(&mut id, "#updates/");
    push_decimal_i64(&mut id, version_micros);
    assert(id@ =~= update_activity_id_spec(object_uri@, version_micros));
    id
}

/// Whole seconds of an instant, rounded towards the past.
fn whole_seconds(micros: i64) -> (seconds: i64)
    ensures
        seconds == micros as int / 1_000_000,
{
    if micros >= 0 {
        micros / 1_000_000
    } else {
        let magnitude: u64 = if micros == i64::MIN {
            9223372036854775808u64
        } else {
            (-micros) as u64
        };
        let down: u64 = (magnitude - 1) / 1_000_000 + 1;
        assert(down as int == -(micros as int / 1_000_000)) by (nonlinear_arith)
            requires
                micros < 0,
                magnitude as int == -(micros as int),
                down as int == (magnitude as int - 1) / 1_000_000 + 1,
        ;
        (0 - (down as i128)) as i64
    }
}

/// The repair activity ID that binds the edit and the poll snapshot.
pub fn status_snapshot_repair_activity_id(
    object_uri: &str,
    edited_at_micros: i64,
    poll_updated_at_micros: Option<i64>,
) -> (id: String)
    ensures
        id@ == repair_activity_id(object_uri@, edited_at_micros, poll_updated_at_micros),
{
    let mut id = String::new();
    push_str(&mut id, object_uri);
    push_str(&mut id, "#updates/repair/");
    push_decimal_i64(&mut id, edited_at_micros);
    push_str(&mut id, "/");
    match poll_updated_at_micros {
        Some(poll) => push_decimal_i64(&mut id, poll),
        None => push_str(&mut id, "none"),
    }
    assert(id@ =~= repair_activity_id(object_uri@, edited_at_micros, poll_updated_at_micros));
    id
}

/// The version an update of this kind publishes for a snapshot, if the kind has one.
pub open spec fn snapshot_update_version(
    kind: StatusUpdateKind,
    edited_at: i64,
    poll_updated_at: Option<i64>,
) -> Option<i64> {
    match kind {
        StatusUpdateKind::Status | StatusUpdateKind::InteractionPolicy
        | StatusUpdateKind::StatusRepair => Some(edited_at),
        StatusUpdateKind::Poll => poll_updated_at,
        StatusUpdateKind::PollRepair => match poll_updated_at {
            Some(poll) => Some(latest(edited_at, poll)),
            None => None,
        },
        StatusUpdateKind::Quote => None,
    }
}

/// Whether a job's requested snapshot may be serialized from the current one.
/// The edit version must match (or be absent outside strict mode); the poll version must
/// match, may be superseded for a poll update, or be absent outside strict mode; a plain
/// status repair never serializes a status that has a poll.
pub open spec fn requested_snapshot_admitted(
    current_edited_at: i64,
    current_poll_updated_at: Option<i64>,
    requested_edited_at: Option<i64>,
    requested_poll_updated_at: Option<i64>,
    kind: StatusUpdateKind,
    strict: bool,
) -> bool {
    &&& !(kind == StatusUpdateKind::StatusRepair && current_poll_updated_at is Some)
    &&& (requested_edited_at == Some(current_edited_at) || (requested_edited_at is None && !strict))
    &&& match current_poll_updated_at {
        Some(current) => {
            ||| requested_poll_updated_at == Some(current)
            ||| (requested_poll_updated_at is Some && kind == StatusUpdateKind::Poll)
            ||| (requested_poll_updated_at is None && !strict)
        },
        None => requested_poll_updated_at is None,
    }
}

/// The snapshot an update serializes: always the current edit and poll versions,
/// with the version its kind publishes.
pub open spec fn status_update_versions_spec(
    current_edited_at: i64,
    current_poll_updated_at: Option<i64>,
    requested_edited_at: Option<i64>,
    requested_poll_updated_at: Option<i64>,
    kind: StatusUpdateKind,
    strict: bool,
) -> Option<(i64, Option<i64>, i64)> {
    if requested_snapshot_admitted(
        current_edited_at,
        current_poll_updated_at,
        requested_edited_at,
        requested_poll_updated_at,
        kind,
        strict,
    ) {
        match snapshot_update_version(kind, current_edited_at, current_poll_updated_at) {
            Some(version) => Some((current_edited_at, current_poll_updated_at, version)),
            None => None,
        }
    } else {
        None
    }
}

/// Selects the snapshot versions an Update of a status serializes, or `None` when the
/// requested snapshot no longer matches the current one.
pub fn status_update_versions(
    current_edited_at: i64,
    current_poll_updated_at: Option<i64>,
    requested_edited_at: Option<i64>,
    requested_poll_updated_at: Option<i64>,
    update_kind: StatusUpdateKind,
    strict_snapshot: bool,
) -> (versions: Option<(i64, Option<i64>, i64)>)
    ensures
        versions == status_update_versions_spec(
            current_edited_at,
            current_poll_updated_at,
            requested_edited_at,
            requested_poll_updated_at,
            update_kind,
            strict_snapshot,
        ),
{
    if update_kind == StatusUpdateKind::StatusRepair && current_poll_updated_at.is_some() {
        return None;
    }
    let edited_at = match requested_edited_at {
        Some(requested) => {
            if requested == current_edited_at {
                requested
            } else {
                return None;
            }
        },
        None => {
            if strict_snapshot {
                return None;
            }
            current_edited_at
        },
    };
    let poll_updated_at = match (requested_poll_updated_at, current_poll_updated_at) {
        (Some(requested), Some(current)) => {
            if requested == current || update_kind == StatusUpdateKind::Poll {
                Some(current)
            } else {
                return None;
            }
        },
        (None, Some(current)) => {
            if strict_snapshot {
                return None;
            }
            Some(current)
        },
        (None, None) => None,
        (Some(_), None) => {
            return None;
        },
    };
    let update_version = match update_kind {
        StatusUpdateKind::Status | StatusUpdateKind::InteractionPolicy
        | StatusUpdateKind::StatusRepair => edited_at,
        StatusUpdateKind::Poll => match poll_updated_at {
            Some(poll) => poll,
            None => {
                return None;
            },
        },
        StatusUpdateKind::PollRepair => match poll_updated_at {
            Some(poll) => if edited_at >= poll { edited_at } else { poll },
            None => {
                return None;
            },
        },
        StatusUpdateKind::Quote => {
            return None;
        },
    };
    Some((edited_at, poll_updated_at, update_version))
}

/// Whether the quote revision a job requested is the current one.
pub fn quote_revision_is_current(
    current_quote_updated_at: Option<i64>,
    requested_quote_updated_at_micros: Option<i64>,
) -> (r: bool)
    ensures
        r == (current_quote_updated_at == requested_quote_updated_at_micros),
{
    match (current_quote_updated_at, requested_quote_updated_at_micros) {
        (Some(current), Some(requested)) => current == requested,
        (None, None) => true,
        _ => false,
    }
}

/// The snapshot a quote transition serializes: the current edit and poll versions with the
/// quote's own requested version, only while the requested edit, poll and quote revisions
/// are all current.
pub open spec fn quote_update_versions_spec(
    current_edited_at: i64,
    current_poll_updated_at: Option<i64>,
    current_quote_updated_at: Option<i64>,
    requested_edited_at: Option<i64>,
    requested_poll_updated_at: Option<i64>,
    requested_quote_updated_at: Option<i64>,
    requested_update_version: Option<i64>,
) -> Option<(i64, Option<i64>, i64)> {
    if requested_edited_at == Some(current_edited_at)
        && requested_poll_updated_at == current_poll_updated_at
        && current_quote_updated_at == requested_quote_updated_at
        && requested_update_version is Some {
        Some((current_edited_at, current_poll_updated_at, requested_update_version->0))
    } else {
        None
    }
}

/// Selects the snapshot a quote transition serializes.
pub fn quote_update_versions(
    current_edited_at: i64,
    current_poll_updated_at: Option<i64>,
    current_quote_updated_at: Option<i64>,
    requested_edited_at: Option<i64>,
    requested_poll_updated_at: Option<i64>,
    requested_quote_updated_at_micros: Option<i64>,
    requested_update_version: Option<i64>,
) -> (versions: Option<(i64, Option<i64>, i64)>)
    ensures
        versions == quote_update_versions_spec(
            current_edited_at,
            current_poll_updated_at,
            current_quote_updated_at,
            requested_edited_at,
            requested_poll_updated_at,
            requested_quote_updated_at_micros,
            requested_update_version,
        ),
{
    let edited_current = match requested_edited_at {
        Some(requested) => requested == current_edited_at,
        None => false,
    };
    let poll_current = match (requested_poll_updated_at, current_poll_updated_at) {
        (Some(requested), Some(current)) => requested == current,
        (None, None) => true,
        _ => false,
    };
    if edited_current && poll_current && quote_revision_is_current(
        current_quote_updated_at,
        requested_quote_updated_at_micros,
    ) {
        match requested_update_version {
            Some(version) => Some((current_edited_at, current_poll_updated_at, version)),
            None => None,
        }
    } else {
        None
    }
}

/// What a status distribution job does with its Update.
#[derive(Clone, Copy, Debug, PartialEq, Eq, Structural)]
pub enum StatusUpdateVersionDecision {
    /// Deliver the snapshot with these edit, poll and published versions.
    Deliver(i64, Option<i64>, i64),
    /// Schedule a repair of the current snapshot instead.
    Repair,
    /// Drop the stale job.
    Stale,
}

/// The decision for an Update job, given the current and requested snapshot versions.
pub open spec fn status_update_version_decision_spec(
    current_edited_at: i64,
    current_poll_updated_at: Option<i64>,
    requested_edited_at: Option<i64>,
    requested_poll_updated_at: Option<i64>,
    kind: StatusUpdateKind,
    strict: bool,
) -> StatusUpdateVersionDecision {
    if strict && is_repair_kind(kind) && (requested_edited_at != Some(current_edited_at)
        || requested_poll_updated_at != current_poll_updated_at) {
        StatusUpdateVersionDecision::Repair
    } else {
        match status_update_versions_spec(
            current_edited_at,
            current_poll_updated_at,
            requested_edited_at,
            requested_poll_updated_at,
            kind,
            strict,
        ) {
            Some((e, p, v)) => StatusUpdateVersionDecision::Deliver(e, p, v),
            None => if strict {
                StatusUpdateVersionDecision::Repair
            } else {
                StatusUpdateVersionDecision::Stale
            },
        }
    }
}

/// Decides whether an Update job delivers, repairs or is dropped as stale.
pub fn status_update_version_decision(
    current_edited_at: i64,
    current_poll_updated_at: Option<i64>,
    requested_edited_at: Option<i64>,
    requested_poll_updated_at: Option<i64>,
    update_kind: StatusUpdateKind,
    strict_snapshot: bool,
) -> (decision: StatusUpdateVersionDecision)
    ensures
        decision == status_update_version_decision_spec(
            current_edited_at,
            current_poll_updated_at,
            requested_edited_at,
            requested_poll_updated_at,
            update_kind,
            strict_snapshot,
        ),
{
    let edited_matches = match requested_edited_at {
        Some(requested) => requested == current_edited_at,
        None => false,
    };
    let poll_matches = match (requested_poll_updated_at, current_poll_updated_at) {
        (Some(requested), Some(current)) => requested == current,
        (None, None) => true,
        _ => false,
    };
    if strict_snapshot && update_kind.is_repair() && (!edited_matches || !poll_matches) {
        return StatusUpdateVersionDecision::Repair;
    }
    match status_update_versions(
        current_edited_at,
        current_poll_updated_at,
        requested_edited_at,
        requested_poll_updated_at,
        update_kind,
        strict_snapshot,
    ) {
        Some((edited_at, poll_updated_at, update_version)) => {
            StatusUpdateVersionDecision::Deliver(edited_at, poll_updated_at, update_version)
        },
        None => if strict_snapshot {
            StatusUpdateVersionDecision::Repair
        } else {
            StatusUpdateVersionDecision::Stale
        },
    }
}

/// Whether a persisted Update delivery still carries the given version: its version
/// metadata (when present) must match, and its activity ID must be the current or the
/// legacy whole-second ID of that version.
pub open spec fn update_delivery_is_current_spec(
    activity_id: Option<Seq<char>>,
    object_uri: Seq<char>,
    version_micros: i64,
    requested_version_micros: Option<i64>,
) -> bool {
    &&& (requested_version_micros matches Some(requested) ==> requested == version_micros)
    &&& (activity_id == Some(update_activity_id_spec(object_uri, version_micros))
        || activity_id == Some(legacy_update_activity_id(object_uri, version_micros)))
}

/// The view of an optional string slice.
pub open spec fn opt_str_view(value: Option<&str>) -> Option<Seq<char>> {
    match value {
        Some(s) => Some(s@),
        None => None,
    }
}

fn opt_str_eq(value: Option<&str>, expected: &str) -> (r: bool)
    ensures
        r == (opt_str_view(value) == Some(expected@)),
{
    match value {
        Some(s) => str_eq(s, expected),
        None => false,
    }
}

/// Whether a persisted Update delivery is still current for `version_micros`.
pub fn update_delivery_is_current(
    activity_id: Option<&str>,
    object_uri: &str,
    version_micros: i64,
    requested_version_micros: Option<i64>,
) -> (r: bool)
    ensures
        r == update_delivery_is_current_spec(
            opt_str_view(activity_id),
            object_uri@,
            version_micros,
            requested_version_micros,
        ),
{
    if let Some(requested) = requested_version_micros {
        if requested != version_micros {
            return false;
        }
    }
    let expected = update_activity_id(object_uri, version_micros);
    let mut legacy = String::new();
    push_str(&mut legacy, object_uri);
    push_str(&mut legacy, "#updates/");
    push_decimal_i64(&mut legacy, whole_seconds(version_micros));
    assert(legacy@ =~= legacy_update_activity_id(object_uri@, version_micros));
    opt_str_eq(activity_id, expected.as_str()) || opt_str_eq(activity_id, legacy.as_str())
}

/// The version a status Update delivery must publish for the current snapshot; a quote
/// update publishes its own requested version, when chrono can represent it.
pub open spec fn expected_delivery_version(
    kind: StatusUpdateKind,
    current_edited_at: i64,
    current_poll_updated_at: Option<i64>,
    requested_update_version: Option<i64>,
) -> Option<i64> {
    match kind {
        StatusUpdateKind::Quote => match requested_update_version {
            Some(v) => if chrono_micros_in_range(v as int) { Some(v) } else { None },
            None => None,
        },
        _ => snapshot_update_version(kind, current_edited_at, current_poll_updated_at),
    }
}

/// Whether a persisted status Update delivery still matches the current snapshot.
pub open spec fn status_update_delivery_is_current_spec(
    kind: StatusUpdateKind,
    activity_id: Option<Seq<char>>,
    object_uri: Seq<char>,
    current_edited_at: i64,
    current_poll_updated_at: Option<i64>,
    requested_edited_at: Option<i64>,
    requested_poll_updated_at: Option<i64>,
    requested_update_version: Option<i64>,
) -> bool {
    &&& requested_edited_at == Some(current_edited_at)
    &&& requested_poll_updated_at == current_poll_updated_at
    &&& expected_delivery_version(kind, current_edited_at, current_poll_updated_at, requested_update_version)
        matches Some(version)
    &&& requested_update_version == Some(version)
    &&& if is_repair_kind(kind) {
        activity_id == Some(repair_activity_id(object_uri, current_edited_at, current_poll_updated_at))
    } else {
        update_delivery_is_current_spec(activity_id, object_uri, version, requested_update_version)
    }
}

/// Whether a persisted status Update delivery still matches the current edit and poll
/// snapshot, with the published version its kind requires and the matching activity ID.
pub fn status_update_delivery_is_current(
    update_kind: StatusUpdateKind,
    activity_id: Option<&str>,
    object_uri: &str,
    current_edited_at: i64,
    current_poll_updated_at: Option<i64>,
    requested_edited_at_micros: Option<i64>,
    requested_poll_updated_at_micros: Option<i64>,
    requested_update_version_micros: Option<i64>,
) -> (r: bool)
    ensures
        r == status_update_delivery_is_current_spec(
            update_kind,
            opt_str_view(activity_id),
            object_uri@,
            current_edited_at,
            current_poll_updated_at,
            requested_edited_at_micros,
            requested_poll_updated_at_micros,
            requested_update_version_micros,
        ),
{
    let edited_matches = match requested_edited_at_micros {
        Some(requested) => requested == current_edited_at,
        None => false,
    };
    let poll_matches = match (requested_poll_updated_at_micros, current_poll_updated_at) {
        (Some(requested), Some(current)) => requested == current,
        (None, None) => true,
        _ => false,
    };
    if !edited_matches || !poll_matches {
        return false;
    }
    let expected_update_version = match update_kind {
        StatusUpdateKind::Status | StatusUpdateKind::InteractionPolicy
        | StatusUpdateKind::StatusRepair => current_edited_at,
        StatusUpdateKind::Poll => match current_poll_updated_at {
            Some(poll) => poll,
            None => {
                return false;
            },
        },
        StatusUpdateKind::PollRepair => match current_poll_updated_at {
            Some(poll) => if current_edited_at >= poll { current_edited_at } else { poll },
            None => {
                return false;
            },
        },
        StatusUpdateKind::Quote => match requested_update_version_micros {
            Some(version) => {
                if !micros_representable(version) {
                    return false;
                }
                version
            },
            None => {
                return false;
            },
        },
    };
    match requested_update_version_micros {
        Some(requested) => if requested != expected_update_version {
            return false;
        },
        None => {
            return false;
        },
    }
    if update_kind.is_repair() {
        let expected = status_snapshot_repair_activity_id(
            object_uri,
            current_edited_at,
            current_poll_updated_at,
        );
        return opt_str_eq(activity_id, expected.as_str());
    }
    update_delivery_is_current(
        activity_id,
        object_uri,
        expected_update_version,
        requested_update_version_micros,
    )
}

/// The kind a delivery's metadata declares, when the metadata is complete and agrees with
/// itself: the kind parses, the edit version is present, the poll version is present exactly
/// when the status has a poll, the kind fits the poll, and both the requested and the
/// published version equal the version the kind selects.
pub open spec fn complete_status_update_delivery_kind_spec(
    update_kind: Option<Seq<char>>,
    has_current_poll: bool,
    requested_edited_at: Option<i64>,
    requested_poll_updated_at: Option<i64>,
    requested_update_version: Option<i64>,
    published_version: Option<i64>,
) -> Option<StatusUpdateKind> {
    match update_kind {
        None => None,
        Some(name) => match parse_kind(name) {
            None => None,
            Some(kind) => match requested_edited_at {
                None => None,
                Some(edited_at) => {
                    let selected = match kind {
                        StatusUpdateKind::Quote => requested_update_version,
                        _ => snapshot_update_version(kind, edited_at, requested_poll_updated_at),
                    };
                    if requested_poll_updated_at is Some == has_current_poll
                        && !(has_poll_reach_kind(kind) && !has_current_poll)
                        && !(kind == StatusUpdateKind::StatusRepair && has_current_poll)
                        && selected is Some
                        && requested_update_version == selected
                        && published_version == selected {
                        Some(kind)
                    } else {
                        None
                    }
                },
            },
        },
    }
}

/// The kind of a delivery whose version metadata is complete and consistent.
pub fn complete_status_update_delivery_kind(
    update_kind: Option<&str>,
    has_current_poll: bool,
    requested_edited_at_micros: Option<i64>,
    requested_poll_updated_at_micros: Option<i64>,
    requested_update_version_micros: Option<i64>,
    published_version_micros: Option<i64>,
) -> (kind: Option<StatusUpdateKind>)
    ensures
        kind == complete_status_update_delivery_kind_spec(
            opt_str_view(update_kind),
            has_current_poll,
            requested_edited_at_micros,
            requested_poll_updated_at_micros,
            requested_update_version_micros,
            published_version_micros,
        ),
{
    let name = match update_kind {
        Some(name) => name,
        None => {
            return None;
        },
    };
    let kind = match StatusUpdateKind::parse(name) {
        Some(kind) => kind,
        None => {
            return None;
        },
    };
    let edited_at = match requested_edited_at_micros {
        Some(edited_at) => edited_at,
        None => {
            return None;
        },
    };
    if requested_poll_updated_at_micros.is_some() != has_current_poll
        || (kind.has_poll_reach() && !has_current_poll)
        || (kind == StatusUpdateKind::StatusRepair && has_current_poll) {
        return None;
    }
    let expected = match kind {
        StatusUpdateKind::Status | StatusUpdateKind::InteractionPolicy
        | StatusUpdateKind::StatusRepair => edited_at,
        StatusUpdateKind::Poll => match requested_poll_updated_at_micros {
            Some(poll) => poll,
            None => {
                return None;
            },
        },
        StatusUpdateKind::PollRepair => match requested_poll_updated_at_micros {
            Some(poll) => if edited_at >= poll { edited_at } else { poll },
            None => {
                return None;
            },
        },
        StatusUpdateKind::Quote => match requested_update_version_micros {
            Some(version) => version,
            None => {
                return None;
            },
        },
    };
    let requested_matches = match requested_update_version_micros {
        Some(v) => v == expected,
        None => false,
    };
    let published_matches = match published_version_micros {
        Some(v) => v == expected,
        None => false,
    };
    if !requested_matches || !published_matches {
        return None;
    }
    Some(kind)
}

/// The repair kind of a delivery whose metadata was stripped, recognized by its exact
/// pair-bound repair activity ID and its published version.
pub open spec fn inferred_current_repair_delivery_kind_spec(
    activity_id: Option<Seq<char>>,
    object_uri: Seq<char>,
    current_edited_at: i64,
    current_poll_updated_at: Option<i64>,
    published_version: Option<i64>,
) -> Option<StatusUpdateKind> {
    let kind = if current_poll_updated_at is Some {
        StatusUpdateKind::PollRepair
    } else {
        StatusUpdateKind::StatusRepair
    };
    let version = match current_poll_updated_at {
        Some(poll) => latest(current_edited_at, poll),
        None => current_edited_at,
    };
    if activity_id == Some(repair_activity_id(object_uri, current_edited_at, current_poll_updated_at))
        && published_version == Some(version) {
        Some(kind)
    } else {
        None
    }
}

/// Recognizes a current repair delivery from its activity ID and published version.
pub fn inferred_current_repair_delivery_kind(
    activity_id: Option<&str>,
    object_uri: &str,
    current_edited_at: i64,
    current_poll_updated_at: Option<i64>,
    published_version_micros: Option<i64>,
) -> (kind: Option<StatusUpdateKind>)
    ensures
        kind == inferred_current_repair_delivery_kind_spec(
            opt_str_view(activity_id),
            object_uri@,
            current_edited_at,
            current_poll_updated_at,
            published_version_micros,
        ),
{
    let kind = if current_poll_updated_at.is_some() {
        StatusUpdateKind::PollRepair
    } else {
        StatusUpdateKind::StatusRepair
    };
    let version = match current_poll_updated_at {
        Some(poll) => if current_edited_at >= poll { current_edited_at } else { poll },
        None => current_edited_at,
    };
    let expected = status_snapshot_repair_activity_id(
        object_uri,
        current_edited_at,
        current_poll_updated_at,
    );
    let published_matches = match published_version_micros {
        Some(v) => v == version,
        None => false,
    };
    if opt_str_eq(activity_id, expected.as_str()) && published_matches {
        Some(kind)
    } else {
        None
    }
}

/// The job kind that distributes a status activity to its audience.
pub open spec fn status_distribution_kind() -> Seq<char> {
    "rustodon.activitypub.distribute_status"@
}

/// A repair restates the poll snapshot when the status has one.
pub open spec fn repair_kind_for(poll_updated_at: Option<i64>) -> StatusUpdateKind {
    if poll_updated_at is Some {
        StatusUpdateKind::PollRepair
    } else {
        StatusUpdateKind::StatusRepair
    }
}

/// The version a repair publishes: the later of the edit and the poll snapshot.
pub open spec fn repair_version(edited_at: i64, poll_updated_at: Option<i64>) -> i64 {
    match poll_updated_at {
        Some(poll) => latest(edited_at, poll),
        None => edited_at,
    }
}

/// An optional integer as a JSON value: the number, or `null`.
pub open spec fn opt_json_int(value: Option<i64>) -> JsonValue {
    match value {
        Some(v) => json_int(v),
        None => JsonValue::Null,
    }
}

/// The singleton key of a snapshot repair, bound to the status, its poll and both versions.
pub open spec fn snapshot_repair_key(
    status_id: i64,
    poll_id: Option<i64>,
    edited_at: i64,
    poll_updated_at: Option<i64>,
) -> Seq<char> {
    "activitypub:status:"@ + int_decimal(status_id as int) + ":snapshot-repair:"@
        + int_decimal(match poll_id { Some(p) => p as int, None => 0 }) + ":"@ + int_decimal(edited_at as int) + ":"@
        + match poll_updated_at {
            Some(poll) => "Some("@ + int_decimal(poll as int) + ")"@,
            None => "None"@,
        }
}

/// A snapshot repair job: the push lane, the distribution kind, an `Update` of the status
/// with the repair kind, its version and both snapshot versions, and its singleton key.
pub open spec fn is_snapshot_repair_job(
    job: JobSpec,
    status_id: i64,
    poll_id: Option<i64>,
    edited_at: i64,
    poll_updated_at: Option<i64>,
) -> bool {
    &&& job.lane == Lane::Push
    &&& job.kind@ == status_distribution_kind()
    &&& job.arguments is Object
    &&& json_get(job.arguments, "status_id"@) == Some(json_int(status_id))
    &&& json_get_str(job.arguments, "activity_type"@) == Some("Update"@)
    &&& json_get_str(job.arguments, "update_kind"@) == Some(kind_name(repair_kind_for(poll_updated_at)))
    &&& json_get(job.arguments, "update_version_micros"@) == Some(json_int(repair_version(edited_at, poll_updated_at)))
    &&& json_get(job.arguments, "edited_at_micros"@) == Some(json_int(edited_at))
    &&& json_get(job.arguments, "poll_updated_at_micros"@) == Some(opt_json_int(poll_updated_at))
    &&& opt_string(job.logical_key) == Some(snapshot_repair_key(status_id, poll_id, edited_at, poll_updated_at))
    &&& job.max_attempts is None
}

proof fn lemma_repair_members(members: Seq<(String, JsonValue)>)
    requires
        members.len() == 6,
        members[0].0@ == "status_id"@,
        members[1].0@ == "activity_type"@,
        members[2].0@ == "update_kind"@,
        members[3].0@ == "update_version_micros"@,
        members[4].0@ == "edited_at_micros"@,
        members[5].0@ == "poll_updated_at_micros"@,
        "status_id"@ =~= seq!['s','t','a','t','u','s','_','i','d'],
        "activity_type"@ =~= seq!['a','c','t','i','v','i','t','y','_','t','y','p','e'],
        "update_kind"@ =~= seq!['u','p','d','a','t','e','_','k','i','n','d'],
        "update_version_micros"@ =~= seq!['u','p','d','a','t','e','_','v','e','r','s','i','o','n','_','m','i','c','r','o','s'],
        "edited_at_micros"@ =~= seq!['e','d','i','t','e','d','_','a','t','_','m','i','c','r','o','s'],
        "poll_updated_at_micros"@ =~= seq!['p','o','l','l','_','u','p','d','a','t','e','d','_','a','t','_','m','i','c','r','o','s'],
    ensures
        entries_get(members, "status_id"@) == Some(members[0].1),
        entries_get(members, "activity_type"@) == Some(members[1].1),
        entries_get(members, "update_kind"@) == Some(members[2].1),
        entries_get(members, "update_version_micros"@) == Some(members[3].1),
        entries_get(members, "edited_at_micros"@) == Some(members[4].1),
        entries_get(members, "poll_updated_at_micros"@) == Some(members[5].1),
{
    let m1 = members.drop_first();
    let m2 = m1.drop_first();
    let m3 = m2.drop_first();
    let m4 = m3.drop_first();
    let m5 = m4.drop_first();
    assert(m1[0] == members[1] && m2[0] == members[2] && m3[0] == members[3]);
    assert(m4[0] == members[4] && m5[0] == members[5]);
    assert("update_kind"@[7] != "update_version_micros"@[7]);
    reveal_with_fuel(entries_get, 7);
}

/// The job that re-sends a status's current snapshot as a repair `Update`.
pub fn status_snapshot_repair_job(
    status_id: i64,
    poll_id: Option<i64>,
    edited_at_micros: i64,
    poll_updated_at_micros: Option<i64>,
) -> (job: JobSpec)
    ensures
        is_snapshot_repair_job(job, status_id, poll_id, edited_at_micros, poll_updated_at_micros),
{
    let (update_kind, update_version) = match poll_updated_at_micros {
        Some(poll) => (StatusUpdateKind::PollRepair, if edited_at_micros >= poll { edited_at_micros } else { poll }),
        None => (StatusUpdateKind::StatusRepair, edited_at_micros),
    };
    let mut members: Vec<(String, JsonValue)> = Vec::new();
    members.push(("status_id".to_owned(), JsonValue::Number(JsonNumber::Int(status_id))));
    members.push(("activity_type".to_owned(), JsonValue::String("Update".to_owned())));
    members.push(("update_kind".to_owned(), JsonValue::String(update_kind.as_str().to_owned())));
    members.push(("update_version_micros".to_owned(), JsonValue::Number(JsonNumber::Int(update_version))));
    members.push(("edited_at_micros".to_owned(), JsonValue::Number(JsonNumber::Int(edited_at_micros))));
    members.push((
        "poll_updated_at_micros".to_owned(),
        match poll_updated_at_micros {
            Some(poll) => JsonValue::Number(JsonNumber::Int(poll)),
            None => JsonValue::Null,
        },
    ));
    proof {
        reveal_strlit("status_id");
        reveal_strlit("activity_type");
        reveal_strlit("update_kind");
        reveal_strlit("update_version_micros");
        reveal_strlit("edited_at_micros");
        reveal_strlit("poll_updated_at_micros");
        lemma_repair_members(members@);
    }
    let mut key = String::new();
    push_str(&mut key, "activitypub:status:");
    push_decimal_i64(&mut key, status_id);
    push_str(&mut key, ":snapshot-repair:");
    push_decimal_i64(&mut key, match poll_id {
        Some(p) => p,
        None => 0,
    });
    push_str(&mut key, ":");
    push_decimal_i64(&mut key, edited_at_micros);
    push_str(&mut key, ":");
    match poll_updated_at_micros {
        Some(poll) => {
            push_str(&mut key, "Some(");
            push_decimal_i64(&mut key, poll);
            push_str(&mut key, ")");
        },
        None => push_str(&mut key, "None"),
    }
    assert(key@ =~= snapshot_repair_key(status_id, poll_id, edited_at_micros, poll_updated_at_micros));
    JobSpec::new(Lane::Push, "rustodon.activitypub.distribute_status", JsonValue::Object(members)).logical_key(key)
}

/// A snapshot repair describes itself completely: its metadata selects its own kind, and
/// once delivered its repair activity ID is current for the snapshot it was queued for and
/// is recognized again when the metadata is lost.
pub proof fn lemma_snapshot_repair_is_current(object_uri: Seq<char>, edited_at: i64, poll_updated_at: Option<i64>)
    ensures
        complete_status_update_delivery_kind_spec(
            Some(kind_name(repair_kind_for(poll_updated_at))),
            poll_updated_at is Some,
            Some(edited_at),
            poll_updated_at,
            Some(repair_version(edited_at, poll_updated_at)),
            Some(repair_version(edited_at, poll_updated_at)),
        ) == Some(repair_kind_for(poll_updated_at)),
        status_update_delivery_is_current_spec(
            repair_kind_for(poll_updated_at),
            Some(repair_activity_id(object_uri, edited_at, poll_updated_at)),
            object_uri,
            edited_at,
            poll_updated_at,
            Some(edited_at),
            poll_updated_at,
            Some(repair_version(edited_at, poll_updated_at)),
        ),
        inferred_current_repair_delivery_kind_spec(
            Some(repair_activity_id(object_uri, edited_at, poll_updated_at)),
            object_uri,
            edited_at,
            poll_updated_at,
            Some(repair_version(edited_at, poll_updated_at)),
        ) == Some(repair_kind_for(poll_updated_at)),
{
    lemma_kind_name_round_trip(repair_kind_for(poll_updated_at));
}

/// What a status `Update` delivery does once fenced against the current snapshot.
#[derive(Clone, Copy, Debug, PartialEq, Eq, Structural)]
pub enum StatusUpdateFence {
    /// The delivery is current: send it.
    Deliver,
    /// The delivery is stale and nothing replaces it: drop it.
    Drop,
    /// The delivery is stale: drop it and queue a repair of the current snapshot.
    Repair,
}

/// The edit version a delivery is fenced against: the row's update time for an interaction
/// policy update, else its edit time, falling back to its update time.
pub open spec fn fence_edited_at_spec(update_kind: Option<Seq<char>>, edited_at: Option<i64>, updated_at: i64) -> i64 {
    if update_kind == Some("interaction_policy"@) {
        updated_at
    } else {
        match edited_at {
            Some(e) => e,
            None => updated_at,
        }
    }
}

/// Whether a status `Update` delivery is current: a quote update also needs its quote
/// revision; then a delivery with complete metadata must be current for the kind it
/// declares, and one without must be a current repair recognized by its activity ID.
pub open spec fn update_delivery_current_spec(
    update_kind: Option<Seq<char>>,
    activity_id: Option<Seq<char>>,
    object_uri: Seq<char>,
    current_edited_at: i64,
    current_poll_updated_at: Option<i64>,
    current_quote_updated_at: Option<i64>,
    requested_edited_at: Option<i64>,
    requested_poll_updated_at: Option<i64>,
    requested_quote_updated_at: Option<i64>,
    requested_update_version: Option<i64>,
    published_version: Option<i64>,
) -> bool {
    let quote_current = update_kind != Some("quote"@) || current_quote_updated_at == requested_quote_updated_at;
    let complete = complete_status_update_delivery_kind_spec(
        update_kind,
        current_poll_updated_at is Some,
        requested_edited_at,
        requested_poll_updated_at,
        requested_update_version,
        published_version,
    );
    quote_current && match complete {
        Some(kind) => status_update_delivery_is_current_spec(
            kind,
            activity_id,
            object_uri,
            current_edited_at,
            current_poll_updated_at,
            requested_edited_at,
            requested_poll_updated_at,
            requested_update_version,
        ),
        None => inferred_current_repair_delivery_kind_spec(
            activity_id,
            object_uri,
            current_edited_at,
            current_poll_updated_at,
            published_version,
        ) is Some,
    }
}

/// The fence of a status `Update` delivery: one whose object is not the status is dropped;
/// a current one is delivered; a stale quote update is dropped; any other stale update is
/// replaced by a repair of the current snapshot.
pub open spec fn status_update_fence_spec(
    update_kind: Option<Seq<char>>,
    activity_id: Option<Seq<char>>,
    body_object_id: Option<Seq<char>>,
    object_uri: Seq<char>,
    current_edited_at: i64,
    current_poll_updated_at: Option<i64>,
    current_quote_updated_at: Option<i64>,
    requested_edited_at: Option<i64>,
    requested_poll_updated_at: Option<i64>,
    requested_quote_updated_at: Option<i64>,
    requested_update_version: Option<i64>,
    published_version: Option<i64>,
) -> StatusUpdateFence {
    if body_object_id != Some(object_uri) {
        StatusUpdateFence::Drop
    } else if update_delivery_current_spec(
        update_kind,
        activity_id,
        object_uri,
        current_edited_at,
        current_poll_updated_at,
        current_quote_updated_at,
        requested_edited_at,
        requested_poll_updated_at,
        requested_quote_updated_at,
        requested_update_version,
        published_version,
    ) {
        StatusUpdateFence::Deliver
    } else if update_kind == Some("quote"@) {
        StatusUpdateFence::Drop
    } else {
        StatusUpdateFence::Repair
    }
}

/// The edit version a delivery of this kind is fenced against.
pub fn fence_edited_at(update_kind: Option<&str>, edited_at: Option<i64>, updated_at: i64) -> (version: i64)
    ensures
        version == fence_edited_at_spec(opt_str_view(update_kind), edited_at, updated_at),
{
    proof {
        reveal_strlit("interaction_policy");
    }
    if opt_str_eq(update_kind, "interaction_policy") {
        updated_at
    } else {
        match edited_at {
            Some(e) => e,
            None => updated_at,
        }
    }
}

/// Fences a status `Update` delivery against the current edit, poll and quote snapshot.
pub fn status_update_fence(
    update_kind: Option<&str>,
    activity_id: Option<&str>,
    body_object_id: Option<&str>,
    object_uri: &str,
    current_edited_at: i64,
    current_poll_updated_at: Option<i64>,
    current_quote_updated_at: Option<i64>,
    requested_edited_at_micros: Option<i64>,
    requested_poll_updated_at_micros: Option<i64>,
    requested_quote_updated_at_micros: Option<i64>,
    requested_update_version_micros: Option<i64>,
    published_version_micros: Option<i64>,
) -> (fence: StatusUpdateFence)
    ensures
        fence == status_update_fence_spec(
            opt_str_view(update_kind),
            opt_str_view(activity_id),
            opt_str_view(body_object_id),
            object_uri@,
            current_edited_at,
            current_poll_updated_at,
            current_quote_updated_at,
            requested_edited_at_micros,
            requested_poll_updated_at_micros,
            requested_quote_updated_at_micros,
            requested_update_version_micros,
            published_version_micros,
        ),
{
    if !opt_str_eq(body_object_id, object_uri) {
        return StatusUpdateFence::Drop;
    }
    let is_quote = opt_str_eq(update_kind, "quote");
    let quote_current = if is_quote {
        quote_revision_is_current(current_quote_updated_at, requested_quote_updated_at_micros)
    } else {
        true
    };
    let complete = complete_status_update_delivery_kind(
        update_kind,
        current_poll_updated_at.is_some(),
        requested_edited_at_micros,
        requested_poll_updated_at_micros,
        requested_update_version_micros,
        published_version_micros,
    );
    let current = match complete {
        Some(kind) => status_update_delivery_is_current(
            kind,
            activity_id,
            object_uri,
            current_edited_at,
            current_poll_updated_at,
            requested_edited_at_micros,
            requested_poll_updated_at_micros,
            requested_update_version_micros,
        ),
        None => inferred_current_repair_delivery_kind(
            activity_id,
            object_uri,
            current_edited_at,
            current_poll_updated_at,
            published_version_micros,
        ).is_some(),
    };
    if quote_current && current {
        StatusUpdateFence::Deliver
    } else if is_quote {
        StatusUpdateFence::Drop
    } else {
        StatusUpdateFence::Repair
    }
}

/// A repair never repairs itself: the repair queued for a snapshot, delivered while that
/// snapshot is still current, passes the fence.
pub proof fn lemma_repair_passes_fence(
    object_uri: Seq<char>,
    edited_at: i64,
    poll_updated_at: Option<i64>,
    current_quote_updated_at: Option<i64>,
    requested_quote_updated_at: Option<i64>,
)
    ensures
        status_update_fence_spec(
            Some(kind_name(repair_kind_for(poll_updated_at))),
            Some(repair_activity_id(object_uri, edited_at, poll_updated_at)),
            Some(object_uri),
            object_uri,
            edited_at,
            poll_updated_at,
            current_quote_updated_at,
            Some(edited_at),
            poll_updated_at,
            requested_quote_updated_at,
            Some(repair_version(edited_at, poll_updated_at)),
            Some(repair_version(edited_at, poll_updated_at)),
        ) == StatusUpdateFence::Deliver,
{
    lemma_snapshot_repair_is_current(object_uri, edited_at, poll_updated_at);
    reveal_strlit("quote");
    reveal_strlit("status_repair");
    reveal_strlit("poll_repair");
    assert(kind_name(repair_kind_for(poll_updated_at)) != "quote"@) by {
        assert(kind_name(repair_kind_for(poll_updated_at)).len() != "quote"@.len());
    }
}

/// A fence delivers only what is current, and never queues a repair for a quote update.
pub proof fn lemma_fence_delivers_only_current(
    update_kind: Option<Seq<char>>,
    activity_id: Option<Seq<char>>,
    body_object_id: Option<Seq<char>>,
    object_uri: Seq<char>,
    current_edited_at: i64,
    current_poll_updated_at: Option<i64>,
    current_quote_updated_at: Option<i64>,
    requested_edited_at: Option<i64>,
    requested_poll_updated_at: Option<i64>,
    requested_quote_updated_at: Option<i64>,
    requested_update_version: Option<i64>,
    published_version: Option<i64>,
)
    ensures
        ({
            let fence = status_update_fence_spec(update_kind, activity_id, body_object_id, object_uri,
                current_edited_at, current_poll_updated_at, current_quote_updated_at, requested_edited_at,
                requested_poll_updated_at, requested_quote_updated_at, requested_update_version, published_version);
            &&& fence == StatusUpdateFence::Deliver ==> body_object_id == Some(object_uri)
                && update_delivery_current_spec(update_kind, activity_id, object_uri, current_edited_at,
                    current_poll_updated_at, current_quote_updated_at, requested_edited_at, requested_poll_updated_at,
                    requested_quote_updated_at, requested_update_version, published_version)
            &&& update_kind == Some("quote"@) ==> fence != StatusUpdateFence::Repair
        }),
{
}

/// What a status distribution job sends: a Delete or not, a QuoteRequest or not, and the
/// kind of update that fences it, named explicitly or inferred.
#[derive(Clone, Copy, Debug, PartialEq, Eq, Structural)]
pub struct StatusDistributionPlan {
    pub is_delete: bool,
    pub is_quote_request: bool,
    pub update_kind: StatusUpdateKind,
    pub explicit_update_kind: bool,
}

/// The update kind of a job that names none: a poll snapshot without an edit version, or
/// whose version is the poll's, is a poll update; one whose version is the edit's is a
/// status update; any other poll snapshot is a combined repair; no poll snapshot is a
/// status update.
pub open spec fn inferred_update_kind(
    edited_at: Option<i64>,
    poll_updated_at: Option<i64>,
    update_version: Option<i64>,
) -> StatusUpdateKind {
    if poll_updated_at is Some && edited_at is None {
        StatusUpdateKind::Poll
    } else if poll_updated_at is Some && update_version == poll_updated_at {
        StatusUpdateKind::Poll
    } else if poll_updated_at is Some && update_version == edited_at {
        StatusUpdateKind::Status
    } else if poll_updated_at is Some {
        StatusUpdateKind::PollRepair
    } else {
        StatusUpdateKind::Status
    }
}

/// A timestamp argument, when present, must be an instant chrono represents.
pub open spec fn representable_or_absent(micros: Option<i64>) -> bool {
    micros matches Some(m) ==> chrono_micros_in_range(m as int)
}

/// The plan of a status distribution job, or why the job is invalid: the activity must be a
/// Create, Update, QuoteRequest or Delete; quote-request arguments come exactly with a
/// QuoteRequest; the timestamps must be representable; a named update kind must exist.
pub open spec fn status_distribution_spec(
    activity_type: Seq<char>,
    has_quote_request: bool,
    edited_at: Option<i64>,
    poll_updated_at: Option<i64>,
    update_kind: Option<Seq<char>>,
    update_version: Option<i64>,
) -> Result<StatusDistributionPlan, Seq<char>> {
    let is_quote_request = activity_type == "QuoteRequest"@;
    let is_delete = activity_type == "Delete"@;
    if !(activity_type == "Create"@ || activity_type == "Update"@ || is_quote_request || is_delete) {
        Err("status distribution activity type is unsupported"@)
    } else if is_quote_request != has_quote_request {
        Err("status quote-request distribution arguments are invalid"@)
    } else if !representable_or_absent(edited_at) {
        Err("status edit timestamp is invalid"@)
    } else if !representable_or_absent(poll_updated_at) {
        Err("poll update timestamp is invalid"@)
    } else if !representable_or_absent(update_version) {
        Err("status update version is invalid"@)
    } else {
        match update_kind {
            Some(name) => match parse_kind(name) {
                None => Err("status distribution update kind is unsupported"@),
                Some(kind) => Ok(StatusDistributionPlan {
                    is_delete,
                    is_quote_request,
                    update_kind: kind,
                    explicit_update_kind: true,
                }),
            },
            None => Ok(StatusDistributionPlan {
                is_delete,
                is_quote_request,
                update_kind: inferred_update_kind(edited_at, poll_updated_at, update_version),
                explicit_update_kind: false,
            }),
        }
    }
}

fn representable_if_present(micros: Option<i64>) -> (r: bool)
    ensures
        r == representable_or_absent(micros),
{
    match micros {
        Some(m) => micros_representable(m),
        None => true,
    }
}

/// Reads what a status distribution job sends.
pub fn status_distribution_plan(
    activity_type: &str,
    has_quote_request: bool,
    edited_at_micros: Option<i64>,
    poll_updated_at_micros: Option<i64>,
    update_kind: Option<&str>,
    update_version_micros: Option<i64>,
) -> (r: Result<StatusDistributionPlan, HandlerFailure>)
    ensures
        match status_distribution_spec(
            activity_type@,
            has_quote_request,
            edited_at_micros,
            poll_updated_at_micros,
            opt_str_view(update_kind),
            update_version_micros,
        ) {
            Ok(plan) => r matches Ok(p) && p == plan,
            Err(m) => r matches Err(f) && f.disposition == FailureDisposition::Permanent && f.message@ == m,
        },
{
    let is_quote_request = str_eq(activity_type, "QuoteRequest");
    let is_delete = str_eq(activity_type, "Delete");
    if !(str_eq(activity_type, "Create") || str_eq(activity_type, "Update") || is_quote_request || is_delete) {
        return Err(HandlerFailure::permanent("status distribution activity type is unsupported"));
    }
    if is_quote_request != has_quote_request {
        return Err(HandlerFailure::permanent("status quote-request distribution arguments are invalid"));
    }
    if !representable_if_present(edited_at_micros) {
        return Err(HandlerFailure::permanent("status edit timestamp is invalid"));
    }
    if !representable_if_present(poll_updated_at_micros) {
        return Err(HandlerFailure::permanent("poll update timestamp is invalid"));
    }
    if !representable_if_present(update_version_micros) {
        return Err(HandlerFailure::permanent("status update version is invalid"));
    }
    let (kind, explicit_update_kind) = match update_kind {
        Some(name) => match StatusUpdateKind::parse(name) {
            Some(kind) => (kind, true),
            None => {
                return Err(HandlerFailure::permanent("status distribution update kind is unsupported"));
            },
        },
        None => {
            let kind = if poll_updated_at_micros.is_some() && edited_at_micros.is_none() {
                StatusUpdateKind::Poll
            } else if poll_updated_at_micros.is_some() && update_version_micros == poll_updated_at_micros {
                StatusUpdateKind::Poll
            } else if poll_updated_at_micros.is_some() && update_version_micros == edited_at_micros {
                StatusUpdateKind::Status
            } else if poll_updated_at_micros.is_some() {
                StatusUpdateKind::PollRepair
            } else {
                StatusUpdateKind::Status
            };
            (kind, false)
        },
    };
    Ok(StatusDistributionPlan { is_delete, is_quote_request, update_kind: kind, explicit_update_kind })
}

/// What a status Update distribution does with the current snapshot: a quote update
/// delivers its quote snapshot or is stale; any other update follows the version decision,
/// strict when its kind was named or is a repair. A repair that cannot deliver its request
/// delivers the current snapshot when its kind can serialize it, and otherwise is replaced
/// by a repair of the right kind.
pub open spec fn status_update_plan_spec(
    kind: StatusUpdateKind,
    explicit_update_kind: bool,
    current_edited_at: i64,
    current_poll_updated_at: Option<i64>,
    current_quote_updated_at: Option<i64>,
    requested_edited_at: Option<i64>,
    requested_poll_updated_at: Option<i64>,
    requested_quote_updated_at: Option<i64>,
    requested_update_version: Option<i64>,
) -> StatusUpdateVersionDecision {
    let decision = if kind == StatusUpdateKind::Quote {
        match quote_update_versions_spec(
            current_edited_at,
            current_poll_updated_at,
            current_quote_updated_at,
            requested_edited_at,
            requested_poll_updated_at,
            requested_quote_updated_at,
            requested_update_version,
        ) {
            Some((e, p, v)) => StatusUpdateVersionDecision::Deliver(e, p, v),
            None => StatusUpdateVersionDecision::Stale,
        }
    } else {
        status_update_version_decision_spec(
            current_edited_at,
            current_poll_updated_at,
            requested_edited_at,
            requested_poll_updated_at,
            kind,
            explicit_update_kind || is_repair_kind(kind),
        )
    };
    match decision {
        StatusUpdateVersionDecision::Repair => if is_repair_kind(kind) {
            match status_update_versions_spec(
                current_edited_at,
                current_poll_updated_at,
                Some(current_edited_at),
                current_poll_updated_at,
                kind,
                true,
            ) {
                Some((e, p, v)) => StatusUpdateVersionDecision::Deliver(e, p, v),
                None => StatusUpdateVersionDecision::Repair,
            }
        } else {
            StatusUpdateVersionDecision::Repair
        },
        other => other,
    }
}

/// Plans a status Update distribution against the current snapshot.
pub fn status_update_plan(
    kind: StatusUpdateKind,
    explicit_update_kind: bool,
    current_edited_at: i64,
    current_poll_updated_at: Option<i64>,
    current_quote_updated_at: Option<i64>,
    requested_edited_at: Option<i64>,
    requested_poll_updated_at: Option<i64>,
    requested_quote_updated_at_micros: Option<i64>,
    requested_update_version: Option<i64>,
) -> (plan: StatusUpdateVersionDecision)
    ensures
        plan == status_update_plan_spec(
            kind,
            explicit_update_kind,
            current_edited_at,
            current_poll_updated_at,
            current_quote_updated_at,
            requested_edited_at,
            requested_poll_updated_at,
            requested_quote_updated_at_micros,
            requested_update_version,
        ),
{
    let decision = if kind == StatusUpdateKind::Quote {
        match quote_update_versions(
            current_edited_at,
            current_poll_updated_at,
            current_quote_updated_at,
            requested_edited_at,
            requested_poll_updated_at,
            requested_quote_updated_at_micros,
            requested_update_version,
        ) {
            Some((e, p, v)) => StatusUpdateVersionDecision::Deliver(e, p, v),
            None => StatusUpdateVersionDecision::Stale,
        }
    } else {
        status_update_version_decision(
            current_edited_at,
            current_poll_updated_at,
            requested_edited_at,
            requested_poll_updated_at,
            kind,
            explicit_update_kind || kind.is_repair(),
        )
    };
    match decision {
        StatusUpdateVersionDecision::Repair => if kind.is_repair() {
            match status_update_versions(
                current_edited_at,
                current_poll_updated_at,
                Some(current_edited_at),
                current_poll_updated_at,
                kind,
                true,
            ) {
                Some((e, p, v)) => StatusUpdateVersionDecision::Deliver(e, p, v),
                None => StatusUpdateVersionDecision::Repair,
            }
        } else {
            StatusUpdateVersionDecision::Repair
        },
        other => other,
    }
}

/// A distributed Update always carries the current edit and poll snapshot; outside quote
/// updates, it publishes the version its kind selects from that snapshot.
pub proof fn lemma_update_plan_delivers_current_snapshot(
    kind: StatusUpdateKind,
    explicit_update_kind: bool,
    current_edited_at: i64,
    current_poll_updated_at: Option<i64>,
    current_quote_updated_at: Option<i64>,
    requested_edited_at: Option<i64>,
    requested_poll_updated_at: Option<i64>,
    requested_quote_updated_at: Option<i64>,
    requested_update_version: Option<i64>,
)
    ensures
        status_update_plan_spec(kind, explicit_update_kind, current_edited_at, current_poll_updated_at,
            current_quote_updated_at, requested_edited_at, requested_poll_updated_at, requested_quote_updated_at,
            requested_update_version) matches StatusUpdateVersionDecision::Deliver(e, p, v)
            ==> (e == current_edited_at && p == current_poll_updated_at
                && (kind != StatusUpdateKind::Quote ==> Some(v) == snapshot_update_version(kind, current_edited_at, current_poll_updated_at))),
{
}

/// Repairs converge: a repair plan leaves a snapshot that the repair kind chosen for it
/// (a combined repair exactly when the status has a poll) serializes and delivers.
pub proof fn lemma_repair_plan_converges(
    current_edited_at: i64,
    current_poll_updated_at: Option<i64>,
    current_quote_updated_at: Option<i64>,
    requested_quote_updated_at: Option<i64>,
)
    ensures
        status_update_plan_spec(repair_kind_for(current_poll_updated_at), true, current_edited_at,
            current_poll_updated_at, current_quote_updated_at, Some(current_edited_at), current_poll_updated_at,
            requested_quote_updated_at, Some(repair_version(current_edited_at, current_poll_updated_at)))
            == StatusUpdateVersionDecision::Deliver(current_edited_at, current_poll_updated_at,
                repair_version(current_edited_at, current_poll_updated_at)),
{
}

/// The activity ID a distributed Update of this kind carries: the pair-bound repair ID for
/// a repair, else the Update ID of its version.
pub open spec fn distributed_activity_id(
    kind: StatusUpdateKind,
    object_uri: Seq<char>,
    edited_at: i64,
    poll_updated_at: Option<i64>,
    version: i64,
) -> Seq<char> {
    if is_repair_kind(kind) {
        repair_activity_id(object_uri, edited_at, poll_updated_at)
    } else {
        update_activity_id_spec(object_uri, version)
    }
}

/// A fresh Update is delivered: when distribution plans to deliver a snapshot, a delivery
/// of it (carrying the planned kind and versions, its activity ID and its version as the
/// published time) passes the delivery fence while that snapshot is still current. A quote
/// update's version is one chrono represents, as distribution requires.
pub proof fn lemma_fresh_update_passes_fence(
    kind: StatusUpdateKind,
    explicit_update_kind: bool,
    object_uri: Seq<char>,
    current_edited_at: i64,
    current_poll_updated_at: Option<i64>,
    current_quote_updated_at: Option<i64>,
    requested_edited_at: Option<i64>,
    requested_poll_updated_at: Option<i64>,
    requested_quote_updated_at: Option<i64>,
    requested_update_version: Option<i64>,
)
    requires
        status_update_plan_spec(kind, explicit_update_kind, current_edited_at, current_poll_updated_at,
            current_quote_updated_at, requested_edited_at, requested_poll_updated_at, requested_quote_updated_at,
            requested_update_version) is Deliver,
        kind == StatusUpdateKind::Quote ==> (requested_update_version matches Some(v) && chrono_micros_in_range(v as int)),
    ensures
        status_update_plan_spec(kind, explicit_update_kind, current_edited_at, current_poll_updated_at,
            current_quote_updated_at, requested_edited_at, requested_poll_updated_at, requested_quote_updated_at,
            requested_update_version) matches StatusUpdateVersionDecision::Deliver(e, p, v)
            && status_update_fence_spec(
                Some(kind_name(kind)),
                Some(distributed_activity_id(kind, object_uri, e, p, v)),
                Some(object_uri),
                object_uri,
                current_edited_at,
                current_poll_updated_at,
                current_quote_updated_at,
                Some(e),
                p,
                requested_quote_updated_at,
                Some(v),
                Some(v),
            ) == StatusUpdateFence::Deliver,
{
    lemma_kind_name_round_trip(kind);
    lemma_kind_name_round_trip(StatusUpdateKind::Quote);
    reveal_strlit("quote");
    assert(kind_name(StatusUpdateKind::Quote) == "quote"@);
}

/// An Update job delivers only the current snapshot: the current edit and poll versions,
/// published as the edit version (status, interaction policy and status repair updates),
/// the poll version (poll updates) or the later of both (poll repairs); a quote update is
/// never delivered this way. A job asking for the current snapshot of a status, poll or
/// interaction policy update is delivered. A job asking for an edit that is no longer
/// current is repaired in strict mode and dropped as stale otherwise.
pub proof fn lemma_update_decision(
    current_edited_at: i64,
    current_poll_updated_at: Option<i64>,
    requested_edited_at: Option<i64>,
    requested_poll_updated_at: Option<i64>,
    kind: StatusUpdateKind,
    strict: bool,
)
    ensures
        ({
            let d = status_update_version_decision_spec(current_edited_at, current_poll_updated_at,
                requested_edited_at, requested_poll_updated_at, kind, strict);
            &&& (d matches StatusUpdateVersionDecision::Deliver(e, p, v) ==> {
                &&& e == current_edited_at
                &&& p == current_poll_updated_at
                &&& kind != StatusUpdateKind::Quote
                &&& (kind == StatusUpdateKind::Status || kind == StatusUpdateKind::InteractionPolicy
                    || kind == StatusUpdateKind::StatusRepair) ==> v == current_edited_at
                &&& kind == StatusUpdateKind::Poll ==> Some(v) == current_poll_updated_at
                &&& kind == StatusUpdateKind::PollRepair ==> (current_poll_updated_at matches Some(poll)
                    && v == (if current_edited_at >= poll { current_edited_at } else { poll }))
            })
            &&& ((kind == StatusUpdateKind::Status || kind == StatusUpdateKind::InteractionPolicy
                || (kind == StatusUpdateKind::Poll && current_poll_updated_at is Some))
                && requested_edited_at == Some(current_edited_at)
                && requested_poll_updated_at == current_poll_updated_at) ==> d
                == StatusUpdateVersionDecision::Deliver(current_edited_at, current_poll_updated_at,
                if kind == StatusUpdateKind::Poll { current_poll_updated_at->0 } else { current_edited_at })
            &&& (requested_edited_at is Some && requested_edited_at->0 != current_edited_at) ==> d == (if strict {
                StatusUpdateVersionDecision::Repair
            } else {
                StatusUpdateVersionDecision::Stale
            })
        }),
{
}

} // verus!
