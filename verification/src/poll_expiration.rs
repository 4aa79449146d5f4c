use vstd::prelude::*;
use crate::failure::{FailureDisposition, HandlerFailure};
use crate::job::{JobSpec, opt_string};
use crate::json::{JsonNumber, JsonValue, json_get, json_get_i64, json_get_str, json_i64, json_str, opt_json, opt_text};
use crate::registry::Lane;
use crate::text::{is_decimal_char, lemma_int_decimal_chars, lemma_int_decimal_injective, lemma_split_at_separator, int_decimal, nat_decimal, push_decimal_i64, push_decimal_u128, push_str, str_eq};
use crate::time::{Timestamp, chrono_micros_in_range, chrono_parse_rfc3339, chrono_parse_utc, chrono_rfc3339};

verus! {

/// Rows a fallback scan page reads.
pub const POLL_EXPIRATION_REPAIR_PAGE_SIZE: i64 = 256;
/// Pages one reconciliation segment may scan.
pub const POLL_EXPIRATION_REPAIR_MAX_PAGES: usize = 4;
/// Actionable polls one segment may reconcile.
pub const POLL_EXPIRATION_REPAIR_MAX_CANDIDATES: usize = 25;

/// The durable job kind of poll expiration reconciliation segments.
pub open spec fn reconcile_job_kind() -> Seq<char> {
    "rustodon.mastodon.reconcile_poll_expirations"@
}

/// How a reconciliation segment scans polls.
#[derive(Clone, Copy, Debug, PartialEq, Eq, Structural)]
pub enum PollExpirationScanMode {
    /// The indexed query, with a raw fallback page when it times out.
    Optimized,
    /// Bounded raw pages only.
    Raw,
}

/// What a segment does with the next scanned poll.
#[derive(Clone, Copy, Debug, PartialEq, Eq, Structural)]
pub enum PollExpirationScanStep {
    /// The poll's expiration effect was already dispatched: move the cursor past it.
    AdvanceTerminal,
    /// Reconcile the poll's expiration.
    Reconcile,
    /// The candidate budget is spent: stop before this poll.
    Stop,
}

/// Terminal polls advance without spending the candidate budget; otherwise a poll is
/// reconciled while fewer than 25 candidates were.
pub fn poll_expiration_scan_step(terminal: bool, candidates_reconciled: usize) -> (step: PollExpirationScanStep)
    ensures
        step == (if terminal {
            PollExpirationScanStep::AdvanceTerminal
        } else if candidates_reconciled >= POLL_EXPIRATION_REPAIR_MAX_CANDIDATES {
            PollExpirationScanStep::Stop
        } else {
            PollExpirationScanStep::Reconcile
        }),
{
    if terminal {
        PollExpirationScanStep::AdvanceTerminal
    } else if candidates_reconciled >= POLL_EXPIRATION_REPAIR_MAX_CANDIDATES {
        PollExpirationScanStep::Stop
    } else {
        PollExpirationScanStep::Reconcile
    }
}

/// The singleton key of a segment: the scan start in microseconds, the mode (raw only),
/// the segment and the cursor.
pub open spec fn reconciliation_key(
    scan_started_at_micros: i64,
    after_poll_id: i64,
    segment: i64,
    mode: PollExpirationScanMode,
) -> Seq<char> {
    "poll-expiration-reconcile:"@ + int_decimal(scan_started_at_micros as int) + ":"@ + (match mode {
        PollExpirationScanMode::Optimized => Seq::empty(),
        PollExpirationScanMode::Raw => "raw:"@,
    }) + int_decimal(segment as int) + ":"@ + int_decimal(after_poll_id as int)
}

/// A JSON integer.
pub open spec fn json_int(i: i64) -> JsonValue {
    JsonValue::Number(JsonNumber::Int(i))
}

/// The members of a segment's arguments, exactly and in this order: `scan_started_at`,
/// `through_poll_id`, `after_poll_id`, `segment`, and `scan_mode: "raw"` for raw segments.
pub open spec fn reconciliation_members(
    members: Seq<(String, JsonValue)>,
    scan_started_at_micros: i64,
    through_poll_id: Option<i64>,
    after_poll_id: i64,
    segment: i64,
    mode: PollExpirationScanMode,
) -> bool {
    &&& members.len() == if mode == PollExpirationScanMode::Raw { 5int } else { 4int }
    &&& members[0].0@ == "scan_started_at"@
    &&& members[0].1 matches JsonValue::String(t) && t@ == chrono_rfc3339(scan_started_at_micros as int)
    &&& members[1].0@ == "through_poll_id"@
    &&& members[1].1 == match through_poll_id {
        Some(t) => json_int(t),
        None => JsonValue::Null,
    }
    &&& members[2].0@ == "after_poll_id"@
    &&& members[2].1 == json_int(after_poll_id)
    &&& members[3].0@ == "segment"@
    &&& members[3].1 == json_int(segment)
    &&& mode == PollExpirationScanMode::Raw ==> (members[4].0@ == "scan_mode"@
        && (members[4].1 matches JsonValue::String(t) && t@ == "raw"@))
}

/// The arguments of a segment: the RFC 3339 scan start, the high-water mark (or `null`),
/// the cursor and the segment, and `scan_mode: "raw"` for raw segments only.
pub open spec fn reconciliation_arguments(
    arguments: JsonValue,
    scan_started_at_micros: i64,
    through_poll_id: Option<i64>,
    after_poll_id: i64,
    segment: i64,
    mode: PollExpirationScanMode,
) -> bool {
    &&& arguments matches JsonValue::Object(members)
        && reconciliation_members(members@, scan_started_at_micros, through_poll_id, after_poll_id, segment, mode)
    &&& json_get_str(arguments, "scan_started_at"@) == Some(chrono_rfc3339(scan_started_at_micros as int))
    &&& json_get(arguments, "through_poll_id"@) == Some(match through_poll_id {
        Some(t) => json_int(t),
        None => JsonValue::Null,
    })
    &&& json_get(arguments, "after_poll_id"@) == Some(json_int(after_poll_id))
    &&& json_get(arguments, "segment"@) == Some(json_int(segment))
    &&& json_get(arguments, "cutoff"@) is None
    &&& match mode {
        PollExpirationScanMode::Raw => json_get_str(arguments, "scan_mode"@) == Some("raw"@),
        PollExpirationScanMode::Optimized => json_get(arguments, "scan_mode"@) is None,
    }
}

/// A segment job: maintenance lane, reconciliation kind, its arguments and its key.
pub open spec fn is_reconciliation_job(
    job: JobSpec,
    scan_started_at_micros: i64,
    through_poll_id: Option<i64>,
    after_poll_id: i64,
    segment: i64,
    mode: PollExpirationScanMode,
) -> bool {
    &&& job.lane == Lane::Maintenance
    &&& job.kind@ == reconcile_job_kind()
    &&& reconciliation_arguments(job.arguments, scan_started_at_micros, through_poll_id, after_poll_id, segment, mode)
    &&& opt_string(job.logical_key) == Some(reconciliation_key(scan_started_at_micros, after_poll_id, segment, mode))
    &&& job.max_attempts is None
    &&& chrono_parse_utc(chrono_rfc3339(scan_started_at_micros as int)) == Some(scan_started_at_micros as int)
}

/// The singleton key of a segment.
pub fn poll_expiration_reconciliation_logical_key(
    scan_started_at: &Timestamp,
    after_poll_id: i64,
    segment: i64,
    mode: PollExpirationScanMode,
) -> (key: String)
    ensures
        key@ == reconciliation_key(scan_started_at.micros_spec(), after_poll_id, segment, mode),
{
    segment_key(scan_started_at.micros(), after_poll_id, segment, mode)
}

fn segment_key(scan_started_at_micros: i64, after_poll_id: i64, segment: i64, mode: PollExpirationScanMode)
    -> (key: String)
    ensures
        key@ == reconciliation_key(scan_started_at_micros, after_poll_id, segment, mode),
{
    let mut key = String::new();
    push_str(&mut key, "poll-expiration-reconcile:");
    push_decimal_i64(&mut key, scan_started_at_micros);
    push_str(&mut key, ":");
    if mode == PollExpirationScanMode::Raw {
        push_str(&mut key, "raw:");
    }
    push_decimal_i64(&mut key, segment);
    push_str(&mut key, ":");
    push_decimal_i64(&mut key, after_poll_id);
    assert(key@ =~= reconciliation_key(scan_started_at_micros, after_poll_id, segment, mode));
    key
}

/// A reconciliation segment job in the given mode.
pub fn poll_expiration_reconciliation_job_with_mode(
    scan_started_at: &Timestamp,
    through_poll_id: Option<i64>,
    after_poll_id: i64,
    segment: i64,
    mode: PollExpirationScanMode,
) -> (job: JobSpec)
    ensures
        is_reconciliation_job(job, scan_started_at.micros_spec(), through_poll_id, after_poll_id, segment, mode),
{
    let mut members: Vec<(String, JsonValue)> = Vec::new();
    members.push(("scan_started_at".to_owned(), JsonValue::String(scan_started_at.to_rfc3339())));
    members.push((
        "through_poll_id".to_owned(),
        match through_poll_id {
            Some(t) => JsonValue::Number(JsonNumber::Int(t)),
            None => JsonValue::Null,
        },
    ));
    members.push(("after_poll_id".to_owned(), JsonValue::Number(JsonNumber::Int(after_poll_id))));
    members.push(("segment".to_owned(), JsonValue::Number(JsonNumber::Int(segment))));
    if mode == PollExpirationScanMode::Raw {
        members.push(("scan_mode".to_owned(), JsonValue::String("raw".to_owned())));
    }
    proof {
        reveal_strlit("scan_started_at");
        reveal_strlit("through_poll_id");
        reveal_strlit("after_poll_id");
        reveal_strlit("segment");
        reveal_strlit("scan_mode");
        reveal_strlit("cutoff");
        lemma_reconciliation_members(members@, mode);
    }
    let arguments = JsonValue::Object(members);
    let key = poll_expiration_reconciliation_logical_key(scan_started_at, after_poll_id, segment, mode);
    JobSpec::new(Lane::Maintenance, "rustodon.mastodon.reconcile_poll_expirations", arguments).logical_key(key)
}

proof fn lemma_reconciliation_members(members: Seq<(String, JsonValue)>, mode: PollExpirationScanMode)
    requires
        members.len() == if mode == PollExpirationScanMode::Raw { 5int } else { 4int },
        members[0].0@ == "scan_started_at"@,
        members[1].0@ == "through_poll_id"@,
        members[2].0@ == "after_poll_id"@,
        members[3].0@ == "segment"@,
        mode == PollExpirationScanMode::Raw ==> members[4].0@ == "scan_mode"@,
        "scan_started_at"@ =~= seq!['s','c','a','n','_','s','t','a','r','t','e','d','_','a','t'],
        "through_poll_id"@ =~= seq!['t','h','r','o','u','g','h','_','p','o','l','l','_','i','d'],
        "after_poll_id"@ =~= seq!['a','f','t','e','r','_','p','o','l','l','_','i','d'],
        "segment"@ =~= seq!['s','e','g','m','e','n','t'],
        "scan_mode"@ =~= seq!['s','c','a','n','_','m','o','d','e'],
        "cutoff"@ =~= seq!['c','u','t','o','f','f'],
    ensures
        crate::json::entries_get(members, "scan_started_at"@) == Some(members[0].1),
        crate::json::entries_get(members, "through_poll_id"@) == Some(members[1].1),
        crate::json::entries_get(members, "after_poll_id"@) == Some(members[2].1),
        crate::json::entries_get(members, "segment"@) == Some(members[3].1),
        crate::json::entries_get(members, "cutoff"@) is None,
        mode == PollExpirationScanMode::Raw ==> crate::json::entries_get(members, "scan_mode"@) == Some(members[4].1),
        mode == PollExpirationScanMode::Optimized ==> crate::json::entries_get(members, "scan_mode"@) is None,
{
    let m1 = members.drop_first();
    let m2 = m1.drop_first();
    let m3 = m2.drop_first();
    let m4 = m3.drop_first();
    let m5 = m4.drop_first();
    assert(m1[0] == members[1] && m2[0] == members[2] && m3[0] == members[3]);
    if mode == PollExpirationScanMode::Raw {
        assert(m4[0] == members[4]);
        assert(m5.len() == 0);
    } else {
        assert(m4.len() == 0);
    }
    reveal_with_fuel(crate::json::entries_get, 6);
}

/// An optimized segment job.
pub fn poll_expiration_reconciliation_job(
    scan_started_at: &Timestamp,
    through_poll_id: Option<i64>,
    after_poll_id: i64,
    segment: i64,
) -> (job: JobSpec)
    ensures
        is_reconciliation_job(job, scan_started_at.micros_spec(), through_poll_id, after_poll_id, segment,
            PollExpirationScanMode::Optimized),
{
    poll_expiration_reconciliation_job_with_mode(
        scan_started_at,
        through_poll_id,
        after_poll_id,
        segment,
        PollExpirationScanMode::Optimized,
    )
}

/// A raw segment job, which always carries its high-water mark.
pub fn poll_expiration_raw_reconciliation_job(
    scan_started_at: &Timestamp,
    through_poll_id: i64,
    after_poll_id: i64,
    segment: i64,
) -> (job: JobSpec)
    ensures
        is_reconciliation_job(job, scan_started_at.micros_spec(), Some(through_poll_id), after_poll_id, segment,
            PollExpirationScanMode::Raw),
{
    poll_expiration_reconciliation_job_with_mode(
        scan_started_at,
        Some(through_poll_id),
        after_poll_id,
        segment,
        PollExpirationScanMode::Raw,
    )
}

/// The next segment after `segment`, in the same mode, from the given cursor: the job that
/// `poll_expiration_reconciliation_job_with_mode` builds for `segment + 1`, member for
/// member. The segment number must not overflow, and a raw continuation needs its
/// high-water mark.
pub fn poll_expiration_reconciliation_continuation(
    scan_started_at: &Timestamp,
    through_poll_id: Option<i64>,
    after_poll_id: i64,
    segment: i64,
    mode: PollExpirationScanMode,
) -> (job: Result<JobSpec, HandlerFailure>)
    ensures
        segment == i64::MAX ==> (job matches Err(f) && f.disposition == FailureDisposition::Permanent
            && f.message@ == "poll expiration repair segment overflowed"@),
        segment < i64::MAX && mode == PollExpirationScanMode::Raw && through_poll_id is None ==> (job matches Err(f)
            && f.disposition == FailureDisposition::Permanent
            && f.message@ == "raw poll expiration repair high-water mark is missing"@),
        job is Ok <==> segment < i64::MAX && (mode == PollExpirationScanMode::Raw ==> through_poll_id is Some),
        job matches Ok(j) ==> is_reconciliation_job(j, scan_started_at.micros_spec(), through_poll_id, after_poll_id,
            (segment + 1) as i64, mode),
{
    if segment == i64::MAX {
        return Err(HandlerFailure::permanent("poll expiration repair segment overflowed"));
    }
    let next_segment = segment + 1;
    match mode {
        PollExpirationScanMode::Optimized => Ok(poll_expiration_reconciliation_job(
            scan_started_at,
            through_poll_id,
            after_poll_id,
            next_segment,
        )),
        PollExpirationScanMode::Raw => match through_poll_id {
            Some(through) => Ok(poll_expiration_raw_reconciliation_job(
                scan_started_at,
                through,
                after_poll_id,
                next_segment,
            )),
            None => Err(HandlerFailure::permanent("raw poll expiration repair high-water mark is missing")),
        },
    }
}

/// The scan mode that job arguments configure: optimized when absent; raw only for a
/// continuation (segment other than 0) that carries integer high-water mark and cursor;
/// any other value is invalid.
pub open spec fn parse_scan_mode_spec(arguments: JsonValue, segment: i64) -> Result<PollExpirationScanMode, Seq<char>> {
    match json_get(arguments, "scan_mode"@) {
        None => Ok(PollExpirationScanMode::Optimized),
        Some(value) => if json_str(value) == Some("raw"@) {
            if segment == 0 || json_get_i64(arguments, "through_poll_id"@) is None
                || json_get_i64(arguments, "after_poll_id"@) is None {
                Err("raw poll expiration repair continuation is invalid"@)
            } else {
                Ok(PollExpirationScanMode::Raw)
            }
        } else {
            Err("poll expiration repair scan mode is invalid"@)
        },
    }
}

/// A result whose error is a permanent failure with the given message.
pub open spec fn permanent_result_matches<T>(r: Result<T, HandlerFailure>, expected: Result<T, Seq<char>>) -> bool {
    match (r, expected) {
        (Ok(a), Ok(b)) => a == b,
        (Err(f), Err(m)) => f.disposition == FailureDisposition::Permanent && f.message@ == m,
        _ => false,
    }
}

fn get_i64_member(arguments: &JsonValue, key: &str) -> (i: Option<i64>)
    ensures
        i == json_get_i64(*arguments, key@),
{
    match arguments.get(key) {
        Some(v) => v.as_i64(),
        None => None,
    }
}

/// Reads the scan mode a segment's arguments configure.
pub fn parse_poll_expiration_scan_mode(arguments: &JsonValue, segment: i64)
    -> (mode: Result<PollExpirationScanMode, HandlerFailure>)
    ensures
        permanent_result_matches(mode, parse_scan_mode_spec(*arguments, segment)),
{
    match arguments.get("scan_mode") {
        None => Ok(PollExpirationScanMode::Optimized),
        Some(JsonValue::String(mode)) if str_eq(mode.as_str(), "raw") => {
            if segment == 0 || get_i64_member(arguments, "through_poll_id").is_none()
                || get_i64_member(arguments, "after_poll_id").is_none() {
                return Err(HandlerFailure::permanent("raw poll expiration repair continuation is invalid"));
            }
            Ok(PollExpirationScanMode::Raw)
        },
        Some(_) => Err(HandlerFailure::permanent("poll expiration repair scan mode is invalid")),
    }
}

/// The failure of a segment that could not move its cursor.
pub fn poll_expiration_no_progress() -> (f: HandlerFailure)
    ensures
        f.disposition == FailureDisposition::Retry,
        f.message@ == "poll expiration reconciliation made no cursor progress"@,
{
    HandlerFailure::retry("poll expiration reconciliation made no cursor progress")
}

/// Whether a failed scan query was cancelled by its statement timeout, told by the
/// SQLSTATE the database reported (`57014`, query canceled).
pub fn poll_expiration_scan_timed_out(database_code: Option<&str>) -> (r: bool)
    ensures
        r == (opt_text(database_code) == Some("57014"@)),
{
    match database_code {
        Some(code) => str_eq(code, "57014"),
        None => false,
    }
}

/// The mode a segment runs in: raw when configured raw or when retried.
pub fn poll_expiration_execution_mode(configured_mode: PollExpirationScanMode, attempt: i32)
    -> (mode: PollExpirationScanMode)
    ensures
        mode == (if configured_mode == PollExpirationScanMode::Raw || attempt > 1 {
            PollExpirationScanMode::Raw
        } else {
            PollExpirationScanMode::Optimized
        }),
{
    if configured_mode == PollExpirationScanMode::Raw || attempt > 1 {
        PollExpirationScanMode::Raw
    } else {
        PollExpirationScanMode::Optimized
    }
}

/// The scan start member: `scan_started_at`, or the legacy `cutoff` when absent.
pub open spec fn scan_start_member(arguments: JsonValue) -> Option<JsonValue> {
    if json_get(arguments, "scan_started_at"@) is Some {
        json_get(arguments, "scan_started_at"@)
    } else {
        json_get(arguments, "cutoff"@)
    }
}

/// An optional integer member: absent means 0, present must be an `i64`.
pub open spec fn optional_int_member(arguments: JsonValue, key: Seq<char>) -> Option<i64> {
    match json_get(arguments, key) {
        None => Some(0),
        Some(v) => json_i64(v),
    }
}

/// The singleton key that a segment's arguments determine, or why they are invalid.
pub open spec fn key_from_arguments_spec(arguments: JsonValue) -> Result<Seq<char>, Seq<char>> {
    let start_text = match scan_start_member(arguments) {
        Some(v) => json_str(v),
        None => None,
    };
    match start_text {
        None => Err("poll expiration repair start is missing"@),
        Some(text) => match chrono_parse_utc(text) {
            None => Err("poll expiration repair start is invalid"@),
            Some(micros) => match optional_int_member(arguments, "after_poll_id"@) {
                None => Err("poll expiration repair cursor is invalid"@),
                Some(after) => match optional_int_member(arguments, "segment"@) {
                    None => Err("poll expiration repair segment is invalid"@),
                    Some(segment) => match parse_scan_mode_spec(arguments, segment) {
                        Err(m) => Err(m),
                        Ok(mode) => Ok(reconciliation_key(micros as i64, after, segment, mode)),
                    },
                },
            },
        },
    }
}

fn optional_int(arguments: &JsonValue, key: &str) -> (i: Option<i64>)
    ensures
        i == optional_int_member(*arguments, key@),
{
    match arguments.get(key) {
        None => Some(0),
        Some(v) => v.as_i64(),
    }
}

/// Recomputes a segment's singleton key from its arguments, so that a job whose key does
/// not match its arguments can be refused.
pub fn poll_expiration_reconciliation_key_from_arguments(arguments: &JsonValue)
    -> (key: Result<String, HandlerFailure>)
    ensures
        match key {
            Ok(k) => key_from_arguments_spec(*arguments) == Ok::<Seq<char>, Seq<char>>(k@),
            Err(f) => f.disposition == FailureDisposition::Permanent
                && key_from_arguments_spec(*arguments) == Err::<Seq<char>, Seq<char>>(f.message@),
        },
{
    let start = match arguments.get("scan_started_at") {
        Some(v) => Some(v),
        None => arguments.get("cutoff"),
    };
    let text = match start {
        Some(v) => v.as_str(),
        None => None,
    };
    let text = match text {
        Some(t) => t,
        None => {
            return Err(HandlerFailure::permanent("poll expiration repair start is missing"));
        },
    };
    let scan_started_at_micros = match chrono_parse_rfc3339(text) {
        Some(m) => m,
        None => {
            return Err(HandlerFailure::permanent("poll expiration repair start is invalid"));
        },
    };
    let after_poll_id = match optional_int(arguments, "after_poll_id") {
        Some(a) => a,
        None => {
            return Err(HandlerFailure::permanent("poll expiration repair cursor is invalid"));
        },
    };
    let segment = match optional_int(arguments, "segment") {
        Some(s) => s,
        None => {
            return Err(HandlerFailure::permanent("poll expiration repair segment is invalid"));
        },
    };
    let mode = match parse_poll_expiration_scan_mode(arguments, segment) {
        Ok(m) => m,
        Err(f) => {
            return Err(f);
        },
    };
    Ok(segment_key(scan_started_at_micros, after_poll_id, segment, mode))
}

/// The `statement_timeout` setting for a time budget: whole milliseconds, at least 1.
pub fn poll_expiration_statement_timeout_value(limit_millis: u128) -> (setting: String)
    ensures
        setting@ == nat_decimal(if limit_millis >= 1 { limit_millis as nat } else { 1 }) + "ms"@,
{
    let millis: u128 = if limit_millis >= 1 { limit_millis } else { 1 };
    let mut setting = String::new();
    push_decimal_u128(&mut setting, millis);
    push_str(&mut setting, "ms");
    assert(setting@ =~= nat_decimal(millis as nat) + "ms"@);
    setting
}

/// A segment's arguments after validation, with the mode it executes in.
#[derive(Debug)]
pub struct ReconciliationRequest {
    pub scan_started_at: Timestamp,
    pub after_poll_id: i64,
    pub segment: i64,
    pub mode: PollExpirationScanMode,
    /// The high-water mark, or `None` when the segment must read it first.
    pub through_poll_id: Option<i64>,
}

/// The validated request of a segment's arguments at an attempt, or why they are invalid:
/// the start must parse; cursor and segment default to 0 and must be non-negative integers;
/// the configured mode must be valid (and becomes raw on a retry); the high-water mark is
/// read later when absent or `null`, and must otherwise be an integer.
pub open spec fn reconciliation_request_spec(arguments: JsonValue, attempt: i32)
    -> Result<(i64, i64, i64, PollExpirationScanMode, Option<i64>), Seq<char>> {
    let start_text = match scan_start_member(arguments) {
        Some(v) => json_str(v),
        None => None,
    };
    match start_text {
        None => Err("poll expiration repair start is missing"@),
        Some(text) => match chrono_parse_utc(text) {
            None => Err("poll expiration repair start is invalid"@),
            Some(micros) => if !chrono_micros_in_range(micros) {
                Err("poll expiration repair start is invalid"@)
            } else { match optional_int_member(arguments, "after_poll_id"@) {
                None => Err("poll expiration repair cursor is invalid"@),
                Some(after) => if after < 0 {
                    Err("poll expiration repair cursor is invalid"@)
                } else {
                    match optional_int_member(arguments, "segment"@) {
                        None => Err("poll expiration repair segment is invalid"@),
                        Some(segment) => if segment < 0 {
                            Err("poll expiration repair segment is invalid"@)
                        } else {
                            match parse_scan_mode_spec(arguments, segment) {
                                Err(m) => Err(m),
                                Ok(configured) => {
                                    let mode = if configured == PollExpirationScanMode::Raw || attempt > 1 {
                                        PollExpirationScanMode::Raw
                                    } else {
                                        PollExpirationScanMode::Optimized
                                    };
                                    match json_get(arguments, "through_poll_id"@) {
                                        None => Ok((micros as i64, after, segment, mode, None)),
                                        Some(JsonValue::Null) => Ok((micros as i64, after, segment, mode, None)),
                                        Some(v) => match json_i64(v) {
                                            Some(t) => Ok((micros as i64, after, segment, mode, Some(t))),
                                            None => Err("poll expiration repair high-water mark is invalid"@),
                                        },
                                    }
                                },
                            }
                        },
                    }
                },
            } },
        },
    }
}

/// The view of a request.
pub open spec fn request_view(r: ReconciliationRequest) -> (i64, i64, i64, PollExpirationScanMode, Option<i64>) {
    (r.scan_started_at.micros_spec(), r.after_poll_id, r.segment, r.mode, r.through_poll_id)
}

/// Validates a segment's arguments for the given attempt.
pub fn parse_reconciliation_request(arguments: &JsonValue, attempt: i32)
    -> (request: Result<ReconciliationRequest, HandlerFailure>)
    ensures
        match request {
            Ok(r) => reconciliation_request_spec(*arguments, attempt) == Ok::<_, Seq<char>>(request_view(r)),
            Err(f) => f.disposition == FailureDisposition::Permanent
                && reconciliation_request_spec(*arguments, attempt) == Err::<(i64, i64, i64, PollExpirationScanMode, Option<i64>), Seq<char>>(f.message@),
        },
{
    let start = match arguments.get("scan_started_at") {
        Some(v) => Some(v),
        None => arguments.get("cutoff"),
    };
    let text = match start {
        Some(v) => v.as_str(),
        None => None,
    };
    let text = match text {
        Some(t) => t,
        None => {
            return Err(HandlerFailure::permanent("poll expiration repair start is missing"));
        },
    };
    let scan_started_at = match Timestamp::parse(text) {
        Some(t) => t,
        None => {
            return Err(HandlerFailure::permanent("poll expiration repair start is invalid"));
        },
    };
    let after_poll_id = match optional_int(arguments, "after_poll_id") {
        Some(a) => a,
        None => {
            return Err(HandlerFailure::permanent("poll expiration repair cursor is invalid"));
        },
    };
    if after_poll_id < 0 {
        return Err(HandlerFailure::permanent("poll expiration repair cursor is invalid"));
    }
    let segment = match optional_int(arguments, "segment") {
        Some(s) => s,
        None => {
            return Err(HandlerFailure::permanent("poll expiration repair segment is invalid"));
        },
    };
    if segment < 0 {
        return Err(HandlerFailure::permanent("poll expiration repair segment is invalid"));
    }
    let configured = match parse_poll_expiration_scan_mode(arguments, segment) {
        Ok(m) => m,
        Err(f) => {
            return Err(f);
        },
    };
    let mode = poll_expiration_execution_mode(configured, attempt);
    let through_poll_id = match arguments.get("through_poll_id") {
        None => None,
        Some(JsonValue::Null) => None,
        Some(v) => match v.as_i64() {
            Some(t) => Some(t),
            None => {
                return Err(HandlerFailure::permanent("poll expiration repair high-water mark is invalid"));
            },
        },
    };
    Ok(ReconciliationRequest { scan_started_at, after_poll_id, segment, mode, through_poll_id })
}

/// Refuses a segment whose singleton key is not the one its arguments determine.
pub fn check_reconciliation_key(arguments: &JsonValue, logical_key: &str) -> (r: Result<(), HandlerFailure>)
    ensures
        match key_from_arguments_spec(*arguments) {
            Ok(k) => if k == logical_key@ {
                r is Ok
            } else {
                r matches Err(f) && f.disposition == FailureDisposition::Permanent
                    && f.message@ == "poll expiration reconciliation logical key is invalid"@
            },
            Err(m) => r matches Err(f) && f.disposition == FailureDisposition::Permanent && f.message@ == m,
        },
{
    let expected = match poll_expiration_reconciliation_key_from_arguments(arguments) {
        Ok(k) => k,
        Err(f) => {
            return Err(f);
        },
    };
    if str_eq(expected.as_str(), logical_key) {
        Ok(())
    } else {
        Err(HandlerFailure::permanent("poll expiration reconciliation logical key is invalid"))
    }
}

/// Checks a high-water mark against the cursor: it may not lie below the cursor or below
/// zero; `true` means the cursor already reached it and nothing is left to scan.
pub fn check_high_water(through_poll_id: i64, after_poll_id: i64) -> (r: Result<bool, HandlerFailure>)
    ensures
        through_poll_id < after_poll_id || through_poll_id < 0 ==> (r matches Err(f)
            && f.disposition == FailureDisposition::Permanent
            && f.message@ == "poll expiration repair high-water mark is invalid"@),
        !(through_poll_id < after_poll_id || through_poll_id < 0) ==> r == Ok::<bool, HandlerFailure>(
            through_poll_id == after_poll_id),
{
    if through_poll_id < after_poll_id || through_poll_id < 0 {
        return Err(HandlerFailure::permanent("poll expiration repair high-water mark is invalid"));
    }
    Ok(through_poll_id == after_poll_id)
}

/// The progress of one reconciliation segment's scan.
#[derive(Debug)]
pub struct ReconciliationScan {
    cursor: i64,
    initial_cursor: i64,
    through_poll_id: i64,
    candidates_reconciled: usize,
    pages_scanned: usize,
    bounded: bool,
    exhausted: bool,
}

/// What a scan has done so far.
pub struct ScanView {
    /// The last poll passed: terminal or reconciled.
    pub cursor: i64,
    /// The cursor the segment started from.
    pub initial_cursor: i64,
    /// The high-water mark.
    pub through_poll_id: i64,
    pub candidates_reconciled: usize,
    pub pages_scanned: usize,
    /// A budget (time, pages or candidates) ended the scan early.
    pub bounded: bool,
    /// The scan reached the end of the polls.
    pub exhausted: bool,
}

impl View for ReconciliationScan {
    type V = ScanView;

    closed spec fn view(&self) -> ScanView {
        ScanView {
            cursor: self.cursor,
            initial_cursor: self.initial_cursor,
            through_poll_id: self.through_poll_id,
            candidates_reconciled: self.candidates_reconciled,
            pages_scanned: self.pages_scanned,
            bounded: self.bounded,
            exhausted: self.exhausted,
        }
    }
}

impl ReconciliationScan {
    /// Every scan keeps its budgets, and its cursor only moves forward and never past the
    /// high-water mark.
    #[verifier::type_invariant]
    spec fn scan_invariant(self) -> bool {
        &&& self.pages_scanned <= POLL_EXPIRATION_REPAIR_MAX_PAGES
        &&& self.candidates_reconciled <= POLL_EXPIRATION_REPAIR_MAX_CANDIDATES
        &&& self.initial_cursor <= self.cursor
        &&& (self.cursor == self.initial_cursor || self.cursor <= self.through_poll_id)
    }

    /// Budgets are respected: at most 4 pages and 25 reconciled candidates; the cursor lies
    /// between where the segment started and the high-water mark.
    pub open spec fn within_budget(self) -> bool {
        &&& self@.pages_scanned <= POLL_EXPIRATION_REPAIR_MAX_PAGES
        &&& self@.candidates_reconciled <= POLL_EXPIRATION_REPAIR_MAX_CANDIDATES
        &&& self@.initial_cursor <= self@.cursor
        &&& (self@.cursor == self@.initial_cursor || self@.cursor <= self@.through_poll_id)
    }

    /// A scan from the cursor towards the high-water mark.
    pub fn new(after_poll_id: i64, through_poll_id: i64) -> (scan: ReconciliationScan)
        ensures
            scan.within_budget(),
            scan@.cursor == after_poll_id,
            scan@.initial_cursor == after_poll_id,
            scan@.through_poll_id == through_poll_id,
            scan@.candidates_reconciled == 0,
            scan@.pages_scanned == 0,
            !scan@.bounded,
            !scan@.exhausted,
    {
        ReconciliationScan {
            cursor: after_poll_id,
            initial_cursor: after_poll_id,
            through_poll_id,
            candidates_reconciled: 0,
            pages_scanned: 0,
            bounded: false,
            exhausted: false,
        }
    }

    /// The budgets hold of every scan.
    pub fn budget(&self) -> (kept: bool)
        ensures
            kept,
            self.within_budget(),
    {
        proof {
            use_type_invariant(self);
        }
        true
    }

    /// The last poll the scan passed.
    pub fn cursor(&self) -> (c: i64)
        ensures
            c == self@.cursor,
    {
        self.cursor
    }

    /// Pages read so far.
    pub fn pages_scanned(&self) -> (n: usize)
        ensures
            n == self@.pages_scanned,
    {
        self.pages_scanned
    }

    /// Candidates reconciled so far.
    pub fn candidates_reconciled(&self) -> (n: usize)
        ensures
            n == self@.candidates_reconciled,
    {
        self.candidates_reconciled
    }

    /// Whether another page may be scanned.
    pub fn wants_page(&self) -> (r: bool)
        ensures
            r == (self@.pages_scanned < POLL_EXPIRATION_REPAIR_MAX_PAGES && self@.cursor < self@.through_poll_id),
    {
        self.pages_scanned < POLL_EXPIRATION_REPAIR_MAX_PAGES && self.cursor < self.through_poll_id
    }

    /// The work time or an operation's timeout ran out.
    pub fn out_of_time(&mut self)
        ensures
            final(self)@.bounded,
            final(self)@.cursor == old(self)@.cursor,
            final(self)@.candidates_reconciled == old(self)@.candidates_reconciled,
            final(self)@.pages_scanned == old(self)@.pages_scanned,
            final(self)@.exhausted == old(self)@.exhausted,
            final(self)@.initial_cursor == old(self)@.initial_cursor,
            final(self)@.through_poll_id == old(self)@.through_poll_id,
    {
        proof {
            use_type_invariant(&*self);
        }
        self.bounded = true;
    }

    /// A page of rows was read.
    pub fn page_read(&mut self)
        requires
            old(self)@.pages_scanned < POLL_EXPIRATION_REPAIR_MAX_PAGES,
        ensures
            final(self)@.pages_scanned == old(self)@.pages_scanned + 1,
            final(self)@.cursor == old(self)@.cursor,
            final(self)@.candidates_reconciled == old(self)@.candidates_reconciled,
            final(self)@.bounded == old(self)@.bounded,
            final(self)@.exhausted == old(self)@.exhausted,
            final(self)@.initial_cursor == old(self)@.initial_cursor,
            final(self)@.through_poll_id == old(self)@.through_poll_id,
    {
        proof {
            use_type_invariant(&*self);
        }
        self.pages_scanned = self.pages_scanned + 1;
    }

    /// Decides what to do with the next row, which lies after the cursor and not past the
    /// high-water mark (the page query orders rows by poll ID within that range): a terminal
    /// poll moves the cursor to it; a spent candidate budget stops the scan before it.
    pub fn next_row(&mut self, poll_id: i64, terminal: bool) -> (step: PollExpirationScanStep)
        requires
            old(self)@.cursor < poll_id <= old(self)@.through_poll_id,
        ensures
            step == (if terminal {
                PollExpirationScanStep::AdvanceTerminal
            } else if old(self)@.candidates_reconciled >= POLL_EXPIRATION_REPAIR_MAX_CANDIDATES {
                PollExpirationScanStep::Stop
            } else {
                PollExpirationScanStep::Reconcile
            }),
            final(self)@.cursor == (if step == PollExpirationScanStep::AdvanceTerminal { poll_id } else { old(self)@.cursor }),
            final(self)@.bounded == (old(self)@.bounded || step == PollExpirationScanStep::Stop),
            final(self)@.candidates_reconciled == old(self)@.candidates_reconciled,
            final(self)@.pages_scanned == old(self)@.pages_scanned,
            final(self)@.exhausted == old(self)@.exhausted,
            final(self)@.initial_cursor == old(self)@.initial_cursor,
            final(self)@.through_poll_id == old(self)@.through_poll_id,
    {
        proof {
            use_type_invariant(&*self);
        }
        let step = poll_expiration_scan_step(terminal, self.candidates_reconciled);
        match step {
            PollExpirationScanStep::AdvanceTerminal => {
                self.cursor = poll_id;
            },
            PollExpirationScanStep::Stop => {
                self.bounded = true;
            },
            PollExpirationScanStep::Reconcile => {},
        }
        step
    }

    /// A candidate poll was reconciled: the budget is spent by one and the cursor moves to
    /// it. Reconciled polls therefore come in strictly increasing order, each after the
    /// segment's start and not past the high-water mark, and at most 25 of them.
    pub fn reconciled(&mut self, poll_id: i64)
        requires
            old(self)@.candidates_reconciled < POLL_EXPIRATION_REPAIR_MAX_CANDIDATES,
            old(self)@.cursor < poll_id <= old(self)@.through_poll_id,
        ensures
            final(self)@.candidates_reconciled == old(self)@.candidates_reconciled + 1,
            final(self)@.cursor == poll_id,
            old(self)@.initial_cursor < poll_id,
            final(self)@.pages_scanned == old(self)@.pages_scanned,
            final(self)@.bounded == old(self)@.bounded,
            final(self)@.exhausted == old(self)@.exhausted,
            final(self)@.initial_cursor == old(self)@.initial_cursor,
            final(self)@.through_poll_id == old(self)@.through_poll_id,
    {
        proof {
            use_type_invariant(&*self);
        }
        self.candidates_reconciled = self.candidates_reconciled + 1;
        self.cursor = poll_id;
    }

    /// A page held no rows: the scan is exhausted.
    pub fn empty_page(&mut self)
        ensures
            final(self)@.exhausted,
            final(self)@.cursor == old(self)@.cursor,
            final(self)@.candidates_reconciled == old(self)@.candidates_reconciled,
            final(self)@.pages_scanned == old(self)@.pages_scanned,
            final(self)@.bounded == old(self)@.bounded,
            final(self)@.initial_cursor == old(self)@.initial_cursor,
            final(self)@.through_poll_id == old(self)@.through_poll_id,
    {
        proof {
            use_type_invariant(&*self);
        }
        self.exhausted = true;
    }

    /// All rows of a page were handled. A fallback page always ends the segment: exhausted
    /// when short, bounded when full. A short optimized page exhausts the scan; a full one
    /// lets the scan go on (`true`).
    pub fn page_finished(&mut self, rows: usize, fallback_page: bool) -> (go_on: bool)
        ensures
            go_on == (!fallback_page && rows >= 256),
            final(self)@.exhausted == (old(self)@.exhausted || rows < 256),
            final(self)@.bounded == (old(self)@.bounded || (fallback_page && rows >= 256)),
            final(self)@.cursor == old(self)@.cursor,
            final(self)@.candidates_reconciled == old(self)@.candidates_reconciled,
            final(self)@.pages_scanned == old(self)@.pages_scanned,
            final(self)@.initial_cursor == old(self)@.initial_cursor,
            final(self)@.through_poll_id == old(self)@.through_poll_id,
    {
        proof {
            use_type_invariant(&*self);
        }
        let short_page = rows < 256;
        if fallback_page {
            if short_page {
                self.exhausted = true;
            } else {
                self.bounded = true;
            }
            false
        } else if short_page {
            self.exhausted = true;
            false
        } else {
            true
        }
    }

    /// Whether the segment stopped short of the high-water mark: it was bounded, or it ended
    /// without exhausting the polls.
    pub open spec fn unfinished(self) -> bool {
        (self@.bounded || !self@.exhausted) && self@.cursor < self@.through_poll_id
    }

    /// The end of the segment: nothing more when the scan is complete; a retry without
    /// progress when it stopped where it started; otherwise the next segment from the cursor.
    pub fn finish(&self, request: &ReconciliationRequest) -> (r: Result<Option<JobSpec>, HandlerFailure>)
        ensures
            !self.unfinished() ==> r matches Ok(None),
            self.unfinished() && self@.cursor == self@.initial_cursor ==> (r matches Err(f)
                && f.disposition == FailureDisposition::Retry
                && f.message@ == "poll expiration reconciliation made no cursor progress"@),
            self.unfinished() && self@.cursor != self@.initial_cursor && request.segment < i64::MAX
                ==> (r matches Ok(Some(job)) && is_reconciliation_job(job, request.scan_started_at.micros_spec(),
                Some(self@.through_poll_id), self@.cursor, (request.segment + 1) as i64, request.mode)),
            self.unfinished() && self@.cursor != self@.initial_cursor && request.segment == i64::MAX
                ==> (r matches Err(f) && f.disposition == FailureDisposition::Permanent
                && f.message@ == "poll expiration repair segment overflowed"@),
    {
        let bounded = self.bounded || (!self.exhausted && self.cursor < self.through_poll_id);
        if bounded && self.cursor < self.through_poll_id {
            if self.cursor == self.initial_cursor {
                return Err(poll_expiration_no_progress());
            }
            match poll_expiration_reconciliation_continuation(
                &request.scan_started_at,
                Some(self.through_poll_id),
                self.cursor,
                request.segment,
                request.mode,
            ) {
                Ok(job) => Ok(Some(job)),
                Err(f) => Err(f),
            }
        } else {
            Ok(None)
        }
    }
}

/// The arguments of a segment job determine its singleton key and configure its mode:
/// recomputing the key from the arguments gives the job's key back. Raw segments are
/// continuations (segment other than 0) that carry their high-water mark.
pub proof fn lemma_segment_arguments_determine_key(
    job: JobSpec,
    scan_started_at_micros: i64,
    through_poll_id: Option<i64>,
    after_poll_id: i64,
    segment: i64,
    mode: PollExpirationScanMode,
)
    requires
        is_reconciliation_job(job, scan_started_at_micros, through_poll_id, after_poll_id, segment, mode),
        mode == PollExpirationScanMode::Raw ==> segment != 0 && through_poll_id is Some,
    ensures
        parse_scan_mode_spec(job.arguments, segment) == Ok::<PollExpirationScanMode, Seq<char>>(mode),
        key_from_arguments_spec(job.arguments) == Ok::<Seq<char>, Seq<char>>(
            reconciliation_key(scan_started_at_micros, after_poll_id, segment, mode)),
        opt_string(job.logical_key) == Some(reconciliation_key(scan_started_at_micros, after_poll_id, segment, mode)),
{
    let args = job.arguments;
    assert(json_get(args, "scan_started_at"@) is Some);
    assert(json_i64(json_int(after_poll_id)) == Some(after_poll_id));
    assert(json_i64(json_int(segment)) == Some(segment));
    if mode == PollExpirationScanMode::Raw {
        assert(json_get_i64(args, "through_poll_id"@) == Some(through_poll_id->0));
        assert(json_get_i64(args, "after_poll_id"@) == Some(after_poll_id));
    }
}

/// Segment keys differ whenever mode, segment or cursor differ, for one scan start.
pub proof fn lemma_reconciliation_keys_distinct(
    scan_started_at_micros: i64,
    after1: i64,
    segment1: i64,
    mode1: PollExpirationScanMode,
    after2: i64,
    segment2: i64,
    mode2: PollExpirationScanMode,
)
    requires
        after1 != after2 || segment1 != segment2 || mode1 != mode2,
    ensures
        reconciliation_key(scan_started_at_micros, after1, segment1, mode1)
            != reconciliation_key(scan_started_at_micros, after2, segment2, mode2),
{
    let k1 = reconciliation_key(scan_started_at_micros, after1, segment1, mode1);
    let k2 = reconciliation_key(scan_started_at_micros, after2, segment2, mode2);
    let head = "poll-expiration-reconcile:"@ + int_decimal(scan_started_at_micros as int) + ":"@;
    let r1 = match mode1 {
        PollExpirationScanMode::Optimized => Seq::<char>::empty(),
        PollExpirationScanMode::Raw => "raw:"@,
    };
    let r2 = match mode2 {
        PollExpirationScanMode::Optimized => Seq::<char>::empty(),
        PollExpirationScanMode::Raw => "raw:"@,
    };
    reveal_strlit(":");
    reveal_strlit("raw:");
    let s1 = int_decimal(segment1 as int);
    let s2 = int_decimal(segment2 as int);
    let a1 = int_decimal(after1 as int);
    let a2 = int_decimal(after2 as int);
    lemma_int_decimal_chars(segment1 as int);
    lemma_int_decimal_chars(segment2 as int);
    lemma_int_decimal_chars(after1 as int);
    lemma_int_decimal_chars(after2 as int);
    assert(k1 =~= head + (r1 + (s1 + seq![':'] + a1)));
    assert(k2 =~= head + (r2 + (s2 + seq![':'] + a2)));
    if k1 == k2 {
        let t1 = r1 + (s1 + seq![':'] + a1);
        let t2 = r2 + (s2 + seq![':'] + a2);
        assert(t1 =~= k1.subrange(head.len() as int, k1.len() as int));
        assert(t2 =~= k2.subrange(head.len() as int, k2.len() as int));
        if mode1 != mode2 {
            if mode1 == PollExpirationScanMode::Raw {
                assert(t1[0] == 'r');
                assert(t2[0] == s2[0]);
                assert(is_decimal_char(s2[0]));
            } else {
                assert(t2[0] == 'r');
                assert(t1[0] == s1[0]);
                assert(is_decimal_char(s1[0]));
            }
        } else {
            let u1 = s1 + seq![':'] + a1;
            let u2 = s2 + seq![':'] + a2;
            assert(u1 =~= t1.subrange(r1.len() as int, t1.len() as int));
            assert(u2 =~= t2.subrange(r2.len() as int, t2.len() as int));
            assert forall|i: int| 0 <= i < s1.len() implies #[trigger] s1[i] != ':' by {
                assert(is_decimal_char(s1[i]));
            }
            assert forall|i: int| 0 <= i < s2.len() implies #[trigger] s2[i] != ':' by {
                assert(is_decimal_char(s2[i]));
            }
            lemma_split_at_separator(s1, a1, s2, a2, ':');
            lemma_int_decimal_injective(segment1 as int, segment2 as int);
            lemma_int_decimal_injective(after1 as int, after2 as int);
        }
    }
}

/// A retried segment executes raw, and the continuation of a raw execution is again raw:
/// its arguments configure raw mode and keep the high-water mark.
pub proof fn lemma_retry_fallback_keeps_successors_raw(
    job: JobSpec,
    configured: PollExpirationScanMode,
    attempt: i32,
    scan_started_at_micros: i64,
    through_poll_id: i64,
    after_poll_id: i64,
    segment: i64,
)
    requires
        attempt > 1,
        0 <= segment < i64::MAX,
        is_reconciliation_job(job, scan_started_at_micros, Some(through_poll_id), after_poll_id, (segment + 1) as i64,
            if configured == PollExpirationScanMode::Raw || attempt > 1 {
                PollExpirationScanMode::Raw
            } else {
                PollExpirationScanMode::Optimized
            }),
    ensures
        parse_scan_mode_spec(job.arguments, (segment + 1) as i64) == Ok::<PollExpirationScanMode, Seq<char>>(
            PollExpirationScanMode::Raw),
        json_get_i64(job.arguments, "through_poll_id"@) == Some(through_poll_id),
{
    assert(json_i64(json_int(after_poll_id)) == Some(after_poll_id));
}

/// A segment's request holds a representable start, a non-negative cursor and segment, and
/// runs raw on any retry. On the first attempt its parts determine exactly the key that
/// the arguments determine, so a request and its key never disagree.
pub proof fn lemma_request_agrees_with_key(arguments: JsonValue, attempt: i32)
    ensures
        reconciliation_request_spec(arguments, attempt) matches Ok((micros, after, segment, mode, _)) ==> {
            &&& chrono_micros_in_range(micros as int)
            &&& after >= 0 && segment >= 0
            &&& attempt > 1 ==> mode == PollExpirationScanMode::Raw
            &&& attempt <= 1 ==> key_from_arguments_spec(arguments)
                == Ok::<Seq<char>, Seq<char>>(reconciliation_key(micros, after, segment, mode))
        },
{
}

} // verus!
