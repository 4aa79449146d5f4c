use chrono::Utc;
use rustodon_worker::failure::FailureDisposition;
use rustodon_worker::json::{JsonNumber, JsonValue};
use rustodon_worker::poll_expiration::{
    PollExpirationScanMode, PollExpirationScanStep, ReconciliationScan, check_high_water,
    check_reconciliation_key, parse_poll_expiration_scan_mode, parse_reconciliation_request,
    poll_expiration_execution_mode, poll_expiration_raw_reconciliation_job,
    poll_expiration_reconciliation_continuation, poll_expiration_reconciliation_job,
    poll_expiration_reconciliation_key_from_arguments, poll_expiration_scan_step, poll_expiration_scan_timed_out,
    poll_expiration_statement_timeout_value,
};
use rustodon_worker::time::Timestamp;

fn s(text: &str) -> JsonValue {
    JsonValue::String(text.to_owned())
}

fn num(i: i64) -> JsonValue {
    JsonValue::Number(JsonNumber::Int(i))
}

fn obj(members: Vec<(&str, JsonValue)>) -> JsonValue {
    JsonValue::Object(members.into_iter().map(|(k, v)| (k.to_owned(), v)).collect())
}

fn now() -> Timestamp {
    Timestamp::from_micros(Utc::now().timestamp_micros()).expect("the current time is representable")
}

#[test]
fn fallback_terminal_prefix_advances_without_spending_candidate_budget() {
    let mut cursor = 0_i64;
    let mut candidates = 0_usize;
    for poll_id in 1_i64..=33 {
        assert_eq!(poll_expiration_scan_step(true, candidates), PollExpirationScanStep::AdvanceTerminal);
        cursor = poll_id;
    }
    assert_eq!(cursor, 33);
    assert_eq!(candidates, 0);

    for poll_id in 34_i64..=58 {
        assert_eq!(poll_expiration_scan_step(false, candidates), PollExpirationScanStep::Reconcile);
        candidates += 1;
        cursor = poll_id;
    }
    assert_eq!(cursor, 58);
    assert_eq!(candidates, 25);
    assert_eq!(poll_expiration_scan_step(false, candidates), PollExpirationScanStep::Stop);
    assert_eq!(cursor, 58, "the unprocessed 26th actionable row remains behind the continuation cursor");
}

#[test]
fn reconciliation_segments_have_distinct_mode_bound_singleton_keys() {
    let started = now();
    let first = poll_expiration_reconciliation_job(&started, Some(42), 7, 0);
    let continuation = poll_expiration_reconciliation_job(&started, Some(42), 7, 1);
    let raw = poll_expiration_raw_reconciliation_job(&started, 42, 7, 1);
    assert_ne!(first.logical_key_value(), continuation.logical_key_value());
    assert_ne!(continuation.logical_key_value(), raw.logical_key_value());
    assert_eq!(first.arguments().member_i64("segment"), Some(0));
    assert_eq!(continuation.arguments().member_i64("segment"), Some(1));
    assert_eq!(raw.arguments().member_i64("segment"), Some(1));
    assert_eq!(raw.arguments().member_str("scan_mode"), Some("raw"));
    assert_eq!(
        raw.logical_key_value(),
        Some(format!("poll-expiration-reconcile:{}:raw:1:7", started.micros()).as_str())
    );
    assert_eq!(
        poll_expiration_reconciliation_key_from_arguments(raw.arguments())
            .expect("raw arguments determine their exact singleton key"),
        raw.logical_key_value().expect("raw job has a key")
    );
    assert_eq!(
        parse_poll_expiration_scan_mode(raw.arguments(), 1).expect("raw continuation shape is valid"),
        PollExpirationScanMode::Raw
    );
    assert!(
        parse_poll_expiration_scan_mode(&obj(vec![("scan_mode", s("raw"))]), 0).is_err(),
        "raw mode is continuation-only"
    );
    assert!(parse_poll_expiration_scan_mode(&obj(vec![("scan_mode", s("unknown"))]), 1).is_err());
    assert!(parse_poll_expiration_scan_mode(&obj(vec![("scan_mode", num(1))]), 1).is_err());
}

#[test]
fn reconciliation_retries_switch_optimized_jobs_to_raw_without_mutating_explicit_mode() {
    assert_eq!(
        poll_expiration_execution_mode(PollExpirationScanMode::Optimized, 1),
        PollExpirationScanMode::Optimized
    );
    assert_eq!(poll_expiration_execution_mode(PollExpirationScanMode::Optimized, 2), PollExpirationScanMode::Raw);
    assert_eq!(poll_expiration_execution_mode(PollExpirationScanMode::Raw, 1), PollExpirationScanMode::Raw);
    assert_eq!(poll_expiration_execution_mode(PollExpirationScanMode::Raw, 7), PollExpirationScanMode::Raw);
}

#[test]
fn progress_after_retry_fallback_keeps_successors_raw() {
    let started = now();
    let initial = poll_expiration_reconciliation_job(&started, Some(100), 0, 0);
    let first_execution = poll_expiration_execution_mode(
        parse_poll_expiration_scan_mode(initial.arguments(), 0)
            .expect("the initial optimized job has valid arguments"),
        2,
    );
    let first_successor =
        poll_expiration_reconciliation_continuation(&started, Some(100), 25, 0, first_execution)
            .expect("the first progress-making successor is valid");
    assert_eq!(first_successor.arguments().member_str("scan_mode"), Some("raw"));
    assert!(first_successor.logical_key_value().is_some_and(|key| key.contains(":raw:1:25")));

    let configured_second = parse_poll_expiration_scan_mode(first_successor.arguments(), 1)
        .expect("the first progress-making successor has valid raw arguments");
    let second_execution = poll_expiration_execution_mode(configured_second, 1);
    let second_successor =
        poll_expiration_reconciliation_continuation(&started, Some(100), 50, 1, second_execution)
            .expect("the second progress-making successor is valid");
    assert_eq!(configured_second, PollExpirationScanMode::Raw);
    assert_eq!(second_successor.arguments().member_str("scan_mode"), Some("raw"));
    assert!(second_successor.logical_key_value().is_some_and(|key| key.contains(":raw:2:50")));
}

#[test]
fn segment_jobs_round_trip_through_their_arguments() {
    let started = Timestamp::from_micros(1_700_000_000_123_456).expect("representable");
    let job = poll_expiration_reconciliation_job(&started, None, 5, 2);
    assert_eq!(job.arguments().member_str("scan_started_at"), Some("2023-11-14T22:13:20.123456+00:00"));
    assert!(job.arguments().get("through_poll_id").is_some_and(|v| v.is_null()));
    assert_eq!(job.max_attempts, None);
    let key = job.logical_key_value().expect("segments have keys");
    assert_eq!(key, "poll-expiration-reconcile:1700000000123456:2:5");
    assert!(check_reconciliation_key(job.arguments(), key).is_ok());
    assert!(check_reconciliation_key(job.arguments(), "poll-expiration-reconcile:0:2:5").is_err());
    let request = parse_reconciliation_request(job.arguments(), 1).expect("valid request");
    assert_eq!(request.scan_started_at.micros(), 1_700_000_000_123_456);
    assert_eq!((request.after_poll_id, request.segment, request.through_poll_id), (5, 2, None));
    assert_eq!(request.mode, PollExpirationScanMode::Optimized);
    let retried = parse_reconciliation_request(job.arguments(), 2).expect("valid retry");
    assert_eq!(retried.mode, PollExpirationScanMode::Raw);
}

#[test]
fn continuations_need_room_and_a_raw_high_water_mark() {
    let started = now();
    let overflow = poll_expiration_reconciliation_continuation(
        &started,
        Some(1),
        0,
        i64::MAX,
        PollExpirationScanMode::Optimized,
    )
    .expect_err("the segment number cannot grow");
    assert_eq!(overflow.disposition, FailureDisposition::Permanent);
    assert_eq!(overflow.message, "poll expiration repair segment overflowed");
    let missing = poll_expiration_reconciliation_continuation(&started, None, 0, 0, PollExpirationScanMode::Raw)
        .expect_err("raw segments carry their high-water mark");
    assert_eq!(missing.message, "raw poll expiration repair high-water mark is missing");
}

#[test]
fn high_water_marks_are_checked_against_the_cursor() {
    assert_eq!(check_high_water(10, 10).ok(), Some(true));
    assert_eq!(check_high_water(11, 10).ok(), Some(false));
    assert_eq!(
        check_high_water(9, 10).expect_err("below the cursor").message,
        "poll expiration repair high-water mark is invalid"
    );
    assert!(check_high_water(-1, -5).is_err());
}

#[test]
fn statement_timeouts_are_written_in_milliseconds() {
    assert_eq!(poll_expiration_statement_timeout_value(2500), "2500ms");
    assert_eq!(poll_expiration_statement_timeout_value(0), "1ms");
}

#[test]
fn a_scan_that_made_progress_continues_from_its_cursor() {
    let started = now();
    let job = poll_expiration_reconciliation_job(&started, Some(100), 0, 0);
    let request = parse_reconciliation_request(job.arguments(), 1).expect("valid request");
    let mut scan = ReconciliationScan::new(0, 100);
    assert!(scan.wants_page());
    scan.page_read();
    assert_eq!(scan.next_row(3, true), PollExpirationScanStep::AdvanceTerminal);
    assert_eq!(scan.next_row(4, false), PollExpirationScanStep::Reconcile);
    scan.reconciled(4);
    scan.out_of_time();
    let next = scan.finish(&request).expect("progress was made").expect("the scan is unfinished");
    assert_eq!(next.arguments().member_i64("after_poll_id"), Some(4));
    assert_eq!(next.arguments().member_i64("segment"), Some(1));
    assert_eq!(next.arguments().member_i64("through_poll_id"), Some(100));
}

#[test]
fn a_scan_without_progress_is_retried_and_an_exhausted_one_ends() {
    let started = now();
    let job = poll_expiration_reconciliation_job(&started, Some(100), 0, 0);
    let request = parse_reconciliation_request(job.arguments(), 1).expect("valid request");
    let mut stuck = ReconciliationScan::new(0, 100);
    stuck.out_of_time();
    let failure = stuck.finish(&request).expect_err("no progress");
    assert_eq!(failure.disposition, FailureDisposition::Retry);
    assert_eq!(failure.message, "poll expiration reconciliation made no cursor progress");

    let mut done = ReconciliationScan::new(0, 100);
    done.page_read();
    assert!(!done.page_finished(10, false));
    assert!(done.finish(&request).expect("complete").is_none());
}

#[test]
fn an_empty_page_exhausts_the_scan() {
    let started = now();
    let job = poll_expiration_reconciliation_job(&started, Some(100), 0, 0);
    let request = parse_reconciliation_request(job.arguments(), 1).expect("valid request");
    let mut scan = ReconciliationScan::new(0, 100);
    scan.page_read();
    scan.empty_page();
    assert!(scan.finish(&request).expect("an exhausted scan is complete").is_none());
}

#[test]
fn only_a_cancelled_statement_counts_as_a_scan_timeout() {
    assert!(poll_expiration_scan_timed_out(Some("57014")));
    assert!(!poll_expiration_scan_timed_out(Some("40001")));
    assert!(!poll_expiration_scan_timed_out(None));
}

#[test]
fn a_segment_key_is_recomputed_from_any_start_chrono_reads() {
    let arguments = JsonValue::Object(vec![
        ("scan_started_at".to_owned(), s("+262142-12-31T23:59:60Z")),
        ("after_poll_id".to_owned(), JsonValue::Number(JsonNumber::Int(5))),
        ("segment".to_owned(), JsonValue::Number(JsonNumber::Int(1))),
    ]);
    let micros = "+262142-12-31T23:59:60Z".parse::<chrono::DateTime<Utc>>().expect("chrono reads it").timestamp_micros();
    assert_eq!(
        poll_expiration_reconciliation_key_from_arguments(&arguments).expect("a key"),
        format!("poll-expiration-reconcile:{micros}:1:5")
    );
    let failure = parse_reconciliation_request(&arguments, 1).expect_err("the start is not representable");
    assert_eq!(failure.message, "poll expiration repair start is invalid");
}
