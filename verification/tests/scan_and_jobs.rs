use rustodon_worker::json::{JsonNumber, JsonValue};
use rustodon_worker::poll_expiration::{
    PollExpirationScanMode, PollExpirationScanStep, ReconciliationScan, parse_reconciliation_request,
    poll_expiration_reconciliation_continuation, poll_expiration_reconciliation_job_with_mode,
};
use rustodon_worker::quote::{QuoteDeliveryKind, quote_delivery_request};
use rustodon_worker::registry::Lane;
use rustodon_worker::routes::maintenance_prune_job;
use rustodon_worker::time::Timestamp;

fn s(text: &str) -> JsonValue {
    JsonValue::String(text.to_owned())
}

fn obj(members: Vec<(&str, JsonValue)>) -> JsonValue {
    JsonValue::Object(members.into_iter().map(|(k, v)| (k.to_owned(), v)).collect())
}

fn keys(value: &JsonValue) -> Vec<String> {
    match value {
        JsonValue::Object(members) => members.iter().map(|(k, _)| k.clone()).collect(),
        _ => Vec::new(),
    }
}

#[test]
fn the_prune_job_is_keyed_by_the_minute() {
    let job = maintenance_prune_job(1_700_000_123);
    assert_eq!(job.lane, Lane::Maintenance);
    assert_eq!(job.kind, "rustodon.maintenance.prune");
    assert_eq!(job.logical_key_value(), Some("maintenance:28333335"));
    assert_eq!(job.arguments().member_i64("minute"), Some(28_333_335));
    assert_eq!(maintenance_prune_job(-61).logical_key_value(), Some("maintenance:-1"));
}

#[test]
fn a_continuation_is_the_segment_job_for_the_next_segment() {
    let started = Timestamp::from_micros(1_700_000_000_000_000).expect("representable");
    let next = poll_expiration_reconciliation_continuation(&started, Some(90), 40, 2, PollExpirationScanMode::Raw)
        .expect("continuation");
    let built = poll_expiration_reconciliation_job_with_mode(&started, Some(90), 40, 3, PollExpirationScanMode::Raw);
    assert_eq!(keys(next.arguments()), vec!["scan_started_at", "through_poll_id", "after_poll_id", "segment", "scan_mode"]);
    assert_eq!(keys(next.arguments()), keys(built.arguments()));
    assert_eq!(next.logical_key_value(), built.logical_key_value());
    assert_eq!(next.arguments().member_i64("segment"), Some(3));
}

#[test]
fn a_scan_moves_forward_within_its_budget() {
    let started = Timestamp::from_micros(1_700_000_000_000_000).expect("representable");
    let job = poll_expiration_reconciliation_job_with_mode(&started, Some(1000), 10, 0, PollExpirationScanMode::Optimized);
    let request = parse_reconciliation_request(job.arguments(), 1).expect("request");
    let mut scan = ReconciliationScan::new(10, 1000);
    let mut last = scan.cursor();
    let mut reconciled = Vec::new();
    while scan.wants_page() {
        scan.page_read();
        for offset in 1..=256i64 {
            let poll_id = last + offset;
            if poll_id > 1000 {
                break;
            }
            match scan.next_row(poll_id, offset % 3 == 0) {
                PollExpirationScanStep::AdvanceTerminal => {}
                PollExpirationScanStep::Stop => break,
                PollExpirationScanStep::Reconcile => {
                    scan.reconciled(poll_id);
                    reconciled.push(poll_id);
                }
            }
        }
        last = scan.cursor();
        if !scan.page_finished(256, false) {
            break;
        }
    }
    assert!(scan.budget());
    assert_eq!(reconciled.len(), 25);
    assert!(reconciled.windows(2).all(|w| w[0] < w[1]));
    assert!(reconciled.iter().all(|id| *id > 10 && *id <= 1000));
    assert!(scan.pages_scanned() <= 4);
    let next = scan.finish(&request).expect("progress").expect("unfinished");
    assert_eq!(next.arguments().member_i64("after_poll_id"), Some(scan.cursor()));
}

#[test]
fn a_quote_delivery_body_names_its_request() {
    let request = obj(vec![
        ("type", s("QuoteRequest")),
        ("actor", s("https://local.example/users/a")),
        ("object", s("https://remote.example/notes/1")),
        ("instrument", obj(vec![("id", s("https://local.example/statuses/2"))])),
    ]);
    assert_eq!(
        quote_delivery_request(QuoteDeliveryKind::Request, &request, "https://local.example/users/a"),
        Some(("https://local.example/users/a", "https://remote.example/notes/1", "https://local.example/statuses/2"))
    );
    assert_eq!(quote_delivery_request(QuoteDeliveryKind::Request, &request, "https://local.example/users/b"), None);
    let accept = obj(vec![("actor", s("https://local.example/users/c")), ("object", request)]);
    assert_eq!(
        quote_delivery_request(QuoteDeliveryKind::Accept, &accept, "https://local.example/users/c").map(|r| r.0),
        Some("https://local.example/users/a")
    );
    let empty = obj(vec![("actor", s("https://local.example/users/c")), ("object", obj(vec![("actor", s(""))]))]);
    assert_eq!(quote_delivery_request(QuoteDeliveryKind::Reject, &empty, "https://local.example/users/c"), None);
    let _ = JsonNumber::Int(0);
}
