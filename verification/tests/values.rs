use rustodon_worker::json::{JsonNumber, JsonValue};
use rustodon_worker::text::{ascii_lowercase, decimal_i64, str_eq};
use rustodon_worker::time::{Timestamp, micros_representable};

#[test]
fn timestamps_write_and_read_rfc3339() {
    let time = Timestamp::from_micros(1_700_000_000_000_001).expect("representable");
    let text = time.to_rfc3339();
    assert_eq!(text, "2023-11-14T22:13:20.000001+00:00");
    assert_eq!(Timestamp::parse(&text).expect("chrono reads its own text").micros(), 1_700_000_000_000_001);
    assert!(Timestamp::parse("not a time").is_none());
    assert!(Timestamp::from_micros(i64::MIN).is_none());
    assert!(micros_representable(0));
    assert!(!micros_representable(i64::MAX));
}

#[test]
fn json_members_are_found_by_their_first_occurrence() {
    let value = JsonValue::Object(vec![
        ("a".to_owned(), JsonValue::Number(JsonNumber::Int(1))),
        ("a".to_owned(), JsonValue::Number(JsonNumber::Int(2))),
        ("b".to_owned(), JsonValue::Number(JsonNumber::Big(u64::MAX))),
        ("c".to_owned(), JsonValue::Number(JsonNumber::Big(5))),
        ("d".to_owned(), JsonValue::text("x")),
    ]);
    assert_eq!(value.member_i64("a"), Some(1));
    assert_eq!(value.member_i64("b"), None);
    assert_eq!(value.member_i64("c"), Some(5));
    assert_eq!(value.member_str("d"), Some("x"));
    assert_eq!(value.member_str("a"), None);
    assert!(value.get("e").is_none());
    assert!(JsonValue::Null.is_null());
    assert!(JsonValue::Array(vec![]).get("a").is_none());
}

#[test]
fn text_helpers_match_std() {
    assert_eq!(decimal_i64(i64::MIN), i64::MIN.to_string());
    assert_eq!(decimal_i64(0), "0");
    assert_eq!(ascii_lowercase("MiXeD Ä"), "mixed Ä");
    assert!(str_eq("héllo", "héllo"));
    assert!(!str_eq("a", "b"));
}

#[test]
fn timestamps_with_signed_years_read_back() {
    for (year, micros_of_second) in [(12345, 7), (-1, 500_000), (0, 0), (262142, 999_999)] {
        let micros = chrono::NaiveDate::from_ymd_opt(year, 6, 1)
            .expect("a date chrono holds")
            .and_hms_micro_opt(3, 4, 5, micros_of_second)
            .expect("a time of day")
            .and_utc()
            .timestamp_micros();
        let time = Timestamp::from_micros(micros).expect("representable");
        let text = time.to_rfc3339();
        assert_eq!(Timestamp::parse(&text).expect("chrono reads its own text").micros(), micros);
    }
}

#[test]
fn a_parsed_leap_second_past_the_last_instant_is_refused() {
    let text = "+262142-12-31T23:59:60Z";
    assert!(text.parse::<chrono::DateTime<chrono::Utc>>().is_ok());
    assert!(Timestamp::parse(text).is_none());
}

#[test]
fn chrono_represents_exactly_its_year_range() {
    assert!(micros_representable(-8_334_601_228_800_000_000));
    assert!(!micros_representable(-8_334_601_228_800_000_001));
    assert!(micros_representable(8_210_266_876_799_999_999));
    assert!(!micros_representable(8_210_266_876_800_000_000));
}
