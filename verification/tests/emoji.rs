use rustodon_worker::emoji::{emoji_content_type, emoji_row_current, parse_emoji_fetch_request};
use rustodon_worker::json::{JsonNumber, JsonValue};

fn obj(members: Vec<(&str, JsonValue)>) -> JsonValue {
    JsonValue::Object(members.into_iter().map(|(k, v)| (k.to_owned(), v)).collect())
}

fn s(text: &str) -> JsonValue {
    JsonValue::String(text.to_owned())
}

#[test]
fn emoji_fetch_arguments_are_read_or_refused() {
    let arguments = obj(vec![
        ("emoji_id", JsonValue::Number(JsonNumber::Int(7))),
        ("remote_url", s("https://img.example/e/blob.png")),
        ("domain", s("remote.example")),
        ("media_type", JsonValue::Null),
    ]);
    let request = parse_emoji_fetch_request(&arguments).expect("valid");
    assert_eq!(request.emoji_id, 7);
    assert_eq!(request.media_type, None);
    assert!(emoji_row_current("remote.example", "https://img.example/e/blob.png", &request));
    assert!(!emoji_row_current("other.example", "https://img.example/e/blob.png", &request));
    assert_eq!(
        parse_emoji_fetch_request(&obj(vec![("remote_url", s("u"))])).expect_err("no id").message,
        "emoji fetch job has no emoji ID"
    );
    let bad_type = obj(vec![
        ("emoji_id", JsonValue::Number(JsonNumber::Int(7))),
        ("remote_url", s("u")),
        ("domain", s("d")),
        ("media_type", JsonValue::Number(JsonNumber::Int(1))),
    ]);
    assert_eq!(parse_emoji_fetch_request(&bad_type).expect_err("bad type").message, "emoji media type is invalid");
}

#[test]
fn emoji_content_types_are_normalised_and_checked() {
    assert_eq!(emoji_content_type(Some(" Image/PNG ; charset=binary"), None).expect("png"), "image/png");
    assert_eq!(emoji_content_type(Some("image/webp"), Some("IMAGE/WEBP")).expect("webp"), "image/webp");
    assert_eq!(
        emoji_content_type(Some("image/jpeg"), None).expect_err("jpeg").message,
        "remote emoji content type is invalid"
    );
    assert_eq!(emoji_content_type(None, None).expect_err("none").message, "remote emoji content type is invalid");
    assert_eq!(
        emoji_content_type(Some("image/gif"), Some("image/png")).expect_err("mismatch").message,
        "remote emoji content type does not match its metadata"
    );
}

#[test]
fn an_emoji_url_that_does_not_parse_is_refused() {
    let arguments = obj(vec![
        ("emoji_id", JsonValue::Number(JsonNumber::Int(7))),
        ("remote_url", s("not a url")),
        ("domain", s("remote.example")),
    ]);
    let failure = parse_emoji_fetch_request(&arguments).expect_err("invalid URL");
    assert_eq!(failure.message, "emoji fetch URL is invalid");
    let good = obj(vec![
        ("emoji_id", JsonValue::Number(JsonNumber::Int(7))),
        ("remote_url", s("https://img.example:8443/e/blob.png")),
        ("domain", s("remote.example")),
    ]);
    let request = parse_emoji_fetch_request(&good).expect("valid");
    assert_eq!(request.url.host.as_deref(), Some("img.example"));
    assert_eq!(request.url.port, Some(8443));
}
