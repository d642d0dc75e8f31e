use omglol::client::interpret_response;
use omglol::email::format_addresses_string;
use omglol::json::escape_json;
use omglol::structures::{ContentAsJSON, MessageResponse, Paste, Status, StatuslogBio, Web};

#[test]
fn escape_plain_text_is_unchanged() {
    assert_eq!(escape_json("hello world"), "hello world");
}

#[test]
fn escape_quotes_and_backslashes() {
    assert_eq!(escape_json("say \"hi\" \\ there"), "say \\\"hi\\\" \\\\ there");
}

#[test]
fn escape_named_controls() {
    assert_eq!(escape_json("a\nb\tc\rd"), "a\\nb\\tc\\rd");
    assert_eq!(escape_json("\u{8}\u{c}"), "\\b\\f");
}

#[test]
fn escape_other_controls_as_hex() {
    assert_eq!(escape_json("\u{1}\u{1f}"), "\\u0001\\u001f");
}

#[test]
fn escape_keeps_non_ascii() {
    assert_eq!(escape_json("héllo ✨"), "héllo ✨");
}

#[test]
fn status_body_with_external_url() {
    let s = Status::new(
        "✨".to_string(),
        "shining".to_string(),
        Some("https://example.net".to_string()),
    );
    assert_eq!(
        s.to_json_string(),
        "{\"emoji\":\"✨\",\"content\":\"shining\",\"external_url\":\"https://example.net\"}"
    );
}

#[test]
fn status_body_without_external_url() {
    let s = Status::new("x".to_string(), "a \"quoted\" word".to_string(), None);
    assert_eq!(
        s.to_json_string(),
        "{\"emoji\":\"x\",\"content\":\"a \\\"quoted\\\" word\",\"external_url\":null}"
    );
}

#[test]
fn status_new_leaves_server_fields_empty() {
    let s = Status::new("e".to_string(), "c".to_string(), None);
    assert_eq!(s.id, "");
    assert_eq!(s.address, "");
    assert_eq!(s.created, "");
    assert_eq!(s.relative_time, "");
}

#[test]
fn paste_body_is_title_and_content() {
    let p = Paste::new("notes".to_string(), "line one\nline two".to_string());
    assert_eq!(p.modified_on, None);
    assert_eq!(
        p.to_json_string(),
        "{\"title\":\"notes\",\"content\":\"line one\\nline two\"}"
    );
}

#[test]
fn web_body_is_content_only() {
    let w = Web::new("# My page".to_string());
    assert_eq!(w.message, " ");
    assert_eq!(w.verified, None);
    assert_eq!(w.pfp, None);
    assert_eq!(w.to_json_string(), "{\"content\":\"# My page\"}");
}

#[test]
fn string_content_as_json() {
    let s = "some words".to_string();
    assert_eq!(s.json_content(), "{\"content\": \"some words\"}");
}

#[test]
fn statuslog_bio_content_uses_message_field() {
    let b = StatuslogBio::new("my bio".to_string());
    assert_eq!(b.bio, "my bio");
    assert_eq!(b.css, "");
    // the update body carries the message field, which `new` leaves empty
    assert_eq!(b.json_content(), "{\"content\": \"\"}");
}

#[test]
fn escaped_text_parses_back_unchanged() {
    let original = "line\n \"quote\" \\slash \u{1} é ✨";
    let body = format!(
        "{{\"request\":{{\"status_code\":200,\"success\":true}},\"response\":{{\"message\":\"{}\"}}}}",
        escape_json(original)
    );
    let env = interpret_response::<MessageResponse>(200, &body).unwrap();
    assert_eq!(env.response.message, original);
}

#[test]
fn forwarding_two_addresses() {
    let addrs = vec!["a@example.net".to_string(), "b@example.net".to_string()];
    assert_eq!(
        format_addresses_string(&addrs),
        "{\"destination\": \"a@example.net, b@example.net\"}"
    );
}

#[test]
fn forwarding_single_address() {
    let addrs = vec!["solo@example.net".to_string()];
    assert_eq!(
        format_addresses_string(&addrs),
        "{\"destination\": \"solo@example.net\"}"
    );
}

#[test]
fn forwarding_three_addresses() {
    let addrs = vec!["a@x.net".to_string(), "b@x.net".to_string(), "c@x.net".to_string()];
    assert_eq!(
        format_addresses_string(&addrs),
        "{\"destination\": \"a@x.net, b@x.net, c@x.net\"}"
    );
}
