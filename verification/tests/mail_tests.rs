use base64::Engine;
use potracker_core::gmail::gmail_send_body;
use potracker_core::mail::{
    build_mime_message, effective_from_name, format_mailbox, parse_mime_message,
};
use potracker_core::token::{exchange_code_body, refresh_token_body, token_endpoint, userinfo_endpoint};

#[test]
fn mailbox_format_is_exact() {
    assert_eq!(format_mailbox("Alice", "alice@example.com"), "Alice <alice@example.com>");
    assert_eq!(format_mailbox("", "a@b"), " <a@b>");
}

#[test]
fn from_name_defaults_to_application_name() {
    assert_eq!(effective_from_name(&None), "POTracker");
    assert_eq!(effective_from_name(&Some("Shop".to_string())), "Shop");
}

#[test]
fn built_message_is_exact() {
    let raw = build_mime_message(
        "Alice",
        "alice@example.com",
        "Bob",
        "bob@example.com",
        "Your invoice",
        "<p>Hi</p>",
    );
    assert_eq!(
        raw,
        "From: Alice <alice@example.com>\r\nTo: Bob <bob@example.com>\r\nSubject: Your invoice\r\nMIME-Version: 1.0\r\nContent-Type: text/html; charset=utf-8\r\n\r\n<p>Hi</p>"
    );
}

#[test]
fn message_round_trip_recovers_fields() {
    let raw = build_mime_message(
        "Alice Smith",
        "alice@example.com",
        "Bob Jones",
        "bob@example.com",
        "Order #42",
        "<html><body>Total: $3.50 &amp; thanks</body></html>",
    );
    let m = parse_mime_message(&raw).unwrap();
    assert_eq!(m.from_name, "Alice Smith");
    assert_eq!(m.from_email, "alice@example.com");
    assert_eq!(m.to_name, "Bob Jones");
    assert_eq!(m.to_email, "bob@example.com");
    assert_eq!(m.subject, "Order #42");
    assert_eq!(m.html_body, "<html><body>Total: $3.50 &amp; thanks</body></html>");
}

#[test]
fn message_round_trip_with_empty_fields() {
    let raw = build_mime_message("", "a@b", "", "c@d", "", "");
    let m = parse_mime_message(&raw).unwrap();
    assert_eq!(m.from_name, "");
    assert_eq!(m.from_email, "a@b");
    assert_eq!(m.to_name, "");
    assert_eq!(m.to_email, "c@d");
    assert_eq!(m.subject, "");
    assert_eq!(m.html_body, "");
}

#[test]
fn message_round_trip_with_body_containing_headers() {
    let raw = build_mime_message(
        "A",
        "a@b",
        "B",
        "b@c",
        "s",
        "From: X <x@y>\r\nSubject: fake\r\n\r\nbody",
    );
    let m = parse_mime_message(&raw).unwrap();
    assert_eq!(m.html_body, "From: X <x@y>\r\nSubject: fake\r\n\r\nbody");
}

#[test]
fn parse_rejects_non_message_text() {
    assert!(parse_mime_message("not a mail message").is_none());
    assert!(parse_mime_message("").is_none());
}

#[test]
fn gmail_body_wraps_the_unpadded_base64url_encoding() {
    assert_eq!(gmail_send_body("ab"), "{\"raw\":\"YWI\"}");
    let msg = build_mime_message("A", "a@b", "B", "b@c", "s", "<p>x</p>");
    let expected = base64::engine::general_purpose::URL_SAFE_NO_PAD.encode(msg.as_bytes());
    assert_eq!(gmail_send_body(&msg), format!("{{\"raw\":\"{}\"}}", expected));
}

#[test]
fn token_grant_bodies_are_exact() {
    assert_eq!(
        exchange_code_body("4/0Acode", "id 1", "sec:ret", "http://localhost:8080/callback"),
        "code=4%2F0Acode&client_id=id%201&client_secret=sec%3Aret&redirect_uri=http%3A%2F%2Flocalhost%3A8080%2Fcallback&grant_type=authorization_code"
    );
    assert_eq!(
        refresh_token_body("1//refresh", "cid", "secret"),
        "refresh_token=1%2F%2Frefresh&client_id=cid&client_secret=secret&grant_type=refresh_token"
    );
}

#[test]
fn fixed_endpoints_are_exact() {
    assert_eq!(token_endpoint(), "https://oauth2.googleapis.com/token");
    assert_eq!(userinfo_endpoint(), "https://www.googleapis.com/oauth2/v2/userinfo");
}
