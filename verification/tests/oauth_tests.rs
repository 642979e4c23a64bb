use potracker_core::api::{failure_message, handle_response};
use potracker_core::codes::{confirmation_code_from, generate_confirmation_code};
use potracker_core::numfmt::u64_to_string;
use potracker_core::oauth::{
    bind_address, extract_code, get_google_auth_url, redirect_uri_for_port, start_oauth_flow,
};
use potracker_core::urlenc::encode;

#[test]
fn encode_keeps_unreserved_characters() {
    assert_eq!(encode("AZaz09-_.~"), "AZaz09-_.~");
}

#[test]
fn encode_escapes_space_and_punctuation() {
    assert_eq!(encode("hello world"), "hello%20world");
    assert_eq!(encode("a/b:c?d=e&f"), "a%2Fb%3Ac%3Fd%3De%26f");
}

#[test]
fn encode_escapes_low_byte_of_non_ascii() {
    // U+00E9 has low byte 0xE9.
    assert_eq!(encode("\u{e9}"), "%E9");
}

#[test]
fn encode_of_empty_is_empty() {
    assert_eq!(encode(""), "");
}

#[test]
fn decimal_rendering_is_exact() {
    assert_eq!(u64_to_string(0), "0");
    assert_eq!(u64_to_string(7), "7");
    assert_eq!(u64_to_string(8080), "8080");
    assert_eq!(u64_to_string(1234567890), "1234567890");
}

#[test]
fn redirect_uri_and_bind_address_embed_the_port() {
    assert_eq!(redirect_uri_for_port(8080), "http://localhost:8080/callback");
    assert_eq!(redirect_uri_for_port(8083), "http://localhost:8083/callback");
    assert_eq!(bind_address(8080), "127.0.0.1:8080");
    assert_eq!(bind_address(8090), "127.0.0.1:8090");
}

#[test]
fn auth_url_embeds_encoded_redirect_uri() {
    let url = get_google_auth_url("my-client", "http://localhost:8080/callback");
    assert!(url.starts_with(
        "https://accounts.google.com/o/oauth2/v2/auth?client_id=my-client&redirect_uri=http%3A%2F%2Flocalhost%3A8080%2Fcallback&response_type=code&scope="
    ));
    assert!(url.ends_with("&access_type=offline&prompt=consent"));
    assert!(url.contains("https%3A%2F%2Fwww.googleapis.com%2Fauth%2Fgmail.send"));
}

#[test]
fn flow_picks_the_first_free_port() {
    let plan = start_oauth_flow("cid", &vec![true; 11]).unwrap();
    assert_eq!(plan.port, 8080);
    assert_eq!(plan.redirect_uri, "http://localhost:8080/callback");
    assert!(plan.auth_url.contains("http%3A%2F%2Flocalhost%3A8080%2Fcallback"));

    let free = vec![false, false, true, false, true, false, false, false, false, false, false];
    let plan = start_oauth_flow("cid", &free).unwrap();
    assert_eq!(plan.port, 8082);
    assert_eq!(plan.redirect_uri, "http://localhost:8082/callback");
    assert!(plan.auth_url.contains("http%3A%2F%2Flocalhost%3A8082%2Fcallback"));
    assert_eq!(plan.redirect_uri, redirect_uri_for_port(plan.port));
    assert_eq!(bind_address(plan.port), "127.0.0.1:8082");
}

#[test]
fn flow_reports_no_free_port() {
    let r = start_oauth_flow("cid", &vec![false; 11]);
    assert_eq!(r.unwrap_err(), "Could not find an available port for OAuth callback");
}

#[test]
fn extract_code_with_following_parameters() {
    let url = "/callback?session=1&code=ABC&state=xyz";
    assert_eq!(extract_code(url).unwrap(), "ABC");
}

#[test]
fn extract_code_as_last_parameter() {
    assert_eq!(extract_code("/callback?state=xyz&code=ABC").unwrap(), "ABC");
    assert_eq!(extract_code("/callback?code=4/0Axyz-987").unwrap(), "4/0Axyz-987");
}

#[test]
fn extract_code_missing_reports_missing_code() {
    let r = extract_code("/callback?error=access_denied&state=xyz");
    assert_eq!(r.unwrap_err(), "No authorization code found in callback");
}

#[test]
fn extract_code_of_empty_url_reports_missing_code() {
    assert_eq!(
        extract_code("").unwrap_err(),
        "No authorization code found in callback"
    );
}

#[test]
fn failure_message_carries_the_body() {
    assert_eq!(
        failure_message("Token exchange failed", "invalid_grant"),
        "Token exchange failed: invalid_grant"
    );
}

#[test]
fn success_statuses_pass_the_body_through() {
    assert_eq!(
        handle_response(200, "{\"ok\":true}".to_string(), "Failed to get user info").unwrap(),
        "{\"ok\":true}"
    );
    assert_eq!(
        handle_response(204, "".to_string(), "Failed to get user info").unwrap(),
        ""
    );
}

#[test]
fn client_and_server_errors_carry_the_body() {
    let e = handle_response(404, "not found".to_string(), "Failed to get responses").unwrap_err();
    assert_eq!(e, "Failed to get responses: not found");
    assert!(e.contains("not found"));
    let e = handle_response(500, "boom".to_string(), "Gmail API error").unwrap_err();
    assert_eq!(e, "Gmail API error: boom");
    assert!(e.contains("boom"));
}

#[test]
fn confirmation_code_uppercases_first_eight() {
    assert_eq!(confirmation_code_from("abc-def-xyz"), "ABC-DEF-");
    assert_eq!(confirmation_code_from("ab"), "AB");
    assert_eq!(confirmation_code_from(""), "");
}

#[test]
fn generated_confirmation_code_shape() {
    let code = generate_confirmation_code();
    assert_eq!(code.len(), 8);
    for c in code.chars() {
        assert!(c.is_ascii_digit() || ('A'..='F').contains(&c) || c == '-');
    }
}
