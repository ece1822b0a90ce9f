use ai_barometer::text::to_decimal;
use ai_barometer::login::{
    auth_url, bytes_to_hex, callback_answer, escape_html, generate_nonce,
    handle_callback_request, http_response, render_callback_html, wait_for_exchange_code, Arrival,
    LoginError, Waiting, POLL_INTERVAL_MILLIS,
};

#[test]
fn nonce_is_32_hex_chars() {
    let nonce = generate_nonce();
    assert_eq!(nonce.len(), 32);
    assert!(nonce.chars().all(|c| c.is_ascii_hexdigit()));
}

#[test]
fn nonces_differ() {
    let first = generate_nonce();
    let second = generate_nonce();
    assert_ne!(first, second);
    assert_ne!(first, "0".repeat(32));
}

#[test]
fn hex_encoder_round_trip_length() {
    let bytes = [0xde, 0xad, 0xbe, 0xef];
    let hex = bytes_to_hex(&bytes);
    assert_eq!(hex, "deadbeef");
}

#[test]
fn hex_encoder_edge_values() {
    assert_eq!(bytes_to_hex(&[]), "");
    assert_eq!(bytes_to_hex(&[0x00, 0x09, 0x0a, 0xff]), "00090aff");
}

#[test]
fn callback_html_success_variant_is_styled() {
    let html = render_callback_html(200, "Authentication complete. You can close this tab.");
    assert!(html.contains("Authentication Complete"));
    assert!(html.contains(">OK<"));
    assert!(html.contains("#10b981"));
    assert!(html.contains("Work Sans"));
    assert!(html.contains("class=\"brand-logo\""));
    assert!(html.contains("fill=\"#4533BB\""));
}

#[test]
fn callback_html_error_variant_is_styled() {
    let html = render_callback_html(400, "State mismatch. Please retry cadence login.");
    assert!(html.contains("Authentication Failed"));
    assert!(html.contains(">ERR<"));
    assert!(html.contains("#ef4444"));
    assert!(html.contains("run cadence login again"));
}

#[test]
fn callback_html_escapes_message_content() {
    let html = render_callback_html(400, "<script>alert('xss')</script>");
    assert!(html.contains("&lt;script&gt;alert(&#39;xss&#39;)&lt;/script&gt;"));
    assert!(!html.contains("<script>alert('xss')</script>"));
}

#[test]
fn callback_html_has_the_whole_frame() {
    let html = render_callback_html(299, "x");
    assert!(html.starts_with("<!doctype html><html lang=\"en\"><head>"));
    assert!(html.ends_with("<p class=\"follow-up\">You can close this tab and return to your terminal.</p></main></div></body></html>"));
    assert!(html.contains("<title>Authentication Complete</title>"));
    assert!(html.contains("color: #10b981;background: rgba(16, 185, 129, 0.14);}"));
    assert!(html.contains("<span class=\"badge\">OK</span><h1>Authentication Complete</h1><p>x</p>"));
    let failed = render_callback_html(300, "x");
    assert!(failed.contains("background: rgba(239, 68, 68, 0.14);"));
    assert!(render_callback_html(199, "x").contains("Authentication Failed"));
}

#[test]
fn escape_html_replaces_the_five() {
    assert_eq!(escape_html("a&b<c>d\"e'f"), "a&amp;b&lt;c&gt;d&quot;e&#39;f");
    assert_eq!(escape_html(""), "");
    assert_eq!(escape_html("plain é"), "plain é");
}

#[test]
fn decimal_text() {
    assert_eq!(to_decimal(0), "0");
    assert_eq!(to_decimal(9), "9");
    assert_eq!(to_decimal(10), "10");
    assert_eq!(to_decimal(8080), "8080");
    assert_eq!(to_decimal(65535), "65535");
}

#[test]
fn auth_url_joins_base_port_and_state() {
    assert_eq!(
        auth_url("https://app.example.com//", 4567, "abc"),
        "https://app.example.com/auth/token?port=4567&state=abc"
    );
    assert_eq!(auth_url("http://h", 1, "n"), "http://h/auth/token?port=1&state=n");
}

#[test]
fn http_response_names_the_length_in_bytes() {
    let response = http_response(200, "OK", "é");
    let html = render_callback_html(200, "é");
    let expected = format!(
        "HTTP/1.1 200 OK\r\nContent-Type: text/html; charset=utf-8\r\nContent-Length: {}\r\nConnection: close\r\n\r\n{}",
        html.len(),
        html
    );
    assert_eq!(response, expected);
}

#[test]
fn callback_with_code_and_state_is_accepted() {
    let outcome =
        handle_callback_request("GET /callback?code=abc%20d&state=s1 HTTP/1.1\r\nHost: x\r\n\r\n", "s1")
            .unwrap();
    assert_eq!(outcome.code, Some("abc d".to_string()));
    let reply = outcome.reply.unwrap();
    assert_eq!(reply.status_code, 200);
    assert_eq!(reply.status_text, "OK");
    assert_eq!(reply.body_text, "Authentication complete. You can close this tab.");
}

#[test]
fn callback_with_wrong_state_is_refused() {
    let outcome = handle_callback_request("GET /callback?code=abc&state=other HTTP/1.1", "s1").unwrap();
    assert_eq!(outcome.code, None);
    let reply = outcome.reply.unwrap();
    assert_eq!(reply.status_code, 400);
    assert_eq!(reply.status_text, "Bad Request");
    assert_eq!(reply.body_text, "State mismatch. Please retry `cadence login`.");
}

#[test]
fn callback_without_code_is_refused() {
    let outcome = handle_callback_request("GET /callback?state=s1 HTTP/1.1", "s1").unwrap();
    assert_eq!(outcome.code, None);
    let reply = outcome.reply.unwrap();
    assert_eq!(reply.status_code, 400);
    assert_eq!(reply.body_text, "Missing exchange code in callback.");
}

#[test]
fn callback_with_other_method_or_path_is_refused() {
    let post = handle_callback_request("POST /callback?code=a&state=s HTTP/1.1", "s").unwrap();
    let reply = post.reply.unwrap();
    assert_eq!(reply.status_code, 405);
    assert_eq!(reply.status_text, "Method Not Allowed");
    assert_eq!(reply.body_text, "Only GET callbacks are supported.");
    let other = handle_callback_request("  GET   /favicon.ico HTTP/1.1", "s").unwrap();
    let reply = other.reply.unwrap();
    assert_eq!(reply.status_code, 404);
    assert_eq!(reply.status_text, "Not Found");
    assert_eq!(reply.body_text, "Not a Cadence callback URL.");
    let blank = handle_callback_request("\r\nGET /callback HTTP/1.1", "s").unwrap();
    assert_eq!(blank.reply.unwrap().status_code, 405);
}

#[test]
fn empty_request_gets_no_answer() {
    let outcome = handle_callback_request("", "s").unwrap();
    assert_eq!(outcome.reply, None);
    assert_eq!(outcome.code, None);
}

#[test]
fn callback_error_has_a_message() {
    assert_eq!(LoginError::BadCallbackUrl.message(), "failed to parse callback URL");
}

#[test]
fn first_pair_of_a_name_counts() {
    let pairs = vec![
        ("state".to_string(), "s".to_string()),
        ("code".to_string(), "one".to_string()),
        ("code".to_string(), "two".to_string()),
    ];
    let outcome = callback_answer(&pairs, "s");
    assert_eq!(outcome.code, Some("one".to_string()));
}

#[test]
fn wait_times_out_at_the_deadline() {
    let arrival = Arrival::Request("GET /callback?code=a&state=s HTTP/1.1".to_string());
    assert_eq!(
        wait_for_exchange_code(true, &arrival, "s"),
        Waiting::Fail(LoginError::TimedOut)
    );
    assert_eq!(
        LoginError::TimedOut.message(),
        "login timed out waiting for browser callback"
    );
}

#[test]
fn wait_sleeps_while_nothing_arrives() {
    assert_eq!(wait_for_exchange_code(false, &Arrival::Nothing, "s"), Waiting::Sleep);
    assert_eq!(POLL_INTERVAL_MILLIS, 50);
    assert_eq!(
        wait_for_exchange_code(false, &Arrival::Failed("reset".to_string()), "s"),
        Waiting::Fail(LoginError::ListenerFailed)
    );
}

#[test]
fn wait_answers_requests() {
    let good = Arrival::Request("GET /callback?code=a&state=s HTTP/1.1".to_string());
    match wait_for_exchange_code(false, &good, "s") {
        Waiting::Answer(callback) => assert_eq!(callback.code, Some("a".to_string())),
        other => panic!("expected an answer, got {:?}", other),
    }
    let stray = Arrival::Request("GET / HTTP/1.1".to_string());
    match wait_for_exchange_code(false, &stray, "s") {
        Waiting::Answer(callback) => {
            assert_eq!(callback.code, None);
            assert_eq!(callback.reply.unwrap().status_code, 404);
        }
        other => panic!("expected an answer, got {:?}", other),
    }
}
