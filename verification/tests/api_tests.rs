use ai_barometer::api::{
    extract_error_message, map_http_error, parse_response_payload, revoked, ApiClient, ApiError,
    ApiPublicKey, ExchangeCodeResponse, AUTH_EXCHANGE_PATH, AUTH_PATH, KEYS_PUBLIC_PATH,
};

#[test]
fn url_joins_paths() {
    let client = ApiClient::new("https://api.example.com/", None);
    assert_eq!(
        client.url("/api/keys/public"),
        "https://api.example.com/api/keys/public"
    );
}

#[test]
fn base_url_is_trimmed() {
    assert_eq!(ApiClient::new("  https://h///  ", None).base_url, "https://h");
    assert_eq!(ApiClient::new("https://h", None).base_url, "https://h");
    assert_eq!(ApiClient::new("///", None).base_url, "");
    assert_eq!(ApiClient::new("https://h/ /", None).base_url, "https://h/ ");
    for raw in ["  https://h///  ", "x", "", " / ", "a/b/"] {
        assert_eq!(ApiClient::new(raw, None).base_url, raw.trim().trim_end_matches('/'));
    }
    assert_eq!(KEYS_PUBLIC_PATH, "/api/keys/public");
    assert_eq!(AUTH_PATH, "/api/auth");
    assert_eq!(AUTH_EXCHANGE_PATH, "/api/auth/exchange");
}

#[test]
fn authorization_needs_a_token() {
    let with = ApiClient::new("https://h", Some("t0k".to_string()));
    assert_eq!(with.authorization(), Ok("Bearer t0k".to_string()));
    let without = ApiClient::new("https://h", None);
    assert_eq!(without.authorization(), Err(ApiError::NotAuthenticated));
}

#[test]
fn success_gives_the_body() {
    assert_eq!(map_http_error(200, "200 OK", "{}"), Ok("{}".to_string()));
    assert_eq!(map_http_error(204, "204 No Content", ""), Ok("".to_string()));
    assert_eq!(map_http_error(299, "299", "x"), Ok("x".to_string()));
    assert_eq!(revoked(204, "204 No Content", ""), Ok(()));
}

#[test]
fn failure_is_mapped_by_status() {
    assert_eq!(map_http_error(401, "401 Unauthorized", "x"), Err(ApiError::NotAuthenticated));
    assert_eq!(
        map_http_error(400, "400 Bad Request", "{\"message\": \"no code\"}"),
        Err(ApiError::BadRequest("no code".to_string()))
    );
    assert_eq!(
        map_http_error(404, "404 Not Found", "{\"error\": \"gone\"}"),
        Err(ApiError::NotFound("gone".to_string()))
    );
    assert_eq!(
        map_http_error(500, "500 Internal Server Error", ""),
        Err(ApiError::ServerError("no details provided".to_string()))
    );
    assert_eq!(
        map_http_error(599, "599", " boom "),
        Err(ApiError::ServerError("boom".to_string()))
    );
    assert_eq!(
        map_http_error(300, "300 Multiple Choices", "body"),
        Err(ApiError::Unexpected {
            status: "300 Multiple Choices".to_string(),
            body: "body".to_string()
        })
    );
    assert_eq!(
        map_http_error(199, "199", "b"),
        Err(ApiError::Unexpected {
            status: "199".to_string(),
            body: "b".to_string()
        })
    );
    assert_eq!(revoked(401, "401 Unauthorized", ""), Err(ApiError::NotAuthenticated));
}

#[test]
fn error_messages_read_well() {
    assert_eq!(
        ApiError::NotAuthenticated.message(),
        "Not authenticated. Run `cadence auth login` to sign in."
    );
    assert_eq!(ApiError::BadRequest("d".to_string()).message(), "Bad request: d");
    assert_eq!(ApiError::NotFound("d".to_string()).message(), "Not found: d");
    assert_eq!(ApiError::ServerError("d".to_string()).message(), "Server error: d");
    assert_eq!(
        ApiError::Unexpected {
            status: "418 I'm a teapot".to_string(),
            body: "short and stout".to_string()
        }
        .message(),
        "Unexpected response (HTTP 418 I'm a teapot): short and stout"
    );
}

#[test]
fn error_detail_prefers_message_over_error() {
    assert_eq!(extract_error_message("{\"message\": \"m\", \"error\": \"e\"}"), "m");
    assert_eq!(extract_error_message("{\"error\": \"e\"}"), "e");
    assert_eq!(
        extract_error_message("{\"message\": 5, \"error\": \"e\"}"),
        "{\"message\": 5, \"error\": \"e\"}"
    );
    assert_eq!(extract_error_message(""), "no details provided");
    assert_eq!(extract_error_message("  plain text \n"), "plain text");
    assert_eq!(extract_error_message("   "), "");
}

#[test]
fn long_error_bodies_are_cut() {
    let long = "x".repeat(201);
    assert_eq!(extract_error_message(&long), format!("{}...", "x".repeat(200)));
    let exact = "y".repeat(200);
    assert_eq!(extract_error_message(&exact), exact);
}

#[test]
fn payload_prefers_the_envelope() {
    let direct: Result<u32, String> = Ok(2);
    assert_eq!(parse_response_payload(Some(1), direct), Ok(1));
    let direct: Result<u32, String> = Ok(2);
    assert_eq!(parse_response_payload(None, direct), Ok(2));
    let failed: Result<u32, String> = Err("failed to parse".to_string());
    assert_eq!(parse_response_payload(None, failed), Err("failed to parse".to_string()));
}

#[test]
fn response_types_hold_their_fields() {
    let key = ApiPublicKey {
        fingerprint: "fp".to_string(),
        armored_public_key: "key".to_string(),
        created_at: None,
        rotated_at: None,
        version: Some("1".to_string()),
    };
    assert_eq!(key.clone(), key);
    let response = ExchangeCodeResponse {
        token: "t".to_string(),
        login: Some("me".to_string()),
        expires_at: None,
    };
    assert_eq!(response.clone().token, "t");
}
