use callback_server::callback::log_callback;
use callback_server::json::json_escape;
use callback_server::responses::{hello, health_check, CallbackResponse, HealthResponse};
use callback_server::routing::{route_of, response_status, Dispatch};
use callback_server::text::str_eq;
use callback_server::version;

#[test]
fn greeting_body_is_exact() {
    let r = hello();
    assert_eq!(r.message, "hi mom");
    assert_eq!(r.to_json(), "{\"message\":\"hi mom\"}");
}

#[test]
fn greeting_is_stable_over_many_calls() {
    for _ in 0..100 {
        let r = hello();
        assert_eq!(r.to_json(), "{\"message\":\"hi mom\"}");
    }
}

#[test]
fn health_fields_are_fixed_and_version_nonempty() {
    let r = health_check();
    assert_eq!(r.status, "healthy");
    assert_eq!(r.version, version());
    assert!(!r.version.is_empty());
}

#[test]
fn health_timestamp_parses_as_rfc3339_near_now() {
    let r = health_check();
    let parsed = chrono::DateTime::parse_from_rfc3339(&r.timestamp)
        .expect("health timestamp must be RFC 3339");
    let delta = chrono::Utc::now().signed_duration_since(parsed.with_timezone(&chrono::Utc));
    assert!(delta.num_seconds().abs() < 60);
    assert!(r.timestamp.len() >= 25);
    assert!(r.timestamp.contains('T'));
    assert!(r.timestamp.ends_with("+00:00"));
}

#[test]
fn health_body_embeds_the_timestamp_raw() {
    let r = health_check();
    assert_eq!(
        r.to_json(),
        format!(
            "{{\"status\":\"healthy\",\"timestamp\":\"{}\",\"version\":\"{}\"}}",
            r.timestamp, r.version
        )
    );
}

#[test]
fn callback_timestamp_parses_as_rfc3339_and_embeds_raw() {
    let headers: Vec<(String, String)> = Vec::new();
    let body: Vec<u8> = Vec::new();
    let (_, response) = log_callback("GET", &headers, "1.2.3.4", &body);
    let parsed = chrono::DateTime::parse_from_rfc3339(&response.timestamp)
        .expect("callback timestamp must be RFC 3339");
    let delta = chrono::Utc::now().signed_duration_since(parsed.with_timezone(&chrono::Utc));
    assert!(delta.num_seconds().abs() < 60);
    assert!(response.timestamp.len() >= 25);
    assert!(response.timestamp.contains('T'));
    assert!(response.timestamp.ends_with("+00:00"));
    assert_eq!(
        response.to_json(),
        format!(
            "{{\"status\":\"success\",\"message\":\"callback received\",\"timestamp\":\"{}\"}}",
            response.timestamp
        )
    );
}

#[test]
fn health_body_renders_all_three_fields() {
    let r = HealthResponse {
        status: String::from("healthy"),
        timestamp: String::from("2020-01-02T03:04:05+00:00"),
        version: String::from("0.1.0"),
    };
    assert_eq!(
        r.to_json(),
        "{\"status\":\"healthy\",\"timestamp\":\"2020-01-02T03:04:05+00:00\",\"version\":\"0.1.0\"}"
    );
}

#[test]
fn callback_body_is_exact_template() {
    let r = CallbackResponse {
        status: String::from("success"),
        message: String::from("callback received"),
        timestamp: String::from("1996-12-19T16:39:57-08:00"),
    };
    assert_eq!(
        r.to_json(),
        "{\"status\":\"success\",\"message\":\"callback received\",\"timestamp\":\"1996-12-19T16:39:57-08:00\"}"
    );
}

#[test]
fn json_escape_keeps_plain_text() {
    assert_eq!(json_escape("hi mom"), "hi mom");
    assert_eq!(json_escape(""), "");
}

#[test]
fn json_escape_rewrites_quotes_backslashes_and_controls() {
    assert_eq!(json_escape("he\"ll\\o"), "he\\\"ll\\\\o");
    assert_eq!(json_escape("a\nb"), "a\\u000Ab");
    assert_eq!(json_escape("\u{1f}"), "\\u001F");
}

#[test]
fn str_eq_matches_string_equality() {
    assert!(str_eq("GET", "GET"));
    assert!(!str_eq("GET", "PUT"));
    assert!(!str_eq("GET", "GE"));
    assert!(str_eq("", ""));
}

#[test]
fn routing_matches_the_three_paths() {
    assert_eq!(route_of("/", "GET"), Dispatch::Hello);
    assert_eq!(route_of("/health", "GET"), Dispatch::Health);
    assert_eq!(route_of("/callback", "GET"), Dispatch::Callback);
    assert_eq!(route_of("/callback", "POST"), Dispatch::Callback);
    assert_eq!(route_of("/callback", "DELETE"), Dispatch::Callback);
}

#[test]
fn routing_refuses_unknown_paths_and_wrong_methods() {
    assert_eq!(route_of("/nonexistent", "GET"), Dispatch::NotFound);
    assert_eq!(route_of("", "GET"), Dispatch::NotFound);
    assert_eq!(route_of("/", "POST"), Dispatch::MethodNotAllowed);
    assert_eq!(route_of("/health", "DELETE"), Dispatch::MethodNotAllowed);
}

#[test]
fn status_codes_follow_dispatch() {
    assert_eq!(response_status(Dispatch::Hello), 200);
    assert_eq!(response_status(Dispatch::Health), 200);
    assert_eq!(response_status(Dispatch::Callback), 200);
    assert_eq!(response_status(Dispatch::NotFound), 404);
    assert_eq!(response_status(Dispatch::MethodNotAllowed), 405);
}

#[test]
fn callback_logs_method_ip_header_and_body_in_order() {
    let headers = vec![(String::from("x-test"), String::from("abc"))];
    let body: Vec<u8> = b"hello".to_vec();
    let (lines, response) = log_callback("POST", &headers, "1.2.3.4", &body);
    assert_eq!(response.status, "success");
    assert_eq!(response.message, "callback received");
    let log = lines.join("\n");
    let method_at = log.find("POST").expect("method must be logged");
    let ip_at = log.find("1.2.3.4").expect("source ip must be logged");
    let value_at = log.find("abc").expect("header value must be logged");
    let body_at = log.find("hello").expect("body must be logged");
    assert!(method_at < ip_at);
    assert!(ip_at < value_at);
    assert!(value_at < body_at);
}

#[test]
fn callback_log_lines_have_the_fixed_shape() {
    let headers = vec![(String::from("x-test"), String::from("abc"))];
    let body: Vec<u8> = b"hello".to_vec();
    let (lines, _) = log_callback("PUT", &headers, "10.0.0.1", &body);
    assert_eq!(lines.len(), 6);
    assert_eq!(lines[0], "=== Incoming Request ===");
    assert_eq!(lines[1], "Method: PUT");
    assert_eq!(lines[2], "Source Ip: 10.0.0.1");
    assert_eq!(lines[3], "Headers: {\n    \"x-test\": \"abc\",\n}");
    assert_eq!(lines[4], "Body: hello");
    assert_eq!(lines[5], "=== End Request ===");
}

#[test]
fn callback_accepts_any_method_and_body_with_same_response() {
    let headers: Vec<(String, String)> = Vec::new();
    let empty: Vec<u8> = Vec::new();
    let binary: Vec<u8> = vec![0xff, 0xfe, 0x00, 0x80];
    let large: Vec<u8> = vec![b'a'; 100_000];
    for (method, body) in [("GET", &empty), ("POST", &binary), ("PATCH", &large)] {
        let (_, response) = log_callback(method, &headers, "203.0.113.9", body);
        assert_eq!(response.status, "success");
        assert_eq!(response.message, "callback received");
        let json = response.to_json();
        assert!(json.starts_with("{\"status\":\"success\",\"message\":\"callback received\",\"timestamp\":\""));
        assert!(json.ends_with("\"}"));
    }
}

#[test]
fn callback_omits_non_utf8_body_from_log() {
    let headers: Vec<(String, String)> = Vec::new();
    let body: Vec<u8> = vec![0xff, 0xfe, 0x61];
    let (lines, response) = log_callback("POST", &headers, "1.2.3.4", &body);
    assert_eq!(response.status, "success");
    assert_eq!(lines.len(), 5);
    assert!(!lines.join("\n").contains("Body:"));
}

#[test]
fn callback_logs_empty_body_as_empty_line() {
    let headers: Vec<(String, String)> = Vec::new();
    let body: Vec<u8> = Vec::new();
    let (lines, _) = log_callback("GET", &headers, "1.2.3.4", &body);
    assert_eq!(lines.len(), 6);
    assert_eq!(lines[4], "Body: ");
}

#[test]
fn callback_keeps_repeated_header_names() {
    let headers = vec![
        (String::from("x-test"), String::from("one")),
        (String::from("x-test"), String::from("two")),
    ];
    let body: Vec<u8> = Vec::new();
    let (lines, _) = log_callback("GET", &headers, "1.2.3.4", &body);
    assert_eq!(
        lines[3],
        "Headers: {\n    \"x-test\": \"one\",\n    \"x-test\": \"two\",\n}"
    );
}
