use llamp::json::{JsonNumber, JsonValue};
use llamp::proxy::logging::RequestLog;

#[test]
fn test_request_log_creation() {
    let log = RequestLog::new("POST".to_string(), "/v1/chat/completions".to_string(), 123);
    assert_eq!(log.method, "POST");
    assert_eq!(log.path, "/v1/chat/completions");
    assert_eq!(log.user_id, 123);
}

#[test]
fn test_request_log_with_tokens() {
    let log = RequestLog::new("POST".to_string(), "/v1/chat/completions".to_string(), 123)
        .with_tokens(100, 50, 150);

    assert_eq!(log.prompt_tokens, Some(100));
    assert_eq!(log.completion_tokens, Some(50));
    assert_eq!(log.total_tokens, Some(150));
}

#[test]
fn test_request_log_to_json() {
    let log = RequestLog::new("POST".to_string(), "/v1/chat/completions".to_string(), 123)
        .with_model("gpt-4".to_string())
        .with_tokens(100, 50, 150)
        .with_status(200)
        .with_duration(1234);

    let json = log.to_json();
    assert_eq!(json.get("model_alias").and_then(|v| v.as_str()), Some("gpt-4"));
    assert_eq!(json.get("total_tokens").and_then(|v| v.as_i64()), Some(150));
    assert_eq!(json.get("duration_ms").and_then(|v| v.as_i64()), Some(1234));
}

#[test]
fn request_log_defaults_and_builders() {
    let log = RequestLog::new("GET".to_string(), "/health".to_string(), -5);
    assert_eq!(log.status_code, 0);
    assert_eq!(log.duration_ms, 0);
    assert_eq!(log.model_alias, None);
    assert_eq!(log.error, None);
    assert!(!log.timestamp.is_empty());
    let log = log.with_error("boom".to_string()).with_status(502);
    assert_eq!(log.error, Some("boom".to_string()));
    assert_eq!(log.status_code, 502);
    assert_eq!(log.method, "GET");
    assert_eq!(log.prompt_tokens, None);
}

#[test]
fn request_log_json_nulls_and_negative_user() {
    let log = RequestLog::new("GET".to_string(), "/v1/models".to_string(), -7);
    let json = log.to_json();
    assert_eq!(json.get("model_alias"), Some(&JsonValue::Null));
    assert_eq!(json.get("error"), Some(&JsonValue::Null));
    assert_eq!(json.get("prompt_tokens"), Some(&JsonValue::Null));
    assert_eq!(json.get("user_id"), Some(&JsonValue::Number(JsonNumber::NegInt(-7))));
    assert_eq!(json.get("status_code"), Some(&JsonValue::Number(JsonNumber::PosInt(0))));
    assert_eq!(json.get("method").and_then(|v| v.as_str()), Some("GET"));
    assert_eq!(json.get("path").and_then(|v| v.as_str()), Some("/v1/models"));
    assert_eq!(json.get("timestamp").and_then(|v| v.as_str()), Some(log.timestamp.as_str()));
    assert_eq!(json.get("missing"), None);
    match &json {
        JsonValue::Object(members) => assert_eq!(members.len(), 11),
        _ => panic!("not an object"),
    }
}

#[test]
fn request_log_new_at_uses_the_given_timestamp() {
    let log = RequestLog::new_at("2024-05-01T12:00:00+00:00".to_string(), "GET".to_string(), "/v1/models".to_string(), 9);
    assert_eq!(log.timestamp, "2024-05-01T12:00:00+00:00");
    assert_eq!(log.method, "GET");
    assert_eq!(log.path, "/v1/models");
    assert_eq!(log.user_id, 9);
    assert_eq!(log.status_code, 0);
    assert_eq!(log.duration_ms, 0);
    assert_eq!(log.model_alias, None);
    assert_eq!(log.prompt_tokens, None);
    assert_eq!(log.error, None);
}

#[test]
fn request_log_is_stamped_in_utc() {
    let log = RequestLog::new("POST".to_string(), "/v1/chat/completions".to_string(), 1);
    assert!(log.timestamp.ends_with("+00:00"));
    assert_eq!(log.timestamp.as_bytes()[10], b'T');
}
