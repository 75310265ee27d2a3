use llamp::json::{JsonNumber, JsonValue};
use llamp::models::{Message, Usage};
use llamp::providers::openai::OpenAIProvider;
use llamp::providers::ProviderError;

fn obj(members: Vec<(&str, JsonValue)>) -> JsonValue {
    JsonValue::Object(members.into_iter().map(|(k, v)| (k.to_string(), v)).collect())
}

fn num(n: u64) -> JsonValue {
    JsonValue::Number(JsonNumber::PosInt(n))
}

#[test]
fn test_openai_provider_creation() {
    let provider = OpenAIProvider::new();
    assert_eq!(provider.content_type(), "application/json");
}

#[test]
fn provider_default_is_new() {
    assert_eq!(OpenAIProvider::default(), OpenAIProvider::new());
}

#[test]
fn streaming_chunk_payload_framing() {
    let p = OpenAIProvider::new();
    assert_eq!(p.streaming_chunk_payload(b"data: {\"a\":1}\n\n").unwrap(), Some("{\"a\":1}".to_string()));
    // repeated prefixes are all removed, then the text is trimmed
    assert_eq!(p.streaming_chunk_payload(b"data: data:   {}  ").unwrap(), Some("{}".to_string()));
    assert_eq!(p.streaming_chunk_payload(b"data: [DONE]").unwrap(), None);
    assert_eq!(p.streaming_chunk_payload(b"data:    ").unwrap(), None);
    assert_eq!(p.streaming_chunk_payload(b"event: ping").unwrap(), None);
    // leading whitespace: the line does not start with the prefix
    assert_eq!(p.streaming_chunk_payload(b" data: {}").unwrap(), None);
}

#[test]
fn streaming_chunk_payload_invalid_utf8() {
    let p = OpenAIProvider::new();
    match p.streaming_chunk_payload(&[b'd', 0xff, 0xfe]) {
        Err(ProviderError::Other(m)) => {
            assert!(m.starts_with("Invalid UTF-8: "));
            assert_eq!(m, format!("Invalid UTF-8: {}", std::str::from_utf8(&[b'd', 0xff, 0xfe]).unwrap_err()));
        }
        other => panic!("unexpected {:?}", other),
    }
}

#[test]
fn parse_usage_reads_three_counts() {
    let p = OpenAIProvider::new();
    let body = obj(vec![(
        "usage",
        obj(vec![("prompt_tokens", num(10)), ("completion_tokens", num(5)), ("total_tokens", num(15))]),
    )]);
    assert_eq!(
        p.parse_usage(&body),
        Some(Usage { prompt_tokens: 10, completion_tokens: 5, total_tokens: 15 })
    );
    let negative = obj(vec![(
        "usage",
        obj(vec![
            ("prompt_tokens", JsonValue::Number(JsonNumber::NegInt(-1))),
            ("completion_tokens", num(0)),
            ("total_tokens", num(0)),
        ]),
    )]);
    assert_eq!(
        p.parse_usage(&negative),
        Some(Usage { prompt_tokens: -1, completion_tokens: 0, total_tokens: 0 })
    );
}

#[test]
fn parse_usage_needs_all_counts() {
    let p = OpenAIProvider::new();
    let missing = obj(vec![("usage", obj(vec![("prompt_tokens", num(10)), ("total_tokens", num(15))]))]);
    assert_eq!(p.parse_usage(&missing), None);
    let too_big = obj(vec![(
        "usage",
        obj(vec![("prompt_tokens", num(u64::MAX)), ("completion_tokens", num(1)), ("total_tokens", num(1))]),
    )]);
    assert_eq!(p.parse_usage(&too_big), None);
    let float = obj(vec![(
        "usage",
        obj(vec![
            ("prompt_tokens", JsonValue::Number(JsonNumber::Float)),
            ("completion_tokens", num(1)),
            ("total_tokens", num(1)),
        ]),
    )]);
    assert_eq!(p.parse_usage(&float), None);
    assert_eq!(p.parse_usage(&JsonValue::Null), None);
    assert_eq!(p.parse_usage(&obj(vec![])), None);
}

#[test]
fn chat_endpoint_and_authorization() {
    let p = OpenAIProvider::new();
    assert_eq!(p.chat_endpoint("https://api.openai.com/v1"), "https://api.openai.com/v1/chat/completions");
    assert_eq!(p.authorization_value("sk-123").unwrap(), "Bearer sk-123");
    assert_eq!(p.authorization_value("clé\u{e9}").unwrap(), "Bearer clé\u{e9}");
    assert_eq!(p.authorization_value("a\tb").unwrap(), "Bearer a\tb");
    match p.authorization_value("bad\nkey") {
        Err(ProviderError::Other(m)) => assert_eq!(m, "Invalid header value: failed to parse header value"),
        other => panic!("unexpected {:?}", other),
    }
    assert!(p.authorization_value("x\u{7f}").is_err());
}

#[test]
fn provider_error_messages() {
    assert_eq!(ProviderError::HttpError("boom".into()).message(), "HTTP error: boom");
    assert_eq!(ProviderError::JsonError("eof".into()).message(), "JSON error: eof");
    assert_eq!(ProviderError::IoError("closed".into()).message(), "IO error: closed");
    assert_eq!(ProviderError::Other("x".into()).message(), "Other error: x");
}

#[test]
fn chat_request_body_fields() {
    let p = OpenAIProvider::new();
    let messages = vec![
        Message { role: "system".to_string(), content: "Be brief.".to_string() },
        Message { role: "user".to_string(), content: "Hello!".to_string() },
    ];
    let body = p.chat_request_body("gpt-4-0613", &messages, None, Some(1000));
    assert_eq!(body.member_str("model"), Some("gpt-4-0613".to_string()));
    assert_eq!(body.get("stream"), Some(&JsonValue::Bool(false)));
    assert_eq!(body.member_i64("max_tokens"), Some(1000));
    match body.get("messages") {
        Some(JsonValue::Array(items)) => {
            assert_eq!(items.len(), 2);
            assert_eq!(items[1].member_str("role"), Some("user".to_string()));
            assert_eq!(items[1].member_str("content"), Some("Hello!".to_string()));
        }
        other => panic!("unexpected {:?}", other),
    }
    let body = p.chat_request_body("m", &vec![], Some(true), None);
    assert_eq!(body.get("stream"), Some(&JsonValue::Bool(true)));
    assert_eq!(body.get("max_tokens"), None);
    match &body {
        JsonValue::Object(members) => assert_eq!(members.len(), 3),
        _ => panic!("not an object"),
    }
}

#[test]
fn written_chunk_line_frames_back() {
    let provider = OpenAIProvider::new();
    let json = "{\"choices\":[{\"delta\":{\"content\":\"hi\"},\"index\":0}],\"id\":\"c1\",\"model\":\"m\",\"object\":\"chat.completion.chunk\"}";
    let line = format!("data: {}\n\n", json);
    assert_eq!(provider.streaming_chunk_payload(line.as_bytes()).unwrap(), Some(json.to_string()));
}
