use llamp::json::{JsonNumber, JsonValue};
use llamp::models::Usage;
use llamp::providers::{Choice, Delta, OpenAIStreamChunk};
use llamp::proxy::{
    aggregate_stream, decode_event, decode_events, is_streaming_body, process_backend_response, render_completion,
    stream_events, success_usage_record, ChatFailure, ChunkOutcome, ChunkParse, StreamSummary,
};

fn obj(members: Vec<(&str, JsonValue)>) -> JsonValue {
    JsonValue::Object(members.into_iter().map(|(k, v)| (k.to_string(), v)).collect())
}

fn text(s: &str) -> JsonValue {
    JsonValue::String(s.to_string())
}

fn num(n: u64) -> JsonValue {
    JsonValue::Number(JsonNumber::PosInt(n))
}

fn chunk(id: &str, model: &str, content: Option<&str>) -> OpenAIStreamChunk {
    OpenAIStreamChunk {
        id: id.to_string(),
        object: "chat.completion.chunk".to_string(),
        model: model.to_string(),
        choices: vec![Choice {
            index: 0,
            delta: Some(Delta { role: None, content: content.map(|c| c.to_string()) }),
            finish_reason: None,
        }],
    }
}

fn parsed(id: &str, model: &str, content: Option<&str>, usage: Option<(u64, u64, u64)>) -> ChunkOutcome {
    let mut members = vec![("id", text(id)), ("model", text(model))];
    if let Some((p, c, t)) = usage {
        members.push((
            "usage",
            obj(vec![("prompt_tokens", num(p)), ("completion_tokens", num(c)), ("total_tokens", num(t))]),
        ));
    }
    ChunkOutcome { value: Some(obj(members)), chunk: ChunkParse::Parsed(chunk(id, model, content)) }
}

#[test]
fn stream_events_frames_data_lines() {
    let body = "data: {\"a\":1}\n\ndata: [DONE]\n\n: comment\n\ndata:   \n\n  data: {\"b\":2}  \n\ndata: data: {\"c\":3}";
    let events = stream_events(body);
    let payloads: Vec<&str> = events.iter().map(|e| e.payload.as_str()).collect();
    assert_eq!(payloads, vec!["{\"a\":1}", "{\"b\":2}", "{\"c\":3}"]);
    assert_eq!(events[1].line, "  data: {\"b\":2}  ");
    assert_eq!(events[2].line, "data: data: {\"c\":3}");
}

#[test]
fn stream_events_split_is_non_overlapping() {
    // "\n\n\n" splits once, leaving a "\n" at the front of the next piece
    let events = stream_events("data: 1\n\n\ndata: 2");
    assert_eq!(events.len(), 2);
    assert_eq!(events[1].line, "\ndata: 2");
    assert_eq!(events[1].payload, "2");
    assert!(stream_events("").is_empty());
    assert!(stream_events("{\"id\":\"x\"}").is_empty());
}

#[test]
fn streaming_detection() {
    assert!(is_streaming_body("xx data: yy"));
    assert!(!is_streaming_body("{\"data\": 1}"));
    assert!(!is_streaming_body("data:no-space"));
}

#[test]
fn aggregate_concatenates_and_keeps_last_usage() {
    let outcomes = vec![
        parsed("c1", "m1", Some("Hel"), None),
        parsed("c2", "m2", Some("lo"), Some((3, 4, 7))),
        parsed("c3", "m3", Some(""), None),
        ChunkOutcome { value: None, chunk: ChunkParse::Parsed(chunk("x", "x", Some("ignored"))) },
        ChunkOutcome { value: Some(obj(vec![("id", text("y"))])), chunk: ChunkParse::Failed },
        ChunkOutcome { value: Some(obj(vec![("id", text("z"))])), chunk: ChunkParse::NoData },
    ];
    let s = aggregate_stream(&outcomes);
    assert_eq!(s.content, "Hello");
    assert_eq!(s.usage, Some(Usage { prompt_tokens: 3, completion_tokens: 4, total_tokens: 7 }));
    assert_eq!(s.model, "m3");
    assert_eq!(s.id, "c3");
}

#[test]
fn aggregate_model_and_id_reset_when_absent() {
    let outcomes = vec![
        parsed("c1", "m1", Some("a"), None),
        ChunkOutcome { value: Some(obj(vec![])), chunk: ChunkParse::Parsed(chunk("q", "q", None)) },
    ];
    let s = aggregate_stream(&outcomes);
    assert_eq!(s.content, "a");
    assert_eq!(s.model, "");
    assert_eq!(s.id, "");
    assert_eq!(s.usage, None);
    let empty = aggregate_stream(&vec![]);
    assert_eq!(empty, StreamSummary { content: String::new(), usage: None, model: String::new(), id: String::new() });
}

#[test]
fn render_completion_exact_text() {
    let s = StreamSummary {
        content: "Hi \"you\"\n".to_string(),
        usage: Some(Usage { prompt_tokens: 1, completion_tokens: 2, total_tokens: 3 }),
        model: "gpt-4".to_string(),
        id: "chatcmpl-1".to_string(),
    };
    let out = render_completion(&s, 1700000000);
    assert_eq!(
        out,
        "{\"choices\":[{\"finish_reason\":\"stop\",\"index\":0,\"message\":{\"content\":\"Hi \\\"you\\\"\\n\",\"role\":\"assistant\"}}],\"created\":1700000000,\"id\":\"chatcmpl-1\",\"model\":\"gpt-4\",\"object\":\"chat.completion\",\"usage\":{\"completion_tokens\":2,\"prompt_tokens\":1,\"total_tokens\":3}}"
    );
    // it is what serde_json writes for the same document
    let v: serde_json::Value = serde_json::from_str(&out).unwrap();
    assert_eq!(serde_json::to_string(&v).unwrap(), out);
}

#[test]
fn render_completion_without_usage_counts_zero() {
    let s = StreamSummary { content: "\u{1}é".to_string(), usage: None, model: String::new(), id: String::new() };
    let out = render_completion(&s, 0);
    assert!(out.contains("\"content\":\"\\u0001é\""));
    assert!(out.contains("\"usage\":{\"completion_tokens\":0,\"prompt_tokens\":0,\"total_tokens\":0}"));
    let v: serde_json::Value = serde_json::from_str(&out).unwrap();
    assert_eq!(serde_json::to_string(&v).unwrap(), out);
    let neg = StreamSummary {
        content: String::new(),
        usage: Some(Usage { prompt_tokens: -5, completion_tokens: i64::MIN, total_tokens: i64::MAX }),
        model: String::new(),
        id: String::new(),
    };
    let out = render_completion(&neg, u64::MAX);
    let v: serde_json::Value = serde_json::from_str(&out).unwrap();
    assert_eq!(serde_json::to_string(&v).unwrap(), out);
    assert_eq!(v["usage"]["completion_tokens"].as_i64(), Some(i64::MIN));
    assert_eq!(v["created"].as_u64(), Some(u64::MAX));
}

#[test]
fn process_backend_response_passes_plain_bodies() {
    let body = "{\"id\":\"x\",\"choices\":[]}";
    assert_eq!(process_backend_response(body, &vec![]), body);
}

#[test]
fn process_backend_response_folds_streams() {
    let body = "data: {\"id\":\"c1\"}\n\ndata: {\"id\":\"c2\"}\n\ndata: [DONE]\n\n";
    assert_eq!(stream_events(body).len(), 2);
    let outcomes = vec![parsed("c1", "m", Some("A"), None), parsed("c2", "m", Some("B"), Some((1, 1, 2)))];
    let out = process_backend_response(body, &outcomes);
    let v: serde_json::Value = serde_json::from_str(&out).unwrap();
    assert_eq!(v["choices"][0]["message"]["content"], "AB");
    assert_eq!(v["id"], "c2");
    assert_eq!(v["model"], "m");
    assert_eq!(v["object"], "chat.completion");
    assert_eq!(v["usage"]["total_tokens"], 2);
    assert!(v["created"].as_u64().unwrap() > 1_600_000_000);
}

#[test]
fn chat_failures_answer() {
    let cases: Vec<(ChatFailure, u16, &str)> = vec![
        (ChatFailure::Database("d".into()), 500, "Failed to connect to database: d"),
        (ChatFailure::BackendLookup("q".into()), 500, "Failed to fetch backend: q"),
        (ChatFailure::ModelNotFound, 404, "Model not found"),
        (ChatFailure::ModelNotAllowed, 403, "Model not allowed for this user"),
        (ChatFailure::PrepareRequest("p".into()), 500, "Failed to prepare request: p"),
        (ChatFailure::BackendConnect("c".into()), 502, "Failed to connect to backend: c"),
        (ChatFailure::BackendRead("r".into()), 502, "Failed to read backend response: r"),
        (ChatFailure::BackendStatus { status: 429, body: "slow down".into() }, 429, "slow down"),
        (ChatFailure::BackendStatus { status: 418, body: "teapot".into() }, 502, "teapot"),
        (ChatFailure::ProcessedParse("x".into()), 502, "Failed to parse processed response: x"),
        (ChatFailure::UsageLog("u".into()), 500, "Failed to create usage log: u"),
    ];
    for (f, status, message) in cases {
        assert_eq!(f.status_code(), status);
        assert_eq!(f.message(), message);
    }
}

#[test]
fn usage_record_of_success() {
    let r = success_usage_record(9, &"gpt-4".to_string(), &Some(Usage { prompt_tokens: 1, completion_tokens: 2, total_tokens: 3 }), 250);
    assert_eq!(r.user_id, Some(9));
    assert_eq!(r.model_alias, Some("gpt-4".to_string()));
    assert_eq!((r.prompt_tokens, r.completion_tokens, r.total_tokens), (1, 2, 3));
    assert_eq!(r.latency_ms, Some(250));
    assert_eq!(r.status, "success");
    assert_eq!(r.error_message, None);
    let r = success_usage_record(9, &"m".to_string(), &None, 0);
    assert_eq!((r.prompt_tokens, r.completion_tokens, r.total_tokens), (0, 0, 0));
}

#[test]
fn models_listing_entries() {
    let listing = llamp::proxy::models_listing(&vec!["gpt-4".to_string(), "local".to_string()]);
    assert_eq!(listing.get("object").and_then(|v| v.as_str()), Some("list"));
    match listing.get("data") {
        Some(JsonValue::Array(items)) => {
            assert_eq!(items.len(), 2);
            assert_eq!(items[0].member_str("id"), Some("gpt-4".to_string()));
            assert_eq!(items[1].member_str("id"), Some("local".to_string()));
            assert_eq!(items[1].member_str("object"), Some("model".to_string()));
            assert_eq!(items[1].member_str("owned_by"), Some("llamp".to_string()));
            assert_eq!(items[1].member_i64("created"), Some(1234567890));
        }
        other => panic!("unexpected {:?}", other),
    }
    match llamp::proxy::models_listing(&vec![]).get("data") {
        Some(JsonValue::Array(items)) => assert!(items.is_empty()),
        other => panic!("unexpected {:?}", other),
    }
}

#[test]
fn aggregate_of_concatenated_runs() {
    let a = vec![parsed("1", "m", Some("ab"), Some((1, 1, 2))), parsed("2", "m", Some("c"), None)];
    let b = vec![parsed("3", "n", Some("de"), None), parsed("4", "n", None, None)];
    let mut ab = vec![parsed("1", "m", Some("ab"), Some((1, 1, 2))), parsed("2", "m", Some("c"), None)];
    ab.extend(vec![parsed("3", "n", Some("de"), None), parsed("4", "n", None, None)]);
    let sa = aggregate_stream(&a);
    let sb = aggregate_stream(&b);
    let sab = aggregate_stream(&ab);
    assert_eq!(sab.content, format!("{}{}", sa.content, sb.content));
    assert_eq!(sb.usage, None);
    assert_eq!(sab.usage, sa.usage);
    assert_eq!(sab.content, "abcde");
}

#[test]
fn events_are_decoded_as_json() {
    let events = stream_events("data: {\"id\":\"a\",\"n\":-3,\"f\":1.5,\"l\":[true,null]}\n\ndata: not json\n\n");
    assert_eq!(events.len(), 2);
    let o = decode_event(&events[0], ChunkParse::Failed);
    assert_eq!(
        o.value,
        Some(obj(vec![
            ("f", JsonValue::Number(JsonNumber::Float)),
            ("id", text("a")),
            ("l", JsonValue::Array(vec![JsonValue::Bool(true), JsonValue::Null])),
            ("n", JsonValue::Number(JsonNumber::NegInt(-3))),
        ]))
    );
    assert_eq!(o.chunk, ChunkParse::Failed);
    let o = decode_event(&events[1], ChunkParse::Parsed(chunk("x", "m", Some("t"))));
    assert_eq!(o, ChunkOutcome { value: None, chunk: ChunkParse::NoData });
    let all = decode_events(&events, vec![ChunkParse::NoData, ChunkParse::Failed]);
    assert_eq!(all.len(), 2);
    assert_eq!(all[0].chunk, ChunkParse::NoData);
    assert_eq!(all[1], ChunkOutcome { value: None, chunk: ChunkParse::NoData });
}
