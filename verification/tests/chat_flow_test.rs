use llamp::providers::{Choice as StreamChoice, Delta, OpenAIStreamChunk};
use llamp::proxy::{stream_events, ChunkParse};
use llamp::proxy::chat::{ChatAction, ChatEvent, ChatFlow, ChatStage};

fn chunk(content: &str) -> OpenAIStreamChunk {
    OpenAIStreamChunk {
        id: "c1".to_string(),
        object: "chat.completion.chunk".to_string(),
        model: "gpt-4".to_string(),
        choices: vec![StreamChoice {
            index: 0,
            delta: Some(Delta { role: None, content: Some(content.to_string()) }),
            finish_reason: None,
        }],
    }
}

/// Runs a completion that succeeds up to the backend's answer with `status`.
fn run_to_body(status: u16) -> ChatFlow {
    let (mut flow, action) = ChatFlow::new(3, "gpt-4".to_string(), None);
    assert_eq!(action, ChatAction::OpenStore);
    assert_eq!(flow.step(ChatEvent::StoreOpened), ChatAction::FindBackend("gpt-4".to_string()));
    assert_eq!(flow.step(ChatEvent::BackendFound), ChatAction::PrepareRequest);
    assert_eq!(flow.step(ChatEvent::Prepared), ChatAction::SendRequest);
    assert_eq!(flow.step(ChatEvent::Answered { status, elapsed_ms: 420 }), ChatAction::ReadBody);
    assert_eq!(flow.stage(), ChatStage::Reading);
    flow
}

#[test]
fn successful_completion_logs_then_replies() {
    let body = "{\"id\":\"r1\",\"usage\":{\"completion_tokens\":6,\"prompt_tokens\":5,\"total_tokens\":11}}";
    let mut flow = run_to_body(200);
    assert_eq!(flow.step(ChatEvent::BodyRead(body.to_string())), ChatAction::ParseChunks(vec![]));
    let action = flow.step(ChatEvent::ChunksParsed(vec![]));
    match action {
        ChatAction::WriteUsageLog(r) => {
            assert_eq!(r.user_id, Some(3));
            assert_eq!(r.model_alias, Some("gpt-4".to_string()));
            assert_eq!((r.prompt_tokens, r.completion_tokens, r.total_tokens), (5, 6, 11));
            assert_eq!(r.latency_ms, Some(420));
            assert_eq!(r.status, "success");
        }
        other => panic!("unexpected {:?}", other),
    }
    assert_eq!(flow.step(ChatEvent::Logged), ChatAction::Reply { status: 200, body: body.to_string() });
    assert_eq!(flow.stage(), ChatStage::Answered);
}

#[test]
fn missing_usage_counts_zero() {
    let mut flow = run_to_body(200);
    flow.step(ChatEvent::BodyRead("{}".to_string()));
    match flow.step(ChatEvent::ChunksParsed(vec![])) {
        ChatAction::WriteUsageLog(r) => assert_eq!((r.prompt_tokens, r.completion_tokens, r.total_tokens), (0, 0, 0)),
        other => panic!("unexpected {:?}", other),
    }
}

#[test]
fn streamed_body_is_folded_by_the_flow() {
    let body = "data: {\"id\":\"c1\",\"model\":\"gpt-4\"}\n\ndata: {\"id\":\"c1\",\"model\":\"gpt-4\",\"usage\":{\"completion_tokens\":2,\"prompt_tokens\":1,\"total_tokens\":3}}\n\ndata: [DONE]\n\n";
    let mut flow = run_to_body(200);
    assert_eq!(flow.step(ChatEvent::BodyRead(body.to_string())), ChatAction::ParseChunks(stream_events(body)));
    let action = flow.step(ChatEvent::ChunksParsed(vec![ChunkParse::Parsed(chunk("Hel")), ChunkParse::Parsed(chunk("lo"))]));
    match action {
        ChatAction::WriteUsageLog(r) => {
            assert_eq!((r.prompt_tokens, r.completion_tokens, r.total_tokens), (1, 2, 3));
            assert_eq!(r.status, "success");
        }
        other => panic!("unexpected {:?}", other),
    }
    match flow.step(ChatEvent::Logged) {
        ChatAction::Reply { status, body } => {
            assert_eq!(status, 200);
            assert!(body.starts_with("{\"choices\":[{\"finish_reason\":\"stop\",\"index\":0,\"message\":{\"content\":\"Hello\",\"role\":\"assistant\"}}],\"created\":"));
            assert!(body.ends_with(",\"id\":\"c1\",\"model\":\"gpt-4\",\"object\":\"chat.completion\",\"usage\":{\"completion_tokens\":2,\"prompt_tokens\":1,\"total_tokens\":3}}"));
        }
        other => panic!("unexpected {:?}", other),
    }
}

#[test]
fn body_that_is_not_json_is_logged_then_answered() {
    let mut flow = run_to_body(200);
    flow.step(ChatEvent::BodyRead("x".to_string()));
    let message = "Failed to parse processed response: expected value at line 1 column 1";
    assert_error_log(flow.step(ChatEvent::ChunksParsed(vec![])), 3, "gpt-4", message);
    assert_eq!(flow.step(ChatEvent::Logged), ChatAction::Reply { status: 502, body: message.to_string() });
}

/// Checks that `action` writes the error record of `message` for user 1 on `model`.
fn assert_error_log(action: ChatAction, user: i64, model: &str, message: &str) {
    match action {
        ChatAction::WriteUsageLog(r) => {
            assert_eq!(r.user_id, Some(user));
            assert_eq!(r.model_alias, Some(model.to_string()));
            assert_eq!((r.prompt_tokens, r.completion_tokens, r.total_tokens), (0, 0, 0));
            assert_eq!(r.latency_ms, None);
            assert_eq!(r.status, "error");
            assert_eq!(r.error_message, Some(message.to_string()));
        }
        other => panic!("unexpected {:?}", other),
    }
}

#[test]
fn backend_errors_pass_through() {
    for (status, expected) in [(400u16, 400u16), (401, 401), (403, 403), (404, 404), (429, 429), (500, 500), (502, 502), (503, 503), (418, 502), (504, 502)] {
        let mut flow = run_to_body(status);
        assert_error_log(flow.step(ChatEvent::BodyRead("rate limited".to_string())), 3, "gpt-4", "rate limited");
        assert_eq!(flow.stage(), ChatStage::Logging);
        assert_eq!(
            flow.step(ChatEvent::Logged),
            ChatAction::Reply { status: expected, body: "rate limited".to_string() }
        );
        assert_eq!(flow.stage(), ChatStage::Answered);
    }
    let mut flow = run_to_body(399);
    assert_eq!(flow.step(ChatEvent::BodyRead("b".to_string())), ChatAction::ParseChunks(vec![]));
}

#[test]
fn backend_error_is_answered_even_when_its_log_fails() {
    let mut flow = run_to_body(503);
    assert_error_log(flow.step(ChatEvent::BodyRead("down".to_string())), 3, "gpt-4", "down");
    assert_eq!(
        flow.step(ChatEvent::LogFailed("full".to_string())),
        ChatAction::Reply { status: 503, body: "down".to_string() }
    );
}

/// Steps a fresh completion of model `m` through `events`, then checks that the
/// failure event is logged as `message` and answered with `status`.
fn check_logged_failure(events: Vec<ChatEvent>, failure: ChatEvent, status: u16, message: &str) {
    let (mut flow, _) = ChatFlow::new(1, "m".to_string(), None);
    for e in events {
        flow.step(e);
    }
    assert_error_log(flow.step(failure), 1, "m", message);
    assert_eq!(flow.step(ChatEvent::Logged), ChatAction::Reply { status, body: message.to_string() });
}

#[test]
fn failures_are_logged_then_answered() {
    check_logged_failure(vec![ChatEvent::StoreOpened], ChatEvent::BackendMissing, 404, "Model not found");
    check_logged_failure(
        vec![ChatEvent::StoreOpened],
        ChatEvent::BackendLookupFailed("io".to_string()),
        500,
        "Failed to fetch backend: io",
    );
    check_logged_failure(
        vec![ChatEvent::StoreOpened, ChatEvent::BackendFound],
        ChatEvent::PrepareFailed("bad".to_string()),
        500,
        "Failed to prepare request: bad",
    );
    check_logged_failure(
        vec![ChatEvent::StoreOpened, ChatEvent::BackendFound, ChatEvent::Prepared],
        ChatEvent::SendFailed("refused".to_string()),
        502,
        "Failed to connect to backend: refused",
    );
    check_logged_failure(
        vec![
            ChatEvent::StoreOpened,
            ChatEvent::BackendFound,
            ChatEvent::Prepared,
            ChatEvent::Answered { status: 200, elapsed_ms: 1 },
        ],
        ChatEvent::ReadFailed("reset".to_string()),
        502,
        "Failed to read backend response: reset",
    );
}

#[test]
fn store_and_log_failures_are_answered_at_once() {
    let (mut flow, _) = ChatFlow::new(1, "m".to_string(), None);
    assert_eq!(
        flow.step(ChatEvent::StoreFailed("locked".to_string())),
        ChatAction::Reply { status: 500, body: "Failed to connect to database: locked".to_string() }
    );
    let mut flow = run_to_body(200);
    flow.step(ChatEvent::BodyRead("{}".to_string()));
    flow.step(ChatEvent::ChunksParsed(vec![]));
    assert_eq!(
        flow.step(ChatEvent::LogFailed("full".to_string())),
        ChatAction::Reply { status: 500, body: "Failed to create usage log: full".to_string() }
    );
}

#[test]
fn models_outside_the_allowed_backends_are_refused() {
    let (mut flow, _) = ChatFlow::new(2, "gpt-5".to_string(), Some("gpt-4,mistral-7b".to_string()));
    assert_error_log(flow.step(ChatEvent::StoreOpened), 2, "gpt-5", "Model not allowed for this user");
    assert_eq!(
        flow.step(ChatEvent::Logged),
        ChatAction::Reply { status: 403, body: "Model not allowed for this user".to_string() }
    );
    assert_eq!(flow.stage(), ChatStage::Answered);
}

#[test]
fn models_in_the_allowed_backends_go_on() {
    for (list, model) in [("gpt-4,mistral-7b", "gpt-4"), ("gpt-4,mistral-7b", "mistral-7b"), ("gpt-4, mistral-7b ", "mistral-7b"), ("gpt-4", "gpt-4")] {
        let (mut flow, _) = ChatFlow::new(2, model.to_string(), Some(list.to_string()));
        assert_eq!(flow.step(ChatEvent::StoreOpened), ChatAction::FindBackend(model.to_string()));
    }
    let (mut flow, _) = ChatFlow::new(2, "gpt".to_string(), Some("gpt-4".to_string()));
    assert!(matches!(flow.step(ChatEvent::StoreOpened), ChatAction::WriteUsageLog(_)));
    let (mut flow, _) = ChatFlow::new(2, "gpt-4".to_string(), Some(String::new()));
    assert!(matches!(flow.step(ChatEvent::StoreOpened), ChatAction::WriteUsageLog(_)));
}
