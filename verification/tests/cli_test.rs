use llamp::cli::{
    backend_check_report, cli_new_user, find_by_id, listing_line, log_level_from, log_level_of_lowered, log_level_setting,
    new_proxy_key, proxy_key_from, stats_line, tunnel_server_url, LogLevel, deletion_line, not_found_line, RecordKind,
};

#[test]
fn log_levels_by_name() {
    assert_eq!(log_level_from("trace"), LogLevel::Trace);
    assert_eq!(log_level_from("DEBUG"), LogLevel::Debug);
    assert_eq!(log_level_from("Info"), LogLevel::Info);
    assert_eq!(log_level_from("wArN"), LogLevel::Warn);
    assert_eq!(log_level_from("error"), LogLevel::Error);
    assert_eq!(log_level_from("verbose"), LogLevel::Info);
    assert_eq!(log_level_from(""), LogLevel::Info);
    assert_eq!(log_level_setting(None), "info");
    assert_eq!(log_level_setting(Some("debug".to_string())), "debug");
}

#[test]
fn proxy_keys_have_uuid_form() {
    let k = new_proxy_key();
    assert_eq!(k.len(), 42);
    assert!(k.starts_with("llamp-"));
    let u = &k[6..];
    assert!(uuid::Uuid::parse_str(u).is_ok());
    assert_eq!(u.as_bytes()[14], b'4');
    assert_ne!(new_proxy_key(), k);
}

#[test]
fn new_cli_user_defaults() {
    let u = cli_new_user("john".to_string(), 100, "llamp-x".to_string());
    assert_eq!(u.username, "john");
    assert_eq!(u.proxy_key, "llamp-x");
    assert!(u.enabled);
    assert_eq!(u.allowed_backends, None);
    assert_eq!(u.rate_limit_requests_per_minute, Some(100));
    assert_eq!(u.monthly_token_budget, Some(1000000));
}

#[test]
fn tunnel_default_address() {
    assert_eq!(tunnel_server_url(None), "http://localhost:8080");
    assert_eq!(tunnel_server_url(Some("http://0.0.0.0:9000".to_string())), "http://0.0.0.0:9000");
}

#[test]
fn report_lines() {
    assert_eq!(listing_line(3, "GPT", "gpt-4"), "  3 - GPT (gpt-4)");
    assert_eq!(listing_line(-1, "", ""), "  -1 -  ()");
    assert_eq!(stats_line("alice", 12, Some(3400)), "  alice: 12 requests, 3400 tokens");
    assert_eq!(stats_line("bob", 0, None), "  bob: 0 requests, 0 tokens");
}

#[test]
fn find_first_matching_id() {
    assert_eq!(find_by_id(&vec![5, 7, 7], 7), Some(1));
    assert_eq!(find_by_id(&vec![5, 7], 9), None);
    assert_eq!(find_by_id(&vec![], 1), None);
}

#[test]
fn backend_check_lines() {
    assert_eq!(
        backend_check_report("Test OpenAI", "gpt-4-test", "openai", "https://api"),
        vec![
            "Testing backend: Test OpenAI (gpt-4-test)",
            "  Provider type: openai",
            "  Endpoint: https://api",
            "✓ Backend configuration is valid",
            "✓ Backend connection test passed",
        ]
    );
    assert_eq!(
        backend_check_report("B", "b", "custom", ""),
        vec![
            "Testing backend: B (b)",
            "  Provider type: custom",
            "  Endpoint: ",
            "✗ Backend configuration error: missing endpoint URL",
        ]
    );
}

#[test]
fn record_report_lines() {
    assert_eq!(not_found_line(RecordKind::Backend, 7), "Backend with ID 7 not found");
    assert_eq!(not_found_line(RecordKind::User, -2), "User with ID -2 not found");
    assert_eq!(deletion_line(RecordKind::User, 3, true), "Deleted user with ID: 3");
    assert_eq!(deletion_line(RecordKind::Backend, 3, true), "Deleted backend with ID: 3");
    assert_eq!(deletion_line(RecordKind::Backend, 4, false), "Backend with ID 4 not found");
}

#[test]
fn lowered_level_names() {
    assert_eq!(log_level_of_lowered("warn"), LogLevel::Warn);
    assert_eq!(log_level_of_lowered("error"), LogLevel::Error);
    assert_eq!(log_level_of_lowered("WARN"), LogLevel::Info);
    assert_eq!(log_level_of_lowered(""), LogLevel::Info);
}

#[test]
fn proxy_key_of_a_uuid() {
    assert_eq!(
        proxy_key_from("6f1c2a3b-4d5e-4f60-8a7b-9c0d1e2f3a4b"),
        "llamp-6f1c2a3b-4d5e-4f60-8a7b-9c0d1e2f3a4b"
    );
    assert_eq!(proxy_key_from(""), "llamp-");
}
