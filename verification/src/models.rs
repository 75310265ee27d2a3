//! Records of users and the OpenAI-compatible chat exchange.
//!
//! Records that carry a floating-point field (backends, usage logs and the
//! incoming chat request) are kept by the application around this library;
//! the logic here reads their integer and text fields through the functions
//! that take them as arguments.
use vstd::prelude::*;

verus! {

/// A registered user of the proxy.
#[derive(Debug, PartialEq, Eq)]
pub struct User {
    pub id: i64,
    pub username: String,
    pub proxy_key: String,
    pub enabled: bool,
    pub allowed_backends: Option<String>,
    pub rate_limit_requests_per_minute: Option<i32>,
    pub monthly_token_budget: Option<i64>,
    pub created_at: String,
    pub updated_at: String,
}

/// The fields of a user to be created.
#[derive(Debug, PartialEq, Eq)]
pub struct NewUser {
    pub username: String,
    pub proxy_key: String,
    pub enabled: bool,
    pub allowed_backends: Option<String>,
    pub rate_limit_requests_per_minute: Option<i32>,
    pub monthly_token_budget: Option<i64>,
}

/// One chat message.
#[derive(Debug, PartialEq, Eq)]
pub struct Message {
    pub role: String,
    pub content: String,
}

/// A complete (non-streaming) chat completion.
#[derive(Debug, PartialEq, Eq)]
pub struct ChatCompletionResponse {
    pub id: String,
    pub object: String,
    pub created: i64,
    pub model: String,
    pub choices: Vec<Choice>,
    pub usage: Option<Usage>,
}

/// One choice of a chat completion.
#[derive(Debug, PartialEq, Eq)]
pub struct Choice {
    pub index: i32,
    pub message: Message,
    pub finish_reason: Option<String>,
}

/// Token counts of an exchange.
#[derive(Debug, Clone, Copy, PartialEq, Eq)]
pub struct Usage {
    pub prompt_tokens: i64,
    pub completion_tokens: i64,
    pub total_tokens: i64,
}

} // verus!
