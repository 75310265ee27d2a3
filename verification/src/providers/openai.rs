//! The OpenAI provider: the endpoint and authorization of a backend request,
//! the framing of a server-sent event, and the token usage of a response.
use vstd::prelude::*;
use vstd::utf8::{decode_utf8, valid_utf8};

use crate::json::{
    json_get, json_member_i64, json_member_str, lemma_member_lookup_at, lemma_member_lookup_push,
    number_of_i64, object_keys, JsonValue,
};
use crate::models::{Message, Usage};
use crate::providers::ProviderError;
use crate::text::{
    append_str, chars_of, has_prefix, has_prefix_exec, is_ws, strip_all, strip_all_exec,
    string_of, trim_end_seq, trim_exec, trim_seq, trim_start_seq,
};

verus! {

broadcast use vstd::string::group_string_axioms;

/// The OpenAI provider. It forwards requests in OpenAI's own format.
#[derive(Debug, PartialEq, Eq)]
pub struct OpenAIProvider {}

impl Default for OpenAIProvider {
    fn default() -> (r: OpenAIProvider)
        ensures
            r == (OpenAIProvider {  }),
    {
        OpenAIProvider::new()
    }
}

/// What `std::str::from_utf8` reports of bytes that are not UTF-8 (the text of its `Utf8Error`).
pub uninterp spec fn utf8_error_text(bytes: Seq<u8>) -> Seq<char>;

/// `std::str::from_utf8`, with the error given as its text.
/// Its contract claims what the standard library documents: the bytes are
/// accepted exactly when they are valid UTF-8, and then decode to their
/// characters; the error's text depends on the bytes alone.
#[verifier::external_body]
fn str_from_utf8(raw: &[u8]) -> (r: Result<&str, String>)
    ensures
        r is Ok <==> valid_utf8(raw@),
        r matches Ok(s) ==> s@ == decode_utf8(raw@),
        r matches Err(m) ==> m@ == utf8_error_text(raw@),
{
    std::str::from_utf8(raw).map_err(|e| e.to_string())
}

/// A character that may stand in an HTTP header value.
pub open spec fn header_value_char(c: char) -> bool {
    c == '\t' || (32 <= c as u32 && c as u32 != 127)
}

/// Every character may stand in an HTTP header value.
pub open spec fn header_value_ok(s: Seq<char>) -> bool {
    forall|i: int| 0 <= i < s.len() ==> header_value_char(#[trigger] s[i])
}

/// `HeaderValue::from_str` (reqwest's re-export of `http`), keeping only whether it succeeded.
/// Its contract claims what `try_from_generic` and `is_valid` in `http`'s
/// `header/value.rs` do: every UTF-8 byte must be a tab or at least 32 and not 127,
/// which for characters means a tab or a character from U+0020 on other than U+007F;
/// the error displays as `failed to parse header value`.
#[verifier::external_body]
fn check_header_value(s: &str) -> (r: Result<(), String>)
    ensures
        r is Ok <==> header_value_ok(s@),
        r matches Err(m) ==> m@ == "failed to parse header value"@,
{
    reqwest::header::HeaderValue::from_str(s).map(|_| ()).map_err(|e| e.to_string())
}

/// The JSON text of one server-sent event line `data: {...}`, or `None` when the
/// line does not start with `data: ` or carries nothing (empty, or `[DONE]`).
pub open spec fn chunk_payload(line: Seq<char>) -> Option<Seq<char>> {
    if !has_prefix(line, "data: "@) {
        None
    } else {
        let p = trim_seq(strip_all(line, "data: "@));
        if p.len() == 0 || p == "[DONE]"@ {
            None
        } else {
            Some(p)
        }
    }
}

/// A chunk written as a server-sent event line frames back to its JSON text: for a
/// text `j` that is not empty, is not `[DONE]`, starts with neither whitespace nor
/// `d` and does not end with whitespace (as the JSON text of an object, which starts
/// with `{` and ends with `}`), the line `data: ` + `j` + a blank line carries `j`.
pub proof fn law_written_chunk_line_frames_back(j: Seq<char>)
    requires
        j.len() > 0,
        j != "[DONE]"@,
        !is_ws(j[0]),
        j[0] != 'd',
        !is_ws(j.last()),
    ensures
        chunk_payload("data: "@ + j + "\n\n"@) == Some(j),
{
    reveal_strlit("data: ");
    reveal_strlit("\n\n");
    let p = "data: "@;
    let line = p + j + "\n\n"@;
    let rest = j + "\n\n"@;
    assert(line.subrange(0, 6) =~= p);
    assert(has_prefix(line, p));
    assert(line.skip(6) =~= rest);
    assert(!has_prefix(rest, p)) by {
        if has_prefix(rest, p) {
            assert(rest.subrange(0, 6)[0] == rest[0]);
        }
    }
    assert(strip_all(rest, p) == rest);
    assert(strip_all(line, p) == rest);
    assert(trim_start_seq(rest) == rest);
    let one = j + "\n"@;
    reveal_strlit("\n");
    assert(rest.drop_last() =~= one);
    assert(one.drop_last() =~= j);
    assert(is_ws(rest.last()));
    assert(is_ws(one.last()));
    assert(trim_end_seq(j) == j);
    assert(trim_end_seq(one) == j);
    assert(trim_end_seq(rest) == j);
    assert(trim_seq(rest) == j);
}

/// The usage a response body reports: its member `usage` with the integer members
/// `prompt_tokens`, `completion_tokens` and `total_tokens`, all three present.
pub open spec fn usage_in(body: JsonValue) -> Option<Usage> {
    match json_get(body, "usage"@) {
        Some(u) => match (
            json_member_i64(u, "prompt_tokens"@),
            json_member_i64(u, "completion_tokens"@),
            json_member_i64(u, "total_tokens"@),
        ) {
            (Some(p), Some(c), Some(t)) => Some(
                Usage { prompt_tokens: p, completion_tokens: c, total_tokens: t },
            ),
            _ => None,
        },
        None => None,
    }
}

/// The URL of the chat endpoint of a backend.
pub open spec fn chat_endpoint_of(endpoint_url: Seq<char>) -> Seq<char> {
    endpoint_url + "/chat/completions"@
}

/// The chat endpoint of a backend is its endpoint URL, unchanged, followed by
/// `/chat/completions`, whatever the URL ends with.
pub proof fn law_chat_endpoint_appends_the_path(endpoint_url: Seq<char>)
    ensures
        chat_endpoint_of(endpoint_url).len() == endpoint_url.len() + "/chat/completions"@.len(),
        chat_endpoint_of(endpoint_url).take(endpoint_url.len() as int) == endpoint_url,
        chat_endpoint_of(endpoint_url).skip(endpoint_url.len() as int) == "/chat/completions"@,
{
    assert(chat_endpoint_of(endpoint_url).take(endpoint_url.len() as int) =~= endpoint_url);
    assert(chat_endpoint_of(endpoint_url).skip(endpoint_url.len() as int)
        =~= "/chat/completions"@);
}

/// The usage of a response is read from the three token members of its `usage`
/// member alone: when they hold the integers `p`, `c` and `t`, the usage is those
/// counts, whatever other members `usage` has.
pub proof fn law_usage_is_read_from_its_three_members(body: JsonValue, u: JsonValue, p: i64, c: i64, t: i64)
    requires
        json_get(body, "usage"@) == Some(u),
        json_member_i64(u, "prompt_tokens"@) == Some(p),
        json_member_i64(u, "completion_tokens"@) == Some(c),
        json_member_i64(u, "total_tokens"@) == Some(t),
    ensures
        usage_in(body) == Some(Usage { prompt_tokens: p, completion_tokens: c, total_tokens: t }),
{
}

/// Adding a member under another name to a response's `usage` never changes the
/// usage read from it.
pub proof fn law_other_usage_members_are_ignored(
    body1: JsonValue,
    body2: JsonValue,
    members: Vec<(String, JsonValue)>,
    more: Vec<(String, JsonValue)>,
    extra: (String, JsonValue),
)
    requires
        json_get(body1, "usage"@) == Some(JsonValue::Object(members)),
        json_get(body2, "usage"@) == Some(JsonValue::Object(more)),
        more@ == members@.push(extra),
        extra.0@ != "prompt_tokens"@,
        extra.0@ != "completion_tokens"@,
        extra.0@ != "total_tokens"@,
    ensures
        usage_in(body1) == usage_in(body2),
{
    lemma_member_lookup_push(members@, extra, "prompt_tokens"@);
    lemma_member_lookup_push(members@, extra, "completion_tokens"@);
    lemma_member_lookup_push(members@, extra, "total_tokens"@);
}

/// The `Authorization` header value for an API key.
pub open spec fn bearer_value(api_key: Seq<char>) -> Seq<char> {
    "Bearer "@ + api_key
}

/// A message as the backend receives it: `{"content":..,"role":..}`.
pub open spec fn is_message_json(v: JsonValue, m: Message) -> bool {
    &&& object_keys(v) == seq!["content"@, "role"@]
    &&& json_member_str(v, "content"@) == Some(m.content@)
    &&& json_member_str(v, "role"@) == Some(m.role@)
}

/// The request body sent to the backend, apart from the temperature: the backend's
/// model name, the messages, the stream flag (false when the client gave none) and
/// the token limit when the client gave one.
pub open spec fn is_request_body(
    v: JsonValue,
    model_name: Seq<char>,
    messages: Seq<Message>,
    stream: Option<bool>,
    max_tokens: Option<i32>,
) -> bool {
    &&& object_keys(v) == match max_tokens {
        Some(_) => seq!["max_tokens"@, "messages"@, "model"@, "stream"@],
        None => seq!["messages"@, "model"@, "stream"@],
    }
    &&& match max_tokens {
        Some(n) => json_get(v, "max_tokens"@) == Some(
            JsonValue::Number(number_of_i64(n as i64)),
        ),
        None => json_get(v, "max_tokens"@) is None,
    }
    &&& json_get(v, "messages"@) matches Some(JsonValue::Array(items)) && items@.len()
        == messages.len() && forall|i: int|
        0 <= i < messages.len() ==> is_message_json(#[trigger] items@[i], messages[i])
    &&& json_member_str(v, "model"@) == Some(model_name)
    &&& json_get(v, "stream"@) == Some(
        JsonValue::Bool(
            match stream {
                Some(b) => b,
                None => false,
            },
        ),
    )
}

/// A message as the backend receives it.
fn message_json(m: &Message) -> (r: JsonValue)
    ensures
        is_message_json(r, *m),
{
    let mut members: Vec<(String, JsonValue)> = Vec::new();
    members.push(("content".to_owned(), JsonValue::from_text(m.content.as_str())));
    members.push(("role".to_owned(), JsonValue::from_text(m.role.as_str())));
    proof {
        reveal_strlit("content");
        reveal_strlit("role");
    }
    let ghost ms = members@;
    assert(ms[0].0@ == "content"@ && "content"@.len() == 7);
    assert(ms[1].0@ == "role"@ && "role"@.len() == 4);
    proof {
        lemma_member_lookup_at(ms, "content"@, 0);
        lemma_member_lookup_at(ms, "role"@, 1);
    }
    let r = JsonValue::Object(members);
    assert(object_keys(r) =~= seq!["content"@, "role"@]);
    r
}

impl OpenAIProvider {
    pub fn new() -> (r: OpenAIProvider)
        ensures
            r == (OpenAIProvider {  }),
    {
        OpenAIProvider {  }
    }

    /// The content type the provider expects.
    pub fn content_type(&self) -> (r: &'static str)
        ensures
            r@ == "application/json"@,
    {
        "application/json"
    }

    /// The JSON text of a raw server-sent event line, when it carries one
    /// (the framing part of parsing a streaming chunk).
    pub fn streaming_chunk_payload(&self, raw: &[u8]) -> (r: Result<Option<String>, ProviderError>)
        ensures
            valid_utf8(raw@) ==> (r matches Ok(p) && match p {
                Some(s) => chunk_payload(decode_utf8(raw@)) == Some(s@),
                None => chunk_payload(decode_utf8(raw@)) is None,
            }),
            !valid_utf8(raw@) ==> (r matches Err(ProviderError::Other(m)) && m@ == "Invalid UTF-8: "@
                + utf8_error_text(raw@)),
    {
        let line = match str_from_utf8(raw) {
            Ok(s) => s,
            Err(m) => {
                let mut out = chars_of("Invalid UTF-8: ");
                append_str(&mut out, m.as_str());
                return Err(ProviderError::Other(string_of(&out)));
            },
        };
        let chars = chars_of(line);
        let prefix = chars_of("data: ");
        if !has_prefix_exec(&chars, &prefix) {
            return Ok(None);
        }
        let stripped = strip_all_exec(&chars, &prefix);
        let payload = trim_exec(&stripped);
        let done = chars_of("[DONE]");
        if payload.len() == 0 || crate::json::vec_eq(&payload, &done) {
            return Ok(None);
        }
        Ok(Some(string_of(&payload)))
    }

    /// The body of a chat request to a backend (without the temperature, which the
    /// caller adds when the client gave one).
    pub fn chat_request_body(
        &self,
        model_name: &str,
        messages: &Vec<Message>,
        stream: Option<bool>,
        max_tokens: Option<i32>,
    ) -> (r: JsonValue)
        ensures
            is_request_body(r, model_name@, messages@, stream, max_tokens),
    {
        let mut items: Vec<JsonValue> = Vec::new();
        let mut i: usize = 0;
        while i < messages.len()
            invariant
                i <= messages.len(),
                items@.len() == i,
                forall|k: int| 0 <= k < i ==> is_message_json(#[trigger] items@[k], messages@[k]),
            decreases messages.len() - i,
        {
            items.push(message_json(&messages[i]));
            i += 1;
        }
        let flag = match stream {
            Some(b) => b,
            None => false,
        };
        let mut members: Vec<(String, JsonValue)> = Vec::new();
        match max_tokens {
            Some(n) => {
                members.push(("max_tokens".to_owned(), JsonValue::from_i64(n as i64)));
            },
            None => {},
        }
        let base = members.len();
        members.push(("messages".to_owned(), JsonValue::Array(items)));
        members.push(("model".to_owned(), JsonValue::from_text(model_name)));
        members.push(("stream".to_owned(), JsonValue::Bool(flag)));
        proof {
            reveal_strlit("max_tokens");
            reveal_strlit("messages");
            reveal_strlit("model");
            reveal_strlit("stream");
        }
        let ghost ms = members@;
        assert("max_tokens"@.len() == 10 && "messages"@.len() == 8 && "model"@.len() == 5
            && "stream"@.len() == 6);
        assert(ms[base as int].0@ == "messages"@);
        assert(ms[base + 1].0@ == "model"@);
        assert(ms[base + 2].0@ == "stream"@);
        proof {
            if base == 1 {
                assert(ms[0].0@ == "max_tokens"@);
                lemma_member_lookup_at(ms, "max_tokens"@, 0);
            } else {
                assert forall|j: int| 0 <= j < ms.len() implies ms[j].0@ != "max_tokens"@ by {
                    assert(ms[j].0@.len() != 10);
                }
                crate::json::lemma_member_lookup_absent(ms, "max_tokens"@);
            }
            lemma_member_lookup_at(ms, "messages"@, base as int);
            lemma_member_lookup_at(ms, "model"@, base + 1);
            lemma_member_lookup_at(ms, "stream"@, base + 2);
        }
        let r = JsonValue::Object(members);
        assert(object_keys(r) =~= match max_tokens {
            Some(_) => seq!["max_tokens"@, "messages"@, "model"@, "stream"@],
            None => seq!["messages"@, "model"@, "stream"@],
        });
        r
    }

    /// The token usage a response body reports, when all three counts are there.
    pub fn parse_usage(&self, body: &JsonValue) -> (r: Option<Usage>)
        ensures
            r == usage_in(*body),
    {
        match body.get("usage") {
            Some(u) => {
                let p = u.member_i64("prompt_tokens");
                let c = u.member_i64("completion_tokens");
                let t = u.member_i64("total_tokens");
                match (p, c, t) {
                    (Some(p), Some(c), Some(t)) => Some(
                        Usage { prompt_tokens: p, completion_tokens: c, total_tokens: t },
                    ),
                    _ => None,
                }
            },
            None => None,
        }
    }

    /// The URL a chat request to a backend goes to: `{endpoint_url}/chat/completions`.
    pub fn chat_endpoint(&self, endpoint_url: &str) -> (r: String)
        ensures
            r@ == chat_endpoint_of(endpoint_url@),
            r@.take(endpoint_url@.len() as int) == endpoint_url@,
            r@.skip(endpoint_url@.len() as int) == "/chat/completions"@,
    {
        let mut out = chars_of(endpoint_url);
        append_str(&mut out, "/chat/completions");
        string_of(&out)
    }

    /// The `Authorization` header value `Bearer {api_key}`, or an error when that text
    /// cannot be a header value.
    pub fn authorization_value(&self, api_key: &str) -> (r: Result<String, ProviderError>)
        ensures
            header_value_ok(bearer_value(api_key@)) ==> (r matches Ok(v) && v@ == bearer_value(
                api_key@,
            )),
            !header_value_ok(bearer_value(api_key@)) ==> (r matches Err(ProviderError::Other(m))
                && m@ == "Invalid header value: failed to parse header value"@),
    {
        let mut out = chars_of("Bearer ");
        append_str(&mut out, api_key);
        let value = string_of(&out);
        match check_header_value(value.as_str()) {
            Ok(()) => Ok(value),
            Err(m) => {
                let mut msg = chars_of("Invalid header value: ");
                append_str(&mut msg, m.as_str());
                proof {
                    reveal_strlit("Invalid header value: ");
                    reveal_strlit("failed to parse header value");
                    reveal_strlit("Invalid header value: failed to parse header value");
                    assert(msg@ =~= "Invalid header value: failed to parse header value"@);
                }
                Err(ProviderError::Other(string_of(&msg)))
            },
        }
    }
}

} // verus!
