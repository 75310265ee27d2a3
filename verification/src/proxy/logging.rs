//! The record kept of one request/response exchange.
use vstd::prelude::*;

use crate::json::{
    json_get, json_member_str, lemma_member_lookup_at, number_of_i64, object_keys, JsonNumber,
    JsonValue,
};
use crate::text::copy_str;

verus! {

broadcast use vstd::string::group_string_axioms;

/// What is logged of one request and its response.
#[derive(Debug, PartialEq, Eq)]
pub struct RequestLog {
    pub timestamp: String,
    pub method: String,
    pub path: String,
    pub user_id: i64,
    pub status_code: u16,
    pub duration_ms: u128,
    pub model_alias: Option<String>,
    pub prompt_tokens: Option<i64>,
    pub completion_tokens: Option<i64>,
    pub total_tokens: Option<i64>,
    pub error: Option<String>,
}

/// An RFC 3339 time stamp in UTC as chrono writes it: it ends with the offset `+00:00`.
pub open spec fn ends_in_utc_offset(s: Seq<char>) -> bool {
    s.len() >= 6 && s.skip(s.len() - 6) == "+00:00"@
}

/// The current UTC time in RFC 3339: `SystemTime::now` converted by chrono's
/// `From<SystemTime> for DateTime<Utc>`, then `DateTime::to_rfc3339`. The conversion
/// also handles a clock set before 1970; it unwraps only for a time outside chrono's
/// range (beyond the year 262143). Its contract claims what `write_rfc3339` in
/// chrono's `format/formatting.rs` writes last for the zero offset of `Utc`
/// (minutes precision, colons, no `Z`): `+00:00`. The date and time before it
/// are the clock's reading, of which nothing is promised.
#[verifier::external_body]
fn now_rfc3339() -> (r: String)
    ensures
        ends_in_utc_offset(r@),
{
    chrono::DateTime::<chrono::Utc>::from(std::time::SystemTime::now()).to_rfc3339()
}

/// The member `key` of `v` is the JSON form of an optional string.
pub open spec fn member_is_opt_text(v: JsonValue, key: Seq<char>, s: Option<String>) -> bool {
    match s {
        Some(t) => json_member_str(v, key) == Some(t@),
        None => json_get(v, key) == Some(JsonValue::Null),
    }
}

/// The member `key` of `v` is the JSON form of an optional integer.
pub open spec fn member_is_opt_i64(v: JsonValue, key: Seq<char>, n: Option<i64>) -> bool {
    match n {
        Some(m) => json_get(v, key) == Some(JsonValue::Number(number_of_i64(m))),
        None => json_get(v, key) == Some(JsonValue::Null),
    }
}

/// The JSON object a log is written as: every field under its own name, keys in order.
pub open spec fn is_log_json(v: JsonValue, l: RequestLog) -> bool {
    &&& object_keys(v) == seq![
        "completion_tokens"@,
        "duration_ms"@,
        "error"@,
        "method"@,
        "model_alias"@,
        "path"@,
        "prompt_tokens"@,
        "status_code"@,
        "timestamp"@,
        "total_tokens"@,
        "user_id"@,
    ]
    &&& member_is_opt_i64(v, "completion_tokens"@, l.completion_tokens)
    &&& json_get(v, "duration_ms"@) == Some(
        JsonValue::Number(JsonNumber::PosInt(l.duration_ms as u64)),
    )
    &&& member_is_opt_text(v, "error"@, l.error)
    &&& json_member_str(v, "method"@) == Some(l.method@)
    &&& member_is_opt_text(v, "model_alias"@, l.model_alias)
    &&& json_member_str(v, "path"@) == Some(l.path@)
    &&& member_is_opt_i64(v, "prompt_tokens"@, l.prompt_tokens)
    &&& json_get(v, "status_code"@) == Some(
        JsonValue::Number(JsonNumber::PosInt(l.status_code as u64)),
    )
    &&& json_member_str(v, "timestamp"@) == Some(l.timestamp@)
    &&& member_is_opt_i64(v, "total_tokens"@, l.total_tokens)
    &&& json_get(v, "user_id"@) == Some(JsonValue::Number(number_of_i64(l.user_id)))
}

impl RequestLog {
    /// A log of a request by `user_id`, stamped with the current time; status 0,
    /// duration 0, and no model, tokens or error yet. It is `new_at` with the clock's
    /// reading in RFC 3339, in UTC, as the timestamp.
    pub fn new(method: String, path: String, user_id: i64) -> (r: RequestLog)
        ensures
            ends_in_utc_offset(r.timestamp@),
            r == (RequestLog {
                timestamp: r.timestamp,
                method,
                path,
                user_id,
                status_code: 0,
                duration_ms: 0,
                model_alias: None,
                prompt_tokens: None,
                completion_tokens: None,
                total_tokens: None,
                error: None,
            }),
    {
        RequestLog::new_at(now_rfc3339(), method, path, user_id)
    }

    /// A log of a request by `user_id` stamped with `timestamp`; status 0, duration 0,
    /// and no model, tokens or error yet.
    pub fn new_at(timestamp: String, method: String, path: String, user_id: i64) -> (r: RequestLog)
        ensures
            r == (RequestLog {
                timestamp,
                method,
                path,
                user_id,
                status_code: 0,
                duration_ms: 0,
                model_alias: None,
                prompt_tokens: None,
                completion_tokens: None,
                total_tokens: None,
                error: None,
            }),
    {
        RequestLog {
            timestamp,
            method,
            path,
            user_id,
            status_code: 0,
            duration_ms: 0,
            model_alias: None,
            prompt_tokens: None,
            completion_tokens: None,
            total_tokens: None,
            error: None,
        }
    }

    /// The log with its model alias set.
    pub fn with_model(self, model: String) -> (r: RequestLog)
        ensures
            r == (RequestLog { model_alias: Some(model), ..self }),
    {
        RequestLog { model_alias: Some(model), ..self }
    }

    /// The log with its three token counts set.
    pub fn with_tokens(self, prompt: i64, completion: i64, total: i64) -> (r: RequestLog)
        ensures
            r == (RequestLog {
                prompt_tokens: Some(prompt),
                completion_tokens: Some(completion),
                total_tokens: Some(total),
                ..self
            }),
    {
        RequestLog {
            prompt_tokens: Some(prompt),
            completion_tokens: Some(completion),
            total_tokens: Some(total),
            ..self
        }
    }

    /// The log with its status code set.
    pub fn with_status(self, status: u16) -> (r: RequestLog)
        ensures
            r == (RequestLog { status_code: status, ..self }),
    {
        RequestLog { status_code: status, ..self }
    }

    /// The log with its duration set.
    pub fn with_duration(self, duration_ms: u128) -> (r: RequestLog)
        ensures
            r == (RequestLog { duration_ms: duration_ms, ..self }),
    {
        RequestLog { duration_ms, ..self }
    }

    /// The log with its error set.
    pub fn with_error(self, error: String) -> (r: RequestLog)
        ensures
            r == (RequestLog { error: Some(error), ..self }),
    {
        RequestLog { error: Some(error), ..self }
    }

    /// The log as a JSON object. A duration beyond `u64::MAX` milliseconds has
    /// no JSON number here (`serde_json` refuses it), so it is ruled out.
    pub fn to_json(&self) -> (r: JsonValue)
        requires
            self.duration_ms <= u64::MAX,
        ensures
            is_log_json(r, *self),
    {
        let mut members: Vec<(String, JsonValue)> = Vec::new();
        members.push(
            (copy_str("completion_tokens"), JsonValue::from_opt_i64(self.completion_tokens)),
        );
        members.push(
            (
                copy_str("duration_ms"),
                JsonValue::Number(JsonNumber::PosInt(self.duration_ms as u64)),
            ),
        );
        members.push((copy_str("error"), JsonValue::from_opt_text(&self.error)));
        members.push((copy_str("method"), JsonValue::from_text(self.method.as_str())));
        members.push((copy_str("model_alias"), JsonValue::from_opt_text(&self.model_alias)));
        members.push((copy_str("path"), JsonValue::from_text(self.path.as_str())));
        members.push((copy_str("prompt_tokens"), JsonValue::from_opt_i64(self.prompt_tokens)));
        members.push(
            (
                copy_str("status_code"),
                JsonValue::Number(JsonNumber::PosInt(self.status_code as u64)),
            ),
        );
        members.push((copy_str("timestamp"), JsonValue::from_text(self.timestamp.as_str())));
        members.push((copy_str("total_tokens"), JsonValue::from_opt_i64(self.total_tokens)));
        members.push((copy_str("user_id"), JsonValue::from_i64(self.user_id)));
        proof {
            reveal_strlit("completion_tokens");
            reveal_strlit("duration_ms");
            reveal_strlit("error");
            reveal_strlit("method");
            reveal_strlit("model_alias");
            reveal_strlit("path");
            reveal_strlit("prompt_tokens");
            reveal_strlit("status_code");
            reveal_strlit("timestamp");
            reveal_strlit("total_tokens");
            reveal_strlit("user_id");
        }
        let ghost m = members@;
        let r = JsonValue::Object(members);
        assert(m[0].0@ == "completion_tokens"@);
        assert("completion_tokens"@.len() == 17);
        assert(m[1].0@ == "duration_ms"@);
        assert("duration_ms"@.len() == 11);
        assert(m[2].0@ == "error"@);
        assert("error"@.len() == 5);
        assert(m[3].0@ == "method"@);
        assert("method"@.len() == 6);
        assert(m[4].0@ == "model_alias"@);
        assert("model_alias"@.len() == 11);
        assert(m[5].0@ == "path"@);
        assert("path"@.len() == 4);
        assert(m[6].0@ == "prompt_tokens"@);
        assert("prompt_tokens"@.len() == 13);
        assert(m[7].0@ == "status_code"@);
        assert("status_code"@.len() == 11);
        assert(m[8].0@ == "timestamp"@);
        assert("timestamp"@.len() == 9);
        assert(m[9].0@ == "total_tokens"@);
        assert("total_tokens"@.len() == 12);
        assert(m[10].0@ == "user_id"@);
        assert("user_id"@.len() == 7);
        assert("duration_ms"@[0] == 'd');
        assert("model_alias"@[0] == 'm');
        assert("status_code"@[0] == 's');
        // The keys are distinct, so each lookup finds its own member.
        proof {
            lemma_member_lookup_at(m, "completion_tokens"@, 0);
            lemma_member_lookup_at(m, "duration_ms"@, 1);
            lemma_member_lookup_at(m, "error"@, 2);
            lemma_member_lookup_at(m, "method"@, 3);
            lemma_member_lookup_at(m, "model_alias"@, 4);
            lemma_member_lookup_at(m, "path"@, 5);
            lemma_member_lookup_at(m, "prompt_tokens"@, 6);
            lemma_member_lookup_at(m, "status_code"@, 7);
            lemma_member_lookup_at(m, "timestamp"@, 8);
            lemma_member_lookup_at(m, "total_tokens"@, 9);
            lemma_member_lookup_at(m, "user_id"@, 10);
        }
        assert(object_keys(r) =~= seq![
            "completion_tokens"@,
            "duration_ms"@,
            "error"@,
            "method"@,
            "model_alias"@,
            "path"@,
            "prompt_tokens"@,
            "status_code"@,
            "timestamp"@,
            "total_tokens"@,
            "user_id"@,
        ]);
        r
    }
}

} // verus!
