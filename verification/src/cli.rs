//! The decisions and reports of the command-line tool: its log level, the user
//! it creates, the tunnel address, and the lines it prints.
use vstd::prelude::*;

use crate::config::{address_of, Cli, Config};
use crate::json::vec_eq;
use crate::models::NewUser;
use crate::text::{append_str, chars_of, copy_str, decimal, decimal_int, push_decimal_i64, string_of};

verus! {

broadcast use vstd::string::group_string_axioms;

// ---------------------------------------------------------------------------
// Log level
// ---------------------------------------------------------------------------

/// How much the server logs.
#[derive(Debug, Clone, Copy, PartialEq, Eq)]
pub enum LogLevel {
    Trace,
    Debug,
    Info,
    Warn,
    Error,
}

/// What `str::to_lowercase` makes of a text (Unicode lower-case mapping).
pub uninterp spec fn lowercase(s: Seq<char>) -> Seq<char>;

/// `str::to_lowercase`; its contract names the result only, which depends on the text alone.
#[verifier::external_body]
fn to_lowercase(s: &str) -> (r: String)
    ensures
        r@ == lowercase(s@),
{
    s.to_lowercase()
}

/// The level a lower-cased name stands for; an unknown name means `Info`.
pub open spec fn level_named(lower: Seq<char>) -> LogLevel {
    if lower == "trace"@ {
        LogLevel::Trace
    } else if lower == "debug"@ {
        LogLevel::Debug
    } else if lower == "info"@ {
        LogLevel::Info
    } else if lower == "warn"@ {
        LogLevel::Warn
    } else if lower == "error"@ {
        LogLevel::Error
    } else {
        LogLevel::Info
    }
}

/// The level a name gives, whatever its case.
pub fn log_level_from(name: &str) -> (r: LogLevel)
    ensures
        r == level_named(lowercase(name@)),
{
    let lower = to_lowercase(name);
    log_level_of_lowered(lower.as_str())
}

/// The level a lower-cased name stands for; an unknown name means `Info`.
pub fn log_level_of_lowered(lower: &str) -> (r: LogLevel)
    ensures
        r == level_named(lower@),
{
    let l = chars_of(lower);
    if vec_eq(&l, &chars_of("trace")) {
        LogLevel::Trace
    } else if vec_eq(&l, &chars_of("debug")) {
        LogLevel::Debug
    } else if vec_eq(&l, &chars_of("info")) {
        LogLevel::Info
    } else if vec_eq(&l, &chars_of("warn")) {
        LogLevel::Warn
    } else if vec_eq(&l, &chars_of("error")) {
        LogLevel::Error
    } else {
        LogLevel::Info
    }
}

/// The log level setting: the value of `LLAMP_LOG_LEVEL` when it is set, else `info`.
pub fn log_level_setting(from_env: Option<String>) -> (r: String)
    ensures
        match from_env {
            Some(l) => r == l,
            None => r@ == "info"@,
        },
{
    match from_env {
        Some(l) => l,
        None => copy_str("info"),
    }
}

// ---------------------------------------------------------------------------
// Users created from the command line
// ---------------------------------------------------------------------------

/// A lower-case hexadecimal digit.
pub open spec fn is_lower_hex(c: char) -> bool {
    ('0' <= c && c <= '9') || ('a' <= c && c <= 'f')
}

/// The text of a random (version 4) UUID: 36 characters, hyphens at 8, 13, 18 and
/// 23, lower-case hex digits elsewhere, version digit `4`, variant digit `8` to `b`.
pub open spec fn is_v4_uuid_text(s: Seq<char>) -> bool {
    &&& s.len() == 36
    &&& forall|i: int|
        0 <= i < 36 ==> if i == 8 || i == 13 || i == 18 || i == 23 {
            s[i] == '-'
        } else {
            is_lower_hex(#[trigger] s[i])
        }
    &&& s[14] == '4'
    &&& s[19] == '8' || s[19] == '9' || s[19] == 'a' || s[19] == 'b'
}

/// `uuid::Uuid::new_v4().to_string()`. The value is random; its contract claims
/// only its form: `new_v4` sets the version nibble to 4 and the variant bits to
/// `10`, and `Display` writes the hyphenated lower-case form.
#[verifier::external_body]
fn random_uuid_text() -> (r: String)
    ensures
        is_v4_uuid_text(r@),
{
    uuid::Uuid::new_v4().to_string()
}

/// A proxy key: `llamp-` and a random UUID.
pub open spec fn is_proxy_key(k: Seq<char>) -> bool {
    k.len() == 42 && k.take(6) == "llamp-"@ && is_v4_uuid_text(k.skip(6))
}

/// The proxy key made of a UUID's text: `llamp-` followed by it.
pub fn proxy_key_from(uuid_text: &str) -> (r: String)
    ensures
        r@ == "llamp-"@ + uuid_text@,
{
    let mut out = chars_of("llamp-");
    append_str(&mut out, uuid_text);
    string_of(&out)
}

/// A fresh proxy key, `llamp-` followed by a random UUID (`proxy_key_from` of a
/// UUID drawn by `uuid`).
pub fn new_proxy_key() -> (r: String)
    ensures
        is_proxy_key(r@),
{
    let u = random_uuid_text();
    let r = proxy_key_from(u.as_str());
    proof {
        reveal_strlit("llamp-");
        assert(r@.take(6) =~= "llamp-"@);
        assert(r@.skip(6) =~= u@);
    }
    r
}

/// The user the command line creates: enabled, all backends allowed, the given
/// rate limit, a budget of 1 000 000 tokens a month.
pub fn cli_new_user(username: String, rate_limit: i32, proxy_key: String) -> (r: NewUser)
    ensures
        r.username == username,
        r.proxy_key == proxy_key,
        r.enabled,
        r.allowed_backends is None,
        r.rate_limit_requests_per_minute == Some(rate_limit),
        r.monthly_token_budget == Some(1000000i64),
{
    NewUser {
        username,
        proxy_key,
        enabled: true,
        allowed_backends: None,
        rate_limit_requests_per_minute: Some(rate_limit),
        monthly_token_budget: Some(1000000),
    }
}

// ---------------------------------------------------------------------------
// Tunnel
// ---------------------------------------------------------------------------

/// The address a tunnel exposes: the one given, else the local server's
/// default address (`http://localhost:8080`).
pub open spec fn tunnel_target(url: Option<Seq<char>>) -> Seq<char> {
    match url {
        Some(u) => u,
        None => "http://"@ + address_of("localhost"@, 8080),
    }
}

/// The address a tunnel exposes.
pub fn tunnel_server_url(url: Option<String>) -> (r: String)
    ensures
        r@ == tunnel_target(
            match url {
                Some(u) => Some(u@),
                None => None,
            },
        ),
{
    match url {
        Some(u) => u,
        None => {
            let cli = Cli {
                admin_key: None,
                port: 8080,
                host: copy_str("localhost"),
                config: None,
                database: Some(copy_str("sqlite://./llamp.db")),
            };
            match Config::from_args(&cli) {
                Ok(config) => {
                    let mut out = chars_of("http://");
                    let address = config.get_address();
                    append_str(&mut out, address.as_str());
                    string_of(&out)
                },
                Err(e) => e.message,
            }
        },
    }
}

// ---------------------------------------------------------------------------
// Reports
// ---------------------------------------------------------------------------

/// A line of a listing: `  <id> - <name> (<detail>)`.
pub open spec fn listing_text(id: i64, name: Seq<char>, detail: Seq<char>) -> Seq<char> {
    "  "@ + decimal_int(id as int) + " - "@ + name + " ("@ + detail + ")"@
}

/// A line of a listing of backends (name and alias) or users (name and key).
pub fn listing_line(id: i64, name: &str, detail: &str) -> (r: String)
    ensures
        r@ == listing_text(id, name@, detail@),
{
    let mut out = chars_of("  ");
    push_decimal_i64(&mut out, id);
    append_str(&mut out, " - ");
    append_str(&mut out, name);
    append_str(&mut out, " (");
    append_str(&mut out, detail);
    append_str(&mut out, ")");
    string_of(&out)
}

/// A line of the usage statistics: `  <name>: <count> requests, <tokens> tokens`,
/// counting no tokens when there are none.
pub open spec fn stats_text(name: Seq<char>, count: i64, tokens: Option<i64>) -> Seq<char> {
    "  "@ + name + ": "@ + decimal_int(count as int) + " requests, "@ + decimal_int(
        match tokens {
            Some(t) => t as int,
            None => 0,
        },
    ) + " tokens"@
}

/// A line of the usage statistics by user or by model.
pub fn stats_line(name: &str, count: i64, tokens: Option<i64>) -> (r: String)
    ensures
        r@ == stats_text(name@, count, tokens),
{
    let mut out = chars_of("  ");
    append_str(&mut out, name);
    append_str(&mut out, ": ");
    push_decimal_i64(&mut out, count);
    append_str(&mut out, " requests, ");
    let t = match tokens {
        Some(t) => t,
        None => 0,
    };
    push_decimal_i64(&mut out, t);
    append_str(&mut out, " tokens");
    string_of(&out)
}

/// The record kinds the tool manages.
#[derive(Debug, Clone, Copy, PartialEq, Eq)]
pub enum RecordKind {
    Backend,
    User,
}

/// The name of a kind, capitalised or not.
pub open spec fn kind_name(kind: RecordKind, capital: bool) -> Seq<char> {
    match (kind, capital) {
        (RecordKind::Backend, true) => "Backend"@,
        (RecordKind::Backend, false) => "backend"@,
        (RecordKind::User, true) => "User"@,
        (RecordKind::User, false) => "user"@,
    }
}

fn kind_name_exec(kind: RecordKind, capital: bool) -> (r: &'static str)
    ensures
        r@ == kind_name(kind, capital),
{
    match (kind, capital) {
        (RecordKind::Backend, true) => "Backend",
        (RecordKind::Backend, false) => "backend",
        (RecordKind::User, true) => "User",
        (RecordKind::User, false) => "user",
    }
}

/// `<Kind> with ID <id> not found`.
pub open spec fn not_found_text(kind: RecordKind, id: i64) -> Seq<char> {
    kind_name(kind, true) + " with ID "@ + decimal_int(id as int) + " not found"@
}

/// The line printed when no record of the kind has the id.
pub fn not_found_line(kind: RecordKind, id: i64) -> (r: String)
    ensures
        r@ == not_found_text(kind, id),
{
    let mut out = chars_of(kind_name_exec(kind, true));
    append_str(&mut out, " with ID ");
    push_decimal_i64(&mut out, id);
    append_str(&mut out, " not found");
    string_of(&out)
}

/// The line printed after a deletion: `Deleted <kind> with ID: <id>` when a record
/// was deleted, else the not-found line.
pub open spec fn deletion_text(kind: RecordKind, id: i64, deleted: bool) -> Seq<char> {
    if deleted {
        "Deleted "@ + kind_name(kind, false) + " with ID: "@ + decimal_int(id as int)
    } else {
        not_found_text(kind, id)
    }
}

/// The line printed after deleting the record `id` of a kind.
pub fn deletion_line(kind: RecordKind, id: i64, deleted: bool) -> (r: String)
    ensures
        r@ == deletion_text(kind, id, deleted),
{
    if deleted {
        let mut out = chars_of("Deleted ");
        append_str(&mut out, kind_name_exec(kind, false));
        append_str(&mut out, " with ID: ");
        push_decimal_i64(&mut out, id);
        string_of(&out)
    } else {
        not_found_line(kind, id)
    }
}

/// The position of the first entry with the given id.
pub fn find_by_id(ids: &Vec<i64>, id: i64) -> (r: Option<usize>)
    ensures
        match r {
            Some(i) => i < ids@.len() && ids@[i as int] == id && forall|j: int|
                0 <= j < i ==> ids@[j] != id,
            None => forall|j: int| 0 <= j < ids@.len() ==> ids@[j] != id,
        },
{
    let mut i: usize = 0;
    while i < ids.len()
        invariant
            i <= ids.len(),
            forall|j: int| 0 <= j < i ==> ids@[j] != id,
        decreases ids.len() - i,
    {
        if ids[i] == id {
            return Some(i);
        }
        i += 1;
    }
    None
}

/// The report of a backend check: the backend is valid when it has an endpoint URL.
pub open spec fn backend_check_text(
    display_name: Seq<char>,
    model_alias: Seq<char>,
    provider_type: Seq<char>,
    endpoint_url: Seq<char>,
) -> Seq<Seq<char>> {
    seq![
        "Testing backend: "@ + display_name + " ("@ + model_alias + ")"@,
        "  Provider type: "@ + provider_type,
        "  Endpoint: "@ + endpoint_url,
    ] + if endpoint_url.len() == 0 {
        seq!["✗ Backend configuration error: missing endpoint URL"@]
    } else {
        seq!["✓ Backend configuration is valid"@, "✓ Backend connection test passed"@]
    }
}

/// The lines printed when a backend is checked.
pub fn backend_check_report(
    display_name: &str,
    model_alias: &str,
    provider_type: &str,
    endpoint_url: &str,
) -> (r: Vec<String>)
    ensures
        r@.map_values(|l: String| l@) == backend_check_text(
            display_name@,
            model_alias@,
            provider_type@,
            endpoint_url@,
        ),
{
    let mut lines: Vec<String> = Vec::new();
    let mut first = chars_of("Testing backend: ");
    append_str(&mut first, display_name);
    append_str(&mut first, " (");
    append_str(&mut first, model_alias);
    append_str(&mut first, ")");
    lines.push(string_of(&first));
    lines.push(crate::text::joined("  Provider type: ", provider_type));
    lines.push(crate::text::joined("  Endpoint: ", endpoint_url));
    if endpoint_url.is_empty() {
        lines.push(copy_str("✗ Backend configuration error: missing endpoint URL"));
    } else {
        lines.push(copy_str("✓ Backend configuration is valid"));
        lines.push(copy_str("✓ Backend connection test passed"));
    }
    assert(lines@.map_values(|l: String| l@) =~= backend_check_text(
        display_name@,
        model_alias@,
        provider_type@,
        endpoint_url@,
    ));
    lines
}

} // verus!
