//! Admission of a request: its proxy key, the user's monthly token budget and
//! the user's rate limit.
//!
//! A request carries its key in the `Authorization` header as `Bearer <key>`.
//! The key is looked up among the users; the request passes only for an
//! enabled user who has tokens left this month and has not sent more requests
//! in the last minute than the limit allows.
use vstd::prelude::*;

use crate::json::vec_eq;
use crate::models::User;
use crate::text::{
    append_str, chars_of, has_prefix, has_prefix_exec, lemma_strip_all_leaves_no_prefix, strip_all,
    strip_all_exec, string_of,
};

verus! {

broadcast use vstd::string::group_string_axioms;

/// The proxy key a header carries: its text with every leading `Bearer ` removed.
pub open spec fn token_of(header: Seq<char>) -> Seq<char> {
    strip_all(header, "Bearer "@)
}

/// The first step of authentication: a request without an `Authorization`
/// header of the form `Bearer <key>` is refused; otherwise its key is to be looked up.
#[derive(Debug, PartialEq, Eq)]
pub enum AuthStep {
    /// Refuse the request as unauthorized.
    Reject,
    /// Look up the user holding this key.
    Lookup(String),
}

/// The decision on a request once its key was looked up.
#[derive(Debug, PartialEq, Eq)]
pub enum AuthOutcome {
    /// No enabled user holds the key: 401.
    Unauthorized,
    /// The user has used up the monthly token budget: 403.
    BudgetExhausted,
    /// The user store could not be read: 500.
    InternalError,
    /// The request proceeds on behalf of this user.
    Authorized(User),
}

/// The HTTP status a refused request is answered with; `None` when it proceeds.
pub open spec fn outcome_status(o: AuthOutcome) -> Option<u16> {
    match o {
        AuthOutcome::Unauthorized => Some(401),
        AuthOutcome::BudgetExhausted => Some(403),
        AuthOutcome::InternalError => Some(500),
        AuthOutcome::Authorized(_) => None,
    }
}

/// A user with the monthly budget `budget` (none when unset) who has used
/// `used_this_month` tokens this month has no tokens left.
pub open spec fn budget_exhausted(budget: Option<i64>, used_this_month: i64) -> bool {
    budget matches Some(b) && b >= 0 && used_this_month >= b
}

/// The decision for what the lookup of a key gave, with the tokens its holder
/// used this month.
pub open spec fn decision_for(lookup: Result<Option<User>, String>, used_this_month: i64) -> AuthOutcome {
    match lookup {
        Err(_) => AuthOutcome::InternalError,
        Ok(None) => AuthOutcome::Unauthorized,
        Ok(Some(u)) => if !u.enabled {
            AuthOutcome::Unauthorized
        } else if budget_exhausted(u.monthly_token_budget, used_this_month) {
            AuthOutcome::BudgetExhausted
        } else {
            AuthOutcome::Authorized(u)
        },
    }
}

/// Starts authenticating a request whose `Authorization` header reads `header`
/// (`None` when it is absent or not visible ASCII): a header that does not start
/// with `Bearer ` is refused, and otherwise the key after the prefix is looked up.
pub fn begin_auth(header: Option<&str>) -> (r: AuthStep)
    ensures
        match header {
            None => r == AuthStep::Reject,
            Some(h) => if has_prefix(h@, "Bearer "@) {
                r matches AuthStep::Lookup(t) && t@ == token_of(h@)
            } else {
                r == AuthStep::Reject
            },
        },
{
    match header {
        None => AuthStep::Reject,
        Some(h) => {
            let chars = chars_of(h);
            let prefix = chars_of("Bearer ");
            if !has_prefix_exec(&chars, &prefix) {
                return AuthStep::Reject;
            }
            let token = strip_all_exec(&chars, &prefix);
            AuthStep::Lookup(string_of(&token))
        },
    }
}

/// Decides on a request from the lookup of its key (an error when the user store
/// could not be read) and the tokens its holder used this month: only an enabled
/// user with tokens left is let through.
pub fn authorize(lookup: Result<Option<User>, String>, used_this_month: i64) -> (r: AuthOutcome)
    ensures
        r == decision_for(lookup, used_this_month),
{
    match lookup {
        Err(_) => AuthOutcome::InternalError,
        Ok(None) => AuthOutcome::Unauthorized,
        Ok(Some(u)) => if !u.enabled {
            AuthOutcome::Unauthorized
        } else {
            let exhausted = match u.monthly_token_budget {
                Some(b) => b >= 0 && used_this_month >= b,
                None => false,
            };
            if exhausted {
                AuthOutcome::BudgetExhausted
            } else {
                AuthOutcome::Authorized(u)
            }
        },
    }
}

impl AuthOutcome {
    /// The HTTP status a refused request is answered with; `None` when it proceeds.
    pub fn status_code(&self) -> (r: Option<u16>)
        ensures
            r == outcome_status(*self),
    {
        match self {
            AuthOutcome::Unauthorized => Some(401),
            AuthOutcome::BudgetExhausted => Some(403),
            AuthOutcome::InternalError => Some(500),
            AuthOutcome::Authorized(_) => None,
        }
    }
}

/// The seconds a client over its rate limit is told to wait: the length of the
/// window the limit counts requests in.
pub open spec fn rate_window_secs() -> u64 {
    60
}

/// Whether the rate limit lets one more request through: there is no limit, or
/// fewer requests than the limit came in the last minute.
pub open spec fn rate_allows(limit: Option<i32>, requests_in_window: u64) -> bool {
    match limit {
        None => true,
        Some(l) => (requests_in_window as int) < (l as int),
    }
}

/// The rate limit's decision on a request.
#[derive(Debug, Clone, Copy, PartialEq, Eq)]
pub enum RateDecision {
    /// The request goes on.
    Allow,
    /// The request is answered 429 with a `Retry-After` of this many seconds.
    Limited { retry_after_secs: u64 },
}

/// The decision for a user with the limit `limit` (requests per minute, none when
/// unset) who sent `requests_in_window` requests in the last minute.
pub fn rate_decision(limit: Option<i32>, requests_in_window: u64) -> (r: RateDecision)
    ensures
        r is Allow <==> rate_allows(limit, requests_in_window),
        r matches RateDecision::Limited { retry_after_secs } ==> retry_after_secs
            == rate_window_secs(),
{
    match limit {
        None => RateDecision::Allow,
        Some(l) => if l > 0 && requests_in_window < l as u64 {
            RateDecision::Allow
        } else {
            RateDecision::Limited { retry_after_secs: 60 }
        },
    }
}

impl RateDecision {
    /// The HTTP status of a limited request (429); `None` when it goes on.
    pub fn status_code(&self) -> (r: Option<u16>)
        ensures
            self is Allow ==> r is None,
            self is Limited ==> r == Some(429u16),
    {
        match self {
            RateDecision::Allow => None,
            RateDecision::Limited { .. } => Some(429),
        }
    }
}

/// A request to the administration routes presents the admin key `key`: as the
/// `X-Admin-Key` header, or as `Authorization: Bearer <key>`.
pub open spec fn admin_presented(
    x_admin_key: Option<&str>,
    authorization: Option<&str>,
    key: Seq<char>,
) -> bool {
    ||| x_admin_key matches Some(h) && h@ == key
    ||| authorization matches Some(h) && h@ == "Bearer "@ + key
}

/// Whether a request to the administration routes may proceed: an admin key is
/// configured, and the request presents it. Without a configured key every such
/// request is refused.
pub fn admin_authorized(
    x_admin_key: Option<&str>,
    authorization: Option<&str>,
    admin_key: Option<&str>,
) -> (r: bool)
    ensures
        r == match admin_key {
            Some(k) => admin_presented(x_admin_key, authorization, k@),
            None => false,
        },
{
    let key = match admin_key {
        Some(k) => k,
        None => return false,
    };
    let key_chars = chars_of(key);
    let by_header = match x_admin_key {
        Some(h) => vec_eq(&chars_of(h), &key_chars),
        None => false,
    };
    if by_header {
        return true;
    }
    match authorization {
        Some(h) => {
            let mut expected = chars_of("Bearer ");
            append_str(&mut expected, key);
            vec_eq(&chars_of(h), &expected)
        },
        None => false,
    }
}

/// A request goes through exactly when the lookup of the key it carries found an
/// enabled user with tokens left this month; every other request is refused, with
/// 500 when the store could not be read, 403 when the budget is used up, and 401
/// otherwise.
pub proof fn law_only_enabled_key_holders_pass(
    lookup: Result<Option<User>, String>,
    used_this_month: i64,
)
    ensures
        decision_for(lookup, used_this_month) is Authorized <==> (lookup matches Ok(Some(u))
            && u.enabled && !budget_exhausted(u.monthly_token_budget, used_this_month)),
        decision_for(lookup, used_this_month) matches AuthOutcome::Authorized(u) ==> lookup
            == Ok::<Option<User>, String>(Some(u)),
        outcome_status(decision_for(lookup, used_this_month)) == Some(500u16) <==> lookup is Err,
        outcome_status(decision_for(lookup, used_this_month)) == Some(403u16) <==> (lookup matches Ok(
            Some(u),
        ) && u.enabled && budget_exhausted(u.monthly_token_budget, used_this_month)),
        outcome_status(decision_for(lookup, used_this_month)) == Some(401u16) <==> (lookup matches Ok(
            None,
        ) || (lookup matches Ok(Some(u)) && !u.enabled)),
{
}

/// A request passes the rate limit exactly when the user has no limit or sent
/// fewer requests in the last minute than the limit; the one more request that
/// reaches the limit is refused, and so is every request after it.
pub proof fn law_rate_limit_counts_up_to_the_limit(l: i32, n: u64, m: u64)
    requires
        n <= m,
    ensures
        rate_allows(None, n),
        !rate_allows(Some(l), n) ==> !rate_allows(Some(l), m),
        l > 0 && n == (l as u64) ==> !rate_allows(Some(l), n),
        l > 0 && n < (l as u64) ==> rate_allows(Some(l), n),
{
}

/// The key a header carries never starts with `Bearer `: every leading `Bearer `
/// is removed, and what remains is the end of the header's text.
pub proof fn law_token_has_no_bearer_prefix(header: Seq<char>)
    ensures
        !has_prefix(token_of(header), "Bearer "@),
        token_of(header) == header.skip(header.len() - token_of(header).len()),
{
    reveal_strlit("Bearer ");
    lemma_strip_all_leaves_no_prefix(header, "Bearer "@);
}

} // verus!
