//! A JSON document as the library reads it, and the JSON text the library writes.
//!
//! `JsonValue` holds what the proxy's logic reads from a decoded JSON document:
//! strings, integers, nesting, and which members an object has. A number that
//! is not an integer is kept as `JsonNumber::Float`, without its value, since
//! nothing here reads it.
use vstd::prelude::*;

use crate::text::{append_str, chars_of, copy_str, digit_char};

verus! {

broadcast use vstd::string::group_string_axioms;

/// A JSON number, as `serde_json` stores it.
#[derive(Debug, Clone, Copy, PartialEq, Eq)]
pub enum JsonNumber {
    /// An integer `>= 0`.
    PosInt(u64),
    /// An integer `< 0`.
    NegInt(i64),
    /// Any other number; its value is not kept.
    Float,
}

/// A JSON document.
#[derive(Debug, PartialEq)]
pub enum JsonValue {
    Null,
    Bool(bool),
    Number(JsonNumber),
    String(String),
    Array(Vec<JsonValue>),
    /// Members in order; a lookup finds the first member with the key.
    Object(Vec<(String, JsonValue)>),
}

/// The first member of `members` whose key is `key`.
pub open spec fn member_lookup(members: Seq<(String, JsonValue)>, key: Seq<char>) -> Option<
    JsonValue,
>
    decreases members.len(),
{
    if members.len() == 0 {
        None
    } else if members[0].0@ == key {
        Some(members[0].1)
    } else {
        member_lookup(members.drop_first(), key)
    }
}

/// A lookup finds the member at `i` when its key matches and no earlier one does.
pub proof fn lemma_member_lookup_at(members: Seq<(String, JsonValue)>, key: Seq<char>, i: int)
    requires
        0 <= i < members.len(),
        members[i].0@ == key,
        forall|j: int| 0 <= j < i ==> members[j].0@ != key,
    ensures
        member_lookup(members, key) == Some(members[i].1),
    decreases i,
{
    if i > 0 {
        assert forall|j: int| 0 <= j < i - 1 implies members.drop_first()[j].0@ != key by {
            assert(members.drop_first()[j] == members[j + 1]);
        }
        lemma_member_lookup_at(members.drop_first(), key, i - 1);
    }
}

/// A lookup finds nothing when no member has the key.
pub proof fn lemma_member_lookup_absent(members: Seq<(String, JsonValue)>, key: Seq<char>)
    requires
        forall|j: int| 0 <= j < members.len() ==> members[j].0@ != key,
    ensures
        member_lookup(members, key) is None,
    decreases members.len(),
{
    if members.len() > 0 {
        assert forall|j: int| 0 <= j < members.len() - 1 implies members.drop_first()[j].0@
            != key by {
            assert(members.drop_first()[j] == members[j + 1]);
        }
        lemma_member_lookup_absent(members.drop_first(), key);
    }
}

/// A member added after the others, under another key, changes no lookup of `key`.
pub proof fn lemma_member_lookup_push(
    members: Seq<(String, JsonValue)>,
    m: (String, JsonValue),
    key: Seq<char>,
)
    requires
        m.0@ != key,
    ensures
        member_lookup(members.push(m), key) == member_lookup(members, key),
    decreases members.len(),
{
    if members.len() > 0 {
        assert(members.push(m)[0] == members[0]);
        assert(members.push(m).drop_first() =~= members.drop_first().push(m));
        lemma_member_lookup_push(members.drop_first(), m, key);
    } else {
        assert(members.push(m).drop_first() =~= Seq::<(String, JsonValue)>::empty());
        assert(member_lookup(Seq::<(String, JsonValue)>::empty(), key) is None);
        assert(member_lookup(members.push(m), key) == member_lookup(members.push(m).drop_first(), key));
    }
}

/// `Value::get(key)`: the member `key` of an object; `None` for any other value.
pub open spec fn json_get(v: JsonValue, key: Seq<char>) -> Option<JsonValue> {
    match v {
        JsonValue::Object(members) => member_lookup(members@, key),
        _ => None,
    }
}

/// The keys of an object, in order.
pub open spec fn object_keys(v: JsonValue) -> Seq<Seq<char>> {
    match v {
        JsonValue::Object(members) => members@.map_values(|m: (String, JsonValue)| m.0@),
        _ => Seq::empty(),
    }
}

/// `a` comes before `b` in the order of `String`'s `Ord`: lexicographic by code
/// point (the byte order of their UTF-8 forms).
pub open spec fn text_less(a: Seq<char>, b: Seq<char>) -> bool
    decreases a.len(),
{
    if a.len() == 0 {
        b.len() > 0
    } else if b.len() == 0 {
        false
    } else if a[0] != b[0] {
        (a[0] as u32) < (b[0] as u32)
    } else {
        text_less(a.drop_first(), b.drop_first())
    }
}

/// Member names in the order `serde_json` writes a `Map` in when it keeps no
/// insertion order (a `BTreeMap`): strictly ascending.
pub open spec fn keys_ascending(keys: Seq<Seq<char>>) -> bool {
    forall|i: int| 0 <= i < keys.len() - 1 ==> #[trigger] text_less(keys[i], keys[i + 1])
}

/// `Value::as_str`: the text of a string value.
pub open spec fn json_as_str(v: JsonValue) -> Option<Seq<char>> {
    match v {
        JsonValue::String(s) => Some(s@),
        _ => None,
    }
}

/// `Value::as_i64`: the value of an integer that fits in `i64`.
pub open spec fn json_as_i64(v: JsonValue) -> Option<i64> {
    match v {
        JsonValue::Number(JsonNumber::PosInt(n)) => if n <= i64::MAX as u64 {
            Some(n as i64)
        } else {
            None
        },
        JsonValue::Number(JsonNumber::NegInt(n)) => Some(n),
        _ => None,
    }
}

/// The member `key` of `v`, read as a string.
pub open spec fn json_member_str(v: JsonValue, key: Seq<char>) -> Option<Seq<char>> {
    match json_get(v, key) {
        Some(m) => json_as_str(m),
        None => None,
    }
}

/// The member `key` of `v`, read as an `i64`.
pub open spec fn json_member_i64(v: JsonValue, key: Seq<char>) -> Option<i64> {
    match json_get(v, key) {
        Some(m) => json_as_i64(m),
        None => None,
    }
}

/// The number `serde_json` makes of an `i64`.
pub open spec fn number_of_i64(n: i64) -> JsonNumber {
    if n < 0 {
        JsonNumber::NegInt(n)
    } else {
        JsonNumber::PosInt(n as u64)
    }
}

impl JsonValue {
    /// `Value::get`: the member `key` of an object.
    pub fn get(&self, key: &str) -> (r: Option<&JsonValue>)
        ensures
            match r {
                Some(m) => json_get(*self, key@) == Some(*m),
                None => json_get(*self, key@) is None,
            },
    {
        match self {
            JsonValue::Object(members) => {
                let k = chars_of(key);
                let mut i: usize = 0;
                assert(members@.skip(0) =~= members@);
                while i < members.len()
                    invariant
                        i <= members.len(),
                        k@ == key@,
                        *self == JsonValue::Object(*members),
                        member_lookup(members@, key@) == member_lookup(
                            members@.skip(i as int),
                            key@,
                        ),
                    decreases members.len() - i,
                {
                    let name = chars_of(members[i].0.as_str());
                    if vec_eq(&name, &k) {
                        assert(members@.skip(i as int)[0] == members@[i as int]);
                        return Some(&members[i].1);
                    }
                    assert(members@.skip(i as int).drop_first() =~= members@.skip(i + 1));
                    i += 1;
                }
                None
            },
            _ => None,
        }
    }

    /// `Value::as_str`.
    pub fn as_str(&self) -> (r: Option<&str>)
        ensures
            match r {
                Some(s) => json_as_str(*self) == Some(s@),
                None => json_as_str(*self) is None,
            },
    {
        match self {
            JsonValue::String(s) => Some(s.as_str()),
            _ => None,
        }
    }

    /// `Value::as_i64`.
    pub fn as_i64(&self) -> (r: Option<i64>)
        ensures
            r == json_as_i64(*self),
    {
        match self {
            JsonValue::Number(JsonNumber::PosInt(n)) => {
                if *n <= i64::MAX as u64 {
                    Some(*n as i64)
                } else {
                    None
                }
            },
            JsonValue::Number(JsonNumber::NegInt(n)) => Some(*n),
            _ => None,
        }
    }

    /// The member `key`, read as a string.
    pub fn member_str(&self, key: &str) -> (r: Option<String>)
        ensures
            match r {
                Some(s) => json_member_str(*self, key@) == Some(s@),
                None => json_member_str(*self, key@) is None,
            },
    {
        match self.get(key) {
            Some(m) => match m.as_str() {
                Some(s) => Some(copy_str(s)),
                None => None,
            },
            None => None,
        }
    }

    /// The member `key`, read as an `i64`.
    pub fn member_i64(&self, key: &str) -> (r: Option<i64>)
        ensures
            r == json_member_i64(*self, key@),
    {
        match self.get(key) {
            Some(m) => m.as_i64(),
            None => None,
        }
    }

    /// A JSON string.
    pub fn from_text(s: &str) -> (r: JsonValue)
        ensures
            json_as_str(r) == Some(s@),
    {
        JsonValue::String(copy_str(s))
    }

    /// What `serde_json` makes of an `Option<String>`: the string, or `null`.
    pub fn from_opt_text(s: &Option<String>) -> (r: JsonValue)
        ensures
            match s {
                Some(t) => json_as_str(r) == Some(t@),
                None => r == JsonValue::Null,
            },
    {
        match s {
            Some(t) => JsonValue::String(copy_str(t.as_str())),
            None => JsonValue::Null,
        }
    }

    /// What `serde_json` makes of an `i64`.
    pub fn from_i64(n: i64) -> (r: JsonValue)
        ensures
            r == JsonValue::Number(number_of_i64(n)),
    {
        if n < 0 {
            JsonValue::Number(JsonNumber::NegInt(n))
        } else {
            JsonValue::Number(JsonNumber::PosInt(n as u64))
        }
    }

    /// What `serde_json` makes of an `Option<i64>`: the number, or `null`.
    pub fn from_opt_i64(n: Option<i64>) -> (r: JsonValue)
        ensures
            match n {
                Some(m) => r == JsonValue::Number(number_of_i64(m)),
                None => r == JsonValue::Null,
            },
    {
        match n {
            Some(m) => JsonValue::from_i64(m),
            None => JsonValue::Null,
        }
    }
}

/// Whether two character vectors are equal.
pub fn vec_eq(a: &Vec<char>, b: &Vec<char>) -> (r: bool)
    ensures
        r == (a@ == b@),
{
    if a.len() != b.len() {
        return false;
    }
    let mut i: usize = 0;
    while i < a.len()
        invariant
            a.len() == b.len(),
            i <= a.len(),
            forall|k: int| 0 <= k < i ==> a@[k] == b@[k],
        decreases a.len() - i,
    {
        if a[i] != b[i] {
            return false;
        }
        i += 1;
    }
    assert(a@ =~= b@);
    true
}

// ---------------------------------------------------------------------------
// JSON text
// ---------------------------------------------------------------------------

/// Lower-case hexadecimal digit.
pub open spec fn hex_digit(d: nat) -> char {
    if d < 10 {
        digit_char(d)
    } else if d == 10 {
        'a'
    } else if d == 11 {
        'b'
    } else if d == 12 {
        'c'
    } else if d == 13 {
        'd'
    } else if d == 14 {
        'e'
    } else {
        'f'
    }
}

/// How `serde_json` writes one character inside a JSON string.
pub open spec fn json_escape_char(c: char) -> Seq<char> {
    let u = c as u32;
    if c == '"' {
        seq!['\\', '"']
    } else if c == '\\' {
        seq!['\\', '\\']
    } else if u == 0x08 {
        seq!['\\', 'b']
    } else if u == 0x09 {
        seq!['\\', 't']
    } else if u == 0x0a {
        seq!['\\', 'n']
    } else if u == 0x0c {
        seq!['\\', 'f']
    } else if u == 0x0d {
        seq!['\\', 'r']
    } else if u < 0x20 {
        seq!['\\', 'u', '0', '0', hex_digit((u / 16) as nat), hex_digit((u % 16) as nat)]
    } else {
        seq![c]
    }
}

/// The escaped characters of `s`.
pub open spec fn json_escape(s: Seq<char>) -> Seq<char>
    decreases s.len(),
{
    if s.len() == 0 {
        Seq::empty()
    } else {
        json_escape_char(s[0]) + json_escape(s.drop_first())
    }
}

/// `s` written as a JSON string literal, quotes included.
pub open spec fn json_string(s: Seq<char>) -> Seq<char> {
    seq!['"'] + json_escape(s) + seq!['"']
}

/// `serde_json::to_string` of a `str`: the string as a JSON literal.
/// Its contract claims that `serde_json` quotes the text and escapes `"`, `\`
/// and the control characters below U+0020 (the short forms `\b \t \n \f \r`,
/// else `\u00xx` in lower-case hex), writing every other character as it is
/// (the `ESCAPE` table and `format_escaped_str_contents` in its `ser.rs`).
/// Serialising a `str` into memory cannot fail there.
#[verifier::external_body]
fn json_quote(s: &str) -> (r: String)
    ensures
        r@ == json_string(s@),
{
    serde_json::to_string(s).unwrap_or_default()
}

/// Appends `s` as a JSON string literal.
pub fn push_json_string(out: &mut Vec<char>, s: &str)
    ensures
        final(out)@ == old(out)@ + json_string(s@),
{
    let q = json_quote(s);
    append_str(out, q.as_str());
}

/// `serde_json::Value`, declared so that a parsed document can be handed to its
/// conversion into the library's form.
#[verifier::external_type_specification]
#[verifier::external_body]
pub struct ExSerdeValue(serde_json::Value);

/// What `serde_json::from_str::<serde_json::Value>` makes of a text: the document
/// in the library's form, or the text of the error when the text is not JSON.
pub uninterp spec fn json_parsed(text: Seq<char>) -> Result<JsonValue, Seq<char>>;

/// A `serde_json::Value` in the library's form, variant for variant: a number is
/// told apart by `Number::as_u64` and `Number::as_i64` (serde_json's own three
/// kinds of number), and arrays and objects keep their order. Nothing is stated of
/// it; `parse_json`, whose body alone calls it, carries the claim.
#[verifier::external_body]
fn json_of_serde(v: serde_json::Value) -> JsonValue {
    match v {
        serde_json::Value::Null => JsonValue::Null,
        serde_json::Value::Bool(b) => JsonValue::Bool(b),
        serde_json::Value::Number(n) => JsonValue::Number(match (n.as_u64(), n.as_i64()) {
            (Some(u), _) => JsonNumber::PosInt(u),
            (None, Some(i)) => JsonNumber::NegInt(i),
            (None, None) => JsonNumber::Float,
        }),
        serde_json::Value::String(s) => JsonValue::String(s),
        serde_json::Value::Array(items) => JsonValue::Array(items.into_iter().map(json_of_serde).collect()),
        serde_json::Value::Object(m) => JsonValue::Object(m.into_iter().map(|(k, x)| (k, json_of_serde(x))).collect()),
    }
}

/// `serde_json::from_str::<serde_json::Value>`, the document converted to the
/// library's form and the error to its text. Its contract names the result, which
/// depends on the text alone (the parse reads nothing else).
#[verifier::external_body]
pub(crate) fn parse_json(text: &str) -> (r: Result<JsonValue, String>)
    ensures
        match r {
            Ok(v) => json_parsed(text@) == Ok::<JsonValue, Seq<char>>(v),
            Err(m) => json_parsed(text@) == Err::<JsonValue, Seq<char>>(m@),
        },
{
    serde_json::from_str::<serde_json::Value>(text).map(json_of_serde).map_err(|e| e.to_string())
}

} // verus!
