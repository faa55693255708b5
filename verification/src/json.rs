//! A JSON value the library computes on, with the lookups the logic needs:
//! a key of an object, and a value taken as a string, boolean, unsigned
//! integer, array or object.
use vstd::prelude::*;
use crate::text::{eq_ignore_case, eq_ignore_case_str, opt_view};

verus! {

/// A JSON number as the logic reads it: its value as an unsigned and as a
/// signed 64-bit integer, where it is one.
#[derive(Clone, Debug, PartialEq)]
pub struct JsonNumber {
    pub u64_value: Option<u64>,
    pub i64_value: Option<i64>,
}

/// A JSON value; an object keeps its entries in order, and a lookup finds the
/// last entry of a key, as a parsed object keeps the last of repeated keys.
#[derive(Debug)]
pub enum JsonValue {
    Null,
    Bool(bool),
    Number(JsonNumber),
    String(String),
    Array(Vec<JsonValue>),
    Object(Vec<(String, JsonValue)>),
}

/// The position of the last entry named `key`.
pub open spec fn entry_index(entries: Seq<(String, JsonValue)>, key: Seq<char>) -> Option<int> {
    if exists|i: int| 0 <= i < entries.len() && (#[trigger] entries[i]).0@ == key {
        Some(
            choose|i: int|
                0 <= i < entries.len() && (#[trigger] entries[i]).0@ == key && forall|j: int|
                    i < j < entries.len() ==> (#[trigger] entries[j]).0@ != key,
        )
    } else {
        None
    }
}

/// `value.get(key)`: the value under `key` when `value` is an object that has it.
pub open spec fn json_get(v: JsonValue, key: Seq<char>) -> Option<JsonValue> {
    match v {
        JsonValue::Object(entries) => match entry_index(entries@, key) {
            Some(i) => Some(entries@[i].1),
            None => None,
        },
        _ => None,
    }
}

/// `value.as_str()`.
pub open spec fn json_str(v: Option<JsonValue>) -> Option<Seq<char>> {
    match v {
        Some(JsonValue::String(s)) => Some(s@),
        _ => None,
    }
}

/// `value.as_bool()`.
pub open spec fn json_bool(v: Option<JsonValue>) -> Option<bool> {
    match v {
        Some(JsonValue::Bool(b)) => Some(b),
        _ => None,
    }
}

/// `value.as_u64()`.
pub open spec fn json_u64(v: Option<JsonValue>) -> Option<u64> {
    match v {
        Some(JsonValue::Number(n)) => n.u64_value,
        _ => None,
    }
}

/// `a.or_else(|| b)` on two lookups.
pub open spec fn or_else(a: Option<JsonValue>, b: Option<JsonValue>) -> Option<JsonValue> {
    if a is Some {
        a
    } else {
        b
    }
}

pub open spec fn deref_opt(r: Option<&JsonValue>) -> Option<JsonValue> {
    match r {
        Some(v) => Some(*v),
        None => None,
    }
}

/// The index of the last entry named `key`, if any.
pub fn find_entry(entries: &Vec<(String, JsonValue)>, key: &str) -> (r: Option<usize>)
    ensures
        match r {
            Some(i) => i < entries@.len() && entry_index(entries@, key@) == Some(i as int),
            None => entry_index(entries@, key@) is None,
        },
{
    let n = entries.len();
    let mut i: usize = n;
    while i > 0
        invariant
            n == entries@.len(),
            i <= n,
            forall|j: int| i <= j < n ==> (#[trigger] entries@[j]).0@ != key@,
        decreases i,
    {
        i = i - 1;
        if crate::text::str_eq(entries[i].0.as_str(), key) {
            proof {
                assert(entries@[i as int].0@ == key@ && forall|j: int|
                    i < j < entries@.len() ==> (#[trigger] entries@[j]).0@ != key@);
                let k = choose|k: int|
                    0 <= k < entries@.len() && (#[trigger] entries@[k]).0@ == key@ && forall|j: int|
                        k < j < entries@.len() ==> (#[trigger] entries@[j]).0@ != key@;
                if k < i {
                    assert(entries@[i as int].0@ != key@);
                } else if k > i {
                    assert(entries@[k].0@ != key@);
                }
            }
            return Some(i);
        }
    }
    None
}

impl JsonValue {
    pub fn get(&self, key: &str) -> (r: Option<&JsonValue>)
        ensures
            deref_opt(r) == json_get(*self, key@),
    {
        match self {
            JsonValue::Object(entries) => match find_entry(entries, key) {
                Some(i) => Some(&entries[i].1),
                None => None,
            },
            _ => None,
        }
    }

    pub fn as_str(&self) -> (r: Option<&str>)
        ensures
            match r {
                Some(s) => json_str(Some(*self)) == Some(s@),
                None => json_str(Some(*self)) is None,
            },
    {
        match self {
            JsonValue::String(s) => Some(s.as_str()),
            _ => None,
        }
    }

    pub fn as_bool(&self) -> (r: Option<bool>)
        ensures
            r == json_bool(Some(*self)),
    {
        match self {
            JsonValue::Bool(b) => Some(*b),
            _ => None,
        }
    }

    pub fn as_u64(&self) -> (r: Option<u64>)
        ensures
            r == json_u64(Some(*self)),
    {
        match self {
            JsonValue::Number(n) => n.u64_value,
            _ => None,
        }
    }

    pub fn as_array(&self) -> (r: Option<&Vec<JsonValue>>)
        ensures
            match *self {
                JsonValue::Array(a) => r == Some(&a),
                _ => r is None,
            },
    {
        match self {
            JsonValue::Array(a) => Some(a),
            _ => None,
        }
    }

    pub fn as_object(&self) -> (r: Option<&Vec<(String, JsonValue)>>)
        ensures
            match *self {
                JsonValue::Object(o) => r == Some(&o),
                _ => r is None,
            },
    {
        match self {
            JsonValue::Object(o) => Some(o),
            _ => None,
        }
    }
}

/// The string under `key`, when there is one.
pub fn get_str<'a>(v: &'a JsonValue, key: &str) -> (r: Option<&'a str>)
    ensures
        match r {
            Some(s) => json_str(json_get(*v, key@)) == Some(s@),
            None => json_str(json_get(*v, key@)) is None,
        },
{
    match v.get(key) {
        Some(x) => x.as_str(),
        None => None,
    }
}

/// A status report counts as signed in when `isAuthenticated` is `true`, or
/// when `status` is the string `authenticated` in any ASCII case.
pub open spec fn status_authenticated(v: JsonValue) -> bool {
    ||| json_bool(json_get(v, "isAuthenticated"@)) == Some(true)
    ||| (json_str(json_get(v, "status"@)) is Some && eq_ignore_case(
        json_str(json_get(v, "status"@))->0,
        "authenticated"@,
    ))
}

/// Reads the Cursor agent's status report.
pub fn cursor_status_authenticated(value: &JsonValue) -> (r: bool)
    ensures
        r == status_authenticated(*value),
{
    let flag = match value.get("isAuthenticated") {
        Some(x) => match x.as_bool() {
            Some(b) => b,
            None => false,
        },
        None => false,
    };
    if flag {
        return true;
    }
    match get_str(value, "status") {
        Some(s) => eq_ignore_case_str(s, "authenticated"),
        None => false,
    }
}

/// The signed-in account in a status report: the string at `userInfo.email`.
pub open spec fn status_email(v: JsonValue) -> Option<Seq<char>> {
    match json_get(v, "userInfo"@) {
        Some(u) => json_str(json_get(u, "email"@)),
        None => None,
    }
}

/// Reads the signed-in account's email from the Cursor agent's status report.
pub fn cursor_status_email(value: &JsonValue) -> (r: Option<String>)
    ensures
        opt_view(r) == status_email(*value),
{
    match value.get("userInfo") {
        Some(user) => match get_str(user, "email") {
            Some(email) => Some(email.to_owned()),
            None => None,
        },
        None => None,
    }
}

/// A key lookup in an object finds the value of the last entry with that
/// key, and nothing when no entry has it; other values hold no keys.
pub proof fn lookup_finds_last_entry(entries: Vec<(String, JsonValue)>, key: Seq<char>, i: int)
    ensures
        0 <= i < entries@.len() && entries@[i].0@ == key && (forall|j: int|
            i < j < entries@.len() ==> (#[trigger] entries@[j]).0@ != key) ==> json_get(
            JsonValue::Object(entries),
            key,
        ) == Some(entries@[i].1),
        (forall|j: int| 0 <= j < entries@.len() ==> (#[trigger] entries@[j]).0@ != key) ==> json_get(
            JsonValue::Object(entries),
            key,
        ) is None,
{
    if 0 <= i < entries@.len() && entries@[i].0@ == key && (forall|j: int|
        i < j < entries@.len() ==> (#[trigger] entries@[j]).0@ != key) {
        let k = choose|k: int|
            0 <= k < entries@.len() && (#[trigger] entries@[k]).0@ == key && forall|j: int|
                k < j < entries@.len() ==> (#[trigger] entries@[j]).0@ != key;
        assert(entries@[i].0@ == key);
        if k < i {
            assert(entries@[i].0@ != key);
        } else if k > i {
            assert(entries@[k].0@ != key);
        }
    }
}

/// A status report counts as signed in exactly when `isAuthenticated` is the
/// boolean `true`, or when `status` is a string equal to `authenticated`
/// ignoring ASCII case.
pub proof fn signed_in_reports(v: JsonValue)
    ensures
        json_get(v, "isAuthenticated"@) == Some(JsonValue::Bool(true)) ==> status_authenticated(v),
        (json_get(v, "status"@) matches Some(JsonValue::String(s)) && eq_ignore_case(
            s@,
            "authenticated"@,
        )) ==> status_authenticated(v),
        status_authenticated(v) ==> json_get(v, "isAuthenticated"@) == Some(JsonValue::Bool(true))
            || (json_get(v, "status"@) matches Some(JsonValue::String(s)) && eq_ignore_case(
            s@,
            "authenticated"@,
        )),
{
}

/// The email of a report is the string under `email` inside the object
/// under `userInfo`, and nothing otherwise.
pub proof fn email_is_user_info_email(v: JsonValue)
    ensures
        status_email(v) == match json_get(v, "userInfo"@) {
            Some(u) => match json_get(u, "email"@) {
                Some(JsonValue::String(e)) => Some(e@),
                _ => None,
            },
            None => None,
        },
{
}

#[verifier::external_type_specification]
#[verifier::external_body]
pub struct ExSerdeJsonValue(serde_json::Value);

/// What `serde_json` parses `text` into, taken over as a [`JsonValue`];
/// `None` when `text` is not one JSON value.
pub uninterp spec fn json_of(text: Seq<char>) -> Option<JsonValue>;

/// What `serde_json` parses `bytes` into, taken over as a [`JsonValue`];
/// `None` when `bytes` are not one JSON value in UTF-8.
pub uninterp spec fn json_bytes_of(bytes: Seq<u8>) -> Option<JsonValue>;

/// Takes a parsed `serde_json::Value` over one for one: each variant to the
/// same variant, a number as what `as_u64` and `as_i64` give for it, object
/// entries in the map's order. It runs only inside `parse_json` and
/// `parse_json_bytes`, whose contracts name the parse together with it;
/// nothing is claimed of it alone.
#[verifier::external_body]
fn json_from_serde(v: &serde_json::Value) -> JsonValue {
    match v {
        serde_json::Value::Null => JsonValue::Null,
        serde_json::Value::Bool(b) => JsonValue::Bool(*b),
        serde_json::Value::Number(n) => JsonValue::Number(
            JsonNumber { u64_value: n.as_u64(), i64_value: n.as_i64() },
        ),
        serde_json::Value::String(s) => JsonValue::String(s.clone()),
        serde_json::Value::Array(a) => JsonValue::Array(a.iter().map(json_from_serde).collect()),
        serde_json::Value::Object(o) => JsonValue::Object(
            o.iter().map(|(k, x)| (k.clone(), json_from_serde(x))).collect(),
        ),
    }
}

/// `serde_json::from_str::<serde_json::Value>`, taken over as a
/// [`JsonValue`]. Claimed: the result is the name applied to the text;
/// nothing is said of which texts parse.
#[verifier::external_body]
pub(crate) fn parse_json(text: &str) -> (r: Option<JsonValue>)
    ensures
        r == json_of(text@),
{
    serde_json::from_str::<serde_json::Value>(text).ok().map(|v| json_from_serde(&v))
}

/// `serde_json::from_slice::<serde_json::Value>`, taken over as a
/// [`JsonValue`]. Claimed: the result is the name applied to the bytes;
/// nothing is said of which bytes parse.
#[verifier::external_body]
fn parse_json_bytes(bytes: &[u8]) -> (r: Option<JsonValue>)
    ensures
        r == json_bytes_of(bytes@),
{
    serde_json::from_slice::<serde_json::Value>(bytes).ok().map(|v| json_from_serde(&v))
}

/// Reads `cursor-agent status --format json`: a failed command means not
/// signed in; otherwise whether the report says signed in, or `None` when
/// the output is not JSON.
pub fn cursor_status_from_output(success: bool, stdout: &[u8]) -> (r: Option<bool>)
    ensures
        r == if !success {
            Some(false)
        } else {
            match json_bytes_of(stdout@) {
                Some(v) => Some(status_authenticated(v)),
                None => None,
            }
        },
{
    if !success {
        return Some(false);
    }
    match parse_json_bytes(stdout) {
        Some(v) => Some(cursor_status_authenticated(&v)),
        None => None,
    }
}

/// The signed-in account's email in the output of `cursor-agent status
/// --format json`, when the output is JSON and has one.
pub fn cursor_email_from_output(stdout: &[u8]) -> (r: Option<String>)
    ensures
        opt_view(r) == match json_bytes_of(stdout@) {
            Some(v) => status_email(v),
            None => None,
        },
{
    match parse_json_bytes(stdout) {
        Some(v) => cursor_status_email(&v),
        None => None,
    }
}

} // verus!
