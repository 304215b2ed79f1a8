use serde_json::Value;
use vstd::prelude::*;

verus! {

/// A JSON document as the decoders of this crate read it.
pub enum Json {
    Null,
    Bool(bool),
    /// A number, with its value where it is an integer in the range of `u64`.
    Number(Option<u64>),
    Str(String),
    Array(Vec<Json>),
    /// An object's members, as the parser hands them out.
    Object(Vec<(String, Json)>),
}

#[verifier::external_type_specification]
#[verifier::external_body]
pub struct ExValue(serde_json::Value);

/// The document that a byte string holds, if it is well-formed UTF-8 JSON.
pub uninterp spec fn json_of_bytes(b: Seq<u8>) -> Option<Json>;

/// Relies on `serde_json::from_slice`: it parses a UTF-8 JSON document, and
/// what it returns depends on the bytes alone.
#[verifier::external_body]
pub(crate) fn parse_json(b: &[u8]) -> (r: Option<Json>)
    ensures
        r == json_of_bytes(b@),
{
    serde_json::from_slice::<Value>(b).ok().map(json_from_value)
}

/// Moves a `serde_json::Value` into the crate's own tree, node for node;
/// a number keeps its value where `serde_json::Number::as_u64` gives one.
#[verifier::external_body]
fn json_from_value(v: Value) -> Json {
    match v {
        Value::Null => Json::Null,
        Value::Bool(b) => Json::Bool(b),
        Value::Number(n) => Json::Number(n.as_u64()),
        Value::String(s) => Json::Str(s),
        Value::Array(a) => Json::Array(a.into_iter().map(json_from_value).collect()),
        Value::Object(m) => Json::Object(m.into_iter().map(|(k, x)| (k, json_from_value(x))).collect()),
    }
}

/// The value of the first member named `key`.
pub open spec fn lookup(fields: Seq<(String, Json)>, key: Seq<char>) -> Option<Json>
    decreases fields.len(),
{
    if fields.len() == 0 {
        None
    } else {
        match lookup(fields.drop_last(), key) {
            Some(v) => Some(v),
            None => if fields.last().0@ == key {
                Some(fields.last().1)
            } else {
                None
            },
        }
    }
}

/// A string member.
pub open spec fn text(v: Option<Json>) -> Option<String> {
    match v {
        Some(Json::Str(s)) => Some(s),
        _ => None,
    }
}

/// A member that is a `u64`.
pub open spec fn number(v: Option<Json>) -> Option<u64> {
    match v {
        Some(Json::Number(Some(n))) => Some(n),
        _ => None,
    }
}

/// A boolean member.
pub open spec fn boolean(v: Option<Json>) -> Option<bool> {
    match v {
        Some(Json::Bool(b)) => Some(b),
        _ => None,
    }
}

/// An optional string member: absent or `null` is `Some(None)`, a string
/// `Some(Some(s))`, anything else a failure.
pub open spec fn optional_text(v: Option<Json>) -> Option<Option<String>> {
    match v {
        None => Some(None),
        Some(Json::Null) => Some(None),
        Some(Json::Str(s)) => Some(Some(s)),
        _ => None,
    }
}

/// Whether a member is absent or `null`.
pub open spec fn is_absent(v: Option<Json>) -> bool {
    v is None || v == Some(Json::Null)
}

proof fn lemma_lookup_prefix(fields: Seq<(String, Json)>, key: Seq<char>, k: int, n: int)
    requires
        0 <= k <= n <= fields.len(),
        lookup(fields.take(k), key) is Some,
    ensures
        lookup(fields.take(n), key) == lookup(fields.take(k), key),
    decreases n - k,
{
    if n > k {
        lemma_lookup_prefix(fields, key, k, n - 1);
        assert(fields.take(n).drop_last() =~= fields.take(n - 1));
    }
}

/// Finds the first member named `key`.
pub fn find(fields: &Vec<(String, Json)>, key: &str) -> (r: Option<usize>)
    ensures
        match r {
            Some(i) => i < fields@.len() && lookup(fields@, key@) == Some(fields@[i as int].1),
            None => lookup(fields@, key@) is None,
        },
{
    let want = String::from_str(key);
    let mut i: usize = 0;
    while i < fields.len()
        invariant
            i <= fields@.len(),
            want@ == key@,
            lookup(fields@.take(i as int), key@) is None,
        decreases fields@.len() - i,
    {
        assert(fields@.take(i + 1).drop_last() =~= fields@.take(i as int));
        if fields[i].0 == want {
            proof {
                lemma_lookup_prefix(fields@, key@, i + 1, fields@.len() as int);
                assert(fields@.take(fields@.len() as int) =~= fields@);
            }
            return Some(i);
        }
        i = i + 1;
    }
    assert(fields@.take(fields@.len() as int) =~= fields@);
    None
}

/// The string member named `key`.
pub fn get_text(fields: &Vec<(String, Json)>, key: &str) -> (r: Option<String>)
    ensures
        r == text(lookup(fields@, key@)),
{
    match find(fields, key) {
        Some(i) => match &fields[i].1 {
            Json::Str(s) => Some(s.clone()),
            _ => None,
        },
        None => None,
    }
}

/// The `u64` member named `key`.
pub fn get_number(fields: &Vec<(String, Json)>, key: &str) -> (r: Option<u64>)
    ensures
        r == number(lookup(fields@, key@)),
{
    match find(fields, key) {
        Some(i) => match &fields[i].1 {
            Json::Number(Some(n)) => Some(*n),
            _ => None,
        },
        None => None,
    }
}

/// The boolean member named `key`.
pub fn get_bool(fields: &Vec<(String, Json)>, key: &str) -> (r: Option<bool>)
    ensures
        r == boolean(lookup(fields@, key@)),
{
    match find(fields, key) {
        Some(i) => match &fields[i].1 {
            Json::Bool(b) => Some(*b),
            _ => None,
        },
        None => None,
    }
}

/// The optional string member named `key`.
pub fn get_optional_text(fields: &Vec<(String, Json)>, key: &str) -> (r: Option<Option<String>>)
    ensures
        r == optional_text(lookup(fields@, key@)),
{
    match find(fields, key) {
        Some(i) => match &fields[i].1 {
            Json::Null => Some(None),
            Json::Str(s) => Some(Some(s.clone())),
            _ => None,
        },
        None => Some(None),
    }
}

} // verus!
