use vstd::prelude::*;
use vstd::string::StringExecFns;
use crate::error::ParseError;

verus! {

#[verifier::external_type_specification]
#[verifier::external_body]
pub struct ExNumber(serde_json::Number);

/// Relies on the `Clone` impl of `serde_json::Number`: a clone is the same number.
pub assume_specification[ <serde_json::Number as Clone>::clone ](n: &serde_json::Number) -> (r: serde_json::Number)
    ensures
        r == *n,
;

#[verifier::external_type_specification]
#[verifier::external_body]
pub struct ExValue(serde_json::Value);

/// A JSON number, told apart the way serde_json tells them apart: a non-negative
/// integer, a negative integer, or a floating-point value carried as it was read.
pub enum JsonNumber {
    PosInt(u64),
    NegInt(i64),
    Float(serde_json::Number),
}

/// A JSON document. An object is a list of members; a document that
/// `parse_json` reads has them sorted by name, each name once.
pub enum JsonValue {
    Null,
    Bool(bool),
    Number(JsonNumber),
    String(String),
    Array(Vec<JsonValue>),
    Object(Vec<(String, JsonValue)>),
}

/// The value of the first member named `key`, if any.
pub open spec fn lookup(entries: Seq<(String, JsonValue)>, key: Seq<char>) -> Option<JsonValue>
    decreases entries.len(),
{
    if entries.len() == 0 {
        None
    } else if entries[0].0@ == key {
        Some(entries[0].1)
    } else {
        lookup(entries.drop_first(), key)
    }
}

/// Member `key` of `v`; nothing when `v` is not an object or has no such member.
pub open spec fn field(v: JsonValue, key: Seq<char>) -> Option<JsonValue> {
    match v {
        JsonValue::Object(entries) => lookup(entries@, key),
        _ => None,
    }
}

pub open spec fn str_field(v: JsonValue, key: Seq<char>) -> Option<String> {
    match field(v, key) {
        Some(JsonValue::String(s)) => Some(s),
        _ => None,
    }
}

/// A number member of any kind, as it was read.
pub open spec fn num_field(v: JsonValue, key: Seq<char>) -> Option<JsonNumber> {
    match field(v, key) {
        Some(JsonValue::Number(n)) => Some(n),
        _ => None,
    }
}

pub open spec fn number_as_u64(n: JsonNumber) -> Option<u64> {
    match n {
        JsonNumber::PosInt(u) => Some(u),
        _ => None,
    }
}

pub open spec fn number_as_i64(n: JsonNumber) -> Option<i64> {
    match n {
        JsonNumber::PosInt(u) => if u <= i64::MAX { Some(u as i64) } else { None },
        JsonNumber::NegInt(i) => Some(i),
        JsonNumber::Float(_) => None,
    }
}

pub open spec fn u64_field(v: JsonValue, key: Seq<char>) -> Option<u64> {
    match num_field(v, key) {
        Some(n) => number_as_u64(n),
        None => None,
    }
}

/// An integer member that fits in 32 bits; any other number reads as absent.
pub open spec fn i32_field(v: JsonValue, key: Seq<char>) -> Option<i32> {
    match num_field(v, key) {
        Some(n) => match number_as_i64(n) {
            Some(i) => if i32::MIN <= i <= i32::MAX {
                Some(i as i32)
            } else {
                None
            },
            None => None,
        },
        None => None,
    }
}

pub open spec fn all_strings(items: Seq<JsonValue>) -> bool {
    forall|i: int| 0 <= i < items.len() ==> (#[trigger] items[i]) is String
}

pub open spec fn string_of(v: JsonValue) -> Seq<char> {
    match v {
        JsonValue::String(s) => s@,
        _ => Seq::empty(),
    }
}

/// A list of strings is well formed when absent (missing or `null`), or an
/// array whose every element is a string.
pub open spec fn str_list_ok(v: JsonValue, key: Seq<char>) -> bool {
    match field(v, key) {
        None => true,
        Some(JsonValue::Null) => true,
        Some(JsonValue::Array(items)) => all_strings(items@),
        Some(_) => false,
    }
}

/// What a decoded list of strings holds, element by element.
pub open spec fn list_matches(r: Option<Vec<String>>, v: JsonValue, key: Seq<char>) -> bool {
    match field(v, key) {
        Some(JsonValue::Array(items)) => r matches Some(out) && out@.len() == items@.len()
            && forall|i: int| 0 <= i < items@.len() ==> (#[trigger] out@[i])@ == string_of(items@[i]),
        _ => r is None,
    }
}

/// The texts of a list of strings.
pub open spec fn strings_view(l: Option<Vec<String>>) -> Option<Seq<Seq<char>>> {
    match l {
        Some(v) => Some(v@.map_values(|s: String| s@)),
        None => None,
    }
}

/// Member `key` of `v` is missing, `null` or an array.
pub open spec fn absent_or_array(v: JsonValue, key: Seq<char>) -> bool {
    match field(v, key) {
        Some(JsonValue::Array(_)) => true,
        Some(JsonValue::Null) => true,
        None => true,
        Some(_) => false,
    }
}

/// Two lists decoded from the same member hold the same texts.
pub proof fn lemma_list_unique(a: Option<Vec<String>>, b: Option<Vec<String>>, v: JsonValue, key: Seq<char>)
    requires
        list_matches(a, v, key),
        list_matches(b, v, key),
    ensures
        strings_view(a) == strings_view(b),
{
    if let Some(JsonValue::Array(items)) = field(v, key) {
        let x = a.unwrap();
        let y = b.unwrap();
        assert(x@.map_values(|s: String| s@) =~= y@.map_values(|s: String| s@));
    }
}

impl JsonNumber {
    pub fn copy(&self) -> (r: JsonNumber)
        ensures
            r == *self,
    {
        match self {
            JsonNumber::PosInt(u) => JsonNumber::PosInt(*u),
            JsonNumber::NegInt(i) => JsonNumber::NegInt(*i),
            JsonNumber::Float(f) => JsonNumber::Float(f.clone()),
        }
    }

    /// The number as a `u64`, when it is a non-negative integer.
    pub fn as_u64(&self) -> (r: Option<u64>)
        ensures
            r == number_as_u64(*self),
    {
        match self {
            JsonNumber::PosInt(u) => Some(*u),
            _ => None,
        }
    }

    /// The number as an `i64`, when it is an integer in range.
    pub fn as_i64(&self) -> (r: Option<i64>)
        ensures
            r == number_as_i64(*self),
    {
        match self {
            JsonNumber::PosInt(u) => if *u <= i64::MAX as u64 { Some(*u as i64) } else { None },
            JsonNumber::NegInt(i) => Some(*i),
            JsonNumber::Float(_) => None,
        }
    }
}

impl JsonValue {
    /// Member `key` of this value, when it is an object that has one.
    pub fn get(&self, key: &str) -> (r: Option<&JsonValue>)
        ensures
            r matches Some(x) ==> field(*self, key@) == Some(*x),
            r is None ==> field(*self, key@) is None,
    {
        match self {
            JsonValue::Object(entries) => {
                let k = String::from_str(key);
                let mut i: usize = 0;
                assert(entries@.subrange(0, entries@.len() as int) =~= entries@);
                while i < entries.len()
                    invariant
                        0 <= i <= entries@.len(),
                        k@ == key@,
                        field(*self, key@) == lookup(entries@, key@),
                        lookup(entries@, key@) == lookup(entries@.subrange(i as int, entries@.len() as int), key@),
                    decreases entries@.len() - i,
                {
                    let ghost rest = entries@.subrange(i as int, entries@.len() as int);
                    assert(rest.drop_first() =~= entries@.subrange(i + 1, entries@.len() as int));
                    assert(rest[0] == entries@[i as int]);
                    if entries[i].0 == k {
                        return Some(&entries[i].1);
                    }
                    i = i + 1;
                }
                None
            },
            _ => None,
        }
    }
}

/// The document that `text` holds, when it is JSON.
pub uninterp spec fn json_document(text: Seq<char>) -> Option<JsonValue>;

/// Relies on the variants of `serde_json::Value` and of its numbers, and on
/// `Map`'s `IntoIterator`: the same document as a `JsonValue`, level by level.
#[verifier::external_body]
fn json_of_value(v: serde_json::Value) -> JsonValue {
    match v {
        serde_json::Value::Null => JsonValue::Null,
        serde_json::Value::Bool(b) => JsonValue::Bool(b),
        serde_json::Value::Number(n) => JsonValue::Number(match (n.as_u64(), n.as_i64()) {
            (Some(u), _) => JsonNumber::PosInt(u),
            (None, Some(i)) => JsonNumber::NegInt(i),
            (None, None) => JsonNumber::Float(n),
        }),
        serde_json::Value::String(s) => JsonValue::String(s),
        serde_json::Value::Array(a) => JsonValue::Array(a.into_iter().map(json_of_value).collect()),
        serde_json::Value::Object(m) => JsonValue::Object(m.into_iter().map(|(k, x)| (k, json_of_value(x))).collect()),
    }
}

/// Relies on `serde_json::from_str`: whether `text` is a JSON document, and
/// which one, depends on the text alone.
#[verifier::external_body]
fn read_json(text: &str) -> (r: Option<JsonValue>)
    ensures
        r == json_document(text@),
{
    serde_json::from_str::<serde_json::Value>(text).ok().map(json_of_value)
}

/// Reads a JSON document from text; text that is not JSON gives `InvalidJson`.
pub fn parse_json(text: &str) -> (r: Result<JsonValue, ParseError>)
    ensures
        r == match json_document(text@) {
            Some(j) => Ok::<JsonValue, ParseError>(j),
            None => Err(ParseError::InvalidJson),
        },
{
    match read_json(text) {
        Some(j) => Ok(j),
        None => Err(ParseError::InvalidJson),
    }
}

} // verus!
