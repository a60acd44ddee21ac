//! What the library asks of other crates, and of one function of the standard
//! library.
//!
//! Every function here hands its arguments to one function of another crate.
//! What its contract says is not proved: it is what the source or the
//! documentation of that crate shows.

use vstd::prelude::*;
use serde_json::{Number, Value};
use crate::json::{Json, Num, NumTree, Tree};
use crate::text;

verus! {

/// `std::string::String::push` appends one character at the end.
pub assume_specification[ String::push ](s: &mut String, c: char)
    ensures
        final(s)@ == old(s)@.push(c),
;

/// The values of `serde_json`. Nothing is said of what is inside.
#[verifier::external_type_specification]
#[verifier::external_body]
pub struct ExJsonValue(serde_json::Value);

/// The value that `serde_json::from_str` reads from a text, where it reads one.
pub uninterp spec fn json_tree(text: Seq<char>) -> Option<Tree>;

/// What `serde_json::from_str` says is wrong with a text that it does not read: the
/// error that it gives, written as text.
pub uninterp spec fn json_complaint(text: Seq<char>) -> Seq<char>;

/// The text that `serde_json::Value::to_string` writes a value as.
pub uninterp spec fn json_text(t: Tree) -> Seq<char>;

/// Whether a number that is not a whole number of 64 bits stands in `t`.
pub open spec fn has_float(t: Tree) -> bool
    decreases t,
{
    match t {
        Tree::Number(NumTree::Float { whole, text }) => true,
        Tree::Array(a) => exists|i: int| 0 <= i < a.len() && has_float(#[trigger] a[i]),
        Tree::Object(o) => exists|i: int| 0 <= i < o.len() && has_float((#[trigger] o[i]).1),
        _ => false,
    }
}

/// Whether `t` was read from some text and holds whole numbers only.
pub open spec fn written_back(t: Tree) -> bool {
    !has_float(t) && exists|s: Seq<char>| json_tree(s) == Some(t)
}

/// A `serde_json::Value` as a value of this library, one for one. A number
/// that is neither `as_u64` nor `as_i64` is kept as its text and as its
/// `as_f64` cut to a whole number.
#[verifier::external_body]
fn json_of(v: Value) -> (r: Json) {
    match v {
        Value::Null => Json::Null,
        Value::Bool(b) => Json::Bool(b),
        Value::Number(n) => Json::Number(match (n.as_u64(), n.as_i64()) {
            (Some(u), _) => Num::Pos(u),
            (_, Some(i)) => Num::Neg(i),
            _ => Num::Float { whole: n.as_f64().unwrap_or_default() as i64, text: n.to_string() },
        }),
        Value::String(s) => Json::Str(s),
        Value::Array(a) => Json::Array(a.into_iter().map(json_of).collect()),
        Value::Object(m) => {
            Json::Object(m.into_iter().map(|(k, x)| (k, json_of(x))).collect())
        },
    }
}

/// A value of this library as a `serde_json::Value`, one for one.
#[verifier::external_body]
fn value_of(j: &Json) -> (r: Value) {
    match j {
        Json::Null => Value::Null,
        Json::Bool(b) => Value::Bool(*b),
        Json::Number(Num::Pos(n)) => Value::from(*n),
        Json::Number(Num::Neg(n)) => Value::from(*n),
        Json::Number(Num::Float { text, .. }) => Value::from(
            text.parse().ok().and_then(Number::from_f64)),
        Json::Str(s) => Value::String(s.clone()),
        Json::Array(a) => Value::Array(a.iter().map(value_of).collect()),
        Json::Object(o) => {
            Value::Object(o.iter().map(|(k, x)| (k.clone(), value_of(x))).collect())
        },
    }
}

/// `serde_json::from_str` reads a JSON text, or gives an error that says why it
/// cannot. What a text means, and what is said of it, depends on the text alone.
#[verifier::external_body]
pub(crate) fn read_json(text: &str) -> (r: Result<Json, String>)
    ensures
        match r {
            Ok(j) => json_tree(text@) == Some(j@),
            Err(m) => json_tree(text@) is None && m@ == json_complaint(text@),
        },
{
    match serde_json::from_str(text) {
        Ok(v) => Ok(json_of(v)),
        Err(e) => Err(e.to_string()),
    }
}

/// `serde_json::Value::to_string` writes a value without line breaks, which
/// strings hold only as escapes. Where the value was itself read from a text
/// and holds whole numbers only, reading what was written gives it back.
#[verifier::external_body]
pub(crate) fn write_json(j: &Json) -> (r: String)
    ensures
        r@ == json_text(j@),
        !text::has_char(r@, '\n'),
        written_back(j@) ==> json_tree(r@) == Some(j@),
{
    value_of(j).to_string()
}

// ---------------------------------------------------------------------------
// Time and identifiers
// ---------------------------------------------------------------------------

/// The seconds since 1970 of an RFC 3339 date and time, as
/// `chrono::DateTime::parse_from_rfc3339` reads it; none where it reads none.
pub uninterp spec fn rfc3339_seconds(text: Seq<char>) -> Option<int>;

/// The day, as year, month and day with hyphens, that
/// `chrono::DateTime::from_timestamp` gives for a number of seconds since 1970;
/// none for a number too far from the present.
pub uninterp spec fn utc_day(seconds: int) -> Option<Seq<char>>;

/// `chrono::DateTime::parse_from_rfc3339`, and the timestamp of what it read.
/// What it reads depends on the text alone.
#[verifier::external_body]
pub(crate) fn parse_rfc3339(s: &str) -> (r: Option<i64>)
    ensures
        match r {
            Some(n) => rfc3339_seconds(s@) == Some(n as int),
            None => rfc3339_seconds(s@) is None,
        },
{
    chrono::DateTime::parse_from_rfc3339(s).ok().map(|dt| dt.timestamp())
}

/// `chrono::DateTime::from_timestamp`, written with the format `%Y-%m-%d`: the
/// day in UTC. The text holds digits and hyphens, and a plus sign before a year
/// of more than four digits.
#[verifier::external_body]
pub(crate) fn day_of(ts: i64) -> (r: Option<String>)
    ensures
        text::opt(r) == utc_day(ts as int),
        r matches Some(d) ==> forall|i: int|
            0 <= i < d@.len() ==> text::is_digit(#[trigger] d@[i]) || d@[i] == '-' || d@[i] == '+',
{
    chrono::DateTime::from_timestamp(ts, 0).map(|dt| dt.format("%Y-%m-%d").to_string())
}

/// `chrono::Utc::now`, in seconds since 1970. Nothing is said of the time.
#[verifier::external_body]
pub(crate) fn clock() -> (r: i64) {
    chrono::Utc::now().timestamp()
}

/// `uuid::Uuid::now_v7`, written as 36 characters: hexadecimal digits in small
/// letters, and hyphens. Nothing is said of which they are.
#[verifier::external_body]
pub(crate) fn fresh_uuid() -> (r: String)
    ensures
        r@.len() == 36,
        forall|i: int|
            0 <= i < 36 ==> text::is_digit(#[trigger] r@[i]) || 'a' <= r@[i] <= 'f' || r@[i] == '-',
{
    uuid::Uuid::now_v7().to_string()
}

} // verus!
