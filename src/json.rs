//! A JSON value as plain data, read from the agent's reply bytes with
//! `serde_json`'s parser, and the typed reads that the replies are decoded by.
use crate::errors::Error;
use vstd::prelude::*;
use vstd::string::*;

verus! {

/// A parsed JSON value. A number keeps what it is as a signed and as an
/// unsigned 64-bit integer; a number that is neither (a fraction, or too
/// large) keeps `None` in both.
pub enum Json {
    Null,
    Bool(bool),
    Number(Option<i64>, Option<u64>),
    Str(String),
    Array(Vec<Json>),
    Object(Vec<(String, Json)>),
}

/// `serde_json`'s own value type, only carried from its parser to [`json_from`].
#[verifier::external_type_specification]
#[verifier::external_body]
pub struct ExValue(serde_json::Value);

/// The JSON value that `serde_json` parses from the bytes, if they are one
/// JSON value.
pub uninterp spec fn parsed_json(b: Seq<u8>) -> Option<Json>;

/// Relies on `serde_json::Value`'s variants and on `Number::as_i64` and
/// `Number::as_u64`: the value moved into a [`Json`] one for one, member
/// order kept. `serde_json`'s parser limits nesting, which bounds the recursion.
#[verifier::external_body]
fn json_from(v: serde_json::Value) -> Json {
    match v {
        serde_json::Value::Null => Json::Null,
        serde_json::Value::Bool(b) => Json::Bool(b),
        serde_json::Value::Number(n) => Json::Number(n.as_i64(), n.as_u64()),
        serde_json::Value::String(s) => Json::Str(s),
        serde_json::Value::Array(a) => Json::Array(a.into_iter().map(json_from).collect()),
        serde_json::Value::Object(m) => {
            Json::Object(m.into_iter().map(|(k, x)| (k, json_from(x))).collect())
        },
    }
}

/// Relies on `serde_json::from_slice`: it parses the bytes as one JSON value,
/// depending on the bytes alone, or reports why they are not one.
#[verifier::external_body]
fn parse_value(bytes: &[u8]) -> (r: Result<Json, String>)
    ensures
        match r {
            Ok(j) => parsed_json(bytes@) == Some(j),
            Err(_) => parsed_json(bytes@) is None,
        },
{
    serde_json::from_slice::<serde_json::Value>(bytes).map(json_from).map_err(|e| e.to_string())
}

/// Parses reply bytes into a [`Json`] value. Bytes that are not one JSON value
/// give a `SerdeError`.
pub fn parse_json(bytes: &[u8]) -> (r: Result<Json, Error>)
    ensures
        match r {
            Ok(j) => parsed_json(bytes@) == Some(j),
            Err(e) => parsed_json(bytes@) is None && e is SerdeError,
        },
{
    match parse_value(bytes) {
        Ok(j) => Ok(j),
        Err(m) => Err(Error::SerdeError(m)),
    }
}

/// The value of the first member named `key`.
pub open spec fn lookup(members: Seq<(String, Json)>, key: Seq<char>) -> Option<Json>
    decreases members.len(),
{
    if members.len() == 0 {
        None
    } else if members[0].0@ == key {
        Some(members[0].1)
    } else {
        lookup(members.drop_first(), key)
    }
}

/// The member `key` of an object; `None` for a missing member or a value that
/// is not an object.
pub open spec fn field(j: Json, key: Seq<char>) -> Option<Json> {
    match j {
        Json::Object(m) => lookup(m@, key),
        _ => None,
    }
}

/// Finds the member `key` of an object.
pub fn get_field<'a>(j: &'a Json, key: &str) -> (r: Option<&'a Json>)
    ensures
        match r {
            Some(x) => field(*j, key@) == Some(*x),
            None => field(*j, key@) is None,
        },
{
    match j {
        Json::Object(m) => {
            let mut i: usize = 0;
            assert(m@.skip(0) =~= m@);
            assert(field(*j, key@) == lookup(m@, key@));
            while i < m.len()
                invariant
                    i <= m@.len(),
                    field(*j, key@) == lookup(m@, key@),
                    lookup(m@, key@) == lookup(m@.skip(i as int), key@),
                decreases m@.len() - i,
            {
                assert(m@.skip(i as int).drop_first() =~= m@.skip(i + 1));
                if crate::text::str_eq(m[i].0.as_str(), key) {
                    let ghost rest = m@.skip(i as int);
                    assert(rest[0] == m@[i as int]);
                    assert(rest.len() > 0 && rest[0].0@ == key@);
                    assert(lookup(rest, key@) == Some(rest[0].1));
                    return Some(&m[i].1);
                }
                i = i + 1;
            }
            None
        },
        _ => None,
    }
}

} // verus!

verus! {

/// The earliest time `chrono` holds, January 1 of the year -262143, in
/// seconds since the Unix epoch.
pub const MIN_UTC_SECONDS: i64 = -8334601228800;

/// The last second `chrono` holds, December 31 of the year 262142.
pub const MAX_UTC_SECONDS: i64 = 8210266876799;

/// Whether `chrono` accepts these seconds since the Unix epoch as a UTC time:
/// whether their day lies between its first and last date.
pub open spec fn utc_seconds_ok(secs: int) -> bool {
    MIN_UTC_SECONDS <= secs <= MAX_UTC_SECONDS
}

/// Relies on `chrono::DateTime::from_timestamp_secs`: `None` for seconds whose
/// day lies outside `NaiveDate::MIN ..= NaiveDate::MAX`; otherwise a time whose
/// `timestamp` is those seconds.
#[verifier::external_body]
fn utc_seconds(secs: i64) -> (r: Option<i64>)
    ensures
        r is Some <==> utc_seconds_ok(secs as int),
        r matches Some(x) ==> x == secs,
{
    chrono::DateTime::from_timestamp_secs(secs).map(|d| d.timestamp())
}

pub open spec fn as_str(j: Json) -> Option<Seq<char>> {
    match j {
        Json::Str(s) => Some(s@),
        _ => None,
    }
}

pub open spec fn as_bool(j: Json) -> Option<bool> {
    match j {
        Json::Bool(b) => Some(b),
        _ => None,
    }
}

/// A number read as a non-negative 64-bit integer.
pub open spec fn as_u64(j: Json) -> Option<u64> {
    match j {
        Json::Number(_, Some(u)) => Some(u),
        _ => None,
    }
}

/// A number read as seconds since the Unix epoch: an integer that fits an
/// `i64` and that `chrono` accepts.
pub open spec fn as_seconds(j: Json) -> Option<i64> {
    match j {
        Json::Number(Some(i), _) => if utc_seconds_ok(i as int) {
            Some(i)
        } else {
            None
        },
        _ => None,
    }
}

/// The text of a string value; only ever applied to strings.
pub open spec fn str_payload(j: Json) -> Seq<char> {
    match j {
        Json::Str(s) => s@,
        _ => Seq::empty(),
    }
}

/// An array of strings.
pub open spec fn as_str_list(j: Json) -> Option<Seq<Seq<char>>> {
    match j {
        Json::Array(items) => if forall|i: int| 0 <= i < items@.len() ==> #[trigger] items@[i] is Str {
            Some(items@.map_values(|x: Json| str_payload(x)))
        } else {
            None
        },
        _ => None,
    }
}

/// An optional member: missing or null gives `Some(None)`; a value that
/// `read` (the read of the value when it is there) cannot give gives `None`.
pub open spec fn optional<T>(v: Option<Json>, read: Option<T>) -> Option<Option<T>> {
    match v {
        None => Some(None),
        Some(Json::Null) => Some(None),
        Some(_) => match read {
            Some(x) => Some(Some(x)),
            None => None,
        },
    }
}

/// The member `key`, or `null` when it is missing.
pub open spec fn member_or_null(j: Json, key: Seq<char>) -> Json {
    match field(j, key) {
        Some(v) => v,
        None => Json::Null,
    }
}

pub open spec fn req_str(j: Json, key: Seq<char>) -> Option<Seq<char>> {
    as_str(member_or_null(j, key))
}

pub open spec fn req_seconds(j: Json, key: Seq<char>) -> Option<i64> {
    as_seconds(member_or_null(j, key))
}

pub open spec fn req_str_list(j: Json, key: Seq<char>) -> Option<Seq<Seq<char>>> {
    as_str_list(member_or_null(j, key))
}

pub open spec fn opt_str(j: Json, key: Seq<char>) -> Option<Option<Seq<char>>> {
    optional(field(j, key), as_str(member_or_null(j, key)))
}

pub open spec fn opt_bool(j: Json, key: Seq<char>) -> Option<Option<bool>> {
    optional(field(j, key), as_bool(member_or_null(j, key)))
}

pub open spec fn opt_u64(j: Json, key: Seq<char>) -> Option<Option<u64>> {
    optional(field(j, key), as_u64(member_or_null(j, key)))
}

pub open spec fn opt_seconds(j: Json, key: Seq<char>) -> Option<Option<i64>> {
    optional(field(j, key), as_seconds(member_or_null(j, key)))
}

pub open spec fn opt_str_list(j: Json, key: Seq<char>) -> Option<Option<Seq<Seq<char>>>> {
    optional(field(j, key), as_str_list(member_or_null(j, key)))
}

pub fn read_str(j: &Json) -> (r: Option<String>)
    ensures
        crate::text::opt_view(r) == as_str(*j),
{
    match j {
        Json::Str(s) => Some(s.clone()),
        _ => None,
    }
}

pub fn read_bool(j: &Json) -> (r: Option<bool>)
    ensures
        r == as_bool(*j),
{
    match j {
        Json::Bool(b) => Some(*b),
        _ => None,
    }
}

pub fn read_u64(j: &Json) -> (r: Option<u64>)
    ensures
        r == as_u64(*j),
{
    match j {
        Json::Number(_, Some(u)) => Some(*u),
        _ => None,
    }
}

pub fn read_seconds(j: &Json) -> (r: Option<i64>)
    ensures
        r == as_seconds(*j),
{
    match j {
        Json::Number(Some(i), _) => utc_seconds(*i),
        _ => None,
    }
}

pub fn read_str_list(j: &Json) -> (r: Option<Vec<String>>)
    ensures
        match r {
            Some(v) => as_str_list(*j) == Some(crate::merge::str_views(v@)),
            None => as_str_list(*j) is None,
        },
{
    match j {
        Json::Array(items) => {
            let mut out: Vec<String> = Vec::new();
            let mut i: usize = 0;
            while i < items.len()
                invariant
                    i <= items@.len(),
                    *j == Json::Array(*items),
                    out@.len() == i,
                    forall|k: int| 0 <= k < i ==> #[trigger] items@[k] is Str,
                    forall|k: int| 0 <= k < i ==> #[trigger] out@[k]@ == str_payload(items@[k]),
                decreases items@.len() - i,
            {
                match &items[i] {
                    Json::Str(s) => out.push(s.clone()),
                    _ => {
                        assert(!(items@[i as int] is Str));
                        return None;
                    },
                }
                i = i + 1;
            }
            assert(crate::merge::str_views(out@) =~= items@.map_values(|x: Json| str_payload(x)));
            Some(out)
        },
        _ => None,
    }
}

} // verus!

verus! {

/// The member `key` when it is there and not null.
pub fn present<'a>(j: &'a Json, key: &str) -> (r: Option<&'a Json>)
    ensures
        match r {
            Some(x) => field(*j, key@) == Some(*x) && !(*x is Null) && member_or_null(*j, key@) == *x,
            None => field(*j, key@) is None || field(*j, key@) == Some(Json::Null),
        },
{
    match get_field(j, key) {
        Some(v) => match v {
            Json::Null => None,
            _ => Some(v),
        },
        None => None,
    }
}

pub fn field_str(j: &Json, key: &str) -> (r: Option<String>)
    ensures
        crate::text::opt_view(r) == req_str(*j, key@),
{
    match get_field(j, key) {
        Some(v) => read_str(v),
        None => None,
    }
}

pub fn field_seconds(j: &Json, key: &str) -> (r: Option<i64>)
    ensures
        r == req_seconds(*j, key@),
{
    match get_field(j, key) {
        Some(v) => read_seconds(v),
        None => None,
    }
}

pub fn field_str_list(j: &Json, key: &str) -> (r: Option<Vec<String>>)
    ensures
        match r {
            Some(v) => req_str_list(*j, key@) == Some(crate::merge::str_views(v@)),
            None => req_str_list(*j, key@) is None,
        },
{
    match get_field(j, key) {
        Some(v) => read_str_list(v),
        None => None,
    }
}

pub fn field_opt_str(j: &Json, key: &str) -> (r: Option<Option<String>>)
    ensures
        match r {
            Some(o) => opt_str(*j, key@) == Some(crate::text::opt_view(o)),
            None => opt_str(*j, key@) is None,
        },
{
    match present(j, key) {
        Some(v) => match read_str(v) {
            Some(s) => Some(Some(s)),
            None => None,
        },
        None => Some(None),
    }
}

pub fn field_opt_bool(j: &Json, key: &str) -> (r: Option<Option<bool>>)
    ensures
        r == opt_bool(*j, key@),
{
    match present(j, key) {
        Some(v) => match read_bool(v) {
            Some(b) => Some(Some(b)),
            None => None,
        },
        None => Some(None),
    }
}

pub fn field_opt_u64(j: &Json, key: &str) -> (r: Option<Option<u64>>)
    ensures
        r == opt_u64(*j, key@),
{
    match present(j, key) {
        Some(v) => match read_u64(v) {
            Some(n) => Some(Some(n)),
            None => None,
        },
        None => Some(None),
    }
}

pub fn field_opt_seconds(j: &Json, key: &str) -> (r: Option<Option<i64>>)
    ensures
        r == opt_seconds(*j, key@),
{
    match present(j, key) {
        Some(v) => match read_seconds(v) {
            Some(n) => Some(Some(n)),
            None => None,
        },
        None => Some(None),
    }
}

pub fn field_opt_str_list(j: &Json, key: &str) -> (r: Option<Option<Vec<String>>>)
    ensures
        match r {
            Some(o) => opt_str_list(*j, key@) == Some(crate::mytoken::opt_strs(o)),
            None => opt_str_list(*j, key@) is None,
        },
{
    match present(j, key) {
        Some(v) => match read_str_list(v) {
            Some(l) => Some(Some(l)),
            None => None,
        },
        None => Some(None),
    }
}

} // verus!
