//! Field-level wire codecs: how each attribute type is read from and written
//! to the JSON tree, and the errors that name where reading failed.

use vstd::prelude::*;

use crate::enums::{
    PrivacySetting,
    privacy_setting_of,
    privacy_setting_code,
    ProjectStatus,
    project_status_of,
    project_status_code,
    EventType,
    event_type_of,
    event_type_code,
    GroupType,
    group_type_of,
    group_type_code,
    EntryMethod,
    entry_method_of,
    entry_method_code,
    AdminLevel,
    admin_level_of,
    admin_level_code,
    ActionType,
    action_type_of,
    action_type_code,
    DisplayStatus,
    display_status_of,
    display_status_code,
    WritingType,
    writing_type_of,
    writing_type_code,
    ContentType,
    content_type_of,
    content_type_code,
    RegistrationPath,
    registration_path_of,
    registration_path_code,
    BadgeType,
    badge_type_of,
    badge_type_code,
    JoiningRule,
    joining_rule_of,
    joining_rule_code,
    UnitType,
    unit_type_of,
    unit_type_code,
    AdheresTo,
    adheres_to_of,
    adheres_to_code,
    Feeling,
    feeling_of,
    feeling_code,
    InvitationStatus,
    invitation_status_of,
    invitation_status_code,
    Where,
    where_of,
    where_code,
    How,
    how_of,
    how_code,
};
use crate::json::{get_field, lookup, Json};
use crate::text::{decimal_text, i64_text, parse_i64, parse_u64, signed_text, u64_of_text, i64_of_text, u64_text};
use crate::time::{iso_date_of, rfc3339_utc_of, Date, Minutes, Timestamp};

verus! {

/// Why a document could not be read as the expected shape.
#[derive(Clone, Debug, PartialEq, Eq)]
pub enum DecodeCause {
    /// A required field is absent.
    MissingField,
    /// A field that the schema does not know is present.
    UnknownField,
    /// A value has the wrong shape; the text says what was expected.
    Invalid(&'static str),
    /// A `type` tag or relation key names no resource kind.
    UnknownKind,
    /// A `type` tag names a kind other than the one expected.
    WrongKind,
    /// Two relation keys name the same kind.
    DuplicateKind,
}

/// A decoding failure: the path of keys and indices from the document's root
/// to the offending value, and the cause.
#[derive(Clone, Debug, PartialEq, Eq)]
pub struct DecodeError {
    pub path: Vec<String>,
    pub cause: DecodeCause,
}

/// An error at the value under `key`.
pub fn error_at(key: &str, cause: DecodeCause) -> (r: DecodeError)
    ensures
        r.path@.len() == 1,
        r.path@[0]@ == key@,
        r.cause == cause,
{
    let mut path = Vec::new();
    path.push(String::from_str(key));
    DecodeError { path, cause }
}

/// An error found inside the value under `key`: the key goes in front of its path.
pub fn error_within(key: &str, e: DecodeError) -> (r: DecodeError)
    ensures
        r.path@.len() == e.path@.len() + 1,
        r.path@[0]@ == key@,
        r.path@.subrange(1, r.path@.len() as int) == e.path@,
        r.cause == e.cause,
{
    let mut path = e.path;
    path.insert(0, String::from_str(key));
    proof {
        assert(path@.subrange(1, path@.len() as int) =~= e.path@);
    }
    DecodeError { path, cause: e.cause }
}

/// An error found inside the element at `index` of an array.
pub fn error_at_index(index: usize, e: DecodeError) -> (r: DecodeError)
    ensures
        r.path@.len() == e.path@.len() + 1,
        r.path@[0]@ == decimal_text(index as nat),
        r.path@.subrange(1, r.path@.len() as int) == e.path@,
        r.cause == e.cause,
{
    let mut path = e.path;
    path.insert(0, u64_text(index as u64));
    proof {
        assert(path@.subrange(1, path@.len() as int) =~= e.path@);
    }
    DecodeError { path, cause: e.cause }
}

/// A value read as a string, if it is one.
pub open spec fn json_str(j: Json) -> Option<Seq<char>> {
    match j { Json::Str(s) => Some(s@), _ => None }
}

/// Reads a value as a string.
pub fn value_str(j: &Json) -> (r: Result<String, ()>)
    ensures
        match r {
            Ok(v) => json_str(*j) == Some(v@),
            Err(_) => json_str(*j) is None,
        },
{
    match j { Json::Str(s) => Ok(s.clone()), _ => Err(()) }
}

/// Reads the required field `key` of an object as a string.
pub fn field_str(o: &Vec<(String, Json)>, key: &str) -> (r: Result<String, DecodeError>)
    ensures
        match r {
            Ok(v) => lookup(o@, key@) matches Some(j) && json_str(j) == Some(v@),
            Err(e) => !(lookup(o@, key@) matches Some(j) && json_str(j) is Some) && e.path@.len() == 1 && e.path@[0]@ == key@,
        },
{
    match get_field(o, key) {
        Some(j) => match value_str(j) {
            Ok(v) => Ok(v),
            Err(_) => Err(error_at(key, DecodeCause::Invalid("a string"))),
        },
        None => Err(error_at(key, DecodeCause::MissingField)),
    }
}

/// Reads the optional field `key` of an object as a string; absent or null gives `None`.
pub fn opt_field_str(o: &Vec<(String, Json)>, key: &str) -> (r: Result<Option<String>, DecodeError>)
    ensures
        match r {
            Ok(None) => lookup(o@, key@) is None || lookup(o@, key@) == Some(Json::Null),
            Ok(Some(v)) => lookup(o@, key@) matches Some(j) && json_str(j) == Some(v@),
            Err(e) => lookup(o@, key@) matches Some(j) && !(j is Null) && json_str(j) is None && e.path@.len() == 1 && e.path@[0]@ == key@,
        },
{
    match get_field(o, key) {
        Some(Json::Null) => Ok(None),
        Some(j) => match value_str(j) {
            Ok(v) => Ok(Some(v)),
            Err(_) => Err(error_at(key, DecodeCause::Invalid("a string"))),
        },
        None => Ok(None),
    }
}

/// Whether `r` is the wire form of `v`, written as a string.
pub open spec fn writes_str(r: Json, v: String) -> bool {
    r matches Json::Str(s) && s@ == v@
}

/// Writes a value as a string.
pub fn str_json(v: &String) -> (r: Json)
    ensures
        writes_str(r, *v),
{
    Json::Str(v.clone())
}

/// Writes an optional value as a string, or null.
pub fn opt_str_json(v: &Option<String>) -> (r: Json)
    ensures
        match *v {
            Some(x) => writes_str(r, x),
            None => r == Json::Null,
        },
{
    match v {
        Some(x) => str_json(x),
        None => Json::Null,
    }
}

/// A value read as a boolean, if it is one.
pub open spec fn json_bool(j: Json) -> Option<bool> {
    match j { Json::Bool(b) => Some(b), _ => None }
}

/// Reads a value as a boolean.
pub fn value_bool(j: &Json) -> (r: Result<bool, ()>)
    ensures
        match r {
            Ok(v) => json_bool(*j) == Some(v),
            Err(_) => json_bool(*j) is None,
        },
{
    match j { Json::Bool(b) => Ok(*b), _ => Err(()) }
}

/// Reads the required field `key` of an object as a boolean.
pub fn field_bool(o: &Vec<(String, Json)>, key: &str) -> (r: Result<bool, DecodeError>)
    ensures
        match r {
            Ok(v) => lookup(o@, key@) matches Some(j) && json_bool(j) == Some(v),
            Err(e) => !(lookup(o@, key@) matches Some(j) && json_bool(j) is Some) && e.path@.len() == 1 && e.path@[0]@ == key@,
        },
{
    match get_field(o, key) {
        Some(j) => match value_bool(j) {
            Ok(v) => Ok(v),
            Err(_) => Err(error_at(key, DecodeCause::Invalid("a boolean"))),
        },
        None => Err(error_at(key, DecodeCause::MissingField)),
    }
}

/// Reads the optional field `key` of an object as a boolean; absent or null gives `None`.
pub fn opt_field_bool(o: &Vec<(String, Json)>, key: &str) -> (r: Result<Option<bool>, DecodeError>)
    ensures
        match r {
            Ok(None) => lookup(o@, key@) is None || lookup(o@, key@) == Some(Json::Null),
            Ok(Some(v)) => lookup(o@, key@) matches Some(j) && json_bool(j) == Some(v),
            Err(e) => lookup(o@, key@) matches Some(j) && !(j is Null) && json_bool(j) is None && e.path@.len() == 1 && e.path@[0]@ == key@,
        },
{
    match get_field(o, key) {
        Some(Json::Null) => Ok(None),
        Some(j) => match value_bool(j) {
            Ok(v) => Ok(Some(v)),
            Err(_) => Err(error_at(key, DecodeCause::Invalid("a boolean"))),
        },
        None => Ok(None),
    }
}

/// Whether `r` is the wire form of `v`, written as a boolean.
pub open spec fn writes_bool(r: Json, v: bool) -> bool {
    r == Json::Bool(v)
}

/// Writes a value as a boolean.
pub fn bool_json(v: &bool) -> (r: Json)
    ensures
        writes_bool(r, *v),
{
    Json::Bool(*v)
}

/// Writes an optional value as a boolean, or null.
pub fn opt_bool_json(v: &Option<bool>) -> (r: Json)
    ensures
        match *v {
            Some(x) => writes_bool(r, x),
            None => r == Json::Null,
        },
{
    match v {
        Some(x) => bool_json(x),
        None => Json::Null,
    }
}

/// A value read as an unsigned integer, if it is one.
pub open spec fn json_u64(j: Json) -> Option<u64> {
    match j { Json::Number(t) => u64_of_text(t@), _ => None }
}

/// Reads a value as an unsigned integer.
pub fn value_u64(j: &Json) -> (r: Result<u64, ()>)
    ensures
        match r {
            Ok(v) => json_u64(*j) == Some(v),
            Err(_) => json_u64(*j) is None,
        },
{
    match j { Json::Number(t) => match parse_u64(t.as_str()) { Some(n) => Ok(n), None => Err(()) }, _ => Err(()) }
}

/// Reads the required field `key` of an object as an unsigned integer.
pub fn field_u64(o: &Vec<(String, Json)>, key: &str) -> (r: Result<u64, DecodeError>)
    ensures
        match r {
            Ok(v) => lookup(o@, key@) matches Some(j) && json_u64(j) == Some(v),
            Err(e) => !(lookup(o@, key@) matches Some(j) && json_u64(j) is Some) && e.path@.len() == 1 && e.path@[0]@ == key@,
        },
{
    match get_field(o, key) {
        Some(j) => match value_u64(j) {
            Ok(v) => Ok(v),
            Err(_) => Err(error_at(key, DecodeCause::Invalid("an unsigned integer"))),
        },
        None => Err(error_at(key, DecodeCause::MissingField)),
    }
}

/// Reads the optional field `key` of an object as an unsigned integer; absent or null gives `None`.
pub fn opt_field_u64(o: &Vec<(String, Json)>, key: &str) -> (r: Result<Option<u64>, DecodeError>)
    ensures
        match r {
            Ok(None) => lookup(o@, key@) is None || lookup(o@, key@) == Some(Json::Null),
            Ok(Some(v)) => lookup(o@, key@) matches Some(j) && json_u64(j) == Some(v),
            Err(e) => lookup(o@, key@) matches Some(j) && !(j is Null) && json_u64(j) is None && e.path@.len() == 1 && e.path@[0]@ == key@,
        },
{
    match get_field(o, key) {
        Some(Json::Null) => Ok(None),
        Some(j) => match value_u64(j) {
            Ok(v) => Ok(Some(v)),
            Err(_) => Err(error_at(key, DecodeCause::Invalid("an unsigned integer"))),
        },
        None => Ok(None),
    }
}

/// Whether `r` is the wire form of `v`, written as an unsigned integer.
pub open spec fn writes_u64(r: Json, v: u64) -> bool {
    r matches Json::Number(t) && t@ == decimal_text(v as nat)
}

/// Writes a value as an unsigned integer.
pub fn u64_json(v: &u64) -> (r: Json)
    ensures
        writes_u64(r, *v),
{
    Json::Number(u64_text(*v))
}

/// Writes an optional value as an unsigned integer, or null.
pub fn opt_u64_json(v: &Option<u64>) -> (r: Json)
    ensures
        match *v {
            Some(x) => writes_u64(r, x),
            None => r == Json::Null,
        },
{
    match v {
        Some(x) => u64_json(x),
        None => Json::Null,
    }
}

/// A value read as an integer, if it is one.
pub open spec fn json_i64(j: Json) -> Option<i64> {
    match j { Json::Number(t) => i64_of_text(t@), _ => None }
}

/// Reads a value as an integer.
pub fn value_i64(j: &Json) -> (r: Result<i64, ()>)
    ensures
        match r {
            Ok(v) => json_i64(*j) == Some(v),
            Err(_) => json_i64(*j) is None,
        },
{
    match j { Json::Number(t) => match parse_i64(t.as_str()) { Some(n) => Ok(n), None => Err(()) }, _ => Err(()) }
}

/// Reads the required field `key` of an object as an integer.
pub fn field_i64(o: &Vec<(String, Json)>, key: &str) -> (r: Result<i64, DecodeError>)
    ensures
        match r {
            Ok(v) => lookup(o@, key@) matches Some(j) && json_i64(j) == Some(v),
            Err(e) => !(lookup(o@, key@) matches Some(j) && json_i64(j) is Some) && e.path@.len() == 1 && e.path@[0]@ == key@,
        },
{
    match get_field(o, key) {
        Some(j) => match value_i64(j) {
            Ok(v) => Ok(v),
            Err(_) => Err(error_at(key, DecodeCause::Invalid("an integer"))),
        },
        None => Err(error_at(key, DecodeCause::MissingField)),
    }
}

/// Reads the optional field `key` of an object as an integer; absent or null gives `None`.
pub fn opt_field_i64(o: &Vec<(String, Json)>, key: &str) -> (r: Result<Option<i64>, DecodeError>)
    ensures
        match r {
            Ok(None) => lookup(o@, key@) is None || lookup(o@, key@) == Some(Json::Null),
            Ok(Some(v)) => lookup(o@, key@) matches Some(j) && json_i64(j) == Some(v),
            Err(e) => lookup(o@, key@) matches Some(j) && !(j is Null) && json_i64(j) is None && e.path@.len() == 1 && e.path@[0]@ == key@,
        },
{
    match get_field(o, key) {
        Some(Json::Null) => Ok(None),
        Some(j) => match value_i64(j) {
            Ok(v) => Ok(Some(v)),
            Err(_) => Err(error_at(key, DecodeCause::Invalid("an integer"))),
        },
        None => Ok(None),
    }
}

/// Whether `r` is the wire form of `v`, written as an integer.
pub open spec fn writes_i64(r: Json, v: i64) -> bool {
    r matches Json::Number(t) && t@ == signed_text(v as int)
}

/// Writes a value as an integer.
pub fn i64_json(v: &i64) -> (r: Json)
    ensures
        writes_i64(r, *v),
{
    Json::Number(i64_text(*v))
}

/// Writes an optional value as an integer, or null.
pub fn opt_i64_json(v: &Option<i64>) -> (r: Json)
    ensures
        match *v {
            Some(x) => writes_i64(r, x),
            None => r == Json::Null,
        },
{
    match v {
        Some(x) => i64_json(x),
        None => Json::Null,
    }
}

/// A value read as an integer from 0 to 255, if it is one.
pub open spec fn json_u8(j: Json) -> Option<u8> {
    match json_u64(j) { Some(n) => if n <= 255 { Some(n as u8) } else { None }, None => None }
}

/// Reads a value as an integer from 0 to 255.
pub fn value_u8(j: &Json) -> (r: Result<u8, ()>)
    ensures
        match r {
            Ok(v) => json_u8(*j) == Some(v),
            Err(_) => json_u8(*j) is None,
        },
{
    match value_u64(j) { Ok(n) => if n <= 255 { Ok(n as u8) } else { Err(()) }, Err(_) => Err(()) }
}

/// Reads the required field `key` of an object as an integer from 0 to 255.
pub fn field_u8(o: &Vec<(String, Json)>, key: &str) -> (r: Result<u8, DecodeError>)
    ensures
        match r {
            Ok(v) => lookup(o@, key@) matches Some(j) && json_u8(j) == Some(v),
            Err(e) => !(lookup(o@, key@) matches Some(j) && json_u8(j) is Some) && e.path@.len() == 1 && e.path@[0]@ == key@,
        },
{
    match get_field(o, key) {
        Some(j) => match value_u8(j) {
            Ok(v) => Ok(v),
            Err(_) => Err(error_at(key, DecodeCause::Invalid("an integer from 0 to 255"))),
        },
        None => Err(error_at(key, DecodeCause::MissingField)),
    }
}

/// Whether `r` is the wire form of `v`, written as an integer from 0 to 255.
pub open spec fn writes_u8(r: Json, v: u8) -> bool {
    r matches Json::Number(t) && t@ == decimal_text(v as nat)
}

/// Writes a value as an integer from 0 to 255.
pub fn u8_json(v: &u8) -> (r: Json)
    ensures
        writes_u8(r, *v),
{
    Json::Number(u64_text(*v as u64))
}

/// A value read as an integer from -128 to 127, if it is one.
pub open spec fn json_i8(j: Json) -> Option<i8> {
    match json_i64(j) { Some(n) => if -128 <= n <= 127 { Some(n as i8) } else { None }, None => None }
}

/// Reads a value as an integer from -128 to 127.
pub fn value_i8(j: &Json) -> (r: Result<i8, ()>)
    ensures
        match r {
            Ok(v) => json_i8(*j) == Some(v),
            Err(_) => json_i8(*j) is None,
        },
{
    match value_i64(j) { Ok(n) => if -128 <= n && n <= 127 { Ok(n as i8) } else { Err(()) }, Err(_) => Err(()) }
}

/// A value read as a number, if it is one.
pub open spec fn json_number(j: Json) -> Option<Seq<char>> {
    match j { Json::Number(t) => Some(t@), _ => None }
}

/// Reads a value as a number.
pub fn value_number(j: &Json) -> (r: Result<String, ()>)
    ensures
        match r {
            Ok(v) => json_number(*j) == Some(v@),
            Err(_) => json_number(*j) is None,
        },
{
    match j { Json::Number(t) => Ok(t.clone()), _ => Err(()) }
}

/// Reads the required field `key` of an object as a number.
pub fn field_number(o: &Vec<(String, Json)>, key: &str) -> (r: Result<String, DecodeError>)
    ensures
        match r {
            Ok(v) => lookup(o@, key@) matches Some(j) && json_number(j) == Some(v@),
            Err(e) => !(lookup(o@, key@) matches Some(j) && json_number(j) is Some) && e.path@.len() == 1 && e.path@[0]@ == key@,
        },
{
    match get_field(o, key) {
        Some(j) => match value_number(j) {
            Ok(v) => Ok(v),
            Err(_) => Err(error_at(key, DecodeCause::Invalid("a number"))),
        },
        None => Err(error_at(key, DecodeCause::MissingField)),
    }
}

/// Reads the optional field `key` of an object as a number; absent or null gives `None`.
pub fn opt_field_number(o: &Vec<(String, Json)>, key: &str) -> (r: Result<Option<String>, DecodeError>)
    ensures
        match r {
            Ok(None) => lookup(o@, key@) is None || lookup(o@, key@) == Some(Json::Null),
            Ok(Some(v)) => lookup(o@, key@) matches Some(j) && json_number(j) == Some(v@),
            Err(e) => lookup(o@, key@) matches Some(j) && !(j is Null) && json_number(j) is None && e.path@.len() == 1 && e.path@[0]@ == key@,
        },
{
    match get_field(o, key) {
        Some(Json::Null) => Ok(None),
        Some(j) => match value_number(j) {
            Ok(v) => Ok(Some(v)),
            Err(_) => Err(error_at(key, DecodeCause::Invalid("a number"))),
        },
        None => Ok(None),
    }
}

/// Whether `r` is the wire form of `v`, written as a number.
pub open spec fn writes_number(r: Json, v: String) -> bool {
    r matches Json::Number(t) && t@ == v@
}

/// Writes a value as a number.
pub fn number_json(v: &String) -> (r: Json)
    ensures
        writes_number(r, *v),
{
    Json::Number(v.clone())
}

/// Writes an optional value as a number, or null.
pub fn opt_number_json(v: &Option<String>) -> (r: Json)
    ensures
        match *v {
            Some(x) => writes_number(r, x),
            None => r == Json::Null,
        },
{
    match v {
        Some(x) => number_json(x),
        None => Json::Null,
    }
}

/// A value read as a string holding an unsigned integer, if it is one.
pub open spec fn json_str_u64(j: Json) -> Option<u64> {
    match j { Json::Str(s) => u64_of_text(s@), _ => None }
}

/// Reads a value as a string holding an unsigned integer.
pub fn value_str_u64(j: &Json) -> (r: Result<u64, ()>)
    ensures
        match r {
            Ok(v) => json_str_u64(*j) == Some(v),
            Err(_) => json_str_u64(*j) is None,
        },
{
    match j { Json::Str(s) => match parse_u64(s.as_str()) { Some(n) => Ok(n), None => Err(()) }, _ => Err(()) }
}

/// Reads the required field `key` of an object as a string holding an unsigned integer.
pub fn field_str_u64(o: &Vec<(String, Json)>, key: &str) -> (r: Result<u64, DecodeError>)
    ensures
        match r {
            Ok(v) => lookup(o@, key@) matches Some(j) && json_str_u64(j) == Some(v),
            Err(e) => !(lookup(o@, key@) matches Some(j) && json_str_u64(j) is Some) && e.path@.len() == 1 && e.path@[0]@ == key@,
        },
{
    match get_field(o, key) {
        Some(j) => match value_str_u64(j) {
            Ok(v) => Ok(v),
            Err(_) => Err(error_at(key, DecodeCause::Invalid("a string holding an unsigned integer"))),
        },
        None => Err(error_at(key, DecodeCause::MissingField)),
    }
}

/// Whether `r` is the wire form of `v`, written as a string holding an unsigned integer.
pub open spec fn writes_str_u64(r: Json, v: u64) -> bool {
    r matches Json::Str(s) && s@ == decimal_text(v as nat)
}

/// Writes a value as a string holding an unsigned integer.
pub fn str_u64_json(v: &u64) -> (r: Json)
    ensures
        writes_str_u64(r, *v),
{
    Json::Str(u64_text(*v))
}

/// Writes an optional value as a string holding an unsigned integer, or null.
pub fn opt_str_u64_json(v: &Option<u64>) -> (r: Json)
    ensures
        match *v {
            Some(x) => writes_str_u64(r, x),
            None => r == Json::Null,
        },
{
    match v {
        Some(x) => str_u64_json(x),
        None => Json::Null,
    }
}

/// A value read as an RFC 3339 timestamp, if it is one.
pub open spec fn json_timestamp(j: Json) -> Option<Seq<char>> {
    match j { Json::Str(s) => rfc3339_utc_of(s@), _ => None }
}

/// Reads a value as an RFC 3339 timestamp.
pub fn value_timestamp(j: &Json) -> (r: Result<Timestamp, ()>)
    ensures
        match r {
            Ok(v) => json_timestamp(*j) == Some(v@),
            Err(_) => json_timestamp(*j) is None,
        },
{
    match j { Json::Str(s) => match Timestamp::parse(s.as_str()) { Some(t) => Ok(t), None => Err(()) }, _ => Err(()) }
}

/// Reads the required field `key` of an object as an RFC 3339 timestamp.
pub fn field_timestamp(o: &Vec<(String, Json)>, key: &str) -> (r: Result<Timestamp, DecodeError>)
    ensures
        match r {
            Ok(v) => lookup(o@, key@) matches Some(j) && json_timestamp(j) == Some(v@),
            Err(e) => !(lookup(o@, key@) matches Some(j) && json_timestamp(j) is Some) && e.path@.len() == 1 && e.path@[0]@ == key@,
        },
{
    match get_field(o, key) {
        Some(j) => match value_timestamp(j) {
            Ok(v) => Ok(v),
            Err(_) => Err(error_at(key, DecodeCause::Invalid("an RFC 3339 timestamp"))),
        },
        None => Err(error_at(key, DecodeCause::MissingField)),
    }
}

/// Reads the optional field `key` of an object as an RFC 3339 timestamp; absent or null gives `None`.
pub fn opt_field_timestamp(o: &Vec<(String, Json)>, key: &str) -> (r: Result<Option<Timestamp>, DecodeError>)
    ensures
        match r {
            Ok(None) => lookup(o@, key@) is None || lookup(o@, key@) == Some(Json::Null),
            Ok(Some(v)) => lookup(o@, key@) matches Some(j) && json_timestamp(j) == Some(v@),
            Err(e) => lookup(o@, key@) matches Some(j) && !(j is Null) && json_timestamp(j) is None && e.path@.len() == 1 && e.path@[0]@ == key@,
        },
{
    match get_field(o, key) {
        Some(Json::Null) => Ok(None),
        Some(j) => match value_timestamp(j) {
            Ok(v) => Ok(Some(v)),
            Err(_) => Err(error_at(key, DecodeCause::Invalid("an RFC 3339 timestamp"))),
        },
        None => Ok(None),
    }
}

/// Whether `r` is the wire form of `v`, written as an RFC 3339 timestamp.
pub open spec fn writes_timestamp(r: Json, v: Timestamp) -> bool {
    r matches Json::Str(s) && s@ == v@
}

/// Writes a value as an RFC 3339 timestamp.
pub fn timestamp_json(v: &Timestamp) -> (r: Json)
    ensures
        writes_timestamp(r, *v),
{
    Json::Str(String::from_str(v.as_str()))
}

/// Writes an optional value as an RFC 3339 timestamp, or null.
pub fn opt_timestamp_json(v: &Option<Timestamp>) -> (r: Json)
    ensures
        match *v {
            Some(x) => writes_timestamp(r, x),
            None => r == Json::Null,
        },
{
    match v {
        Some(x) => timestamp_json(x),
        None => Json::Null,
    }
}

/// A value read as a calendar date, if it is one.
pub open spec fn json_date(j: Json) -> Option<Seq<char>> {
    match j { Json::Str(s) => iso_date_of(s@), _ => None }
}

/// Reads a value as a calendar date.
pub fn value_date(j: &Json) -> (r: Result<Date, ()>)
    ensures
        match r {
            Ok(v) => json_date(*j) == Some(v@),
            Err(_) => json_date(*j) is None,
        },
{
    match j { Json::Str(s) => match Date::parse(s.as_str()) { Some(d) => Ok(d), None => Err(()) }, _ => Err(()) }
}

/// Reads the required field `key` of an object as a calendar date.
pub fn field_date(o: &Vec<(String, Json)>, key: &str) -> (r: Result<Date, DecodeError>)
    ensures
        match r {
            Ok(v) => lookup(o@, key@) matches Some(j) && json_date(j) == Some(v@),
            Err(e) => !(lookup(o@, key@) matches Some(j) && json_date(j) is Some) && e.path@.len() == 1 && e.path@[0]@ == key@,
        },
{
    match get_field(o, key) {
        Some(j) => match value_date(j) {
            Ok(v) => Ok(v),
            Err(_) => Err(error_at(key, DecodeCause::Invalid("a calendar date"))),
        },
        None => Err(error_at(key, DecodeCause::MissingField)),
    }
}

/// Reads the optional field `key` of an object as a calendar date; absent or null gives `None`.
pub fn opt_field_date(o: &Vec<(String, Json)>, key: &str) -> (r: Result<Option<Date>, DecodeError>)
    ensures
        match r {
            Ok(None) => lookup(o@, key@) is None || lookup(o@, key@) == Some(Json::Null),
            Ok(Some(v)) => lookup(o@, key@) matches Some(j) && json_date(j) == Some(v@),
            Err(e) => lookup(o@, key@) matches Some(j) && !(j is Null) && json_date(j) is None && e.path@.len() == 1 && e.path@[0]@ == key@,
        },
{
    match get_field(o, key) {
        Some(Json::Null) => Ok(None),
        Some(j) => match value_date(j) {
            Ok(v) => Ok(Some(v)),
            Err(_) => Err(error_at(key, DecodeCause::Invalid("a calendar date"))),
        },
        None => Ok(None),
    }
}

/// Whether `r` is the wire form of `v`, written as a calendar date.
pub open spec fn writes_date(r: Json, v: Date) -> bool {
    r matches Json::Str(s) && s@ == v@
}

/// Writes a value as a calendar date.
pub fn date_json(v: &Date) -> (r: Json)
    ensures
        writes_date(r, *v),
{
    Json::Str(String::from_str(v.as_str()))
}

/// Writes an optional value as a calendar date, or null.
pub fn opt_date_json(v: &Option<Date>) -> (r: Json)
    ensures
        match *v {
            Some(x) => writes_date(r, x),
            None => r == Json::Null,
        },
{
    match v {
        Some(x) => date_json(x),
        None => Json::Null,
    }
}

/// A value read as a count of minutes, if it is one.
pub open spec fn json_minutes(j: Json) -> Option<i64> {
    json_i64(j)
}

/// Reads a value as a count of minutes.
pub fn value_minutes(j: &Json) -> (r: Result<Minutes, ()>)
    ensures
        match r {
            Ok(v) => json_minutes(*j) == Some(v.minutes),
            Err(_) => json_minutes(*j) is None,
        },
{
    match value_i64(j) { Ok(n) => Ok(Minutes { minutes: n }), Err(_) => Err(()) }
}

/// Reads the required field `key` of an object as a count of minutes.
pub fn field_minutes(o: &Vec<(String, Json)>, key: &str) -> (r: Result<Minutes, DecodeError>)
    ensures
        match r {
            Ok(v) => lookup(o@, key@) matches Some(j) && json_minutes(j) == Some(v.minutes),
            Err(e) => !(lookup(o@, key@) matches Some(j) && json_minutes(j) is Some) && e.path@.len() == 1 && e.path@[0]@ == key@,
        },
{
    match get_field(o, key) {
        Some(j) => match value_minutes(j) {
            Ok(v) => Ok(v),
            Err(_) => Err(error_at(key, DecodeCause::Invalid("a count of minutes"))),
        },
        None => Err(error_at(key, DecodeCause::MissingField)),
    }
}

/// Whether `r` is the wire form of `v`, written as a count of minutes.
pub open spec fn writes_minutes(r: Json, v: Minutes) -> bool {
    r matches Json::Number(t) && t@ == signed_text(v.minutes as int)
}

/// Writes a value as a count of minutes.
pub fn minutes_json(v: &Minutes) -> (r: Json)
    ensures
        writes_minutes(r, *v),
{
    Json::Number(i64_text(v.minutes))
}

/// A value read as a PrivacySetting code, if it is one.
pub open spec fn json_privacy_setting(j: Json) -> Option<PrivacySetting> {
    match json_u8(j) { Some(c) => privacy_setting_of(c), None => None }
}

/// Reads a value as a PrivacySetting code.
pub fn value_privacy_setting(j: &Json) -> (r: Result<PrivacySetting, ()>)
    ensures
        match r {
            Ok(v) => json_privacy_setting(*j) == Some(v),
            Err(_) => json_privacy_setting(*j) is None,
        },
{
    match value_u8(j) { Ok(c) => match PrivacySetting::try_from_wire(c) { Ok(x) => Ok(x), Err(_) => Err(()) }, Err(_) => Err(()) }
}

/// Reads the required field `key` of an object as a PrivacySetting code.
pub fn field_privacy_setting(o: &Vec<(String, Json)>, key: &str) -> (r: Result<PrivacySetting, DecodeError>)
    ensures
        match r {
            Ok(v) => lookup(o@, key@) matches Some(j) && json_privacy_setting(j) == Some(v),
            Err(e) => !(lookup(o@, key@) matches Some(j) && json_privacy_setting(j) is Some) && e.path@.len() == 1 && e.path@[0]@ == key@,
        },
{
    match get_field(o, key) {
        Some(j) => match value_privacy_setting(j) {
            Ok(v) => Ok(v),
            Err(_) => Err(error_at(key, DecodeCause::Invalid("a PrivacySetting code"))),
        },
        None => Err(error_at(key, DecodeCause::MissingField)),
    }
}

/// Whether `r` is the wire form of `v`, written as a PrivacySetting code.
pub open spec fn writes_privacy_setting(r: Json, v: PrivacySetting) -> bool {
    r matches Json::Number(t) && t@ == decimal_text(privacy_setting_code(v) as nat)
}

/// Writes a value as a PrivacySetting code.
pub fn privacy_setting_json(v: &PrivacySetting) -> (r: Json)
    ensures
        writes_privacy_setting(r, *v),
{
    Json::Number(u64_text(v.to_wire() as u64))
}

/// A value read as a ProjectStatus name, if it is one.
pub open spec fn json_project_status(j: Json) -> Option<ProjectStatus> {
    match j { Json::Str(s) => project_status_of(s@), _ => None }
}

/// Reads a value as a ProjectStatus name.
pub fn value_project_status(j: &Json) -> (r: Result<ProjectStatus, ()>)
    ensures
        match r {
            Ok(v) => json_project_status(*j) == Some(v),
            Err(_) => json_project_status(*j) is None,
        },
{
    match j { Json::Str(s) => match ProjectStatus::try_from_wire(s.as_str()) { Ok(x) => Ok(x), Err(_) => Err(()) }, _ => Err(()) }
}

/// Reads the required field `key` of an object as a ProjectStatus name.
pub fn field_project_status(o: &Vec<(String, Json)>, key: &str) -> (r: Result<ProjectStatus, DecodeError>)
    ensures
        match r {
            Ok(v) => lookup(o@, key@) matches Some(j) && json_project_status(j) == Some(v),
            Err(e) => !(lookup(o@, key@) matches Some(j) && json_project_status(j) is Some) && e.path@.len() == 1 && e.path@[0]@ == key@,
        },
{
    match get_field(o, key) {
        Some(j) => match value_project_status(j) {
            Ok(v) => Ok(v),
            Err(_) => Err(error_at(key, DecodeCause::Invalid("a ProjectStatus name"))),
        },
        None => Err(error_at(key, DecodeCause::MissingField)),
    }
}

/// Whether `r` is the wire form of `v`, written as a ProjectStatus name.
pub open spec fn writes_project_status(r: Json, v: ProjectStatus) -> bool {
    r matches Json::Str(s) && s@ == project_status_code(v)
}

/// Writes a value as a ProjectStatus name.
pub fn project_status_json(v: &ProjectStatus) -> (r: Json)
    ensures
        writes_project_status(r, *v),
{
    Json::Str(String::from_str(v.to_wire()))
}

/// A value read as a EventType code, if it is one.
pub open spec fn json_event_type(j: Json) -> Option<EventType> {
    match json_u8(j) { Some(c) => event_type_of(c), None => None }
}

/// Reads a value as a EventType code.
pub fn value_event_type(j: &Json) -> (r: Result<EventType, ()>)
    ensures
        match r {
            Ok(v) => json_event_type(*j) == Some(v),
            Err(_) => json_event_type(*j) is None,
        },
{
    match value_u8(j) { Ok(c) => match EventType::try_from_wire(c) { Ok(x) => Ok(x), Err(_) => Err(()) }, Err(_) => Err(()) }
}

/// Reads the required field `key` of an object as a EventType code.
pub fn field_event_type(o: &Vec<(String, Json)>, key: &str) -> (r: Result<EventType, DecodeError>)
    ensures
        match r {
            Ok(v) => lookup(o@, key@) matches Some(j) && json_event_type(j) == Some(v),
            Err(e) => !(lookup(o@, key@) matches Some(j) && json_event_type(j) is Some) && e.path@.len() == 1 && e.path@[0]@ == key@,
        },
{
    match get_field(o, key) {
        Some(j) => match value_event_type(j) {
            Ok(v) => Ok(v),
            Err(_) => Err(error_at(key, DecodeCause::Invalid("a EventType code"))),
        },
        None => Err(error_at(key, DecodeCause::MissingField)),
    }
}

/// Reads the optional field `key` of an object as a EventType code; absent or null gives `None`.
pub fn opt_field_event_type(o: &Vec<(String, Json)>, key: &str) -> (r: Result<Option<EventType>, DecodeError>)
    ensures
        match r {
            Ok(None) => lookup(o@, key@) is None || lookup(o@, key@) == Some(Json::Null),
            Ok(Some(v)) => lookup(o@, key@) matches Some(j) && json_event_type(j) == Some(v),
            Err(e) => lookup(o@, key@) matches Some(j) && !(j is Null) && json_event_type(j) is None && e.path@.len() == 1 && e.path@[0]@ == key@,
        },
{
    match get_field(o, key) {
        Some(Json::Null) => Ok(None),
        Some(j) => match value_event_type(j) {
            Ok(v) => Ok(Some(v)),
            Err(_) => Err(error_at(key, DecodeCause::Invalid("a EventType code"))),
        },
        None => Ok(None),
    }
}

/// Whether `r` is the wire form of `v`, written as a EventType code.
pub open spec fn writes_event_type(r: Json, v: EventType) -> bool {
    r matches Json::Number(t) && t@ == decimal_text(event_type_code(v) as nat)
}

/// Writes a value as a EventType code.
pub fn event_type_json(v: &EventType) -> (r: Json)
    ensures
        writes_event_type(r, *v),
{
    Json::Number(u64_text(v.to_wire() as u64))
}

/// Writes an optional value as a EventType code, or null.
pub fn opt_event_type_json(v: &Option<EventType>) -> (r: Json)
    ensures
        match *v {
            Some(x) => writes_event_type(r, x),
            None => r == Json::Null,
        },
{
    match v {
        Some(x) => event_type_json(x),
        None => Json::Null,
    }
}

/// A value read as a GroupType name, if it is one.
pub open spec fn json_group_type(j: Json) -> Option<GroupType> {
    match j { Json::Str(s) => group_type_of(s@), _ => None }
}

/// Reads a value as a GroupType name.
pub fn value_group_type(j: &Json) -> (r: Result<GroupType, ()>)
    ensures
        match r {
            Ok(v) => json_group_type(*j) == Some(v),
            Err(_) => json_group_type(*j) is None,
        },
{
    match j { Json::Str(s) => match GroupType::try_from_wire(s.as_str()) { Ok(x) => Ok(x), Err(_) => Err(()) }, _ => Err(()) }
}

/// Reads the required field `key` of an object as a GroupType name.
pub fn field_group_type(o: &Vec<(String, Json)>, key: &str) -> (r: Result<GroupType, DecodeError>)
    ensures
        match r {
            Ok(v) => lookup(o@, key@) matches Some(j) && json_group_type(j) == Some(v),
            Err(e) => !(lookup(o@, key@) matches Some(j) && json_group_type(j) is Some) && e.path@.len() == 1 && e.path@[0]@ == key@,
        },
{
    match get_field(o, key) {
        Some(j) => match value_group_type(j) {
            Ok(v) => Ok(v),
            Err(_) => Err(error_at(key, DecodeCause::Invalid("a GroupType name"))),
        },
        None => Err(error_at(key, DecodeCause::MissingField)),
    }
}

/// Whether `r` is the wire form of `v`, written as a GroupType name.
pub open spec fn writes_group_type(r: Json, v: GroupType) -> bool {
    r matches Json::Str(s) && s@ == group_type_code(v)
}

/// Writes a value as a GroupType name.
pub fn group_type_json(v: &GroupType) -> (r: Json)
    ensures
        writes_group_type(r, *v),
{
    Json::Str(String::from_str(v.to_wire()))
}

/// A value read as a EntryMethod name, if it is one.
pub open spec fn json_entry_method(j: Json) -> Option<EntryMethod> {
    match j { Json::Str(s) => entry_method_of(s@), _ => None }
}

/// Reads a value as a EntryMethod name.
pub fn value_entry_method(j: &Json) -> (r: Result<EntryMethod, ()>)
    ensures
        match r {
            Ok(v) => json_entry_method(*j) == Some(v),
            Err(_) => json_entry_method(*j) is None,
        },
{
    match j { Json::Str(s) => match EntryMethod::try_from_wire(s.as_str()) { Ok(x) => Ok(x), Err(_) => Err(()) }, _ => Err(()) }
}

/// Reads the required field `key` of an object as a EntryMethod name.
pub fn field_entry_method(o: &Vec<(String, Json)>, key: &str) -> (r: Result<EntryMethod, DecodeError>)
    ensures
        match r {
            Ok(v) => lookup(o@, key@) matches Some(j) && json_entry_method(j) == Some(v),
            Err(e) => !(lookup(o@, key@) matches Some(j) && json_entry_method(j) is Some) && e.path@.len() == 1 && e.path@[0]@ == key@,
        },
{
    match get_field(o, key) {
        Some(j) => match value_entry_method(j) {
            Ok(v) => Ok(v),
            Err(_) => Err(error_at(key, DecodeCause::Invalid("a EntryMethod name"))),
        },
        None => Err(error_at(key, DecodeCause::MissingField)),
    }
}

/// Whether `r` is the wire form of `v`, written as a EntryMethod name.
pub open spec fn writes_entry_method(r: Json, v: EntryMethod) -> bool {
    r matches Json::Str(s) && s@ == entry_method_code(v)
}

/// Writes a value as a EntryMethod name.
pub fn entry_method_json(v: &EntryMethod) -> (r: Json)
    ensures
        writes_entry_method(r, *v),
{
    Json::Str(String::from_str(v.to_wire()))
}

/// A value read as a AdminLevel code, if it is one.
pub open spec fn json_admin_level(j: Json) -> Option<AdminLevel> {
    match json_u8(j) { Some(c) => admin_level_of(c), None => None }
}

/// Reads a value as a AdminLevel code.
pub fn value_admin_level(j: &Json) -> (r: Result<AdminLevel, ()>)
    ensures
        match r {
            Ok(v) => json_admin_level(*j) == Some(v),
            Err(_) => json_admin_level(*j) is None,
        },
{
    match value_u8(j) { Ok(c) => match AdminLevel::try_from_wire(c) { Ok(x) => Ok(x), Err(_) => Err(()) }, Err(_) => Err(()) }
}

/// Reads the required field `key` of an object as a AdminLevel code.
pub fn field_admin_level(o: &Vec<(String, Json)>, key: &str) -> (r: Result<AdminLevel, DecodeError>)
    ensures
        match r {
            Ok(v) => lookup(o@, key@) matches Some(j) && json_admin_level(j) == Some(v),
            Err(e) => !(lookup(o@, key@) matches Some(j) && json_admin_level(j) is Some) && e.path@.len() == 1 && e.path@[0]@ == key@,
        },
{
    match get_field(o, key) {
        Some(j) => match value_admin_level(j) {
            Ok(v) => Ok(v),
            Err(_) => Err(error_at(key, DecodeCause::Invalid("a AdminLevel code"))),
        },
        None => Err(error_at(key, DecodeCause::MissingField)),
    }
}

/// Whether `r` is the wire form of `v`, written as a AdminLevel code.
pub open spec fn writes_admin_level(r: Json, v: AdminLevel) -> bool {
    r matches Json::Number(t) && t@ == decimal_text(admin_level_code(v) as nat)
}

/// Writes a value as a AdminLevel code.
pub fn admin_level_json(v: &AdminLevel) -> (r: Json)
    ensures
        writes_admin_level(r, *v),
{
    Json::Number(u64_text(v.to_wire() as u64))
}

/// A value read as a ActionType name, if it is one.
pub open spec fn json_action_type(j: Json) -> Option<ActionType> {
    match j { Json::Str(s) => action_type_of(s@), _ => None }
}

/// Reads a value as a ActionType name.
pub fn value_action_type(j: &Json) -> (r: Result<ActionType, ()>)
    ensures
        match r {
            Ok(v) => json_action_type(*j) == Some(v),
            Err(_) => json_action_type(*j) is None,
        },
{
    match j { Json::Str(s) => match ActionType::try_from_wire(s.as_str()) { Ok(x) => Ok(x), Err(_) => Err(()) }, _ => Err(()) }
}

/// Reads the required field `key` of an object as a ActionType name.
pub fn field_action_type(o: &Vec<(String, Json)>, key: &str) -> (r: Result<ActionType, DecodeError>)
    ensures
        match r {
            Ok(v) => lookup(o@, key@) matches Some(j) && json_action_type(j) == Some(v),
            Err(e) => !(lookup(o@, key@) matches Some(j) && json_action_type(j) is Some) && e.path@.len() == 1 && e.path@[0]@ == key@,
        },
{
    match get_field(o, key) {
        Some(j) => match value_action_type(j) {
            Ok(v) => Ok(v),
            Err(_) => Err(error_at(key, DecodeCause::Invalid("a ActionType name"))),
        },
        None => Err(error_at(key, DecodeCause::MissingField)),
    }
}

/// Whether `r` is the wire form of `v`, written as a ActionType name.
pub open spec fn writes_action_type(r: Json, v: ActionType) -> bool {
    r matches Json::Str(s) && s@ == action_type_code(v)
}

/// Writes a value as a ActionType name.
pub fn action_type_json(v: &ActionType) -> (r: Json)
    ensures
        writes_action_type(r, *v),
{
    Json::Str(String::from_str(v.to_wire()))
}

/// A value read as a DisplayStatus code, if it is one.
pub open spec fn json_display_status(j: Json) -> Option<DisplayStatus> {
    match json_u8(j) { Some(c) => display_status_of(c), None => None }
}

/// Reads a value as a DisplayStatus code.
pub fn value_display_status(j: &Json) -> (r: Result<DisplayStatus, ()>)
    ensures
        match r {
            Ok(v) => json_display_status(*j) == Some(v),
            Err(_) => json_display_status(*j) is None,
        },
{
    match value_u8(j) { Ok(c) => match DisplayStatus::try_from_wire(c) { Ok(x) => Ok(x), Err(_) => Err(()) }, Err(_) => Err(()) }
}

/// Reads the required field `key` of an object as a DisplayStatus code.
pub fn field_display_status(o: &Vec<(String, Json)>, key: &str) -> (r: Result<DisplayStatus, DecodeError>)
    ensures
        match r {
            Ok(v) => lookup(o@, key@) matches Some(j) && json_display_status(j) == Some(v),
            Err(e) => !(lookup(o@, key@) matches Some(j) && json_display_status(j) is Some) && e.path@.len() == 1 && e.path@[0]@ == key@,
        },
{
    match get_field(o, key) {
        Some(j) => match value_display_status(j) {
            Ok(v) => Ok(v),
            Err(_) => Err(error_at(key, DecodeCause::Invalid("a DisplayStatus code"))),
        },
        None => Err(error_at(key, DecodeCause::MissingField)),
    }
}

/// Whether `r` is the wire form of `v`, written as a DisplayStatus code.
pub open spec fn writes_display_status(r: Json, v: DisplayStatus) -> bool {
    r matches Json::Number(t) && t@ == decimal_text(display_status_code(v) as nat)
}

/// Writes a value as a DisplayStatus code.
pub fn display_status_json(v: &DisplayStatus) -> (r: Json)
    ensures
        writes_display_status(r, *v),
{
    Json::Number(u64_text(v.to_wire() as u64))
}

/// A value read as a WritingType code, if it is one.
pub open spec fn json_writing_type(j: Json) -> Option<WritingType> {
    match json_u8(j) { Some(c) => writing_type_of(c), None => None }
}

/// Reads a value as a WritingType code.
pub fn value_writing_type(j: &Json) -> (r: Result<WritingType, ()>)
    ensures
        match r {
            Ok(v) => json_writing_type(*j) == Some(v),
            Err(_) => json_writing_type(*j) is None,
        },
{
    match value_u8(j) { Ok(c) => match WritingType::try_from_wire(c) { Ok(x) => Ok(x), Err(_) => Err(()) }, Err(_) => Err(()) }
}

/// Reads the required field `key` of an object as a WritingType code.
pub fn field_writing_type(o: &Vec<(String, Json)>, key: &str) -> (r: Result<WritingType, DecodeError>)
    ensures
        match r {
            Ok(v) => lookup(o@, key@) matches Some(j) && json_writing_type(j) == Some(v),
            Err(e) => !(lookup(o@, key@) matches Some(j) && json_writing_type(j) is Some) && e.path@.len() == 1 && e.path@[0]@ == key@,
        },
{
    match get_field(o, key) {
        Some(j) => match value_writing_type(j) {
            Ok(v) => Ok(v),
            Err(_) => Err(error_at(key, DecodeCause::Invalid("a WritingType code"))),
        },
        None => Err(error_at(key, DecodeCause::MissingField)),
    }
}

/// Reads the optional field `key` of an object as a WritingType code; absent or null gives `None`.
pub fn opt_field_writing_type(o: &Vec<(String, Json)>, key: &str) -> (r: Result<Option<WritingType>, DecodeError>)
    ensures
        match r {
            Ok(None) => lookup(o@, key@) is None || lookup(o@, key@) == Some(Json::Null),
            Ok(Some(v)) => lookup(o@, key@) matches Some(j) && json_writing_type(j) == Some(v),
            Err(e) => lookup(o@, key@) matches Some(j) && !(j is Null) && json_writing_type(j) is None && e.path@.len() == 1 && e.path@[0]@ == key@,
        },
{
    match get_field(o, key) {
        Some(Json::Null) => Ok(None),
        Some(j) => match value_writing_type(j) {
            Ok(v) => Ok(Some(v)),
            Err(_) => Err(error_at(key, DecodeCause::Invalid("a WritingType code"))),
        },
        None => Ok(None),
    }
}

/// Whether `r` is the wire form of `v`, written as a WritingType code.
pub open spec fn writes_writing_type(r: Json, v: WritingType) -> bool {
    r matches Json::Number(t) && t@ == decimal_text(writing_type_code(v) as nat)
}

/// Writes a value as a WritingType code.
pub fn writing_type_json(v: &WritingType) -> (r: Json)
    ensures
        writes_writing_type(r, *v),
{
    Json::Number(u64_text(v.to_wire() as u64))
}

/// Writes an optional value as a WritingType code, or null.
pub fn opt_writing_type_json(v: &Option<WritingType>) -> (r: Json)
    ensures
        match *v {
            Some(x) => writes_writing_type(r, x),
            None => r == Json::Null,
        },
{
    match v {
        Some(x) => writing_type_json(x),
        None => Json::Null,
    }
}

/// A value read as a ContentType name, if it is one.
pub open spec fn json_content_type(j: Json) -> Option<ContentType> {
    match j { Json::Str(s) => content_type_of(s@), _ => None }
}

/// Reads a value as a ContentType name.
pub fn value_content_type(j: &Json) -> (r: Result<ContentType, ()>)
    ensures
        match r {
            Ok(v) => json_content_type(*j) == Some(v),
            Err(_) => json_content_type(*j) is None,
        },
{
    match j { Json::Str(s) => match ContentType::try_from_wire(s.as_str()) { Ok(x) => Ok(x), Err(_) => Err(()) }, _ => Err(()) }
}

/// Reads the required field `key` of an object as a ContentType name.
pub fn field_content_type(o: &Vec<(String, Json)>, key: &str) -> (r: Result<ContentType, DecodeError>)
    ensures
        match r {
            Ok(v) => lookup(o@, key@) matches Some(j) && json_content_type(j) == Some(v),
            Err(e) => !(lookup(o@, key@) matches Some(j) && json_content_type(j) is Some) && e.path@.len() == 1 && e.path@[0]@ == key@,
        },
{
    match get_field(o, key) {
        Some(j) => match value_content_type(j) {
            Ok(v) => Ok(v),
            Err(_) => Err(error_at(key, DecodeCause::Invalid("a ContentType name"))),
        },
        None => Err(error_at(key, DecodeCause::MissingField)),
    }
}

/// Whether `r` is the wire form of `v`, written as a ContentType name.
pub open spec fn writes_content_type(r: Json, v: ContentType) -> bool {
    r matches Json::Str(s) && s@ == content_type_code(v)
}

/// Writes a value as a ContentType name.
pub fn content_type_json(v: &ContentType) -> (r: Json)
    ensures
        writes_content_type(r, *v),
{
    Json::Str(String::from_str(v.to_wire()))
}

/// A value read as a RegistrationPath name, if it is one.
pub open spec fn json_registration_path(j: Json) -> Option<RegistrationPath> {
    match j { Json::Str(s) => registration_path_of(s@), _ => None }
}

/// Reads a value as a RegistrationPath name.
pub fn value_registration_path(j: &Json) -> (r: Result<RegistrationPath, ()>)
    ensures
        match r {
            Ok(v) => json_registration_path(*j) == Some(v),
            Err(_) => json_registration_path(*j) is None,
        },
{
    match j { Json::Str(s) => match RegistrationPath::try_from_wire(s.as_str()) { Ok(x) => Ok(x), Err(_) => Err(()) }, _ => Err(()) }
}

/// Reads the required field `key` of an object as a RegistrationPath name.
pub fn field_registration_path(o: &Vec<(String, Json)>, key: &str) -> (r: Result<RegistrationPath, DecodeError>)
    ensures
        match r {
            Ok(v) => lookup(o@, key@) matches Some(j) && json_registration_path(j) == Some(v),
            Err(e) => !(lookup(o@, key@) matches Some(j) && json_registration_path(j) is Some) && e.path@.len() == 1 && e.path@[0]@ == key@,
        },
{
    match get_field(o, key) {
        Some(j) => match value_registration_path(j) {
            Ok(v) => Ok(v),
            Err(_) => Err(error_at(key, DecodeCause::Invalid("a RegistrationPath name"))),
        },
        None => Err(error_at(key, DecodeCause::MissingField)),
    }
}

/// Whether `r` is the wire form of `v`, written as a RegistrationPath name.
pub open spec fn writes_registration_path(r: Json, v: RegistrationPath) -> bool {
    r matches Json::Str(s) && s@ == registration_path_code(v)
}

/// Writes a value as a RegistrationPath name.
pub fn registration_path_json(v: &RegistrationPath) -> (r: Json)
    ensures
        writes_registration_path(r, *v),
{
    Json::Str(String::from_str(v.to_wire()))
}

/// A value read as a BadgeType name, if it is one.
pub open spec fn json_badge_type(j: Json) -> Option<BadgeType> {
    match j { Json::Str(s) => badge_type_of(s@), _ => None }
}

/// Reads a value as a BadgeType name.
pub fn value_badge_type(j: &Json) -> (r: Result<BadgeType, ()>)
    ensures
        match r {
            Ok(v) => json_badge_type(*j) == Some(v),
            Err(_) => json_badge_type(*j) is None,
        },
{
    match j { Json::Str(s) => match BadgeType::try_from_wire(s.as_str()) { Ok(x) => Ok(x), Err(_) => Err(()) }, _ => Err(()) }
}

/// Reads the required field `key` of an object as a BadgeType name.
pub fn field_badge_type(o: &Vec<(String, Json)>, key: &str) -> (r: Result<BadgeType, DecodeError>)
    ensures
        match r {
            Ok(v) => lookup(o@, key@) matches Some(j) && json_badge_type(j) == Some(v),
            Err(e) => !(lookup(o@, key@) matches Some(j) && json_badge_type(j) is Some) && e.path@.len() == 1 && e.path@[0]@ == key@,
        },
{
    match get_field(o, key) {
        Some(j) => match value_badge_type(j) {
            Ok(v) => Ok(v),
            Err(_) => Err(error_at(key, DecodeCause::Invalid("a BadgeType name"))),
        },
        None => Err(error_at(key, DecodeCause::MissingField)),
    }
}

/// Whether `r` is the wire form of `v`, written as a BadgeType name.
pub open spec fn writes_badge_type(r: Json, v: BadgeType) -> bool {
    r matches Json::Str(s) && s@ == badge_type_code(v)
}

/// Writes a value as a BadgeType name.
pub fn badge_type_json(v: &BadgeType) -> (r: Json)
    ensures
        writes_badge_type(r, *v),
{
    Json::Str(String::from_str(v.to_wire()))
}

/// A value read as a JoiningRule code, if it is one.
pub open spec fn json_joining_rule(j: Json) -> Option<JoiningRule> {
    match json_u8(j) { Some(c) => joining_rule_of(c), None => None }
}

/// Reads a value as a JoiningRule code.
pub fn value_joining_rule(j: &Json) -> (r: Result<JoiningRule, ()>)
    ensures
        match r {
            Ok(v) => json_joining_rule(*j) == Some(v),
            Err(_) => json_joining_rule(*j) is None,
        },
{
    match value_u8(j) { Ok(c) => match JoiningRule::try_from_wire(c) { Ok(x) => Ok(x), Err(_) => Err(()) }, Err(_) => Err(()) }
}

/// Reads the optional field `key` of an object as a JoiningRule code; absent or null gives `None`.
pub fn opt_field_joining_rule(o: &Vec<(String, Json)>, key: &str) -> (r: Result<Option<JoiningRule>, DecodeError>)
    ensures
        match r {
            Ok(None) => lookup(o@, key@) is None || lookup(o@, key@) == Some(Json::Null),
            Ok(Some(v)) => lookup(o@, key@) matches Some(j) && json_joining_rule(j) == Some(v),
            Err(e) => lookup(o@, key@) matches Some(j) && !(j is Null) && json_joining_rule(j) is None && e.path@.len() == 1 && e.path@[0]@ == key@,
        },
{
    match get_field(o, key) {
        Some(Json::Null) => Ok(None),
        Some(j) => match value_joining_rule(j) {
            Ok(v) => Ok(Some(v)),
            Err(_) => Err(error_at(key, DecodeCause::Invalid("a JoiningRule code"))),
        },
        None => Ok(None),
    }
}

/// Whether `r` is the wire form of `v`, written as a JoiningRule code.
pub open spec fn writes_joining_rule(r: Json, v: JoiningRule) -> bool {
    r matches Json::Number(t) && t@ == decimal_text(joining_rule_code(v) as nat)
}

/// Writes a value as a JoiningRule code.
pub fn joining_rule_json(v: &JoiningRule) -> (r: Json)
    ensures
        writes_joining_rule(r, *v),
{
    Json::Number(u64_text(v.to_wire() as u64))
}

/// Writes an optional value as a JoiningRule code, or null.
pub fn opt_joining_rule_json(v: &Option<JoiningRule>) -> (r: Json)
    ensures
        match *v {
            Some(x) => writes_joining_rule(r, x),
            None => r == Json::Null,
        },
{
    match v {
        Some(x) => joining_rule_json(x),
        None => Json::Null,
    }
}

/// A value read as a UnitType code, if it is one.
pub open spec fn json_unit_type(j: Json) -> Option<UnitType> {
    match json_u8(j) { Some(c) => unit_type_of(c), None => None }
}

/// Reads a value as a UnitType code.
pub fn value_unit_type(j: &Json) -> (r: Result<UnitType, ()>)
    ensures
        match r {
            Ok(v) => json_unit_type(*j) == Some(v),
            Err(_) => json_unit_type(*j) is None,
        },
{
    match value_u8(j) { Ok(c) => match UnitType::try_from_wire(c) { Ok(x) => Ok(x), Err(_) => Err(()) }, Err(_) => Err(()) }
}

/// Reads the required field `key` of an object as a UnitType code.
pub fn field_unit_type(o: &Vec<(String, Json)>, key: &str) -> (r: Result<UnitType, DecodeError>)
    ensures
        match r {
            Ok(v) => lookup(o@, key@) matches Some(j) && json_unit_type(j) == Some(v),
            Err(e) => !(lookup(o@, key@) matches Some(j) && json_unit_type(j) is Some) && e.path@.len() == 1 && e.path@[0]@ == key@,
        },
{
    match get_field(o, key) {
        Some(j) => match value_unit_type(j) {
            Ok(v) => Ok(v),
            Err(_) => Err(error_at(key, DecodeCause::Invalid("a UnitType code"))),
        },
        None => Err(error_at(key, DecodeCause::MissingField)),
    }
}

/// Whether `r` is the wire form of `v`, written as a UnitType code.
pub open spec fn writes_unit_type(r: Json, v: UnitType) -> bool {
    r matches Json::Number(t) && t@ == decimal_text(unit_type_code(v) as nat)
}

/// Writes a value as a UnitType code.
pub fn unit_type_json(v: &UnitType) -> (r: Json)
    ensures
        writes_unit_type(r, *v),
{
    Json::Number(u64_text(v.to_wire() as u64))
}

/// A value read as a AdheresTo name, if it is one.
pub open spec fn json_adheres_to(j: Json) -> Option<AdheresTo> {
    match j { Json::Str(s) => adheres_to_of(s@), _ => None }
}

/// Reads a value as a AdheresTo name.
pub fn value_adheres_to(j: &Json) -> (r: Result<AdheresTo, ()>)
    ensures
        match r {
            Ok(v) => json_adheres_to(*j) == Some(v),
            Err(_) => json_adheres_to(*j) is None,
        },
{
    match j { Json::Str(s) => match AdheresTo::try_from_wire(s.as_str()) { Ok(x) => Ok(x), Err(_) => Err(()) }, _ => Err(()) }
}

/// Reads the required field `key` of an object as a AdheresTo name.
pub fn field_adheres_to(o: &Vec<(String, Json)>, key: &str) -> (r: Result<AdheresTo, DecodeError>)
    ensures
        match r {
            Ok(v) => lookup(o@, key@) matches Some(j) && json_adheres_to(j) == Some(v),
            Err(e) => !(lookup(o@, key@) matches Some(j) && json_adheres_to(j) is Some) && e.path@.len() == 1 && e.path@[0]@ == key@,
        },
{
    match get_field(o, key) {
        Some(j) => match value_adheres_to(j) {
            Ok(v) => Ok(v),
            Err(_) => Err(error_at(key, DecodeCause::Invalid("a AdheresTo name"))),
        },
        None => Err(error_at(key, DecodeCause::MissingField)),
    }
}

/// Whether `r` is the wire form of `v`, written as a AdheresTo name.
pub open spec fn writes_adheres_to(r: Json, v: AdheresTo) -> bool {
    r matches Json::Str(s) && s@ == adheres_to_code(v)
}

/// Writes a value as a AdheresTo name.
pub fn adheres_to_json(v: &AdheresTo) -> (r: Json)
    ensures
        writes_adheres_to(r, *v),
{
    Json::Str(String::from_str(v.to_wire()))
}

/// A value read as a Feeling code, if it is one.
pub open spec fn json_feeling(j: Json) -> Option<Feeling> {
    match json_u8(j) { Some(c) => feeling_of(c), None => None }
}

/// Reads a value as a Feeling code.
pub fn value_feeling(j: &Json) -> (r: Result<Feeling, ()>)
    ensures
        match r {
            Ok(v) => json_feeling(*j) == Some(v),
            Err(_) => json_feeling(*j) is None,
        },
{
    match value_u8(j) { Ok(c) => match Feeling::try_from_wire(c) { Ok(x) => Ok(x), Err(_) => Err(()) }, Err(_) => Err(()) }
}

/// Reads the optional field `key` of an object as a Feeling code; absent or null gives `None`.
pub fn opt_field_feeling(o: &Vec<(String, Json)>, key: &str) -> (r: Result<Option<Feeling>, DecodeError>)
    ensures
        match r {
            Ok(None) => lookup(o@, key@) is None || lookup(o@, key@) == Some(Json::Null),
            Ok(Some(v)) => lookup(o@, key@) matches Some(j) && json_feeling(j) == Some(v),
            Err(e) => lookup(o@, key@) matches Some(j) && !(j is Null) && json_feeling(j) is None && e.path@.len() == 1 && e.path@[0]@ == key@,
        },
{
    match get_field(o, key) {
        Some(Json::Null) => Ok(None),
        Some(j) => match value_feeling(j) {
            Ok(v) => Ok(Some(v)),
            Err(_) => Err(error_at(key, DecodeCause::Invalid("a Feeling code"))),
        },
        None => Ok(None),
    }
}

/// Whether `r` is the wire form of `v`, written as a Feeling code.
pub open spec fn writes_feeling(r: Json, v: Feeling) -> bool {
    r matches Json::Number(t) && t@ == decimal_text(feeling_code(v) as nat)
}

/// Writes a value as a Feeling code.
pub fn feeling_json(v: &Feeling) -> (r: Json)
    ensures
        writes_feeling(r, *v),
{
    Json::Number(u64_text(v.to_wire() as u64))
}

/// Writes an optional value as a Feeling code, or null.
pub fn opt_feeling_json(v: &Option<Feeling>) -> (r: Json)
    ensures
        match *v {
            Some(x) => writes_feeling(r, x),
            None => r == Json::Null,
        },
{
    match v {
        Some(x) => feeling_json(x),
        None => Json::Null,
    }
}

/// A value read as a InvitationStatus code, if it is one.
pub open spec fn json_invitation_status(j: Json) -> Option<InvitationStatus> {
    match json_i8(j) { Some(c) => invitation_status_of(c), None => None }
}

/// Reads a value as a InvitationStatus code.
pub fn value_invitation_status(j: &Json) -> (r: Result<InvitationStatus, ()>)
    ensures
        match r {
            Ok(v) => json_invitation_status(*j) == Some(v),
            Err(_) => json_invitation_status(*j) is None,
        },
{
    match value_i8(j) { Ok(c) => match InvitationStatus::try_from_wire(c) { Ok(x) => Ok(x), Err(_) => Err(()) }, Err(_) => Err(()) }
}

/// Reads the required field `key` of an object as a InvitationStatus code.
pub fn field_invitation_status(o: &Vec<(String, Json)>, key: &str) -> (r: Result<InvitationStatus, DecodeError>)
    ensures
        match r {
            Ok(v) => lookup(o@, key@) matches Some(j) && json_invitation_status(j) == Some(v),
            Err(e) => !(lookup(o@, key@) matches Some(j) && json_invitation_status(j) is Some) && e.path@.len() == 1 && e.path@[0]@ == key@,
        },
{
    match get_field(o, key) {
        Some(j) => match value_invitation_status(j) {
            Ok(v) => Ok(v),
            Err(_) => Err(error_at(key, DecodeCause::Invalid("a InvitationStatus code"))),
        },
        None => Err(error_at(key, DecodeCause::MissingField)),
    }
}

/// Whether `r` is the wire form of `v`, written as a InvitationStatus code.
pub open spec fn writes_invitation_status(r: Json, v: InvitationStatus) -> bool {
    r matches Json::Number(t) && t@ == signed_text(invitation_status_code(v) as int)
}

/// Writes a value as a InvitationStatus code.
pub fn invitation_status_json(v: &InvitationStatus) -> (r: Json)
    ensures
        writes_invitation_status(r, *v),
{
    Json::Number(i64_text(v.to_wire() as i64))
}

/// A value read as a Where code, if it is one.
pub open spec fn json_where(j: Json) -> Option<Where> {
    match json_u8(j) { Some(c) => Some(where_of(c)), None => None }
}

/// Reads a value as a Where code.
pub fn value_where(j: &Json) -> (r: Result<Where, ()>)
    ensures
        match r {
            Ok(v) => json_where(*j) == Some(v),
            Err(_) => json_where(*j) is None,
        },
{
    match value_u8(j) { Ok(c) => Ok(Where::from_wire(c)), Err(_) => Err(()) }
}

/// Reads the optional field `key` of an object as a Where code; absent or null gives `None`.
pub fn opt_field_where(o: &Vec<(String, Json)>, key: &str) -> (r: Result<Option<Where>, DecodeError>)
    ensures
        match r {
            Ok(None) => lookup(o@, key@) is None || lookup(o@, key@) == Some(Json::Null),
            Ok(Some(v)) => lookup(o@, key@) matches Some(j) && json_where(j) == Some(v),
            Err(e) => lookup(o@, key@) matches Some(j) && !(j is Null) && json_where(j) is None && e.path@.len() == 1 && e.path@[0]@ == key@,
        },
{
    match get_field(o, key) {
        Some(Json::Null) => Ok(None),
        Some(j) => match value_where(j) {
            Ok(v) => Ok(Some(v)),
            Err(_) => Err(error_at(key, DecodeCause::Invalid("a Where code"))),
        },
        None => Ok(None),
    }
}

/// Whether `r` is the wire form of `v`, written as a Where code.
pub open spec fn writes_where(r: Json, v: Where) -> bool {
    r matches Json::Number(t) && t@ == decimal_text(where_code(v) as nat)
}

/// Writes a value as a Where code.
pub fn where_json(v: &Where) -> (r: Json)
    ensures
        writes_where(r, *v),
{
    Json::Number(u64_text(v.to_wire() as u64))
}

/// Writes an optional value as a Where code, or null.
pub fn opt_where_json(v: &Option<Where>) -> (r: Json)
    ensures
        match *v {
            Some(x) => writes_where(r, x),
            None => r == Json::Null,
        },
{
    match v {
        Some(x) => where_json(x),
        None => Json::Null,
    }
}

/// A value read as a How code, if it is one.
pub open spec fn json_how(j: Json) -> Option<How> {
    match json_u64(j) { Some(c) => Some(how_of(c)), None => None }
}

/// Reads a value as a How code.
pub fn value_how(j: &Json) -> (r: Result<How, ()>)
    ensures
        match r {
            Ok(v) => json_how(*j) == Some(v),
            Err(_) => json_how(*j) is None,
        },
{
    match value_u64(j) { Ok(c) => Ok(How::from_wire(c)), Err(_) => Err(()) }
}

/// Reads the optional field `key` of an object as a How code; absent or null gives `None`.
pub fn opt_field_how(o: &Vec<(String, Json)>, key: &str) -> (r: Result<Option<How>, DecodeError>)
    ensures
        match r {
            Ok(None) => lookup(o@, key@) is None || lookup(o@, key@) == Some(Json::Null),
            Ok(Some(v)) => lookup(o@, key@) matches Some(j) && json_how(j) == Some(v),
            Err(e) => lookup(o@, key@) matches Some(j) && !(j is Null) && json_how(j) is None && e.path@.len() == 1 && e.path@[0]@ == key@,
        },
{
    match get_field(o, key) {
        Some(Json::Null) => Ok(None),
        Some(j) => match value_how(j) {
            Ok(v) => Ok(Some(v)),
            Err(_) => Err(error_at(key, DecodeCause::Invalid("a How code"))),
        },
        None => Ok(None),
    }
}

/// Whether `r` is the wire form of `v`, written as a How code.
pub open spec fn writes_how(r: Json, v: How) -> bool {
    r matches Json::Number(t) && t@ == decimal_text(how_code(v) as nat)
}

/// Writes a value as a How code.
pub fn how_json(v: &How) -> (r: Json)
    ensures
        writes_how(r, *v),
{
    Json::Number(u64_text(v.to_wire() as u64))
}

/// Writes an optional value as a How code, or null.
pub fn opt_how_json(v: &Option<How>) -> (r: Json)
    ensures
        match *v {
            Some(x) => writes_how(r, x),
            None => r == Json::Null,
        },
{
    match v {
        Some(x) => how_json(x),
        None => Json::Null,
    }
}

} // verus!
