//! The errors a request can end in, and the server's own error shapes.

use vstd::prelude::*;

use crate::codec::{error_at, error_at_index, error_within, field_str, DecodeCause, DecodeError};
use crate::json::{get_field, keys_within, lookup, Json};
use crate::relation::{check_keys, not_an_object};
use crate::text::{decimal_text, parse_u64, u64_of_text, u64_text};

verus! {

/// One error of a server-reported list.
#[derive(Clone, Debug, PartialEq, Eq)]
pub struct ErrorData {
    pub code: u64,
    pub detail: String,
    pub status: u64,
    pub title: String,
}

/// A server-reported error: one message, or a list of detailed errors. The
/// two shapes are told apart by their keys, not by a tag.
#[derive(Clone, Debug, PartialEq, Eq)]
pub enum NanoError {
    SimpleError { error: String },
    ErrorList { errors: Vec<ErrorData> },
}

/// Every way an operation can fail.
#[derive(Clone, Debug, PartialEq, Eq)]
pub enum Error {
    /// An operation that needs a login was tried on a session without credentials.
    NoCredentials,
    /// A body with a top-level `error` or `errors` key matched neither error shape.
    BadJson(DecodeError),
    /// A well-formed body did not match the expected schema.
    ResponseDecoding(DecodeError),
    /// The transport failed; the text is its own account of why.
    Transport(String),
    /// A status with a fixed message, or a server-reported single message.
    SimpleNanoError(u16, String),
    /// A server-reported list of errors.
    NanoErrors(Vec<ErrorData>),
    /// A relation link was followed with the operation for the other cardinality.
    WrongCardinality,
}

/// An error code, written as a number or as a numeral in a string.
pub open spec fn json_code(j: Json) -> Option<u64> {
    match j {
        Json::Number(t) => u64_of_text(t@),
        Json::Str(s) => u64_of_text(s@),
        _ => None,
    }
}

fn field_code(o: &Vec<(String, Json)>, key: &str) -> (r: Result<u64, DecodeError>)
    ensures
        match r {
            Ok(v) => lookup(o@, key@) matches Some(j) && json_code(j) == Some(v),
            Err(_) => !(lookup(o@, key@) matches Some(j) && json_code(j) is Some),
        },
{
    match get_field(o, key) {
        Some(j) => {
            let parsed = match j {
                Json::Number(t) => parse_u64(t.as_str()),
                Json::Str(s) => parse_u64(s.as_str()),
                _ => None,
            };
            match parsed {
                Some(v) => Ok(v),
                None => Err(error_at(key, DecodeCause::Invalid("an error code"))),
            }
        },
        None => Err(error_at(key, DecodeCause::MissingField)),
    }
}

/// What a wire error entry holds: code, status, title and detail; the two
/// numbers as numbers or numerals in strings, the two texts as strings.
pub open spec fn error_data_of(j: Json) -> Option<(u64, u64, Seq<char>, Seq<char>)> {
    match j {
        Json::Object(e) => match (lookup(e@, "code"@), lookup(e@, "status"@), lookup(e@, "title"@), lookup(
            e@,
            "detail"@,
        )) {
            (Some(c), Some(s), Some(Json::Str(t)), Some(Json::Str(d))) => match (json_code(c), json_code(s)) {
                (Some(code), Some(status)) => Some((code, status, t@, d@)),
                _ => None,
            },
            _ => None,
        },
        _ => None,
    }
}

/// The fields of an error entry, in the order [`error_data_of`] gives them.
pub open spec fn error_fields(d: ErrorData) -> (u64, u64, Seq<char>, Seq<char>) {
    (d.code, d.status, d.title@, d.detail@)
}

impl ErrorData {
    /// Reads `code`, `detail`, `status` and `title`; the two numbers may come
    /// as numbers or as numerals in strings.
    pub fn from_json(j: &Json) -> (r: Result<ErrorData, DecodeError>)
        ensures
            match r {
                Ok(d) => error_data_of(*j) == Some(error_fields(d)),
                Err(_) => error_data_of(*j) is None,
            },
    {
        match j {
            Json::Object(o) => {
                let code = field_code(o, "code")?;
                let detail = field_str(o, "detail")?;
                let status = field_code(o, "status")?;
                let title = field_str(o, "title")?;
                Ok(ErrorData { code, detail, status, title })
            },
            _ => Err(not_an_object()),
        }
    }
}

/// The message of a body of the single-message shape: exactly the key
/// `error`, holding a string.
pub open spec fn simple_error_of(j: Json) -> Option<Seq<char>> {
    match j {
        Json::Object(e) => match lookup(e@, "error"@) {
            Some(Json::Str(s)) => if keys_within(e@, seq!["error"]) {
                Some(s@)
            } else {
                None
            },
            _ => None,
        },
        _ => None,
    }
}

/// Whether a body has the list shape: exactly the key `errors`, holding an array.
pub open spec fn is_error_list(j: Json) -> bool {
    match j {
        Json::Object(e) => keys_within(e@, seq!["errors"]) && (lookup(e@, "errors"@) matches Some(Json::Array(_))),
        _ => false,
    }
}

/// The entries of a body of the list shape.
pub open spec fn error_items(j: Json) -> Seq<Json> {
    match j {
        Json::Object(e) => match lookup(e@, "errors"@) {
            Some(Json::Array(a)) => a@,
            _ => Seq::empty(),
        },
        _ => Seq::empty(),
    }
}

/// Whether a body has the list shape and every entry is a readable error.
pub open spec fn error_list_ok(j: Json) -> bool {
    is_error_list(j) && forall|i: int| 0 <= i < error_items(j).len() ==> (#[trigger] error_data_of(error_items(j)[i])) is Some
}

/// Whether the errors read are the wire entries, one for one, in order.
pub open spec fn errors_match(items: Seq<Json>, errs: Seq<ErrorData>) -> bool {
    items.len() == errs.len() && forall|i: int| 0 <= i < items.len() ==> error_data_of(#[trigger] items[i]) == Some(error_fields(errs[i]))
}

impl NanoError {
    /// Reads a server error body: the single-message shape if it fits, else
    /// the list shape; anything else is refused.
    pub fn from_json(j: &Json) -> (r: Result<NanoError, DecodeError>)
        ensures
            simple_error_of(*j) matches Some(m) ==> (r matches Ok(NanoError::SimpleError { error }) && error@ == m),
            r matches Ok(NanoError::SimpleError { error }) ==> simple_error_of(*j) == Some(error@),
            r matches Ok(NanoError::ErrorList { errors }) ==> simple_error_of(*j) is None && is_error_list(*j)
                && (j matches Json::Object(e) && (lookup(e@, "errors"@) matches Some(Json::Array(a)) && a@.len()
                == errors@.len())),
            simple_error_of(*j) is None && !is_error_list(*j) ==> r is Err,
            simple_error_of(*j) is None && error_list_ok(*j) ==> r is Ok,
            r matches Ok(NanoError::ErrorList { errors }) ==> errors_match(error_items(*j), errors@),
    {
        match j {
            Json::Object(o) => {
                let only_error: Vec<&str> = vec!["error"];
                assert(only_error@ =~= seq!["error"]);
                match get_field(o, "error") {
                    Some(Json::Str(s)) => match check_keys(o, &only_error) {
                        Ok(()) => {
                            return Ok(NanoError::SimpleError { error: s.clone() });
                        },
                        Err(_) => {},
                    },
                    _ => {},
                }
                let only_errors: Vec<&str> = vec!["errors"];
                assert(only_errors@ =~= seq!["errors"]);
                check_keys(o, &only_errors)?;
                match get_field(o, "errors") {
                    Some(Json::Array(items)) => {
                        let mut errors: Vec<ErrorData> = Vec::new();
                        let mut i: usize = 0;
                        while i < items.len()
                            invariant
                                i <= items@.len(),
                                errors@.len() == i,
                                simple_error_of(*j) is None,
                                is_error_list(*j),
                                error_items(*j) == items@,
                                forall|a: int| 0 <= a < i ==> error_data_of(#[trigger] items@[a]) == Some(error_fields(errors@[a])),
                            decreases items@.len() - i,
                        {
                            match ErrorData::from_json(&items[i]) {
                                Ok(d) => errors.push(d),
                                Err(e) => {
                                    assert(error_items(*j)[i as int] == items@[i as int]);
                                    return Err(error_within("errors", error_at_index(i, e)));
                                },
                            }
                            i = i + 1;
                        }
                        assert(errors_match(error_items(*j), errors@));
                        Ok(NanoError::ErrorList { errors })
                    },
                    Some(_) => Err(error_at("errors", DecodeCause::Invalid("an array of errors"))),
                    None => Err(error_at("errors", DecodeCause::MissingField)),
                }
            },
            _ => Err(not_an_object()),
        }
    }
}

/// A path of keys and indices, dot-separated, as in `data.attributes.title`.
pub open spec fn path_text(p: Seq<String>) -> Seq<char>
    decreases p.len(),
{
    if p.len() == 0 {
        Seq::empty()
    } else if p.len() == 1 {
        p[0]@
    } else {
        path_text(p.drop_last()) + "."@ + p.last()@
    }
}

/// What a decoding failure was about, in words.
pub open spec fn cause_text(c: DecodeCause) -> Seq<char> {
    match c {
        DecodeCause::MissingField => "missing field"@,
        DecodeCause::UnknownField => "unknown field"@,
        DecodeCause::Invalid(expected) => "invalid value, expected "@ + expected@,
        DecodeCause::UnknownKind => "unknown kind name"@,
        DecodeCause::WrongKind => "resource of another kind"@,
        DecodeCause::DuplicateKind => "kind named twice"@,
    }
}

/// The text of a decoding failure after its prefix: the path, a colon, the cause.
pub open spec fn decode_error_text(prefix: Seq<char>, e: DecodeError) -> Seq<char> {
    prefix + path_text(e.path@) + ": "@ + cause_text(e.cause)
}

/// Appends a path of keys and indices, dot-separated.
fn push_path(out: &mut String, path: &Vec<String>)
    ensures
        final(out)@ == old(out)@ + path_text(path@),
{
    let mut i: usize = 0;
    let ghost start = out@;
    proof {
        assert(path@.subrange(0, 0) =~= Seq::<String>::empty());
        assert(out@ =~= start + path_text(path@.subrange(0, 0)));
    }
    while i < path.len()
        invariant
            i <= path@.len(),
            start == old(out)@,
            out@ == start + path_text(path@.subrange(0, i as int)),
        decreases path@.len() - i,
    {
        proof {
            let next = path@.subrange(0, i + 1);
            assert(next.drop_last() =~= path@.subrange(0, i as int));
            assert(next.last() == path@[i as int]);
            reveal_strlit(".");
        }
        if i > 0 {
            out.append(".");
        }
        out.append(path[i].as_str());
        proof {
            let next = path@.subrange(0, i + 1);
            if i == 0 {
                assert(next.len() == 1);
                assert(out@ =~= start + path_text(next));
            } else {
                assert(out@ =~= start + path_text(next));
            }
        }
        i = i + 1;
    }
    proof {
        assert(path@.subrange(0, path@.len() as int) =~= path@);
    }
}

/// Appends what a decoding failure was about.
fn push_cause(out: &mut String, cause: &DecodeCause)
    ensures
        final(out)@ == old(out)@ + cause_text(*cause),
{
    let ghost start = out@;
    match cause {
        DecodeCause::MissingField => out.append("missing field"),
        DecodeCause::UnknownField => out.append("unknown field"),
        DecodeCause::Invalid(expected) => {
            out.append("invalid value, expected ");
            out.append(expected);
        },
        DecodeCause::UnknownKind => out.append("unknown kind name"),
        DecodeCause::WrongKind => out.append("resource of another kind"),
        DecodeCause::DuplicateKind => out.append("kind named twice"),
    }
    assert(out@ =~= start + cause_text(*cause));
}

/// The text of a status or server message: `NanoWrimo API Error: <message>
/// (status code <code>)`.
pub open spec fn simple_error_text(code: u16, m: Seq<char>) -> Seq<char> {
    "NanoWrimo API Error: "@ + m + " (status code "@ + decimal_text(code as nat) + ")"@
}

/// The text of one listed error: `<title> (<code>): <detail> (status code <status>)`.
pub open spec fn error_text(d: ErrorData) -> Seq<char> {
    d.title@ + " ("@ + decimal_text(d.code as nat) + "): "@ + d.detail@ + " (status code "@ + decimal_text(
        d.status as nat,
    ) + ")"@
}

/// The texts of listed errors, one after another with nothing between.
pub open spec fn errors_text(errs: Seq<ErrorData>) -> Seq<char>
    decreases errs.len(),
{
    if errs.len() == 0 {
        Seq::empty()
    } else {
        errors_text(errs.drop_last()) + error_text(errs.last())
    }
}

/// Appends the text of one listed error.
fn push_error(out: &mut String, d: &ErrorData)
    ensures
        final(out)@ == old(out)@ + error_text(*d),
{
    out.append(d.title.as_str());
    out.append(" (");
    out.append(u64_text(d.code).as_str());
    out.append("): ");
    out.append(d.detail.as_str());
    out.append(" (status code ");
    out.append(u64_text(d.status).as_str());
    out.append(")");
    assert(final(out)@ =~= old(out)@ + error_text(*d));
}

impl Error {
    /// A one-line account of the error for people to read.
    pub fn message(&self) -> (r: String)
        ensures
            self is NoCredentials ==> r@ == "No credentials available"@,
            self is WrongCardinality ==> r@ == "Relation link followed with the wrong cardinality"@,
            *self matches Error::SimpleNanoError(c, m) ==> r@ == simple_error_text(c, m@),
            *self matches Error::NanoErrors(errs) ==> r@ == errors_text(errs@),
            *self matches Error::BadJson(e) ==> r@ == decode_error_text("JSON Error: "@, e),
            *self matches Error::ResponseDecoding(e) ==> r@ == decode_error_text("Error decoding response, at "@, e),
            *self matches Error::Transport(m) ==> r@ == "Transport Error: "@ + m@,
    {
        let mut out = String::new();
        match self {
            Error::NoCredentials => out.append("No credentials available"),
            Error::BadJson(e) => {
                out.append("JSON Error: ");
                push_path(&mut out, &e.path);
                out.append(": ");
                push_cause(&mut out, &e.cause);
                assert(out@ =~= decode_error_text("JSON Error: "@, *e));
            },
            Error::ResponseDecoding(e) => {
                out.append("Error decoding response, at ");
                push_path(&mut out, &e.path);
                out.append(": ");
                push_cause(&mut out, &e.cause);
                assert(out@ =~= decode_error_text("Error decoding response, at "@, *e));
            },
            Error::Transport(m) => {
                out.append("Transport Error: ");
                out.append(m.as_str());
                assert(out@ =~= "Transport Error: "@ + m@);
            },
            Error::SimpleNanoError(code, m) => {
                out.append("NanoWrimo API Error: ");
                out.append(m.as_str());
                out.append(" (status code ");
                out.append(u64_text(*code as u64).as_str());
                out.append(")");
                assert(out@ =~= simple_error_text(*code, m@));
            },
            Error::NanoErrors(errs) => {
                let mut i: usize = 0;
                proof {
                    assert(errs@.subrange(0, 0) =~= Seq::<ErrorData>::empty());
                    assert(out@ =~= errors_text(errs@.subrange(0, 0)));
                }
                while i < errs.len()
                    invariant
                        i <= errs@.len(),
                        out@ == errors_text(errs@.subrange(0, i as int)),
                    decreases errs@.len() - i,
                {
                    let ghost before = out@;
                    push_error(&mut out, &errs[i]);
                    proof {
                        let next = errs@.subrange(0, i + 1);
                        assert(next.drop_last() =~= errs@.subrange(0, i as int));
                        assert(next.last() == errs@[i as int]);
                    }
                    i = i + 1;
                }
                proof {
                    assert(errs@.subrange(0, errs@.len() as int) =~= errs@);
                }
            },
            Error::WrongCardinality => out.append("Relation link followed with the wrong cardinality"),
        }
        out
    }
}

} // verus!
