//! Reading the reply lines of a SAM bridge.
use vstd::prelude::*;
use crate::error::{result_line_error, SamError, SamErrorView};
use crate::proto::fields::{line_fields, parse_fields};
use crate::text::{chars_of, starts_with, str_eq, string_of, trim, trimmed};

verus! {

/// The value of field `key` in `line`, if it has one.
pub open spec fn field(line: Seq<char>, key: Seq<char>) -> Option<Seq<char>> {
    if line_fields(line).contains_key(key) {
        Some(line_fields(line)[key])
    } else {
        None
    }
}

/// The line's `RESULT` field is `OK`.
pub open spec fn result_ok(line: Seq<char>) -> bool {
    field(line, "RESULT"@) == Some("OK"@)
}

/// The error that a reply reports when it is not what was expected: what
/// its `RESULT` code names when that is not `OK`, otherwise
/// `UnexpectedResponse` holding the line.
pub open spec fn unexpected(line: Seq<char>) -> SamErrorView {
    SamErrorView::UnexpectedResponse(line)
}

/// A `Result` of the library seen through the error's view.
pub open spec fn unit_outcome(r: Result<(), SamError>) -> Result<(), SamErrorView> {
    match r {
        Ok(()) => Ok(()),
        Err(e) => Err(e@),
    }
}

/// A `Result` holding a string, seen through views.
pub open spec fn text_outcome(r: Result<String, SamError>) -> Result<Seq<char>, SamErrorView> {
    match r {
        Ok(s) => Ok(s@),
        Err(e) => Err(e@),
    }
}

/// A reply whose `RESULT` must be `OK`: fine when it is, otherwise the
/// error the reply reports.
pub open spec fn check_outcome(line: Seq<char>) -> Result<(), SamErrorView> {
    if result_ok(line) {
        Ok(())
    } else {
        Err(result_line_error(line))
    }
}

/// A reply whose `RESULT` must be `OK` and that must carry `key`: the value
/// of `key`, the error the reply reports when `RESULT` is not `OK`, or
/// `UnexpectedResponse` when `key` is missing.
pub open spec fn ok_field_outcome(line: Seq<char>, key: Seq<char>) -> Result<Seq<char>, SamErrorView> {
    if !result_ok(line) {
        Err(result_line_error(line))
    } else {
        match field(line, key) {
            Some(v) => Ok(v),
            None => Err(unexpected(line)),
        }
    }
}

/// The outcome of reading a `HELLO REPLY`: `RESULT` must be `OK` and a
/// `VERSION` must be named.
pub open spec fn hello_outcome(line: Seq<char>) -> Result<(), SamErrorView> {
    match ok_field_outcome(line, "VERSION"@) {
        Ok(_) => Ok(()),
        Err(e) => Err(e),
    }
}

/// Checks that the reply's `RESULT` is `OK`; otherwise returns the error
/// the reply reports.
pub fn check_result(line: &str) -> (r: Result<(), SamError>)
    ensures
        unit_outcome(r) == check_outcome(line@),
{
    let fields = parse_fields(line);
    let ok = match fields.get("RESULT") {
        Some(v) => str_eq(v.as_str(), "OK"),
        None => false,
    };
    if ok {
        Ok(())
    } else {
        Err(SamError::from_result_line(line))
    }
}

/// Reads `HELLO REPLY RESULT=OK VERSION=x`.
pub fn parse_hello(line: &str) -> (r: Result<(), SamError>)
    ensures
        unit_outcome(r) == hello_outcome(line@),
{
    let fields = parse_fields(line);
    let ok = match fields.get("RESULT") {
        Some(v) => str_eq(v.as_str(), "OK"),
        None => false,
    };
    if !ok {
        return Err(SamError::from_result_line(line));
    }
    if !fields.contains_key("VERSION") {
        return Err(SamError::UnexpectedResponse(line.to_owned()));
    }
    Ok(())
}

/// Reads `DEST REPLY PUB={pub} PRIV={priv}`.
pub fn parse_dest_reply(line: &str) -> (r: Result<(String, String), SamError>)
    ensures
        r is Ok <==> field(line@, "PUB"@) is Some && field(line@, "PRIV"@) is Some,
        r matches Ok((p, k)) ==> Some(p@) == field(line@, "PUB"@) && Some(k@) == field(
            line@,
            "PRIV"@,
        ),
        r matches Err(e) ==> e@ == unexpected(line@),
{
    let fields = parse_fields(line);
    let pub_key = match fields.get("PUB") {
        Some(v) => v,
        None => {
            return Err(SamError::UnexpectedResponse(line.to_owned()));
        },
    };
    let priv_key = match fields.get("PRIV") {
        Some(v) => v,
        None => {
            return Err(SamError::UnexpectedResponse(line.to_owned()));
        },
    };
    Ok((pub_key.clone(), priv_key.clone()))
}

/// Reads a reply whose `RESULT` must be `OK` and that must carry `key`;
/// gives back the value of `key`.
fn ok_field(line: &str, key: &str) -> (r: Result<String, SamError>)
    ensures
        text_outcome(r) == ok_field_outcome(line@, key@),
{
    let fields = parse_fields(line);
    let ok = match fields.get("RESULT") {
        Some(v) => str_eq(v.as_str(), "OK"),
        None => false,
    };
    if !ok {
        return Err(SamError::from_result_line(line));
    }
    match fields.get(key) {
        Some(v) => Ok(v.clone()),
        None => Err(SamError::UnexpectedResponse(line.to_owned())),
    }
}

/// Reads `SESSION STATUS RESULT=OK DESTINATION={dest}`; gives back the
/// destination.
pub fn parse_session_status(line: &str) -> (r: Result<String, SamError>)
    ensures
        text_outcome(r) == ok_field_outcome(line@, "DESTINATION"@),
{
    ok_field(line, "DESTINATION")
}

/// Reads `NAMING REPLY RESULT=OK NAME={name} VALUE={dest}`; gives back the
/// value.
pub fn parse_naming_reply(line: &str) -> (r: Result<String, SamError>)
    ensures
        text_outcome(r) == ok_field_outcome(line@, "VALUE"@),
{
    ok_field(line, "VALUE")
}

/// Reads `STREAM STATUS RESULT=OK`.
pub fn parse_stream_status(line: &str) -> (r: Result<(), SamError>)
    ensures
        unit_outcome(r) == check_outcome(line@),
{
    check_result(line)
}

/// Reads the line that names the peer after an accepted stream: the line
/// without surrounding whitespace, which must not be empty.
pub fn parse_stream_peer(line: &str) -> (r: Result<String, SamError>)
    ensures
        r is Ok <==> trim(line@).len() > 0,
        r matches Ok(p) ==> p@ == trim(line@),
        r matches Err(e) ==> e@ == unexpected(line@),
{
    let t = trimmed(line);
    if t.as_str().is_empty() {
        return Err(SamError::UnexpectedResponse(line.to_owned()));
    }
    Ok(t)
}

/// Reads `PONG{payload}`; gives back the payload.
pub fn parse_pong(line: &str) -> (r: Result<String, SamError>)
    ensures
        r is Ok <==> line@.len() >= 4 && line@.take(4) == "PONG"@,
        r matches Ok(p) ==> line@ == "PONG"@ + p@,
        r matches Err(e) ==> e@ == unexpected(line@),
{
    let cs = chars_of(line);
    proof {
        reveal_strlit("PONG");
    }
    if !starts_with(&cs, "PONG") {
        return Err(SamError::UnexpectedResponse(line.to_owned()));
    }
    let rest = string_of(&cs, 4, cs.len());
    assert(line@ =~= "PONG"@ + rest@);
    Ok(rest)
}

} // verus!
