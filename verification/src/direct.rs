//! The conversation of a direct stream session (`SamSession`), which
//! talks to the bridge without the session controller: the lines it writes
//! and how it reads the replies.
use vstd::prelude::*;
use crate::error::{result_line_error, SamError, SamErrorView};
use crate::proto::fields::parse_fields;
use crate::proto::response::{field, result_ok};
use crate::session::{Destination, Keys};
use crate::text::{contains, has_infix, str_eq};

verus! {

/// The views of session options given as name and value.
pub open spec fn option_views(options: Seq<(&str, &str)>) -> Seq<(Seq<char>, Seq<char>)> {
    Seq::new(options.len(), |i: int| (options[i].0@, options[i].1@))
}

/// Each option as `name=value`, each followed by a space.
pub open spec fn options_text(options: Seq<(Seq<char>, Seq<char>)>) -> Seq<char>
    decreases options.len(),
{
    if options.len() == 0 {
        Seq::empty()
    } else {
        options_text(options.drop_last()) + options.last().0 + "="@ + options.last().1 + " "@
    }
}

/// `SESSION CREATE STYLE=STREAM ID={id} DESTINATION={private} {options}SIGNATURE_TYPE=7`
pub open spec fn direct_create_text(
    id: Seq<char>,
    private: Seq<char>,
    options: Seq<(Seq<char>, Seq<char>)>,
) -> Seq<char> {
    "SESSION CREATE STYLE=STREAM ID="@ + id + " DESTINATION="@ + private + " "@ + options_text(
        options,
    ) + "SIGNATURE_TYPE=7\n"@
}

/// The line that creates a stream session `id` for `keys`, with `options`
/// written out in order.
pub fn direct_session_create(id: &str, keys: &Keys, options: &[(&str, &str)]) -> (cmd: String)
    ensures
        cmd@ == direct_create_text(id@, keys@.1, option_views(options@)),
{
    let mut s = "SESSION CREATE STYLE=STREAM ID=".to_owned();
    s.append(id);
    s.append(" DESTINATION=");
    s.append(keys.private_key().as_str());
    s.append(" ");
    let ghost start = s@;
    let mut i: usize = 0;
    while i < options.len()
        invariant
            0 <= i <= options@.len(),
            s@ == start + options_text(option_views(options@).take(i as int)),
        decreases options@.len() - i,
    {
        let (name, value) = options[i];
        proof {
            let ov = option_views(options@);
            assert(ov.take(i + 1).drop_last() =~= ov.take(i as int));
        }
        s.append(name);
        s.append("=");
        s.append(value);
        s.append(" ");
        i += 1;
    }
    assert(option_views(options@).take(options@.len() as int) =~= option_views(options@));
    s.append("SIGNATURE_TYPE=7\n");
    s
}

/// `STREAM CONNECT ID={id} DESTINATION={dest} FROM_PORT=0 TO_PORT=0 SILENT=false`
pub fn direct_stream_connect(id: &str, dest: &str) -> (cmd: String)
    ensures
        cmd@ == "STREAM CONNECT ID="@ + id@ + " DESTINATION="@ + dest@
            + " FROM_PORT=0 TO_PORT=0 SILENT=false\n"@,
{
    let mut s = "STREAM CONNECT ID=".to_owned();
    s.append(id);
    s.append(" DESTINATION=");
    s.append(dest);
    s.append(" FROM_PORT=0 TO_PORT=0 SILENT=false\n");
    s
}

/// A `HELLO` reply is taken when it holds `HELLO REPLY` and `RESULT=OK`
/// anywhere; otherwise it is the error the line reports.
pub open spec fn direct_hello_outcome(line: Seq<char>) -> Result<(), SamErrorView> {
    if has_infix(line, "HELLO REPLY"@) && has_infix(line, "RESULT=OK"@) {
        Ok(())
    } else {
        Err(result_line_error(line))
    }
}

/// Reads the reply to `HELLO`.
pub fn direct_hello(line: &str) -> (r: Result<(), SamError>)
    ensures
        match r {
            Ok(()) => direct_hello_outcome(line@) == Ok::<(), SamErrorView>(()),
            Err(e) => direct_hello_outcome(line@) == Err::<(), SamErrorView>(e@),
        },
{
    if contains(line, "HELLO REPLY") && contains(line, "RESULT=OK") {
        Ok(())
    } else {
        Err(SamError::from_result_line(line))
    }
}

/// A `DEST REPLY` gives the keys it names.  A `RESULT` other than `OK` is
/// the error it reports; a missing `PUB` or `PRIV` is an unexpected reply
/// that says which is missing.
pub open spec fn direct_keys_outcome(line: Seq<char>) -> Result<(Seq<char>, Seq<char>), SamErrorView> {
    if field(line, "RESULT"@) is Some && !result_ok(line) {
        Err(result_line_error(line))
    } else {
        match (field(line, "PUB"@), field(line, "PRIV"@)) {
            (Some(p), Some(k)) => Ok((p, k)),
            (None, _) => Err(SamErrorView::UnexpectedResponse("DEST GENERATE without PUB: "@ + line)),
            (Some(_), None) => Err(
                SamErrorView::UnexpectedResponse("DEST GENERATE without PRIV: "@ + line),
            ),
        }
    }
}

/// Reads the reply to `DEST GENERATE`.
pub fn direct_generated_keys(line: &str) -> (r: Result<Keys, SamError>)
    ensures
        match r {
            Ok(k) => direct_keys_outcome(line@) == Ok::<(Seq<char>, Seq<char>), SamErrorView>(k@),
            Err(e) => direct_keys_outcome(line@) == Err::<(Seq<char>, Seq<char>), SamErrorView>(e@),
        },
{
    let fields = parse_fields(line);
    let failed = match fields.get("RESULT") {
        Some(v) => !str_eq(v.as_str(), "OK"),
        None => false,
    };
    if failed {
        return Err(SamError::from_result_line(line));
    }
    let public = match fields.get("PUB") {
        Some(p) => p,
        None => {
            let mut m = "DEST GENERATE without PUB: ".to_owned();
            m.append(line);
            return Err(SamError::UnexpectedResponse(m));
        },
    };
    let private = match fields.get("PRIV") {
        Some(k) => k,
        None => {
            let mut m = "DEST GENERATE without PRIV: ".to_owned();
            m.append(line);
            return Err(SamError::UnexpectedResponse(m));
        },
    };
    Ok(Keys::new(public.as_str(), private.as_str()))
}

/// A `NAMING REPLY` with `RESULT=OK` gives its `VALUE`, and is an
/// unexpected reply without one; any other reply is the error it reports.
pub open spec fn direct_lookup_outcome(line: Seq<char>) -> Result<Seq<char>, SamErrorView> {
    if result_ok(line) {
        match field(line, "VALUE"@) {
            Some(v) => Ok(v),
            None => Err(SamErrorView::UnexpectedResponse("NAMING REPLY without VALUE: "@ + line)),
        }
    } else {
        Err(result_line_error(line))
    }
}

/// Reads the reply to `NAMING LOOKUP`.
pub fn direct_lookup(line: &str) -> (r: Result<Destination, SamError>)
    ensures
        match r {
            Ok(d) => direct_lookup_outcome(line@) == Ok::<Seq<char>, SamErrorView>(d@),
            Err(e) => direct_lookup_outcome(line@) == Err::<Seq<char>, SamErrorView>(e@),
        },
{
    let fields = parse_fields(line);
    let ok = match fields.get("RESULT") {
        Some(v) => str_eq(v.as_str(), "OK"),
        None => false,
    };
    if !ok {
        return Err(SamError::from_result_line(line));
    }
    match fields.get("VALUE") {
        Some(v) => Ok(Destination::new(v.as_str())),
        None => {
            let mut m = "NAMING REPLY without VALUE: ".to_owned();
            m.append(line);
            Err(SamError::UnexpectedResponse(m))
        },
    }
}

} // verus!
