//! Errors of a SAM conversation, and how a reply's `RESULT` code maps to
//! them.
use vstd::prelude::*;
use crate::proto::fields::{line_fields, parse_fields};
use crate::text::{push_decimal, str_eq};

verus! {

/// What can go wrong talking to a SAM bridge.
#[derive(Debug, PartialEq, Eq)]
pub enum SamError {
    DuplicatedDest,
    DuplicatedId,
    CantReachPeer,
    KeyNotFound,
    InvalidKey,
    InvalidId,
    Timeout,
    SessionNotFound,
    NotASession,
    I2PError(String),
    UnexpectedResponse(String),
    Io(String),
    Poisoned(String),
    DatagramTooLarge { max: usize, got: usize },
}

/// A [`SamError`] with its texts taken as character sequences.
pub enum SamErrorView {
    DuplicatedDest,
    DuplicatedId,
    CantReachPeer,
    KeyNotFound,
    InvalidKey,
    InvalidId,
    Timeout,
    SessionNotFound,
    NotASession,
    I2PError(Seq<char>),
    UnexpectedResponse(Seq<char>),
    Io(Seq<char>),
    Poisoned(Seq<char>),
    DatagramTooLarge { max: nat, got: nat },
}

impl View for SamError {
    type V = SamErrorView;

    open spec fn view(&self) -> SamErrorView {
        match self {
            SamError::DuplicatedDest => SamErrorView::DuplicatedDest,
            SamError::DuplicatedId => SamErrorView::DuplicatedId,
            SamError::CantReachPeer => SamErrorView::CantReachPeer,
            SamError::KeyNotFound => SamErrorView::KeyNotFound,
            SamError::InvalidKey => SamErrorView::InvalidKey,
            SamError::InvalidId => SamErrorView::InvalidId,
            SamError::Timeout => SamErrorView::Timeout,
            SamError::SessionNotFound => SamErrorView::SessionNotFound,
            SamError::NotASession => SamErrorView::NotASession,
            SamError::I2PError(m) => SamErrorView::I2PError(m@),
            SamError::UnexpectedResponse(l) => SamErrorView::UnexpectedResponse(l@),
            SamError::Io(m) => SamErrorView::Io(m@),
            SamError::Poisoned(m) => SamErrorView::Poisoned(m@),
            SamError::DatagramTooLarge { max, got } => SamErrorView::DatagramTooLarge {
                max: *max as nat,
                got: *got as nat,
            },
        }
    }
}

/// The error that a `RESULT` code other than `OK` and `I2P_ERROR` names,
/// if the code is one SAM defines.
pub open spec fn code_error(code: Seq<char>) -> Option<SamErrorView> {
    if code == "DUPLICATED_DEST"@ {
        Some(SamErrorView::DuplicatedDest)
    } else if code == "DUPLICATED_ID"@ {
        Some(SamErrorView::DuplicatedId)
    } else if code == "CANT_REACH_PEER"@ {
        Some(SamErrorView::CantReachPeer)
    } else if code == "KEY_NOT_FOUND"@ {
        Some(SamErrorView::KeyNotFound)
    } else if code == "INVALID_KEY"@ {
        Some(SamErrorView::InvalidKey)
    } else if code == "INVALID_ID"@ {
        Some(SamErrorView::InvalidId)
    } else if code == "TIMEOUT"@ {
        Some(SamErrorView::Timeout)
    } else if code == "SESSION_NOT_FOUND"@ {
        Some(SamErrorView::SessionNotFound)
    } else if code == "NOTSUPPORTED"@ {
        Some(SamErrorView::NotASession)
    } else {
        None
    }
}

/// The error that a failed reply line reports: the one its `RESULT` code
/// names, `I2PError` with the `MESSAGE` field (empty when absent), or
/// `UnexpectedResponse` holding the whole line when there is no `RESULT`
/// or its code is unknown.
pub open spec fn result_line_error(line: Seq<char>) -> SamErrorView {
    let f = line_fields(line);
    if !f.contains_key("RESULT"@) {
        SamErrorView::UnexpectedResponse(line)
    } else {
        let code = f["RESULT"@];
        if code == "I2P_ERROR"@ {
            SamErrorView::I2PError(
                if f.contains_key("MESSAGE"@) {
                    f["MESSAGE"@]
                } else {
                    Seq::empty()
                },
            )
        } else {
            match code_error(code) {
                Some(e) => e,
                None => SamErrorView::UnexpectedResponse(line),
            }
        }
    }
}

impl SamErrorView {
    /// The protocol code of an error that a bare code stands for.
    pub open spec fn code(self) -> Option<Seq<char>> {
        match self {
            SamErrorView::DuplicatedDest => Some("DUPLICATED_DEST"@),
            SamErrorView::DuplicatedId => Some("DUPLICATED_ID"@),
            SamErrorView::CantReachPeer => Some("CANT_REACH_PEER"@),
            SamErrorView::KeyNotFound => Some("KEY_NOT_FOUND"@),
            SamErrorView::InvalidKey => Some("INVALID_KEY"@),
            SamErrorView::InvalidId => Some("INVALID_ID"@),
            SamErrorView::Timeout => Some("TIMEOUT"@),
            SamErrorView::SessionNotFound => Some("SESSION_NOT_FOUND"@),
            SamErrorView::NotASession => Some("NOTSUPPORTED"@),
            _ => None,
        }
    }

    /// The text that describes the error.
    pub open spec fn message(self) -> Seq<char> {
        match self {
            SamErrorView::I2PError(m) => if m.len() == 0 {
                "I2P_ERROR"@
            } else {
                "I2P_ERROR: "@ + m
            },
            SamErrorView::UnexpectedResponse(l) => "unexpected SAM response: "@ + l,
            SamErrorView::Io(m) => "IO error: "@ + m,
            SamErrorView::Poisoned(m) => "session poisoned: "@ + m,
            SamErrorView::DatagramTooLarge { max, got } => "datagram too large: "@ + crate::text::decimal(got)
                + " bytes, at most "@ + crate::text::decimal(max),
            _ => self.code().unwrap(),
        }
    }
}

impl SamError {
    /// The error that a failed reply line reports (see
    /// [`result_line_error`]).
    pub fn from_result_line(line: &str) -> (e: SamError)
        ensures
            e@ == result_line_error(line@),
    {
        let fields = parse_fields(line);
        let result = match fields.get("RESULT") {
            Some(r) => r,
            None => {
                return SamError::UnexpectedResponse(line.to_owned());
            },
        };
        let r = result.as_str();
        if str_eq(r, "I2P_ERROR") {
            match fields.get("MESSAGE") {
                Some(m) => SamError::I2PError(m.clone()),
                None => SamError::I2PError(String::new()),
            }
        } else if str_eq(r, "DUPLICATED_DEST") {
            SamError::DuplicatedDest
        } else if str_eq(r, "DUPLICATED_ID") {
            SamError::DuplicatedId
        } else if str_eq(r, "CANT_REACH_PEER") {
            SamError::CantReachPeer
        } else if str_eq(r, "KEY_NOT_FOUND") {
            SamError::KeyNotFound
        } else if str_eq(r, "INVALID_KEY") {
            SamError::InvalidKey
        } else if str_eq(r, "INVALID_ID") {
            SamError::InvalidId
        } else if str_eq(r, "TIMEOUT") {
            SamError::Timeout
        } else if str_eq(r, "SESSION_NOT_FOUND") {
            SamError::SessionNotFound
        } else if str_eq(r, "NOTSUPPORTED") {
            SamError::NotASession
        } else {
            SamError::UnexpectedResponse(line.to_owned())
        }
    }

    /// The text that describes the error: the protocol code for the errors
    /// that a bare code stands for.
    pub fn message(&self) -> (s: String)
        ensures
            s@ == self@.message(),
    {
        match self {
            SamError::DuplicatedDest => "DUPLICATED_DEST".to_owned(),
            SamError::DuplicatedId => "DUPLICATED_ID".to_owned(),
            SamError::CantReachPeer => "CANT_REACH_PEER".to_owned(),
            SamError::KeyNotFound => "KEY_NOT_FOUND".to_owned(),
            SamError::InvalidKey => "INVALID_KEY".to_owned(),
            SamError::InvalidId => "INVALID_ID".to_owned(),
            SamError::Timeout => "TIMEOUT".to_owned(),
            SamError::SessionNotFound => "SESSION_NOT_FOUND".to_owned(),
            SamError::NotASession => "NOTSUPPORTED".to_owned(),
            SamError::I2PError(m) => {
                if m.as_str().is_empty() {
                    "I2P_ERROR".to_owned()
                } else {
                    let mut s = "I2P_ERROR: ".to_owned();
                    s.append(m.as_str());
                    s
                }
            },
            SamError::UnexpectedResponse(l) => {
                let mut s = "unexpected SAM response: ".to_owned();
                s.append(l.as_str());
                s
            },
            SamError::Io(m) => {
                let mut s = "IO error: ".to_owned();
                s.append(m.as_str());
                s
            },
            SamError::Poisoned(m) => {
                let mut s = "session poisoned: ".to_owned();
                s.append(m.as_str());
                s
            },
            SamError::DatagramTooLarge { max, got } => {
                let mut s = "datagram too large: ".to_owned();
                push_decimal(&mut s, *got as u64);
                s.append(" bytes, at most ");
                push_decimal(&mut s, *max as u64);
                s
            },
        }
    }
}

/// The first characters and the lengths of the protocol codes, which tell
/// them apart.
proof fn lemma_code_literals()
    ensures
        "OK"@.len() == 2 && "OK"@[0] == 'O' && "OK"@[1] == 'K',
        "I2P_ERROR"@.len() == 9 && "I2P_ERROR"@[0] == 'I' && "I2P_ERROR"@[1] == '2',
        "DUPLICATED_DEST"@.len() == 15 && "DUPLICATED_DEST"@[0] == 'D' && "DUPLICATED_DEST"@[1] == 'U',
        "DUPLICATED_ID"@.len() == 13 && "DUPLICATED_ID"@[0] == 'D' && "DUPLICATED_ID"@[1] == 'U',
        "CANT_REACH_PEER"@.len() == 15 && "CANT_REACH_PEER"@[0] == 'C' && "CANT_REACH_PEER"@[1] == 'A',
        "KEY_NOT_FOUND"@.len() == 13 && "KEY_NOT_FOUND"@[0] == 'K' && "KEY_NOT_FOUND"@[1] == 'E',
        "INVALID_KEY"@.len() == 11 && "INVALID_KEY"@[0] == 'I' && "INVALID_KEY"@[1] == 'N',
        "INVALID_ID"@.len() == 10 && "INVALID_ID"@[0] == 'I' && "INVALID_ID"@[1] == 'N',
        "TIMEOUT"@.len() == 7 && "TIMEOUT"@[0] == 'T' && "TIMEOUT"@[1] == 'I',
        "SESSION_NOT_FOUND"@.len() == 17 && "SESSION_NOT_FOUND"@[0] == 'S' && "SESSION_NOT_FOUND"@[1] == 'E',
        "NOTSUPPORTED"@.len() == 12 && "NOTSUPPORTED"@[0] == 'N' && "NOTSUPPORTED"@[1] == 'O',
{
    reveal_strlit("OK");
    reveal_strlit("I2P_ERROR");
    reveal_strlit("DUPLICATED_DEST");
    reveal_strlit("DUPLICATED_ID");
    reveal_strlit("CANT_REACH_PEER");
    reveal_strlit("KEY_NOT_FOUND");
    reveal_strlit("INVALID_KEY");
    reveal_strlit("INVALID_ID");
    reveal_strlit("TIMEOUT");
    reveal_strlit("SESSION_NOT_FOUND");
    reveal_strlit("NOTSUPPORTED");
}

/// An error that a bare protocol code stands for is described by that code,
/// and a reply whose `RESULT` field holds the description is read back as
/// the same error.
pub proof fn lemma_code_message_roundtrip(e: SamErrorView, line: Seq<char>)
    requires
        e.code() is Some,
        line_fields(line).contains_key("RESULT"@),
        line_fields(line)["RESULT"@] == e.message(),
    ensures
        e.message() == e.code()->0,
        result_line_error(line) == e,
{
    lemma_code_literals();
}

/// A reply whose `RESULT` is `I2P_ERROR` with a non-empty `MESSAGE` is read
/// as `I2PError` carrying that message, and is described as `I2P_ERROR: `
/// followed by it.
pub proof fn lemma_i2p_error_message(line: Seq<char>)
    requires
        line_fields(line).contains_key("RESULT"@),
        line_fields(line)["RESULT"@] == "I2P_ERROR"@,
        line_fields(line).contains_key("MESSAGE"@),
        line_fields(line)["MESSAGE"@].len() > 0,
    ensures
        result_line_error(line) == SamErrorView::I2PError(line_fields(line)["MESSAGE"@]),
        result_line_error(line).message() == "I2P_ERROR: "@ + line_fields(line)["MESSAGE"@],
{
}

} // verus!
