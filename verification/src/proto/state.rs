//! The order in which a SAM conversation may go.
//!
//! A controller follows a conversation step by step: the caller tells it
//! what it is about to send and hands it each reply.  A step the state does
//! not expect, or a reply that reports a failure, poisons the controller;
//! from then on every step fails with the same `Poisoned` error.
use vstd::prelude::*;
use crate::error::{result_line_error, SamError, SamErrorView};
use crate::proto::response::{
    check_outcome, check_result, field, hello_outcome, ok_field_outcome, parse_hello,
    parse_session_status, parse_stream_status, text_outcome, unit_outcome,
};
use crate::text::{debug_string, debug_text};

verus! {

/// Where a session's control conversation stands.
#[derive(Debug, Clone, PartialEq)]
pub enum SessionState {
    Fresh,
    HelloPending,
    HelloDone,
    CreatePending,
    /// The session is up, with this destination.
    Active(String),
    /// The conversation failed, for the reason given.
    Poisoned(String),
}

/// A [`SessionState`] with its texts as character sequences.
pub enum SessionStateView {
    Fresh,
    HelloPending,
    HelloDone,
    CreatePending,
    Active(Seq<char>),
    Poisoned(Seq<char>),
}

impl View for SessionState {
    type V = SessionStateView;

    open spec fn view(&self) -> SessionStateView {
        match self {
            SessionState::Fresh => SessionStateView::Fresh,
            SessionState::HelloPending => SessionStateView::HelloPending,
            SessionState::HelloDone => SessionStateView::HelloDone,
            SessionState::CreatePending => SessionStateView::CreatePending,
            SessionState::Active(d) => SessionStateView::Active(d@),
            SessionState::Poisoned(m) => SessionStateView::Poisoned(m@),
        }
    }
}

/// The `Debug` rendering of a session state.
pub open spec fn session_state_text(s: SessionStateView) -> Seq<char> {
    match s {
        SessionStateView::Fresh => "Fresh"@,
        SessionStateView::HelloPending => "HelloPending"@,
        SessionStateView::HelloDone => "HelloDone"@,
        SessionStateView::CreatePending => "CreatePending"@,
        SessionStateView::Active(d) => "Active("@ + debug_text(d) + ")"@,
        SessionStateView::Poisoned(m) => "Poisoned("@ + debug_text(m) + ")"@,
    }
}

/// What a session controller is told.
pub enum SessionEvent {
    /// `HELLO` is about to be sent.
    BeginHandshake,
    /// The reply to `HELLO` came.
    HelloReply(Seq<char>),
    /// `SESSION CREATE` is about to be sent.
    BeginCreate,
    /// The reply to `SESSION CREATE` came.
    SessionStatus(Seq<char>),
    /// `SESSION ADD` is about to be sent.
    BeginAdd,
    /// The reply to `SESSION ADD` came.
    AddReply(Seq<char>),
    /// `SESSION REMOVE` is about to be sent.
    BeginRemove,
    /// The reply to `SESSION REMOVE` came.
    RemoveReply(Seq<char>),
}

/// Poisoning with a reason: the state records it and the step fails with
/// it.
pub open spec fn poisoning(msg: Seq<char>) -> (SessionStateView, Result<Seq<char>, SamErrorView>) {
    (SessionStateView::Poisoned(msg), Err(SamErrorView::Poisoned(msg)))
}

/// A reply that reports a failure poisons the session with the error's
/// description.
pub open spec fn failing(e: SamErrorView) -> (SessionStateView, Result<Seq<char>, SamErrorView>) {
    (SessionStateView::Poisoned(e.message()), Err(e))
}

/// The next state of a session and the outcome of the step (the
/// destination for an accepted `SESSION STATUS`, empty for other accepted
/// steps).
pub open spec fn session_step(s: SessionStateView, ev: SessionEvent) -> (
    SessionStateView,
    Result<Seq<char>, SamErrorView>,
) {
    let t = session_state_text(s);
    match s {
        SessionStateView::Poisoned(m) => (s, Err(SamErrorView::Poisoned(m))),
        _ => match ev {
            SessionEvent::BeginHandshake => if s is Fresh {
                (SessionStateView::HelloPending, Ok(Seq::empty()))
            } else {
                poisoning("invalid transition to HelloPending from "@ + t)
            },
            SessionEvent::HelloReply(l) => if s is HelloPending {
                match hello_outcome(l) {
                    Ok(_) => (SessionStateView::HelloDone, Ok(Seq::empty())),
                    Err(e) => failing(e),
                }
            } else {
                poisoning("invalid transition from "@ + t + " on hello reply"@)
            },
            SessionEvent::BeginCreate => if s is HelloDone {
                (SessionStateView::CreatePending, Ok(Seq::empty()))
            } else {
                poisoning("invalid transition to CreatePending from "@ + t)
            },
            SessionEvent::SessionStatus(l) => if s is CreatePending {
                match ok_field_outcome(l, "DESTINATION"@) {
                    Ok(d) => (SessionStateView::Active(d), Ok(d)),
                    Err(e) => failing(e),
                }
            } else {
                poisoning("invalid transition from "@ + t + " on session status"@)
            },
            SessionEvent::BeginAdd => if s is Active {
                (s, Ok(Seq::empty()))
            } else {
                poisoning("cannot add subsession in state "@ + t)
            },
            SessionEvent::AddReply(l) => if s is Active {
                (
                    s,
                    match check_outcome(l) {
                        Ok(_) => Ok(Seq::empty()),
                        Err(e) => Err(e),
                    },
                )
            } else {
                poisoning("unexpected session add reply in state "@ + t)
            },
            SessionEvent::BeginRemove => if s is Active {
                (s, Ok(Seq::empty()))
            } else {
                poisoning("cannot remove subsession in state "@ + t)
            },
            SessionEvent::RemoveReply(l) => if s is Active {
                (
                    s,
                    match check_outcome(l) {
                        Ok(_) => Ok(Seq::empty()),
                        Err(e) => Err(e),
                    },
                )
            } else {
                poisoning("unexpected session remove reply in state "@ + t)
            },
        },
    }
}

/// The state after a sequence of events.
pub open spec fn session_run(s: SessionStateView, evs: Seq<SessionEvent>) -> SessionStateView
    decreases evs.len(),
{
    if evs.len() == 0 {
        s
    } else {
        session_run(session_step(s, evs[0]).0, evs.drop_first())
    }
}

/// A unit outcome with an empty text in place of `()`.
pub open spec fn unit_as_text(r: Result<(), SamError>) -> Result<Seq<char>, SamErrorView> {
    match r {
        Ok(()) => Ok(Seq::empty()),
        Err(e) => Err(e@),
    }
}

/// Follows the control conversation of a session.
pub struct SessionController {
    state: SessionState,
}

impl View for SessionController {
    type V = SessionStateView;

    closed spec fn view(&self) -> SessionStateView {
        self.state@
    }
}

fn session_state_string(s: &SessionState) -> (r: String)
    ensures
        r@ == session_state_text(s@),
{
    match s {
        SessionState::Fresh => "Fresh".to_owned(),
        SessionState::HelloPending => "HelloPending".to_owned(),
        SessionState::HelloDone => "HelloDone".to_owned(),
        SessionState::CreatePending => "CreatePending".to_owned(),
        SessionState::Active(d) => {
            let mut r = "Active(".to_owned();
            let dd = debug_string(d.as_str());
            r.append(dd.as_str());
            r.append(")");
            r
        },
        SessionState::Poisoned(m) => {
            let mut r = "Poisoned(".to_owned();
            let dd = debug_string(m.as_str());
            r.append(dd.as_str());
            r.append(")");
            r
        },
    }
}

/// `prefix` followed by `text` and `suffix`.
fn join3(prefix: &str, text: &str, suffix: &str) -> (r: String)
    ensures
        r@ == prefix@ + text@ + suffix@,
{
    let mut r = prefix.to_owned();
    r.append(text);
    r.append(suffix);
    r
}

impl SessionController {
    /// Poisons the controller with `prefix` and the current state as the
    /// reason.
    fn poison_after(&mut self, prefix: &str) -> (e: SamError)
        ensures
            final(self)@ == SessionStateView::Poisoned(prefix@ + session_state_text(old(self)@)),
            e@ == SamErrorView::Poisoned(prefix@ + session_state_text(old(self)@)),
    {
        proof {
            reveal_strlit("");
        }
        let e = self.poison(prefix, "");
        assert(prefix@ + session_state_text(old(self)@) + ""@ =~= prefix@ + session_state_text(
            old(self)@,
        ));
        e
    }

    /// A controller at the start of a conversation.
    pub fn new() -> (c: Self)
        ensures
            c@ == SessionStateView::Fresh,
    {
        SessionController { state: SessionState::Fresh }
    }

    /// Poisons the controller with `prefix`, the current state and
    /// `suffix` as the reason.
    fn poison(&mut self, prefix: &str, suffix: &str) -> (e: SamError)
        ensures
            final(self)@ == SessionStateView::Poisoned(
                prefix@ + session_state_text(old(self)@) + suffix@,
            ),
            e@ == SamErrorView::Poisoned(prefix@ + session_state_text(old(self)@) + suffix@),
    {
        let t = session_state_string(&self.state);
        let msg = join3(prefix, t.as_str(), suffix);
        self.state = SessionState::Poisoned(msg.clone());
        SamError::Poisoned(msg)
    }

    /// `HELLO` is about to be sent; allowed only at the start.
    pub fn begin_handshake(&mut self) -> (r: Result<(), SamError>)
        ensures
            (final(self)@, unit_as_text(r)) == session_step(
                old(self)@,
                SessionEvent::BeginHandshake,
            ),
    {
        match &self.state {
            SessionState::Fresh => {
                self.state = SessionState::HelloPending;
                Ok(())
            },
            SessionState::Poisoned(msg) => Err(SamError::Poisoned(msg.clone())),
            _ => Err(self.poison_after("invalid transition to HelloPending from ")),
        }
    }

    /// The reply to `HELLO` came.
    pub fn on_hello_reply(&mut self, line: &str) -> (r: Result<(), SamError>)
        ensures
            (final(self)@, unit_as_text(r)) == session_step(
                old(self)@,
                SessionEvent::HelloReply(line@),
            ),
    {
        match &self.state {
            SessionState::HelloPending => {
                match parse_hello(line) {
                    Ok(()) => {
                        self.state = SessionState::HelloDone;
                        Ok(())
                    },
                    Err(e) => {
                        self.state = SessionState::Poisoned(e.message());
                        Err(e)
                    },
                }
            },
            SessionState::Poisoned(msg) => Err(SamError::Poisoned(msg.clone())),
            _ => Err(self.poison("invalid transition from ", " on hello reply")),
        }
    }

    /// `SESSION CREATE` is about to be sent; allowed after the handshake.
    pub fn begin_create(&mut self) -> (r: Result<(), SamError>)
        ensures
            (final(self)@, unit_as_text(r)) == session_step(old(self)@, SessionEvent::BeginCreate),
    {
        match &self.state {
            SessionState::HelloDone => {
                self.state = SessionState::CreatePending;
                Ok(())
            },
            SessionState::Poisoned(msg) => Err(SamError::Poisoned(msg.clone())),
            _ => Err(self.poison_after("invalid transition to CreatePending from ")),
        }
    }

    /// The reply to `SESSION CREATE` came; gives back the destination.
    pub fn on_session_status(&mut self, line: &str) -> (r: Result<String, SamError>)
        ensures
            (final(self)@, text_outcome(r)) == session_step(
                old(self)@,
                SessionEvent::SessionStatus(line@),
            ),
    {
        match &self.state {
            SessionState::CreatePending => {
                match parse_session_status(line) {
                    Ok(dest) => {
                        self.state = SessionState::Active(dest.clone());
                        Ok(dest)
                    },
                    Err(e) => {
                        self.state = SessionState::Poisoned(e.message());
                        Err(e)
                    },
                }
            },
            SessionState::Poisoned(msg) => Err(SamError::Poisoned(msg.clone())),
            _ => Err(self.poison("invalid transition from ", " on session status")),
        }
    }

    /// `SESSION ADD` is about to be sent; allowed while the session is up.
    pub fn begin_session_add(&mut self) -> (r: Result<(), SamError>)
        ensures
            (final(self)@, unit_as_text(r)) == session_step(old(self)@, SessionEvent::BeginAdd),
    {
        match &self.state {
            SessionState::Active(_) => Ok(()),
            SessionState::Poisoned(msg) => Err(SamError::Poisoned(msg.clone())),
            _ => Err(self.poison_after("cannot add subsession in state ")),
        }
    }

    /// The reply to `SESSION ADD` came.
    pub fn on_session_add_reply(&mut self, line: &str) -> (r: Result<(), SamError>)
        ensures
            (final(self)@, unit_as_text(r)) == session_step(
                old(self)@,
                SessionEvent::AddReply(line@),
            ),
    {
        match &self.state {
            SessionState::Active(_) => check_result(line),
            SessionState::Poisoned(msg) => Err(SamError::Poisoned(msg.clone())),
            _ => Err(self.poison_after("unexpected session add reply in state ")),
        }
    }

    /// `SESSION REMOVE` is about to be sent; allowed while the session is
    /// up.
    pub fn begin_session_remove(&mut self) -> (r: Result<(), SamError>)
        ensures
            (final(self)@, unit_as_text(r)) == session_step(old(self)@, SessionEvent::BeginRemove),
    {
        match &self.state {
            SessionState::Active(_) => Ok(()),
            SessionState::Poisoned(msg) => Err(SamError::Poisoned(msg.clone())),
            _ => Err(self.poison_after("cannot remove subsession in state ")),
        }
    }

    /// The reply to `SESSION REMOVE` came.
    pub fn on_session_remove_reply(&mut self, line: &str) -> (r: Result<(), SamError>)
        ensures
            (final(self)@, unit_as_text(r)) == session_step(
                old(self)@,
                SessionEvent::RemoveReply(line@),
            ),
    {
        match &self.state {
            SessionState::Active(_) => check_result(line),
            SessionState::Poisoned(msg) => Err(SamError::Poisoned(msg.clone())),
            _ => Err(self.poison_after("unexpected session remove reply in state ")),
        }
    }

    /// The destination of an active session.
    pub fn destination(&self) -> (r: Result<&str, SamError>)
        ensures
            match self@ {
                SessionStateView::Active(d) => r matches Ok(x) && x@ == d,
                SessionStateView::Poisoned(m) => r matches Err(e) && e@ == SamErrorView::Poisoned(m),
                _ => r matches Err(e) && e@ == SamErrorView::UnexpectedResponse(
                    "session not active, state: "@ + session_state_text(self@),
                ),
            },
    {
        match &self.state {
            SessionState::Active(dest) => Ok(dest.as_str()),
            SessionState::Poisoned(msg) => Err(SamError::Poisoned(msg.clone())),
            _ => {
                let t = session_state_string(&self.state);
                let mut m = "session not active, state: ".to_owned();
                m.append(t.as_str());
                Err(SamError::UnexpectedResponse(m))
            },
        }
    }

    /// The current state.
    pub fn state(&self) -> (s: &SessionState)
        ensures
            s@ == self@,
    {
        &self.state
    }
}

/// The stream operation that a control connection is used for.
#[derive(Debug, Clone, PartialEq, Copy)]
pub enum StreamOp {
    Connect,
    Accept,
    Forward,
}

/// Where a stream operation's conversation stands.
#[derive(Debug, Clone, PartialEq)]
pub enum StreamOpState {
    Fresh,
    HelloPending,
    HelloDone,
    OpPending(StreamOp),
    Done,
    Poisoned(String),
}

/// A [`StreamOpState`] with its reason as a character sequence.
pub enum StreamOpStateView {
    Fresh,
    HelloPending,
    HelloDone,
    OpPending(StreamOp),
    Done,
    Poisoned(Seq<char>),
}

impl View for StreamOpState {
    type V = StreamOpStateView;

    open spec fn view(&self) -> StreamOpStateView {
        match self {
            StreamOpState::Fresh => StreamOpStateView::Fresh,
            StreamOpState::HelloPending => StreamOpStateView::HelloPending,
            StreamOpState::HelloDone => StreamOpStateView::HelloDone,
            StreamOpState::OpPending(op) => StreamOpStateView::OpPending(*op),
            StreamOpState::Done => StreamOpStateView::Done,
            StreamOpState::Poisoned(m) => StreamOpStateView::Poisoned(m@),
        }
    }
}

/// The `Debug` rendering of a stream operation.
pub open spec fn stream_op_text(op: StreamOp) -> Seq<char> {
    match op {
        StreamOp::Connect => "Connect"@,
        StreamOp::Accept => "Accept"@,
        StreamOp::Forward => "Forward"@,
    }
}

/// The `Debug` rendering of a stream operation state.
pub open spec fn stream_state_text(s: StreamOpStateView) -> Seq<char> {
    match s {
        StreamOpStateView::Fresh => "Fresh"@,
        StreamOpStateView::HelloPending => "HelloPending"@,
        StreamOpStateView::HelloDone => "HelloDone"@,
        StreamOpStateView::OpPending(op) => "OpPending("@ + stream_op_text(op) + ")"@,
        StreamOpStateView::Done => "Done"@,
        StreamOpStateView::Poisoned(m) => "Poisoned("@ + debug_text(m) + ")"@,
    }
}

/// What a stream operation controller is told.
pub enum StreamEvent {
    /// `HELLO` is about to be sent.
    BeginHandshake,
    /// The reply to `HELLO` came.
    HelloReply(Seq<char>),
    /// `STREAM CONNECT`, `ACCEPT` or `FORWARD` is about to be sent.
    BeginOp(StreamOp),
    /// The `STREAM STATUS` reply came.
    StreamStatus(Seq<char>),
}

/// The next state of a stream operation and the outcome of the step.
pub open spec fn stream_step(s: StreamOpStateView, ev: StreamEvent) -> (
    StreamOpStateView,
    Result<(), SamErrorView>,
) {
    let t = stream_state_text(s);
    match s {
        StreamOpStateView::Poisoned(m) => (s, Err(SamErrorView::Poisoned(m))),
        _ => match ev {
            StreamEvent::BeginHandshake => if s is Fresh {
                (StreamOpStateView::HelloPending, Ok(()))
            } else {
                stream_poisoning("invalid transition to HelloPending from "@ + t)
            },
            StreamEvent::HelloReply(l) => if s is HelloPending {
                match hello_outcome(l) {
                    Ok(_) => (StreamOpStateView::HelloDone, Ok(())),
                    Err(e) => (StreamOpStateView::Poisoned(e.message()), Err(e)),
                }
            } else {
                stream_poisoning("invalid transition from "@ + t + " on hello reply"@)
            },
            StreamEvent::BeginOp(op) => if s is HelloDone {
                (StreamOpStateView::OpPending(op), Ok(()))
            } else {
                stream_poisoning("invalid transition to OpPending from "@ + t)
            },
            StreamEvent::StreamStatus(l) => if s is OpPending {
                match check_outcome(l) {
                    Ok(_) => (StreamOpStateView::Done, Ok(())),
                    Err(e) => (StreamOpStateView::Poisoned(e.message()), Err(e)),
                }
            } else {
                stream_poisoning("invalid transition from "@ + t + " on stream status"@)
            },
        },
    }
}

/// Poisoning a stream operation with a reason.
pub open spec fn stream_poisoning(msg: Seq<char>) -> (StreamOpStateView, Result<(), SamErrorView>) {
    (StreamOpStateView::Poisoned(msg), Err(SamErrorView::Poisoned(msg)))
}

/// The state after a sequence of events.
pub open spec fn stream_run(s: StreamOpStateView, evs: Seq<StreamEvent>) -> StreamOpStateView
    decreases evs.len(),
{
    if evs.len() == 0 {
        s
    } else {
        stream_run(stream_step(s, evs[0]).0, evs.drop_first())
    }
}

/// Follows the conversation on a connection opened for one stream
/// operation.
pub struct StreamOpController {
    state: StreamOpState,
}

impl View for StreamOpController {
    type V = StreamOpStateView;

    closed spec fn view(&self) -> StreamOpStateView {
        self.state@
    }
}

fn stream_state_string(s: &StreamOpState) -> (r: String)
    ensures
        r@ == stream_state_text(s@),
{
    match s {
        StreamOpState::Fresh => "Fresh".to_owned(),
        StreamOpState::HelloPending => "HelloPending".to_owned(),
        StreamOpState::HelloDone => "HelloDone".to_owned(),
        StreamOpState::OpPending(op) => {
            let mut r = "OpPending(".to_owned();
            match op {
                StreamOp::Connect => r.append("Connect"),
                StreamOp::Accept => r.append("Accept"),
                StreamOp::Forward => r.append("Forward"),
            }
            r.append(")");
            r
        },
        StreamOpState::Done => "Done".to_owned(),
        StreamOpState::Poisoned(m) => {
            let mut r = "Poisoned(".to_owned();
            let dd = debug_string(m.as_str());
            r.append(dd.as_str());
            r.append(")");
            r
        },
    }
}

impl StreamOpController {
    /// A controller at the start of a conversation.
    pub fn new() -> (c: Self)
        ensures
            c@ == StreamOpStateView::Fresh,
    {
        StreamOpController { state: StreamOpState::Fresh }
    }

    fn poison(&mut self, prefix: &str, suffix: &str) -> (e: SamError)
        ensures
            final(self)@ == StreamOpStateView::Poisoned(
                prefix@ + stream_state_text(old(self)@) + suffix@,
            ),
            e@ == SamErrorView::Poisoned(prefix@ + stream_state_text(old(self)@) + suffix@),
    {
        let t = stream_state_string(&self.state);
        let msg = join3(prefix, t.as_str(), suffix);
        self.state = StreamOpState::Poisoned(msg.clone());
        SamError::Poisoned(msg)
    }

    fn poison_after(&mut self, prefix: &str) -> (e: SamError)
        ensures
            final(self)@ == StreamOpStateView::Poisoned(prefix@ + stream_state_text(old(self)@)),
            e@ == SamErrorView::Poisoned(prefix@ + stream_state_text(old(self)@)),
    {
        proof {
            reveal_strlit("");
        }
        let e = self.poison(prefix, "");
        assert(prefix@ + stream_state_text(old(self)@) + ""@ =~= prefix@ + stream_state_text(
            old(self)@,
        ));
        e
    }

    /// `HELLO` is about to be sent; allowed only at the start.
    pub fn begin_handshake(&mut self) -> (r: Result<(), SamError>)
        ensures
            (final(self)@, unit_outcome(r)) == stream_step(old(self)@, StreamEvent::BeginHandshake),
    {
        match &self.state {
            StreamOpState::Fresh => {
                self.state = StreamOpState::HelloPending;
                Ok(())
            },
            StreamOpState::Poisoned(msg) => Err(SamError::Poisoned(msg.clone())),
            _ => Err(self.poison_after("invalid transition to HelloPending from ")),
        }
    }

    /// The reply to `HELLO` came.
    pub fn on_hello_reply(&mut self, line: &str) -> (r: Result<(), SamError>)
        ensures
            (final(self)@, unit_outcome(r)) == stream_step(
                old(self)@,
                StreamEvent::HelloReply(line@),
            ),
    {
        match &self.state {
            StreamOpState::HelloPending => {
                match parse_hello(line) {
                    Ok(()) => {
                        self.state = StreamOpState::HelloDone;
                        Ok(())
                    },
                    Err(e) => {
                        self.state = StreamOpState::Poisoned(e.message());
                        Err(e)
                    },
                }
            },
            StreamOpState::Poisoned(msg) => Err(SamError::Poisoned(msg.clone())),
            _ => Err(self.poison("invalid transition from ", " on hello reply")),
        }
    }

    /// The stream command `op` is about to be sent; allowed after the
    /// handshake.
    pub fn begin_op(&mut self, op: StreamOp) -> (r: Result<(), SamError>)
        ensures
            (final(self)@, unit_outcome(r)) == stream_step(old(self)@, StreamEvent::BeginOp(op)),
    {
        match &self.state {
            StreamOpState::HelloDone => {
                self.state = StreamOpState::OpPending(op);
                Ok(())
            },
            StreamOpState::Poisoned(msg) => Err(SamError::Poisoned(msg.clone())),
            _ => Err(self.poison_after("invalid transition to OpPending from ")),
        }
    }

    /// The `STREAM STATUS` reply came.
    pub fn on_stream_status(&mut self, line: &str) -> (r: Result<(), SamError>)
        ensures
            (final(self)@, unit_outcome(r)) == stream_step(
                old(self)@,
                StreamEvent::StreamStatus(line@),
            ),
    {
        match &self.state {
            StreamOpState::OpPending(_) => {
                match parse_stream_status(line) {
                    Ok(()) => {
                        self.state = StreamOpState::Done;
                        Ok(())
                    },
                    Err(e) => {
                        self.state = StreamOpState::Poisoned(e.message());
                        Err(e)
                    },
                }
            },
            StreamOpState::Poisoned(msg) => Err(SamError::Poisoned(msg.clone())),
            _ => Err(self.poison("invalid transition from ", " on stream status")),
        }
    }

    /// The current state.
    pub fn state(&self) -> (s: &StreamOpState)
        ensures
            s@ == self@,
    {
        &self.state
    }
}

/// Whether the session state expects the event next.
pub open spec fn session_expects(s: SessionStateView, ev: SessionEvent) -> bool {
    match ev {
        SessionEvent::BeginHandshake => s is Fresh,
        SessionEvent::HelloReply(_) => s is HelloPending,
        SessionEvent::BeginCreate => s is HelloDone,
        SessionEvent::SessionStatus(_) => s is CreatePending,
        _ => s is Active,
    }
}

/// Once poisoned, a session controller stays poisoned with the same reason,
/// whatever it is told, and each step fails with that reason.
pub proof fn lemma_session_poison_is_final(m: Seq<char>, evs: Seq<SessionEvent>)
    ensures
        session_run(SessionStateView::Poisoned(m), evs) == SessionStateView::Poisoned(m),
        forall|i: int|
            0 <= i < evs.len() ==> #[trigger] session_step(SessionStateView::Poisoned(m), evs[i])
                == (SessionStateView::Poisoned(m), Err::<Seq<char>, SamErrorView>(
                SamErrorView::Poisoned(m),
            )),
    decreases evs.len(),
{
    if evs.len() > 0 {
        lemma_session_poison_is_final(m, evs.drop_first());
    }
}

/// A step that a live session does not expect poisons it, and the step
/// fails with the reason it was poisoned for.
pub proof fn lemma_session_unexpected_poisons(s: SessionStateView, ev: SessionEvent)
    requires
        !(s is Poisoned),
        !session_expects(s, ev),
    ensures
        session_step(s, ev).0 is Poisoned,
        session_step(s, ev).1 == Err::<Seq<char>, SamErrorView>(
            SamErrorView::Poisoned(session_step(s, ev).0->Poisoned_0),
        ),
{
}

/// Handshake, an accepted `HELLO REPLY`, `SESSION CREATE` and an accepted
/// `SESSION STATUS` bring a fresh session up with the destination the
/// status names.
pub proof fn lemma_session_happy_path(hello: Seq<char>, status: Seq<char>, dest: Seq<char>)
    requires
        hello_outcome(hello) is Ok,
        ok_field_outcome(status, "DESTINATION"@) == Ok::<Seq<char>, SamErrorView>(dest),
    ensures
        session_run(
            SessionStateView::Fresh,
            seq![
                SessionEvent::BeginHandshake,
                SessionEvent::HelloReply(hello),
                SessionEvent::BeginCreate,
                SessionEvent::SessionStatus(status),
            ],
        ) == SessionStateView::Active(dest),
{
    let evs = seq![
        SessionEvent::BeginHandshake,
        SessionEvent::HelloReply(hello),
        SessionEvent::BeginCreate,
        SessionEvent::SessionStatus(status),
    ];
    assert(evs.drop_first() =~= seq![
        SessionEvent::HelloReply(hello),
        SessionEvent::BeginCreate,
        SessionEvent::SessionStatus(status),
    ]);
    assert(evs.drop_first().drop_first() =~= seq![
        SessionEvent::BeginCreate,
        SessionEvent::SessionStatus(status),
    ]);
    assert(evs.drop_first().drop_first().drop_first() =~= seq![
        SessionEvent::SessionStatus(status),
    ]);
    assert(evs.drop_first().drop_first().drop_first().drop_first() =~= Seq::<
        SessionEvent,
    >::empty());
    reveal_with_fuel(session_run, 5);
}

/// Adding and removing subsessions leaves an active session active with the
/// same destination, whatever the replies say.
pub proof fn lemma_subsessions_keep_session(dest: Seq<char>, ev: SessionEvent)
    requires
        ev is BeginAdd || ev is AddReply || ev is BeginRemove || ev is RemoveReply,
    ensures
        session_step(SessionStateView::Active(dest), ev).0 == SessionStateView::Active(dest),
{
}

/// On an active session, the reply to `SESSION ADD` or `SESSION REMOVE`
/// succeeds exactly when its `RESULT` field is `OK`, whatever else the line
/// holds; otherwise it fails with the error the line reports.  Either way
/// the session stays active with its destination.
pub proof fn lemma_subsession_reply_outcome(dest: Seq<char>, line: Seq<char>)
    ensures
        ({
            let outcome = if field(line, "RESULT"@) == Some("OK"@) {
                Ok::<Seq<char>, SamErrorView>(Seq::empty())
            } else {
                Err::<Seq<char>, SamErrorView>(result_line_error(line))
            };
            &&& session_step(SessionStateView::Active(dest), SessionEvent::AddReply(line)) == (
                SessionStateView::Active(dest),
                outcome,
            )
            &&& session_step(SessionStateView::Active(dest), SessionEvent::RemoveReply(line)) == (
                SessionStateView::Active(dest),
                outcome,
            )
        }),
{
}

/// A reply that reports a failure poisons a session that waited for it,
/// with the description of the reported error.
pub proof fn lemma_failed_reply_poisons(s: SessionStateView, line: Seq<char>)
    requires
        s is HelloPending,
        hello_outcome(line) is Err,
    ensures
        session_step(s, SessionEvent::HelloReply(line)) == (
            SessionStateView::Poisoned(hello_outcome(line)->Err_0.message()),
            Err::<Seq<char>, SamErrorView>(hello_outcome(line)->Err_0),
        ),
{
}

/// Once poisoned, a stream operation controller stays poisoned with the
/// same reason, whatever it is told.
pub proof fn lemma_stream_poison_is_final(m: Seq<char>, evs: Seq<StreamEvent>)
    ensures
        stream_run(StreamOpStateView::Poisoned(m), evs) == StreamOpStateView::Poisoned(m),
        forall|i: int|
            0 <= i < evs.len() ==> #[trigger] stream_step(StreamOpStateView::Poisoned(m), evs[i])
                == (StreamOpStateView::Poisoned(m), Err::<(), SamErrorView>(
                SamErrorView::Poisoned(m),
            )),
    decreases evs.len(),
{
    if evs.len() > 0 {
        lemma_stream_poison_is_final(m, evs.drop_first());
    }
}

/// Handshake, an accepted `HELLO REPLY`, a stream command and an accepted
/// `STREAM STATUS` finish a stream operation, whichever it is.
pub proof fn lemma_stream_happy_path(hello: Seq<char>, op: StreamOp, status: Seq<char>)
    requires
        hello_outcome(hello) is Ok,
        check_outcome(status) is Ok,
    ensures
        stream_run(
            StreamOpStateView::Fresh,
            seq![
                StreamEvent::BeginHandshake,
                StreamEvent::HelloReply(hello),
                StreamEvent::BeginOp(op),
                StreamEvent::StreamStatus(status),
            ],
        ) == StreamOpStateView::Done,
{
    let evs = seq![
        StreamEvent::BeginHandshake,
        StreamEvent::HelloReply(hello),
        StreamEvent::BeginOp(op),
        StreamEvent::StreamStatus(status),
    ];
    assert(evs.drop_first() =~= seq![
        StreamEvent::HelloReply(hello),
        StreamEvent::BeginOp(op),
        StreamEvent::StreamStatus(status),
    ]);
    assert(evs.drop_first().drop_first() =~= seq![
        StreamEvent::BeginOp(op),
        StreamEvent::StreamStatus(status),
    ]);
    assert(evs.drop_first().drop_first().drop_first() =~= seq![
        StreamEvent::StreamStatus(status),
    ]);
    assert(evs.drop_first().drop_first().drop_first().drop_first() =~= Seq::<
        StreamEvent,
    >::empty());
    reveal_with_fuel(stream_run, 5);
}

/// A finished stream operation takes no further step: anything it is told
/// poisons it.
pub proof fn lemma_stream_done_is_final(ev: StreamEvent)
    ensures
        stream_step(StreamOpStateView::Done, ev).0 is Poisoned,
        stream_step(StreamOpStateView::Done, ev).1 is Err,
{
}

} // verus!
