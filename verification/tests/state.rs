use sam3::proto::state::{SessionController, SessionState, StreamOp, StreamOpController, StreamOpState};
use sam3::SamError;

#[test]
fn session_happy_path() {
    let mut ctrl = SessionController::new();
    assert_eq!(ctrl.state(), &SessionState::Fresh);

    ctrl.begin_handshake().unwrap();
    assert_eq!(ctrl.state(), &SessionState::HelloPending);

    ctrl.on_hello_reply("HELLO REPLY RESULT=OK VERSION=3.3").unwrap();
    assert_eq!(ctrl.state(), &SessionState::HelloDone);

    ctrl.begin_create().unwrap();
    assert_eq!(ctrl.state(), &SessionState::CreatePending);

    let dest = ctrl.on_session_status("SESSION STATUS RESULT=OK DESTINATION=abcd").unwrap();
    assert_eq!(dest, "abcd");
    assert_eq!(ctrl.state(), &SessionState::Active("abcd".to_string()));
}

#[test]
fn session_double_begin_handshake() {
    let mut ctrl = SessionController::new();
    ctrl.begin_handshake().unwrap();
    let res = ctrl.begin_handshake();
    assert!(matches!(res, Err(SamError::Poisoned(_))));
    assert!(matches!(ctrl.state(), SessionState::Poisoned(_)));
}

#[test]
fn session_skip_hello() {
    let mut ctrl = SessionController::new();
    let res = ctrl.begin_create();
    assert!(matches!(res, Err(SamError::Poisoned(_))));
    assert!(matches!(ctrl.state(), SessionState::Poisoned(_)));
}

#[test]
fn session_poisoned_stays_poisoned() {
    let mut ctrl = SessionController::new();
    ctrl.begin_create().unwrap_err();
    let res = ctrl.begin_handshake();
    assert!(matches!(res, Err(SamError::Poisoned(_))));
}

#[test]
fn session_add_on_active() {
    let mut ctrl = SessionController::new();
    ctrl.begin_handshake().unwrap();
    ctrl.on_hello_reply("HELLO REPLY RESULT=OK VERSION=3.3").unwrap();
    ctrl.begin_create().unwrap();
    ctrl.on_session_status("SESSION STATUS RESULT=OK DESTINATION=abcd").unwrap();

    ctrl.begin_session_add().unwrap();
    ctrl.on_session_add_reply("SESSION STATUS RESULT=OK").unwrap();
    assert_eq!(ctrl.state(), &SessionState::Active("abcd".to_string()));
}

#[test]
fn session_add_on_fresh_poisons() {
    let mut ctrl = SessionController::new();
    let res = ctrl.begin_session_add();
    assert!(matches!(res, Err(SamError::Poisoned(_))));
    assert!(matches!(ctrl.state(), SessionState::Poisoned(_)));
}

#[test]
fn session_remove_on_fresh_poisons() {
    let mut ctrl = SessionController::new();
    let res = ctrl.begin_session_remove();
    assert!(matches!(res, Err(SamError::Poisoned(_))));
    assert!(matches!(ctrl.state(), SessionState::Poisoned(_)));
}

#[test]
fn session_destination_when_active() {
    let mut ctrl = SessionController::new();
    ctrl.begin_handshake().unwrap();
    ctrl.on_hello_reply("HELLO REPLY RESULT=OK VERSION=3.3").unwrap();
    ctrl.begin_create().unwrap();
    ctrl.on_session_status("SESSION STATUS RESULT=OK DESTINATION=abcd").unwrap();

    assert_eq!(ctrl.destination().unwrap(), "abcd");
}

#[test]
fn session_destination_when_not_active() {
    let ctrl = SessionController::new();
    assert!(ctrl.destination().is_err());
}

#[test]
fn stream_op_happy_connect() {
    let mut ctrl = StreamOpController::new();
    ctrl.begin_handshake().unwrap();
    ctrl.on_hello_reply("HELLO REPLY RESULT=OK VERSION=3.3").unwrap();
    ctrl.begin_op(StreamOp::Connect).unwrap();
    ctrl.on_stream_status("STREAM STATUS RESULT=OK").unwrap();
    assert_eq!(ctrl.state(), &StreamOpState::Done);
}

#[test]
fn stream_op_happy_accept() {
    let mut ctrl = StreamOpController::new();
    ctrl.begin_handshake().unwrap();
    ctrl.on_hello_reply("HELLO REPLY RESULT=OK VERSION=3.3").unwrap();
    ctrl.begin_op(StreamOp::Accept).unwrap();
    ctrl.on_stream_status("STREAM STATUS RESULT=OK").unwrap();
    assert_eq!(ctrl.state(), &StreamOpState::Done);
}

#[test]
fn stream_op_happy_forward() {
    let mut ctrl = StreamOpController::new();
    ctrl.begin_handshake().unwrap();
    ctrl.on_hello_reply("HELLO REPLY RESULT=OK VERSION=3.3").unwrap();
    ctrl.begin_op(StreamOp::Forward).unwrap();
    ctrl.on_stream_status("STREAM STATUS RESULT=OK").unwrap();
    assert_eq!(ctrl.state(), &StreamOpState::Done);
}

#[test]
fn stream_op_begin_op_without_hello() {
    let mut ctrl = StreamOpController::new();
    let res = ctrl.begin_op(StreamOp::Connect);
    assert!(matches!(res, Err(SamError::Poisoned(_))));
    assert!(matches!(ctrl.state(), StreamOpState::Poisoned(_)));
}

#[test]
fn stream_op_double_begin_op() {
    let mut ctrl = StreamOpController::new();
    ctrl.begin_handshake().unwrap();
    ctrl.on_hello_reply("HELLO REPLY RESULT=OK VERSION=3.3").unwrap();
    ctrl.begin_op(StreamOp::Connect).unwrap();
    let res = ctrl.begin_op(StreamOp::Connect);
    assert!(matches!(res, Err(SamError::Poisoned(_))));
}

#[test]
fn stream_op_poisoned_blocks() {
    let mut ctrl = StreamOpController::new();
    ctrl.begin_op(StreamOp::Connect).unwrap_err();
    let res = ctrl.begin_handshake();
    assert!(matches!(res, Err(SamError::Poisoned(_))));
}

#[test]
fn poison_reasons_name_the_state() {
    let mut ctrl = SessionController::new();
    ctrl.begin_handshake().unwrap();
    let e = ctrl.begin_handshake().unwrap_err();
    assert_eq!(
        e,
        SamError::Poisoned("invalid transition to HelloPending from HelloPending".into())
    );
    // every later step fails with the same reason and leaves the state alone
    let again = ctrl.on_hello_reply("HELLO REPLY RESULT=OK VERSION=3.3").unwrap_err();
    assert_eq!(again, e);
    assert_eq!(
        ctrl.state(),
        &SessionState::Poisoned("invalid transition to HelloPending from HelloPending".into())
    );
    assert_eq!(ctrl.destination(), Err(e));

    let mut active = SessionController::new();
    active.begin_handshake().unwrap();
    active.on_hello_reply("HELLO REPLY RESULT=OK VERSION=3.3").unwrap();
    active.begin_create().unwrap();
    active.on_session_status("SESSION STATUS RESULT=OK DESTINATION=abcd").unwrap();
    let e = active.begin_create().unwrap_err();
    assert_eq!(
        e,
        SamError::Poisoned("invalid transition to CreatePending from Active(\"abcd\")".into())
    );

    let fresh = SessionController::new();
    assert_eq!(
        fresh.destination(),
        Err(SamError::UnexpectedResponse("session not active, state: Fresh".into()))
    );

    let mut s = StreamOpController::new();
    s.begin_handshake().unwrap();
    s.on_hello_reply("HELLO REPLY RESULT=OK VERSION=3.3").unwrap();
    s.begin_op(StreamOp::Forward).unwrap();
    assert_eq!(
        s.begin_op(StreamOp::Connect),
        Err(SamError::Poisoned("invalid transition to OpPending from OpPending(Forward)".into()))
    );
}

#[test]
fn failed_replies_poison_with_the_reported_error() {
    let mut ctrl = SessionController::new();
    ctrl.begin_handshake().unwrap();
    ctrl.on_hello_reply("HELLO REPLY RESULT=OK VERSION=3.3").unwrap();
    ctrl.begin_create().unwrap();
    let e = ctrl.on_session_status("SESSION STATUS RESULT=DUPLICATED_ID").unwrap_err();
    assert_eq!(e, SamError::DuplicatedId);
    assert_eq!(ctrl.state(), &SessionState::Poisoned("DUPLICATED_ID".into()));

    let mut s = StreamOpController::new();
    s.begin_handshake().unwrap();
    let e = s.on_hello_reply("HELLO REPLY RESULT=I2P_ERROR MESSAGE=\"down\"").unwrap_err();
    assert_eq!(e, SamError::I2PError("down".into()));
    assert_eq!(s.state(), &StreamOpState::Poisoned("I2P_ERROR: down".into()));

    let mut s = StreamOpController::new();
    s.begin_handshake().unwrap();
    s.on_hello_reply("HELLO REPLY RESULT=OK VERSION=3.3").unwrap();
    s.begin_op(StreamOp::Connect).unwrap();
    assert_eq!(s.on_stream_status("STREAM STATUS RESULT=CANT_REACH_PEER"), Err(SamError::CantReachPeer));
    assert_eq!(s.state(), &StreamOpState::Poisoned("CANT_REACH_PEER".into()));
}

#[test]
fn subsession_replies_keep_session_active() {
    let mut ctrl = SessionController::new();
    ctrl.begin_handshake().unwrap();
    ctrl.on_hello_reply("HELLO REPLY RESULT=OK VERSION=3.3").unwrap();
    ctrl.begin_create().unwrap();
    ctrl.on_session_status("SESSION STATUS RESULT=OK DESTINATION=abcd").unwrap();
    ctrl.begin_session_remove().unwrap();
    assert_eq!(
        ctrl.on_session_remove_reply("SESSION STATUS RESULT=INVALID_ID"),
        Err(SamError::InvalidId)
    );
    assert_eq!(ctrl.state(), &SessionState::Active("abcd".into()));
    ctrl.begin_session_add().unwrap();
    assert_eq!(ctrl.on_session_add_reply("SESSION STATUS RESULT=DUPLICATED_ID"), Err(SamError::DuplicatedId));
    assert_eq!(ctrl.state(), &SessionState::Active("abcd".into()));
}

#[test]
fn done_stream_takes_no_further_step() {
    let mut s = StreamOpController::new();
    s.begin_handshake().unwrap();
    s.on_hello_reply("HELLO REPLY RESULT=OK VERSION=3.3").unwrap();
    s.begin_op(StreamOp::Accept).unwrap();
    s.on_stream_status("STREAM STATUS RESULT=OK").unwrap();
    assert_eq!(
        s.on_stream_status("STREAM STATUS RESULT=OK"),
        Err(SamError::Poisoned("invalid transition from Done on stream status".into()))
    );
}
