use sam3::SamError;

#[test]
fn from_result_line_parses_cant_reach_peer() {
    assert_eq!(
        SamError::from_result_line("STREAM STATUS RESULT=CANT_REACH_PEER"),
        SamError::CantReachPeer
    );
}

#[test]
fn from_result_line_parses_i2p_error_with_message() {
    assert_eq!(
        SamError::from_result_line(r#"STREAM STATUS RESULT=I2P_ERROR MESSAGE="no tunnels""#),
        SamError::I2PError("no tunnels".into())
    );
}

#[test]
fn from_result_line_parses_i2p_error_without_message() {
    assert_eq!(
        SamError::from_result_line("DEST REPLY RESULT=I2P_ERROR"),
        SamError::I2PError(String::new())
    );
}

#[test]
fn from_result_line_unknown_result_becomes_unexpected() {
    let e = SamError::from_result_line("STREAM STATUS RESULT=SOMETHING_NEW");
    assert!(matches!(e, SamError::UnexpectedResponse(_)));
}

#[test]
fn from_result_line_missing_result_becomes_unexpected() {
    let e = SamError::from_result_line("STREAM STATUS");
    assert!(matches!(e, SamError::UnexpectedResponse(_)));
}

#[test]
fn from_result_line_parses_duplicated_id() {
    assert_eq!(
        SamError::from_result_line("SESSION STATUS RESULT=DUPLICATED_ID"),
        SamError::DuplicatedId
    );
}

#[test]
fn display_uses_protocol_codes() {
    assert_eq!(SamError::CantReachPeer.message(), "CANT_REACH_PEER");
    assert_eq!(SamError::I2PError("no tunnels".into()).message(), "I2P_ERROR: no tunnels");
    assert_eq!(SamError::I2PError(String::new()).message(), "I2P_ERROR");
    assert!(SamError::UnexpectedResponse("bad line".into()).message().contains("bad line"));
}

#[test]
fn every_code_reads_back_as_its_error() {
    let errors = [
        SamError::DuplicatedDest,
        SamError::DuplicatedId,
        SamError::CantReachPeer,
        SamError::KeyNotFound,
        SamError::InvalidKey,
        SamError::InvalidId,
        SamError::Timeout,
        SamError::SessionNotFound,
        SamError::NotASession,
    ];
    for e in errors {
        let line = format!("X Y RESULT={}", e.message());
        assert_eq!(SamError::from_result_line(&line), e);
    }
    assert_eq!(SamError::NotASession.message(), "NOTSUPPORTED");
    assert_eq!(
        SamError::from_result_line("STREAM STATUS"),
        SamError::UnexpectedResponse("STREAM STATUS".into())
    );
    assert_eq!(SamError::Io("broken pipe".into()).message(), "IO error: broken pipe");
    assert_eq!(
        SamError::UnexpectedResponse("bad line".into()).message(),
        "unexpected SAM response: bad line"
    );
    assert_eq!(SamError::Poisoned("x".into()).message(), "session poisoned: x");
    assert_eq!(
        SamError::DatagramTooLarge { max: 31744, got: 31745 }.message(),
        "datagram too large: 31745 bytes, at most 31744"
    );
}
