use sam3::proto::fields::parse_fields;
use sam3::proto::response::{
    check_result, parse_dest_reply, parse_hello, parse_naming_reply, parse_pong,
    parse_session_status, parse_stream_peer, parse_stream_status,
};
use sam3::SamError;

#[test]
fn parse_fields_basic() {
    let fields = parse_fields("RESULT=OK VERSION=3.3");
    assert_eq!(fields.get("RESULT").map(|s| s.as_str()), Some("OK"));
    assert_eq!(fields.get("VERSION").map(|s| s.as_str()), Some("3.3"));
}

#[test]
fn parse_fields_ignores_no_eq() {
    let fields = parse_fields("HELLO REPLY RESULT=OK");
    assert_eq!(fields.get("RESULT").map(|s| s.as_str()), Some("OK"));
    assert_eq!(fields.len(), 1);
}

#[test]
fn parse_fields_quoted_spaces() {
    let fields = parse_fields(r#"RESULT=I2P_ERROR MESSAGE="no route""#);
    assert_eq!(fields.get("MESSAGE").map(|s| s.as_str()), Some("no route"));
}

#[test]
fn parse_fields_escaped_quote() {
    let fields = parse_fields(r#"MESSAGE="bad \"key\"""#);
    assert_eq!(fields.get("MESSAGE").map(|s| s.as_str()), Some("bad \"key\""));
}

#[test]
fn check_result_ok() {
    assert!(check_result("RESULT=OK").is_ok());
}

#[test]
fn check_result_err_cant_reach() {
    assert_eq!(check_result("RESULT=CANT_REACH_PEER"), Err(SamError::CantReachPeer));
}

#[test]
fn check_result_err_timeout() {
    assert_eq!(check_result("RESULT=TIMEOUT"), Err(SamError::Timeout));
}

#[test]
fn check_result_err_i2p_error_with_msg() {
    assert_eq!(
        check_result(r#"RESULT=I2P_ERROR MESSAGE="tunnels""#),
        Err(SamError::I2PError("tunnels".into()))
    );
}

#[test]
fn parse_hello_ok() {
    assert!(parse_hello("HELLO REPLY RESULT=OK VERSION=3.3").is_ok());
}

#[test]
fn parse_hello_noversion() {
    assert!(parse_hello("HELLO REPLY RESULT=OK").is_err());
}

#[test]
fn parse_dest_reply_ok() {
    let (pub_key, priv_key) = parse_dest_reply("PUB=abc PRIV=xyz").unwrap();
    assert_eq!(pub_key, "abc");
    assert_eq!(priv_key, "xyz");
}

#[test]
fn parse_dest_reply_missing_field() {
    assert!(parse_dest_reply("PUB=abc").is_err());
}

#[test]
fn parse_session_status_ok() {
    assert_eq!(parse_session_status("DESTINATION=abc RESULT=OK").unwrap(), "abc");
}

#[test]
fn parse_session_status_duplicate_id() {
    assert_eq!(parse_session_status("RESULT=DUPLICATED_ID"), Err(SamError::DuplicatedId));
}

#[test]
fn parse_naming_reply_ok() {
    assert_eq!(parse_naming_reply("RESULT=OK VALUE=dest").unwrap(), "dest");
}

#[test]
fn parse_naming_reply_not_found() {
    assert_eq!(parse_naming_reply("RESULT=KEY_NOT_FOUND"), Err(SamError::KeyNotFound));
}

#[test]
fn parse_stream_status_ok() {
    assert!(parse_stream_status("STREAM STATUS RESULT=OK").is_ok());
}

#[test]
fn parse_stream_status_timeout() {
    assert_eq!(parse_stream_status("STREAM STATUS RESULT=TIMEOUT"), Err(SamError::Timeout));
}

#[test]
fn parse_stream_peer_valid() {
    assert_eq!(parse_stream_peer("abc123").unwrap(), "abc123");
}

#[test]
fn parse_stream_peer_empty() {
    assert!(parse_stream_peer("").is_err());
}

#[test]
fn parse_pong_ok() {
    assert_eq!(parse_pong("PONGhello").unwrap(), "hello");
}

#[test]
fn parse_pong_no_prefix() {
    assert!(parse_pong("something").is_err());
}

#[test]
fn parse_fields_edge_cases() {
    // the last of two fields with one key wins
    let f = parse_fields("A=1 A=2");
    assert_eq!(f.get("A").map(|s| s.as_str()), Some("2"));
    assert_eq!(f.len(), 1);
    // the key ends at the first `=`
    let f = parse_fields("KEY=a=b");
    assert_eq!(f.get("KEY").map(|s| s.as_str()), Some("a=b"));
    // an empty value and an empty key
    let f = parse_fields("EMPTY= =x");
    assert_eq!(f.get("EMPTY").map(|s| s.as_str()), Some(""));
    assert_eq!(f.get("").map(|s| s.as_str()), Some("x"));
    // an unterminated quote takes the rest of the line
    let f = parse_fields(r#"M="a b c"#);
    assert_eq!(f.get("M").map(|s| s.as_str()), Some("a b c"));
    // runs of whitespace inside a quoted value become single spaces
    let f = parse_fields("M=\"a   b\"\tN=1");
    assert_eq!(f.get("M").map(|s| s.as_str()), Some("a b"));
    assert_eq!(f.get("N").map(|s| s.as_str()), Some("1"));
    // an escaped quote does not close the value
    let f = parse_fields(r#"M="x\" y" Z=2"#);
    assert_eq!(f.get("M").map(|s| s.as_str()), Some("x\" y"));
    assert_eq!(f.get("Z").map(|s| s.as_str()), Some("2"));
    // a trailing lone backslash stays
    let f = parse_fields("M=\"ab\\");
    assert_eq!(f.get("M").map(|s| s.as_str()), Some("ab\\"));
    // a lone quote is an empty value
    let f = parse_fields("Q=\"\"");
    assert_eq!(f.get("Q").map(|s| s.as_str()), Some(""));
    assert!(!f.contains_key("R"));
    assert_eq!(parse_fields("   ").len(), 0);
}

#[test]
fn parse_errors_carry_the_line() {
    assert_eq!(
        parse_hello("HELLO REPLY RESULT=OK"),
        Err(SamError::UnexpectedResponse("HELLO REPLY RESULT=OK".into()))
    );
    assert_eq!(parse_hello("HELLO REPLY RESULT=NOVERSION"), Err(SamError::UnexpectedResponse("HELLO REPLY RESULT=NOVERSION".into())));
    assert_eq!(
        parse_dest_reply("DEST REPLY PRIV=x"),
        Err(SamError::UnexpectedResponse("DEST REPLY PRIV=x".into()))
    );
    assert_eq!(
        parse_session_status("SESSION STATUS RESULT=OK"),
        Err(SamError::UnexpectedResponse("SESSION STATUS RESULT=OK".into()))
    );
    assert_eq!(
        parse_naming_reply(r#"NAMING REPLY RESULT=I2P_ERROR MESSAGE="router error""#),
        Err(SamError::I2PError("router error".into()))
    );
    assert_eq!(parse_naming_reply("RESULT=INVALID_KEY"), Err(SamError::InvalidKey));
    assert_eq!(parse_pong("PON"), Err(SamError::UnexpectedResponse("PON".into())));
    assert_eq!(parse_pong("PONG").unwrap(), "");
    assert_eq!(parse_stream_peer("  peer \t").unwrap(), "peer");
    assert_eq!(parse_stream_peer(" \t "), Err(SamError::UnexpectedResponse(" \t ".into())));
}
