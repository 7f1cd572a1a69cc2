use sam3::direct::{direct_generated_keys, direct_hello, direct_lookup, direct_session_create, direct_stream_connect};
use sam3::{Keys, SamError, SAM_TUNNEL_OPTIONS};

#[test]
fn direct_create_line_lists_options_before_signature_type() {
    let keys = Keys::new("pub", "privdest");
    let cmd = direct_session_create("s1", &keys, &[("inbound.length", "0"), ("outbound.length", "1")]);
    assert_eq!(
        cmd,
        "SESSION CREATE STYLE=STREAM ID=s1 DESTINATION=privdest inbound.length=0 outbound.length=1 SIGNATURE_TYPE=7\n"
    );
}

#[test]
fn direct_create_line_without_options() {
    let keys = Keys::new("pub", "k");
    assert_eq!(
        direct_session_create("id", &keys, &[]),
        "SESSION CREATE STYLE=STREAM ID=id DESTINATION=k SIGNATURE_TYPE=7\n"
    );
}

#[test]
fn direct_create_line_with_tunnel_options() {
    let keys = Keys::new("pub", "k");
    let cmd = direct_session_create("id", &keys, &SAM_TUNNEL_OPTIONS);
    assert!(cmd.starts_with("SESSION CREATE STYLE=STREAM ID=id DESTINATION=k inbound.length=0 "));
    assert!(cmd.ends_with("outbound.quantity=2 SIGNATURE_TYPE=7\n"));
}

#[test]
fn direct_connect_line_has_fixed_ports() {
    assert_eq!(
        direct_stream_connect("s1", "peer"),
        "STREAM CONNECT ID=s1 DESTINATION=peer FROM_PORT=0 TO_PORT=0 SILENT=false\n"
    );
}

#[test]
fn direct_hello_accepts_ok_reply() {
    assert_eq!(direct_hello("HELLO REPLY RESULT=OK VERSION=3.3"), Ok(()));
}

#[test]
fn direct_hello_rejects_other_replies() {
    assert_eq!(
        direct_hello("HELLO REPLY RESULT=I2P_ERROR MESSAGE=bad"),
        Err(SamError::I2PError("bad".into()))
    );
    assert_eq!(
        direct_hello("HELLO REPLY RESULT=NOVERSION"),
        Err(SamError::UnexpectedResponse("HELLO REPLY RESULT=NOVERSION".into()))
    );
    assert_eq!(
        direct_hello("RESULT=OK"),
        Err(SamError::UnexpectedResponse("RESULT=OK".into()))
    );
}

#[test]
fn direct_generated_keys_reads_pub_and_priv() {
    let keys = direct_generated_keys("DEST REPLY PUB=abc PRIV=def").unwrap();
    assert_eq!(keys, Keys::new("abc", "def"));
}

#[test]
fn direct_generated_keys_reports_failures() {
    assert_eq!(
        direct_generated_keys("DEST REPLY RESULT=INVALID_KEY"),
        Err(SamError::InvalidKey)
    );
    assert_eq!(
        direct_generated_keys("DEST REPLY PRIV=def"),
        Err(SamError::UnexpectedResponse("DEST GENERATE without PUB: DEST REPLY PRIV=def".into()))
    );
    assert_eq!(
        direct_generated_keys("DEST REPLY PUB=abc"),
        Err(SamError::UnexpectedResponse("DEST GENERATE without PRIV: DEST REPLY PUB=abc".into()))
    );
}

#[test]
fn direct_lookup_reads_value() {
    let d = direct_lookup("NAMING REPLY RESULT=OK NAME=a.i2p VALUE=xyz").unwrap();
    assert_eq!(d.as_str(), "xyz");
}

#[test]
fn direct_lookup_reports_failures() {
    assert_eq!(
        direct_lookup("NAMING REPLY RESULT=KEY_NOT_FOUND NAME=a.i2p"),
        Err(SamError::KeyNotFound)
    );
    assert_eq!(
        direct_lookup("NAMING REPLY RESULT=OK NAME=a.i2p"),
        Err(SamError::UnexpectedResponse("NAMING REPLY without VALUE: NAMING REPLY RESULT=OK NAME=a.i2p".into()))
    );
}
