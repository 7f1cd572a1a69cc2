use sam3::proto::command::{
    datagram_header, dest_generate, hello, ping, raw_header, session_add_datagram,
    session_add_raw, session_add_stream, session_create_datagram, session_create_primary,
    session_create_raw, session_create_stream, session_remove, stream_accept, stream_connect,
    stream_forward, naming_lookup, SAM_UDP_PORT, SAM_VERSION_MAX, SAM_VERSION_MIN,
};

#[test]
fn hello_format() {
    assert_eq!(hello(), "HELLO VERSION MIN=3.0 MAX=3.3\n");
}

#[test]
fn dest_generate_default() {
    assert!(dest_generate("7").contains("SIGNATURE_TYPE=7"));
}

#[test]
fn session_create_stream_no_opts() {
    assert_eq!(
        session_create_stream("id", "dest", ""),
        "SESSION CREATE STYLE=STREAM ID=id DESTINATION=dest SIGNATURE_TYPE=7\n"
    );
}

#[test]
fn session_create_stream_with_opts() {
    assert_eq!(
        session_create_stream("id", "dest", "inbound.length=0"),
        "SESSION CREATE STYLE=STREAM ID=id DESTINATION=dest SIGNATURE_TYPE=7 inbound.length=0\n"
    );
}

#[test]
fn session_create_datagram_contains_port_host() {
    let cmd = session_create_datagram("id", "dest", 7777, "");
    assert!(cmd.contains("PORT=7777"));
    assert!(cmd.contains("HOST=127.0.0.1"));
}

#[test]
fn session_create_raw_no_protocol() {
    let cmd = session_create_raw("id", "dest", 7777, None, false, "");
    assert!(!cmd.contains("PROTOCOL="));
}

#[test]
fn session_create_raw_with_protocol() {
    let cmd = session_create_raw("id", "dest", 7777, Some(18), false, "");
    assert!(cmd.contains("PROTOCOL=18"));
}

#[test]
fn session_create_raw_with_header() {
    let cmd = session_create_raw("id", "dest", 7777, None, true, "");
    assert!(cmd.contains("HEADER=true"));
}

#[test]
fn session_create_raw_no_header() {
    let cmd = session_create_raw("id", "dest", 7777, None, false, "");
    assert!(!cmd.contains("HEADER="));
}

#[test]
fn session_add_stream_format() {
    assert_eq!(session_add_stream("x"), "SESSION ADD STYLE=STREAM ID=x\n");
}

#[test]
fn session_add_datagram_format() {
    assert!(session_add_datagram("x", 7777).contains("PORT=7777"));
}

#[test]
fn session_remove_format() {
    assert_eq!(session_remove("x"), "SESSION REMOVE ID=x\n");
}

#[test]
fn stream_connect_no_ports() {
    let cmd = stream_connect("id", "dest", false, 0, 0);
    assert!(!cmd.contains("FROM_PORT="));
    assert!(!cmd.contains("TO_PORT="));
}

#[test]
fn stream_connect_with_ports() {
    let cmd = stream_connect("id", "dest", false, 1234, 5678);
    assert!(cmd.contains("FROM_PORT=1234"));
    assert!(cmd.contains("TO_PORT=5678"));
}

#[test]
fn stream_forward_no_host() {
    let cmd = stream_forward("id", 7777, None, false);
    assert!(!cmd.contains("HOST="));
}

#[test]
fn command_stream_forward_with_host() {
    let cmd = stream_forward("id", 7777, Some("127.0.0.2"), false);
    assert!(cmd.contains("HOST=127.0.0.2"));
}

#[test]
fn stream_forward_silent() {
    let cmd = stream_forward("id", 7777, None, true);
    assert!(cmd.contains("SILENT=true"));
}

#[test]
fn ping_format() {
    assert_eq!(ping("hello"), "PINGhello\n");
}

#[test]
fn datagram_header_format() {
    assert_eq!(datagram_header("myid", "dest123"), "3.1 myid dest123\n");
}

#[test]
fn raw_header_format() {
    assert_eq!(raw_header("myid", "dest123"), "3.0 myid dest123\n");
}

#[test]
fn session_create_primary_format() {
    let cmd = session_create_primary("id", "dest", "");
    assert!(cmd.contains("STYLE=PRIMARY"));
}

#[test]
fn commands_exact_text() {
    assert_eq!(dest_generate("11"), "DEST GENERATE SIGNATURE_TYPE=11\n");
    assert_eq!(
        session_create_datagram("dg", "priv", 40001, "inbound.length=0 outbound.length=0"),
        "SESSION CREATE STYLE=DATAGRAM ID=dg DESTINATION=priv PORT=40001 HOST=127.0.0.1 SIGNATURE_TYPE=7 inbound.length=0 outbound.length=0\n"
    );
    assert_eq!(
        session_create_raw("raw", "priv", 0, Some(0), true, "x=1"),
        "SESSION CREATE STYLE=RAW ID=raw DESTINATION=priv PORT=0 HOST=127.0.0.1 SIGNATURE_TYPE=7 PROTOCOL=0 HEADER=true x=1\n"
    );
    assert_eq!(
        session_create_primary("p", "priv", "a=b"),
        "SESSION CREATE STYLE=PRIMARY ID=p DESTINATION=priv SIGNATURE_TYPE=7 a=b\n"
    );
    assert_eq!(session_add_datagram("d", 65535), "SESSION ADD STYLE=DATAGRAM ID=d PORT=65535\n");
    assert_eq!(session_add_raw("r", 9), "SESSION ADD STYLE=RAW ID=r PORT=9\n");
    assert_eq!(
        stream_connect("id", "dest", true, 0, 80),
        "STREAM CONNECT ID=id DESTINATION=dest SILENT=true TO_PORT=80\n"
    );
    assert_eq!(
        stream_connect("id", "dest", false, 1, 0),
        "STREAM CONNECT ID=id DESTINATION=dest SILENT=false FROM_PORT=1\n"
    );
    assert_eq!(stream_accept("srv", false), "STREAM ACCEPT ID=srv SILENT=false\n");
    assert_eq!(stream_accept("srv", true), "STREAM ACCEPT ID=srv SILENT=true\n");
    assert_eq!(
        stream_forward("id", 8080, Some("10.0.0.1"), true),
        "STREAM FORWARD ID=id PORT=8080 SILENT=true HOST=10.0.0.1\n"
    );
    assert_eq!(naming_lookup("example.i2p"), "NAMING LOOKUP NAME=example.i2p\n");
    assert_eq!(ping(""), "PING\n");
}

#[test]
fn protocol_constants() {
    assert_eq!(SAM_VERSION_MIN, "3.0");
    assert_eq!(SAM_VERSION_MAX, "3.3");
    assert_eq!(SAM_UDP_PORT, 7655);
    assert_eq!(sam3::DEFAULT_SIGNATURE_TYPE, "7");
}
